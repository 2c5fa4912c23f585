//! The register file: eight byte registers that pair up into four shorts,
//! the stack pointer, the program counter, and the accumulator arithmetic
//! with its flags.

use vstd::prelude::*;
use super::utils::{wrap8, wrap16, wrapping_inc_16, wrapping_dec_16};

verus! {

/// The short whose high byte is `hi` and whose low byte is `lo`.
pub open spec fn pair(hi: u8, lo: u8) -> u16 {
    ((hi as u16) << 8) | (lo as u16)
}

/// The high byte of a short.
pub open spec fn high(v: u16) -> u8 {
    (v >> 8) as u8
}

/// The low byte of a short.
pub open spec fn low(v: u16) -> u8 {
    (v & 0xFF) as u8
}

/// The value of F that holds exactly the four given flags.
pub open spec fn pack_flags(z: bool, n: bool, h: bool, c: bool) -> u8 {
    (if z { 0x80u8 } else { 0u8 }) | (if n { 0x40u8 } else { 0u8 }) | (if h { 0x20u8 } else { 0u8 })
        | (if c { 0x10u8 } else { 0u8 })
}

/// Whether adding `d` to `b` carries out of the low nibble.
pub open spec fn half_carry(b: u8, d: u8) -> bool {
    (((b & 0x0F) + (d & 0x0F)) as u8) & 0x10 != 0
}

/// Whether subtracting `d` from `b` borrows into the low nibble.
pub open spec fn half_borrow(b: u8, d: u8) -> bool {
    (((!b & 0x0F) + (d & 0x0F)) as u8) & 0x10 != 0
}

/// Whether adding `d` and a carry-in `c` (0 or 1) to `b` carries out of the low nibble.
pub open spec fn half_carry_with(b: u8, d: u8, c: u8) -> bool {
    (((b & 0x0F) + (d & 0x0F) + c) as u8) & 0x10 != 0
}

/// Whether subtracting `d` and a borrow-in `c` (0 or 1) from `b` borrows into the low nibble.
pub open spec fn half_borrow_with(b: u8, d: u8, c: u8) -> bool {
    (((!b & 0x0F) + (d & 0x0F) + c) as u8) & 0x10 != 0
}

/// Whether adding two shorts carries out of bit 11.
pub open spec fn half_carry_16(b: u16, d: u16) -> bool {
    (((b & 0x0FFF) + (d & 0x0FFF)) as u16) & 0x1000 != 0
}

/// A byte rotated left by one bit.
pub open spec fn rot_left_8(x: u8) -> u8 {
    (x << 1) | (x >> 7)
}

/// A byte rotated right by one bit.
pub open spec fn rot_right_8(x: u8) -> u8 {
    (x >> 1) | (x << 7)
}

/// A byte with its two nibbles exchanged.
pub open spec fn swap_nibbles(x: u8) -> u8 {
    (x << 4) | (x >> 4)
}

/// The four flags read back from a packed F are the flags that were packed,
/// and the low nibble of a packed F is zero.
pub proof fn lemma_pack_flags(z: bool, n: bool, h: bool, c: bool)
    by (bit_vector)
    ensures
        (pack_flags(z, n, h, c) & 0x80 != 0) == z,
        (pack_flags(z, n, h, c) & 0x40 != 0) == n,
        (pack_flags(z, n, h, c) & 0x20 != 0) == h,
        (pack_flags(z, n, h, c) & 0x10 != 0) == c,
        pack_flags(z, n, h, c) & 0x0F == 0,
        pack_flags(z, n, h, c) & 0xF0 == pack_flags(z, n, h, c),
{
}

/// A byte whose low nibble is zero is the packed form of its own four flags.
pub proof fn law_f_is_its_flags(f: u8)
    by (bit_vector)
    requires
        f & 0x0F == 0,
    ensures
        pack_flags(f & 0x80 != 0, f & 0x40 != 0, f & 0x20 != 0, f & 0x10 != 0) == f,
{
}

/// Splitting a short into bytes and pairing them again changes nothing, in
/// either order; a pair is `256 * hi + lo`.
pub proof fn lemma_pair_split(hi: u8, lo: u8, v: u16)
    by (bit_vector)
    ensures
        high(pair(hi, lo)) == hi,
        low(pair(hi, lo)) == lo,
        pair(high(v), low(v)) == v,
        pair(hi, lo) == 256 * hi + lo,
        high(v) == v / 256,
        low(v) == v % 256,
{
}

/// The half-carry and half-borrow predicates in terms of nibble sums.
pub proof fn lemma_half_carry_arith(b: u8, d: u8, c: u8)
    by (bit_vector)
    requires
        c <= 1,
    ensures
        half_carry(b, d) == ((b % 16) + (d % 16) > 15),
        half_borrow(b, d) == ((b % 16) < (d % 16)),
        half_carry_with(b, d, c) == ((b % 16) + (d % 16) + c > 15),
        half_borrow_with(b, d, c) == ((b % 16) < (d % 16) + c),
        half_carry_with(b, d, 0) == half_carry(b, d),
        half_borrow_with(b, d, 0) == half_borrow(b, d),
{
}

/// An 8-bit register.
#[derive(Copy, Clone, Debug, PartialEq, Eq)]
pub struct Reg8(pub u8);

/// A 16-bit register.
#[derive(Copy, Clone, Debug, PartialEq, Eq)]
pub struct Reg16(pub u16);

/// The accumulator taken on its own.
#[derive(Copy, Clone, Debug, PartialEq, Eq)]
pub struct Accumulator(pub u8);

/// A register that can be loaded with a value of its size.
pub trait Register<Size> {
    /// What the register holds.
    spec fn value(&self) -> Size;

    /// Replaces what the register holds.
    fn load(&mut self, data: Size)
        ensures
            final(self).value() == data,
    ;
}

impl Register<u8> for Accumulator {
    open spec fn value(&self) -> u8 {
        self.0
    }

    fn load(&mut self, data: u8) {
        self.0 = data;
    }
}

impl Register<u8> for Reg8 {
    open spec fn value(&self) -> u8 {
        self.0
    }

    fn load(&mut self, data: u8) {
        self.0 = data;
    }
}

impl Register<u16> for Reg16 {
    open spec fn value(&self) -> u16 {
        self.0
    }

    fn load(&mut self, data: u16) {
        self.0 = data;
    }
}

impl Reg8 {
    /// Replaces the byte held.
    pub fn load(&mut self, data: u8)
        ensures
            final(self).0 == data,
    {
        self.0 = data;
    }

    /// Bit `n` of the register, as 0 or 1.
    pub fn bit(&self, n: u8) -> (r: u8)
        requires
            n < 8,
        ensures
            r == (self.0 >> n) & 1,
    {
        let x = self.0;
        assert((x & (1u8 << n)) >> n == (x >> n) & 1) by (bit_vector)
            requires
                n < 8,
        ;
        (self.0 & (1u8 << n)) >> n
    }

    /// Clears bit `n`.
    pub fn reset(&mut self, n: u8)
        requires
            n < 8,
        ensures
            final(self).0 == old(self).0 & !(1u8 << n),
    {
        self.0 = self.0 & !(1u8 << n);
    }

    /// Sets bit `n`.
    pub fn set(&mut self, n: u8)
        requires
            n < 8,
        ensures
            final(self).0 == old(self).0 | (1u8 << n),
    {
        self.0 = self.0 | (1u8 << n);
    }

    /// Exchanges the two nibbles.
    pub fn swap(&mut self)
        ensures
            final(self).0 == swap_nibbles(old(self).0),
    {
        self.0 = (self.0 << 4) | (self.0 >> 4);
    }

    /// Rotates the byte left by one bit; bit 7 comes back in as bit 0.
    pub fn rot_left(&mut self)
        ensures
            final(self).0 == rot_left_8(old(self).0),
    {
        self.0 = (self.0 << 1) | (self.0 >> 7);
    }

    /// Rotates the byte right by one bit; bit 0 comes back in as bit 7.
    pub fn rot_right(&mut self)
        ensures
            final(self).0 == rot_right_8(old(self).0),
    {
        self.0 = (self.0 >> 1) | (self.0 << 7);
    }
}

/// The register file. A, F, B, C, D, E, H and L are bytes; AF, BC, DE and
/// HL read them in pairs, the first letter being the high byte. F holds the
/// flags Z, N, H and C in bits 7 to 4.
#[derive(Copy, Clone, Debug, PartialEq, Eq)]
pub struct Registers {
    pub a: Reg8,
    pub f: Reg8,
    pub b: Reg8,
    pub c: Reg8,
    pub d: Reg8,
    pub e: Reg8,
    pub h: Reg8,
    pub l: Reg8,
    pub sp: u16,
    pub pc: u16,
}

impl Registers {
    /// The low nibble of F is zero.
    pub open spec fn wf(self) -> bool {
        self.f.0 & 0x0F == 0
    }

    /// The Z flag: bit 7 of F.
    pub open spec fn spec_zero(&self) -> bool {
        self.f.0 & 0x80 != 0
    }

    /// The N flag: bit 6 of F.
    pub open spec fn spec_neg(&self) -> bool {
        self.f.0 & 0x40 != 0
    }

    /// The H flag: bit 5 of F.
    pub open spec fn spec_half_carry(&self) -> bool {
        self.f.0 & 0x20 != 0
    }

    /// The C flag: bit 4 of F.
    pub open spec fn spec_carry(&self) -> bool {
        self.f.0 & 0x10 != 0
    }

    /// The C flag, as 0 or 1.
    pub open spec fn spec_carry_bit(&self) -> u8 {
        if self.spec_carry() {
            1
        } else {
            0
        }
    }

    /// AF: A is the high byte and F the low byte.
    pub open spec fn spec_get_af(&self) -> u16 {
        pair(self.a.0, self.f.0)
    }

    /// BC: B is the high byte and C the low byte.
    pub open spec fn spec_get_bc(&self) -> u16 {
        pair(self.b.0, self.c.0)
    }

    /// DE: D is the high byte and E the low byte.
    pub open spec fn spec_get_de(&self) -> u16 {
        pair(self.d.0, self.e.0)
    }

    /// HL: H is the high byte and L the low byte.
    pub open spec fn spec_get_hl(&self) -> u16 {
        pair(self.h.0, self.l.0)
    }

    /// The register file with AF replaced. The low nibble of F stays zero.
    pub open spec fn with_af(self, v: u16) -> Registers {
        Registers { a: Reg8(high(v)), f: Reg8(low(v) & 0xF0), ..self }
    }

    /// The register file with BC replaced.
    pub open spec fn with_bc(self, v: u16) -> Registers {
        Registers { b: Reg8(high(v)), c: Reg8(low(v)), ..self }
    }

    /// The register file with DE replaced.
    pub open spec fn with_de(self, v: u16) -> Registers {
        Registers { d: Reg8(high(v)), e: Reg8(low(v)), ..self }
    }

    /// The register file with HL replaced.
    pub open spec fn with_hl(self, v: u16) -> Registers {
        Registers { h: Reg8(high(v)), l: Reg8(low(v)), ..self }
    }

    /// INC BC: BC becomes BC + 1 modulo 65536. No flag changes.
    pub open spec fn after_inc_bc(self) -> Registers {
        self.with_bc(wrap16(self.spec_get_bc() + 1))
    }

    /// DEC BC: BC becomes BC - 1 modulo 65536. No flag changes.
    pub open spec fn after_dec_bc(self) -> Registers {
        self.with_bc(wrap16(self.spec_get_bc() - 1))
    }

    /// INC DE. No flag changes.
    pub open spec fn after_inc_de(self) -> Registers {
        self.with_de(wrap16(self.spec_get_de() + 1))
    }

    /// DEC DE. No flag changes.
    pub open spec fn after_dec_de(self) -> Registers {
        self.with_de(wrap16(self.spec_get_de() - 1))
    }

    /// INC HL. No flag changes.
    pub open spec fn after_inc_hl(self) -> Registers {
        self.with_hl(wrap16(self.spec_get_hl() + 1))
    }

    /// DEC HL. No flag changes.
    pub open spec fn after_dec_hl(self) -> Registers {
        self.with_hl(wrap16(self.spec_get_hl() - 1))
    }

    /// The register file with the accumulator replaced.
    pub open spec fn with_a(self, v: u8) -> Registers {
        Registers { a: Reg8(v), ..self }
    }

    /// The register file with F holding exactly the given flags.
    pub open spec fn with_flags(self, z: bool, n: bool, h: bool, c: bool) -> Registers {
        Registers { f: Reg8(pack_flags(z, n, h, c)), ..self }
    }

    /// The register file after `set_flags`: a flag given as `Some` takes
    /// that value, a flag given as `None` keeps its own.
    pub open spec fn with_some_flags(
        self,
        z: Option<bool>,
        n: Option<bool>,
        h: Option<bool>,
        c: Option<bool>,
    ) -> Registers {
        self.with_flags(
            if let Some(b) = z { b } else { self.spec_zero() },
            if let Some(b) = n { b } else { self.spec_neg() },
            if let Some(b) = h { b } else { self.spec_half_carry() },
            if let Some(b) = c { b } else { self.spec_carry() },
        )
    }

    /// ADD: A becomes A + d modulo 256.
    pub open spec fn after_add(self, d: u8) -> Registers {
        let r = wrap8(self.a.0 + d);
        self.with_a(r).with_flags(r == 0, false, half_carry(self.a.0, d), self.a.0 + d > 0xFF)
    }

    /// ADC: A becomes A + d + C modulo 256.
    pub open spec fn after_adc(self, d: u8) -> Registers {
        let c = self.spec_carry_bit();
        let r = wrap8(self.a.0 + d + c);
        self.with_a(r).with_flags(
            r == 0,
            false,
            half_carry_with(self.a.0, d, c),
            self.a.0 + d + c > 0xFF,
        )
    }

    /// SUB: A becomes A - d modulo 256.
    pub open spec fn after_sub(self, d: u8) -> Registers {
        let r = wrap8(self.a.0 - d);
        self.with_a(r).with_flags(r == 0, true, half_borrow(self.a.0, d), self.a.0 < d)
    }

    /// SBC: A becomes A - d - C modulo 256.
    pub open spec fn after_sbc(self, d: u8) -> Registers {
        let c = self.spec_carry_bit();
        let r = wrap8(self.a.0 - d - c);
        self.with_a(r).with_flags(
            r == 0,
            true,
            half_borrow_with(self.a.0, d, c),
            self.a.0 < d + c,
        )
    }

    /// AND.
    pub open spec fn after_and(self, d: u8) -> Registers {
        let r = self.a.0 & d;
        self.with_a(r).with_flags(r == 0, false, true, false)
    }

    /// XOR.
    pub open spec fn after_xor(self, d: u8) -> Registers {
        let r = self.a.0 ^ d;
        self.with_a(r).with_flags(r == 0, false, false, false)
    }

    /// OR.
    pub open spec fn after_or(self, d: u8) -> Registers {
        let r = self.a.0 | d;
        self.with_a(r).with_flags(r == 0, false, false, false)
    }

    /// CP: the flags of SUB, with A left as it was.
    pub open spec fn after_cp(self, d: u8) -> Registers {
        self.with_flags(wrap8(self.a.0 - d) == 0, true, half_borrow(self.a.0, d), self.a.0 < d)
    }

    /// ADD HL: HL becomes HL + d modulo 65536; Z is kept.
    pub open spec fn after_add_hl(self, d: u16) -> Registers {
        let hl = self.spec_get_hl();
        self.with_hl(wrap16(hl + d)).with_flags(
            self.spec_zero(),
            false,
            half_carry_16(hl, d),
            hl + d > 0xFFFF,
        )
    }

    /// DAA: turns the result of the last addition or subtraction of two
    /// packed decimals into a packed decimal.
    pub open spec fn after_daa(self) -> Registers {
        let a0 = self.a.0;
        if !self.spec_neg() {
            let high_fix = self.spec_carry() || a0 > 0x99;
            let a1 = if high_fix { wrap8(a0 + 0x60) } else { a0 };
            let low_fix = self.spec_half_carry() || (a1 & 0x0F) > 0x09;
            let a2 = if low_fix { wrap8(a1 + 0x06) } else { a1 };
            self.with_a(a2).with_flags(a2 == 0, false, false, high_fix)
        } else {
            let a1 = if self.spec_carry() { wrap8(a0 - 0x60) } else { a0 };
            let a2 = if self.spec_half_carry() { wrap8(a1 - 0x06) } else { a1 };
            self.with_a(a2).with_flags(a2 == 0, true, false, self.spec_carry())
        }
    }

    /// CPL: every bit of A is inverted.
    pub open spec fn after_cpl(self) -> Registers {
        self.with_a(!self.a.0).with_flags(self.spec_zero(), true, true, self.spec_carry())
    }

    /// RLCA: A is rotated left; C receives the bit that left bit 7.
    pub open spec fn after_rlca(self) -> Registers {
        self.with_a(rot_left_8(self.a.0)).with_flags(false, false, false, self.a.0 & 0x80 != 0)
    }

    /// RLA: A is rotated left through the carry.
    pub open spec fn after_rla(self) -> Registers {
        self.with_a((self.a.0 << 1) | self.spec_carry_bit()).with_flags(
            false,
            false,
            false,
            self.a.0 & 0x80 != 0,
        )
    }

    /// RRCA: A is rotated right; C receives the bit that left bit 0.
    pub open spec fn after_rrca(self) -> Registers {
        self.with_a(rot_right_8(self.a.0)).with_flags(false, false, false, self.a.0 & 0x01 != 0)
    }

    /// RRA: A is rotated right through the carry.
    pub open spec fn after_rra(self) -> Registers {
        self.with_a((self.a.0 >> 1) | (self.spec_carry_bit() << 7)).with_flags(
            false,
            false,
            false,
            self.a.0 & 0x01 != 0,
        )
    }

    /// The register file with every register zero.
    pub open spec fn init_value() -> Registers {
        Registers {
            a: Reg8(0),
            f: Reg8(0),
            b: Reg8(0),
            c: Reg8(0),
            d: Reg8(0),
            e: Reg8(0),
            h: Reg8(0),
            l: Reg8(0),
            sp: 0,
            pc: 0,
        }
    }

    /// Every register zero.
    pub fn init() -> (r: Registers)
        ensures
            r == Registers::init_value(),
            r.wf(),
    {
        assert(0u8 & 0x0F == 0) by (bit_vector);
        Registers {
            a: Reg8(0),
            f: Reg8(0),
            b: Reg8(0),
            c: Reg8(0),
            d: Reg8(0),
            e: Reg8(0),
            h: Reg8(0),
            l: Reg8(0),
            sp: 0,
            pc: 0,
        }
    }

    /// BC: B is the high byte and C the low byte.
    #[verifier::when_used_as_spec(spec_get_bc)]
    pub fn get_bc(&self) -> (r: u16)
        ensures
            r == self.spec_get_bc(),
            r == (self.b.0 as u16) << 8 | self.c.0 as u16,
    {
        ((self.b.0 as u16) << 8) | (self.c.0 as u16)
    }

    /// Writes BC: B takes the high byte and C the low byte.
    pub fn set_bc(&mut self, val: u16)
        ensures
            *final(self) == old(self).with_bc(val),
            final(self).b.0 == (val >> 8) as u8,
            final(self).c.0 == (val & 0xFF) as u8,
    {
        self.b.0 = (val >> 8) as u8;
        self.c.0 = (val & 0xFF) as u8;
    }

    /// Replaces BC by what `f` makes of it.
    pub fn do_bc<F: FnOnce(u16) -> u16>(&mut self, f: F)
        requires
            call_requires(f, (old(self).spec_get_bc(),)),
        ensures
            call_ensures(f, (old(self).spec_get_bc(),), final(self).spec_get_bc()),
            *final(self) == old(self).with_bc(final(self).spec_get_bc()),
    {
        let bc = self.get_bc();
        let v = f(bc);
        self.set_bc(v);
        proof {
            lemma_pair_split(0, 0, v);
        }
    }

    /// INC BC: BC goes up by one modulo 65536. No flag changes.
    pub fn inc_bc(&mut self)
        ensures
            *final(self) == old(self).after_inc_bc(),
    {
        self.do_bc(wrapping_inc_16);
    }

    /// DEC BC: BC goes down by one modulo 65536. No flag changes.
    pub fn dec_bc(&mut self)
        ensures
            *final(self) == old(self).after_dec_bc(),
    {
        self.do_bc(wrapping_dec_16);
    }

    /// DE: D is the high byte and E the low byte.
    #[verifier::when_used_as_spec(spec_get_de)]
    pub fn get_de(&self) -> (r: u16)
        ensures
            r == self.spec_get_de(),
            r == (self.d.0 as u16) << 8 | self.e.0 as u16,
    {
        ((self.d.0 as u16) << 8) | (self.e.0 as u16)
    }

    /// Writes DE: D takes the high byte and E the low byte.
    pub fn set_de(&mut self, val: u16)
        ensures
            *final(self) == old(self).with_de(val),
            final(self).d.0 == (val >> 8) as u8,
            final(self).e.0 == (val & 0xFF) as u8,
    {
        self.d.0 = (val >> 8) as u8;
        self.e.0 = (val & 0xFF) as u8;
    }

    /// Replaces DE by what `f` makes of it.
    pub fn do_de<F: FnOnce(u16) -> u16>(&mut self, f: F)
        requires
            call_requires(f, (old(self).spec_get_de(),)),
        ensures
            call_ensures(f, (old(self).spec_get_de(),), final(self).spec_get_de()),
            *final(self) == old(self).with_de(final(self).spec_get_de()),
    {
        let de = self.get_de();
        let v = f(de);
        self.set_de(v);
        proof {
            lemma_pair_split(0, 0, v);
        }
    }

    /// INC DE: DE goes up by one modulo 65536. No flag changes.
    pub fn inc_de(&mut self)
        ensures
            *final(self) == old(self).after_inc_de(),
    {
        self.do_de(wrapping_inc_16);
    }

    /// DEC DE: DE goes down by one modulo 65536. No flag changes.
    pub fn dec_de(&mut self)
        ensures
            *final(self) == old(self).after_dec_de(),
    {
        self.do_de(wrapping_dec_16);
    }

    /// HL: H is the high byte and L the low byte.
    #[verifier::when_used_as_spec(spec_get_hl)]
    pub fn get_hl(&self) -> (r: u16)
        ensures
            r == self.spec_get_hl(),
            r == (self.h.0 as u16) << 8 | self.l.0 as u16,
    {
        ((self.h.0 as u16) << 8) | (self.l.0 as u16)
    }

    /// Writes HL: H takes the high byte and L the low byte.
    pub fn set_hl(&mut self, val: u16)
        ensures
            *final(self) == old(self).with_hl(val),
            final(self).h.0 == (val >> 8) as u8,
            final(self).l.0 == (val & 0xFF) as u8,
    {
        self.h.0 = (val >> 8) as u8;
        self.l.0 = (val & 0xFF) as u8;
    }

    /// Replaces HL by what `f` makes of it.
    pub fn do_hl<F: FnOnce(u16) -> u16>(&mut self, f: F)
        requires
            call_requires(f, (old(self).spec_get_hl(),)),
        ensures
            call_ensures(f, (old(self).spec_get_hl(),), final(self).spec_get_hl()),
            *final(self) == old(self).with_hl(final(self).spec_get_hl()),
    {
        let hl = self.get_hl();
        let v = f(hl);
        self.set_hl(v);
        proof {
            lemma_pair_split(0, 0, v);
        }
    }

    /// INC HL: HL goes up by one modulo 65536. No flag changes.
    pub fn inc_hl(&mut self)
        ensures
            *final(self) == old(self).after_inc_hl(),
    {
        self.do_hl(wrapping_inc_16);
    }

    /// DEC HL: HL goes down by one modulo 65536. No flag changes.
    pub fn dec_hl(&mut self)
        ensures
            *final(self) == old(self).after_dec_hl(),
    {
        self.do_hl(wrapping_dec_16);
    }

    /// ADD HL: adds a short to HL and records the carries out of bit 11
    /// and bit 15; Z is kept and N is cleared.
    pub fn add_hl(&mut self, data: u16)
        ensures
            *final(self) == old(self).after_add_hl(data),
            final(self).wf(),
    {
        let hl = self.get_hl();
        let sum = hl.wrapping_add(data);
        assert((hl & 0x0FFF) + (data & 0x0FFF) <= 0x1FFE) by (bit_vector);
        let half = ((hl & 0x0FFF) + (data & 0x0FFF)) & 0x1000 != 0;
        let carry = sum < hl;
        let z = self.zero();
        self.set_hl(sum);
        self.set_flags(Some(z), Some(false), Some(half), Some(carry));
    }

    /// AF: A is the high byte and F the low byte.
    #[verifier::when_used_as_spec(spec_get_af)]
    pub fn get_af(&self) -> (r: u16)
        ensures
            r == self.spec_get_af(),
            r == (self.a.0 as u16) << 8 | self.f.0 as u16,
    {
        ((self.a.0 as u16) << 8) | (self.f.0 as u16)
    }

    /// Replaces AF. The low nibble of F cannot hold anything, so the low
    /// nibble of `val` is dropped.
    pub fn set_af(&mut self, val: u16)
        ensures
            *final(self) == old(self).with_af(val),
            final(self).a.0 == (val >> 8) as u8,
            final(self).f.0 == (val & 0xF0) as u8,
            final(self).wf(),
    {
        self.a.0 = (val >> 8) as u8;
        self.f.0 = ((val & 0xFF) as u8) & 0xF0;
        assert((((val & 0xFF) as u8) & 0xF0) & 0x0F == 0 && ((val & 0xFF) as u8) & 0xF0 == (val
            & 0xF0) as u8) by (bit_vector);
    }

    /// ADD: adds `data` to A modulo 256. Z follows the result, N is cleared,
    /// H and C take the carries out of bit 3 and bit 7.
    pub fn add(&mut self, data: u8)
        ensures
            *final(self) == old(self).after_add(data),
            final(self).wf(),
    {
        let before = self.a.0;
        let after = before.wrapping_add(data);
        self.a.0 = after;
        self.set_flags(
            Some(after == 0),
            Some(false),
            Some(Self::half_carry_occurred(before, data)),
            Some(after < before),
        );
    }

    /// ADC: adds `data` and the carry to A modulo 256, with the flags of ADD.
    pub fn adc(&mut self, data: u8)
        ensures
            *final(self) == old(self).after_adc(data),
            final(self).wf(),
    {
        let before = self.a.0;
        let c = self.carry_bit();
        let sum: u16 = before as u16 + data as u16 + c as u16;
        let after = (sum & 0xFF) as u8;
        assert((sum & 0xFF) as u8 == (sum % 256) as u8) by (bit_vector);
        assert((before & 0x0F) + (data & 0x0F) + c <= 31) by (bit_vector)
            requires
                c <= 1,
        ;
        let half = ((before & 0x0F) + (data & 0x0F) + c) & 0x10 != 0;
        self.a.0 = after;
        self.set_flags(Some(after == 0), Some(false), Some(half), Some(sum > 0xFF));
    }

    /// SUB: subtracts `data` from A modulo 256. Z follows the result, N is
    /// set, H and C take the borrows into bit 3 and bit 7.
    pub fn sub(&mut self, data: u8)
        ensures
            *final(self) == old(self).after_sub(data),
            final(self).wf(),
    {
        let before = self.a.0;
        let after = before.wrapping_sub(data);
        self.a.0 = after;
        self.set_flags(
            Some(after == 0),
            Some(true),
            Some(Self::half_borrow_occurred(before, data)),
            Some(before < data),
        );
    }

    /// SBC: subtracts `data` and the carry from A modulo 256, with the flags
    /// of SUB.
    pub fn sbc(&mut self, data: u8)
        ensures
            *final(self) == old(self).after_sbc(data),
            final(self).wf(),
    {
        let before = self.a.0;
        let c = self.carry_bit();
        let take: u16 = data as u16 + c as u16;
        let after = before.wrapping_sub(data).wrapping_sub(c);
        assert((!before & 0x0F) + (data & 0x0F) + c <= 31) by (bit_vector)
            requires
                c <= 1,
        ;
        let half = ((!before & 0x0F) + (data & 0x0F) + c) & 0x10 != 0;
        self.a.0 = after;
        self.set_flags(Some(after == 0), Some(true), Some(half), Some((before as u16) < take));
    }

    /// AND: Z follows the result, H is set, N and C are cleared.
    pub fn and(&mut self, data: u8)
        ensures
            *final(self) == old(self).after_and(data),
            final(self).wf(),
    {
        self.a.0 = self.a.0 & data;
        self.set_flags(Some(self.a.0 == 0), Some(false), Some(true), Some(false));
    }

    /// XOR: Z follows the result, the other flags are cleared.
    pub fn xor(&mut self, data: u8)
        ensures
            *final(self) == old(self).after_xor(data),
            final(self).wf(),
    {
        self.a.0 = self.a.0 ^ data;
        self.set_flags(Some(self.a.0 == 0), Some(false), Some(false), Some(false));
    }

    /// OR: Z follows the result, the other flags are cleared.
    pub fn or(&mut self, data: u8)
        ensures
            *final(self) == old(self).after_or(data),
            final(self).wf(),
    {
        self.a.0 = self.a.0 | data;
        self.set_flags(Some(self.a.0 == 0), Some(false), Some(false), Some(false));
    }

    /// CP: the flags of SUB, with A left as it was.
    pub fn cp(&mut self, data: u8)
        ensures
            *final(self) == old(self).after_cp(data),
            final(self).wf(),
    {
        let before = self.a.0;
        let result = before.wrapping_sub(data);
        self.set_flags(
            Some(result == 0),
            Some(true),
            Some(Self::half_borrow_occurred(before, data)),
            Some(before < data),
        );
    }

    /// Decimal adjust. After an addition (N clear) 0x60 is added when C is
    /// set or A is above 0x99, and C is then set; 0x06 is added when H is
    /// set or the low nibble is above 9. After a subtraction (N set) 0x60 is
    /// subtracted when C is set and 0x06 when H is set. Z follows the new A,
    /// H is cleared, N is kept.
    pub fn daa(&mut self)
        ensures
            *final(self) == old(self).after_daa(),
            final(self).wf(),
    {
        let a0 = self.a.0;
        let h = self.half_carry();
        let c = self.carry();
        if !self.neg() {
            let high_fix = c || a0 > 0x99;
            let a1 = if high_fix { a0.wrapping_add(0x60) } else { a0 };
            let low_fix = h || (a1 & 0x0F) > 0x09;
            let a2 = if low_fix { a1.wrapping_add(0x06) } else { a1 };
            self.a.0 = a2;
            self.set_flags(Some(a2 == 0), Some(false), Some(false), Some(high_fix));
        } else {
            let a1 = if c { a0.wrapping_sub(0x60) } else { a0 };
            let a2 = if h { a1.wrapping_sub(0x06) } else { a1 };
            self.a.0 = a2;
            self.set_flags(Some(a2 == 0), Some(true), Some(false), Some(c));
        }
    }

    /// CPL: inverts every bit of A; N and H are set, Z and C are kept.
    pub fn cpl(&mut self)
        ensures
            *final(self) == old(self).after_cpl(),
            final(self).wf(),
    {
        self.a.0 = !self.a.0;
        self.set_flags(None, Some(true), Some(true), None);
    }

    /// RLCA: rotates A left; C takes the bit that left bit 7, the other flags
    /// are cleared.
    pub fn rlca(&mut self)
        ensures
            *final(self) == old(self).after_rlca(),
            final(self).wf(),
    {
        let out = self.a.0 & 0x80 != 0;
        self.a.rot_left();
        self.set_flags(Some(false), Some(false), Some(false), Some(out));
    }

    /// RLA: rotates A left through the carry; C takes the bit that left bit
    /// 7, the other flags are cleared.
    pub fn rla(&mut self)
        ensures
            *final(self) == old(self).after_rla(),
            final(self).wf(),
    {
        let out = self.a.0 & 0x80 != 0;
        let c = self.carry_bit();
        self.a.0 = (self.a.0 << 1) | c;
        self.set_flags(Some(false), Some(false), Some(false), Some(out));
    }

    /// RRCA: rotates A right; C takes the bit that left bit 0, the other
    /// flags are cleared.
    pub fn rrca(&mut self)
        ensures
            *final(self) == old(self).after_rrca(),
            final(self).wf(),
    {
        let out = self.a.0 & 0x01 != 0;
        self.a.rot_right();
        self.set_flags(Some(false), Some(false), Some(false), Some(out));
    }

    /// RRA: rotates A right through the carry; C takes the bit that left bit
    /// 0, the other flags are cleared.
    pub fn rra(&mut self)
        ensures
            *final(self) == old(self).after_rra(),
            final(self).wf(),
    {
        let out = self.a.0 & 0x01 != 0;
        let c = self.carry_bit();
        self.a.0 = (self.a.0 >> 1) | (c << 7);
        self.set_flags(Some(false), Some(false), Some(false), Some(out));
    }

    /// Writes the flags: a flag given as `Some` takes that value, a flag
    /// given as `None` keeps its own. The low nibble of F becomes zero.
    pub fn set_flags(&mut self, z: Option<bool>, n: Option<bool>, h: Option<bool>, c: Option<bool>)
        ensures
            *final(self) == old(self).with_some_flags(z, n, h, c),
            final(self).wf(),
            final(self).spec_zero() == (if let Some(b) = z { b } else { old(self).spec_zero() }),
            final(self).spec_neg() == (if let Some(b) = n { b } else { old(self).spec_neg() }),
            final(self).spec_half_carry() == (if let Some(b) = h { b } else { old(self).spec_half_carry() }),
            final(self).spec_carry() == (if let Some(b) = c { b } else { old(self).spec_carry() }),
    {
        let zf = if let Some(b) = z { b } else { self.zero() };
        let nf = if let Some(b) = n { b } else { self.neg() };
        let hf = if let Some(b) = h { b } else { self.half_carry() };
        let cf = if let Some(b) = c { b } else { self.carry() };
        proof {
            lemma_pack_flags(zf, nf, hf, cf);
        }
        self.f.0 = (if zf { 0x80u8 } else { 0u8 }) | (if nf { 0x40u8 } else { 0u8 }) | (if hf { 0x20u8 } else { 0u8 })
            | (if cf { 0x10u8 } else { 0u8 });
    }

    /// The Z flag.
    #[verifier::when_used_as_spec(spec_zero)]
    pub fn zero(&self) -> (r: bool)
        ensures
            r == self.spec_zero(),
    {
        self.f.0 & 0x80 != 0
    }

    /// The N flag.
    #[verifier::when_used_as_spec(spec_neg)]
    pub fn neg(&self) -> (r: bool)
        ensures
            r == self.spec_neg(),
    {
        self.f.0 & 0x40 != 0
    }

    /// The H flag.
    #[verifier::when_used_as_spec(spec_half_carry)]
    pub fn half_carry(&self) -> (r: bool)
        ensures
            r == self.spec_half_carry(),
    {
        self.f.0 & 0x20 != 0
    }

    /// The C flag, as 0 or 1.
    #[verifier::when_used_as_spec(spec_carry_bit)]
    pub fn carry_bit(&self) -> (r: u8)
        ensures
            r == self.spec_carry_bit(),
            r == (self.f.0 >> 4) & 1,
            r <= 1,
    {
        let f = self.f.0;
        assert(((f >> 4) & 1 == 1) == (f & 0x10 != 0) && ((f >> 4) & 1) <= 1) by (bit_vector);
        if self.f.0 & 0x10 != 0 {
            1
        } else {
            0
        }
    }

    /// The C flag.
    #[verifier::when_used_as_spec(spec_carry)]
    pub fn carry(&self) -> (r: bool)
        ensures
            r == self.spec_carry(),
    {
        self.carry_bit() == 1
    }

    /// Whether adding `a` to `b` carries from bit 3 into bit 4.
    pub fn half_carry_occurred(b: u8, a: u8) -> (r: bool)
        ensures
            r == half_carry(b, a),
            r == ((b % 16) + (a % 16) > 15),
    {
        proof {
            lemma_half_carry_arith(b, a, 0);
        }
        assert((b & 0x0F) + (a & 0x0F) <= 30) by (bit_vector);
        ((b & 0x0F) + (a & 0x0F)) & 0x10 != 0
    }

    /// Whether subtracting `a` from `b` borrows from bit 4 into bit 3.
    pub fn half_borrow_occurred(b: u8, a: u8) -> (r: bool)
        ensures
            r == half_borrow(b, a),
            r == ((b % 16) < (a % 16)),
    {
        proof {
            lemma_half_carry_arith(b, a, 0);
        }
        assert((!b & 0x0F) + (a & 0x0F) <= 30) by (bit_vector);
        ((!b & 0x0F) + (a & 0x0F)) & 0x10 != 0
    }
}

/// A pair reads as its high byte shifted up by eight bits, or-ed with its
/// low byte; writing a pair puts the high byte of the value in the first
/// register and its low byte in the second.
pub proof fn law_pairs_alias_their_bytes(r: Registers, v: u16)
    ensures
        r.spec_get_af() == ((r.a.0 as u16) << 8) | (r.f.0 as u16),
        r.spec_get_bc() == ((r.b.0 as u16) << 8) | (r.c.0 as u16),
        r.spec_get_de() == ((r.d.0 as u16) << 8) | (r.e.0 as u16),
        r.spec_get_hl() == ((r.h.0 as u16) << 8) | (r.l.0 as u16),
        r.with_bc(v).b.0 == (v >> 8) as u8 && r.with_bc(v).c.0 == (v & 0xFF) as u8,
        r.with_de(v).d.0 == (v >> 8) as u8 && r.with_de(v).e.0 == (v & 0xFF) as u8,
        r.with_hl(v).h.0 == (v >> 8) as u8 && r.with_hl(v).l.0 == (v & 0xFF) as u8,
        r.with_bc(v).spec_get_bc() == v,
        r.with_de(v).spec_get_de() == v,
        r.with_hl(v).spec_get_hl() == v,
{
    lemma_pair_split(0, 0, v);
}

/// Writing AF puts the high byte of the value in A and its low byte in F,
/// for every value whose low nibble is zero: F has no low nibble to hold
/// anything else.
pub proof fn law_af_aliases_its_bytes(r: Registers, v: u16)
    requires
        v & 0x0F == 0,
    ensures
        r.with_af(v).a.0 == (v >> 8) as u8,
        r.with_af(v).f.0 == (v & 0xFF) as u8,
        r.with_af(v).spec_get_af() == v,
{
    assert(((v & 0xFF) as u8) & 0xF0 == (v & 0xFF) as u8 && ((((v >> 8) as u8) as u16) << 8) | ((v
        & 0xFF) as u8 as u16) == v) by (bit_vector)
        requires
            v & 0x0F == 0,
    ;
}

/// Writing a pair with the value read from it changes nothing.
pub proof fn law_set_after_get(r: Registers)
    requires
        r.wf(),
    ensures
        r.with_af(r.spec_get_af()) == r,
        r.with_bc(r.spec_get_bc()) == r,
        r.with_de(r.spec_get_de()) == r,
        r.with_hl(r.spec_get_hl()) == r,
{
    lemma_pair_split(r.a.0, r.f.0, 0);
    lemma_pair_split(r.b.0, r.c.0, 0);
    lemma_pair_split(r.d.0, r.e.0, 0);
    lemma_pair_split(r.h.0, r.l.0, 0);
    let f = r.f.0;
    assert(f & 0xF0 == f) by (bit_vector)
        requires
            f & 0x0F == 0,
    ;
}

/// One up and one down again, or one down and one up again, is where a
/// short started, also when it is held as two bytes in between.
proof fn lemma_there_and_back(hi: u8, lo: u8)
    ensures
        ({
            let v = pair(hi, lo);
            let up = wrap16(v + 1);
            let down = wrap16(v - 1);
            &&& high(wrap16(pair(high(up), low(up)) - 1)) == hi
            &&& low(wrap16(pair(high(up), low(up)) - 1)) == lo
            &&& high(wrap16(pair(high(down), low(down)) + 1)) == hi
            &&& low(wrap16(pair(high(down), low(down)) + 1)) == lo
        }),
{
    let v = pair(hi, lo);
    let up = wrap16(v + 1);
    let down = wrap16(v - 1);
    assert(pair(high(up), low(up)) == up) by {
        lemma_pair_split(0, 0, up);
    }
    assert(pair(high(down), low(down)) == down) by {
        lemma_pair_split(0, 0, down);
    }
    assert(wrap16(up - 1) == v);
    assert(wrap16(down + 1) == v);
    assert(high(v) == hi && low(v) == lo) by {
        lemma_pair_split(hi, lo, 0);
    }
}

/// An increment of a pair followed by a decrement of it, or a decrement
/// followed by an increment, leaves every register as it was, the flags
/// among them.
pub proof fn law_inc_then_dec(r: Registers)
    ensures
        r.after_inc_bc().after_dec_bc() == r,
        r.after_dec_bc().after_inc_bc() == r,
        r.after_inc_de().after_dec_de() == r,
        r.after_dec_de().after_inc_de() == r,
        r.after_inc_hl().after_dec_hl() == r,
        r.after_dec_hl().after_inc_hl() == r,
        r.after_inc_bc().f == r.f,
        r.after_dec_bc().f == r.f,
{
    lemma_there_and_back(r.b.0, r.c.0);
    lemma_there_and_back(r.d.0, r.e.0);
    lemma_there_and_back(r.h.0, r.l.0);
}

/// Whatever flags are written, the low nibble of F is zero afterwards, and
/// each flag reads as it was written.
pub proof fn law_flags_live_in_the_high_nibble(r: Registers, z: bool, n: bool, h: bool, c: bool)
    ensures
        r.with_flags(z, n, h, c).f.0 & 0x0F == 0,
        r.with_flags(z, n, h, c).spec_zero() == z,
        r.with_flags(z, n, h, c).spec_neg() == n,
        r.with_flags(z, n, h, c).spec_half_carry() == h,
        r.with_flags(z, n, h, c).spec_carry() == c,
{
    lemma_pack_flags(z, n, h, c);
}

} // verus!
