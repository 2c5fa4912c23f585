//! The registers as ten plain numbers, with the accumulator arithmetic and
//! the arithmetic on pairs.

use vstd::prelude::*;
use crate::classic::registers::{half_borrow, half_carry, half_carry_16, Reg8};
use crate::classic::utils::wrap16;
use crate::text::{binary_text, hex_text, push_binary, push_hex, push_text};

verus! {

/// The registers A, B, C, D, E, F, H and L, the stack pointer and the
/// program counter.
#[derive(Copy, Clone, Debug, PartialEq, Eq)]
pub struct Registers {
    pub a: u8,
    pub b: u8,
    pub c: u8,
    pub d: u8,
    pub e: u8,
    pub f: u8,
    pub h: u8,
    pub l: u8,
    pub sp: u16,
    pub pc: u16,
}

impl View for Registers {
    type V = crate::classic::registers::Registers;

    /// The registers as a register file.
    open spec fn view(&self) -> crate::classic::registers::Registers {
        crate::classic::registers::Registers {
            a: Reg8(self.a),
            f: Reg8(self.f),
            b: Reg8(self.b),
            c: Reg8(self.c),
            d: Reg8(self.d),
            e: Reg8(self.e),
            h: Reg8(self.h),
            l: Reg8(self.l),
            sp: self.sp,
            pc: self.pc,
        }
    }
}

/// A flag given as a number: anything but zero sets it.
pub open spec fn flag_of(b: Option<u8>) -> Option<bool> {
    match b {
        Some(v) => Some(v != 0),
        None => None,
    }
}

/// The flags after an addition to a pair: Z is kept, N is cleared, H and C
/// take the carries out of bit 11 and bit 15 of `before + val`.
pub open spec fn with_pair_flags(
    r: crate::classic::registers::Registers,
    before: u16,
    val: u16,
) -> crate::classic::registers::Registers {
    r.with_some_flags(
        None,
        Some(false),
        Some(half_carry_16(before, val)),
        Some(before + val > 0xFFFF),
    )
}

/// The line that closes a row of two bytes in the dump in base 2.
pub open spec fn bin_rule() -> Seq<char> {
    "+---+----------+---+----------+\n"@
}

/// A row of two bytes in the dump in base 2.
pub open spec fn bin_row(first: char, x: u8, second: char, y: u8) -> Seq<char> {
    seq!['|', ' ', first, ' ', '|', ' '] + binary_text(x as nat, 8) + seq![
        ' ',
        '|',
        ' ',
        second,
        ' ',
        '|',
        ' ',
    ] + binary_text(y as nat, 8) + " |\n"@ + bin_rule()
}

/// The line that closes a row of two bytes in the dump in base 16.
pub open spec fn hex_rule() -> Seq<char> {
    "+---+-----+---+-----+\n"@
}

/// A row of two bytes in the dump in base 16.
pub open spec fn hex_row(first: char, x: u8, second: char, y: u8) -> Seq<char> {
    seq!['|', ' ', first, ' ', '|', ' ', '$'] + hex_text(x as nat, 2) + seq![
        ' ',
        '|',
        ' ',
        second,
        ' ',
        '|',
        ' ',
        '$',
    ] + hex_text(y as nat, 2) + " |\n"@ + hex_rule()
}

/// Sets the flags after an addition to a pair.
fn set_pair_flags(r: &mut crate::classic::registers::Registers, before: u16, val: u16)
    ensures
        *final(r) == with_pair_flags(*old(r), before, val),
{
    assert((before & 0x0FFF) + (val & 0x0FFF) <= 0x1FFE) by (bit_vector);
    let half = ((before & 0x0FFF) + (val & 0x0FFF)) & 0x1000 != 0;
    let carry = before.wrapping_add(val) < before;
    r.set_flags(None, Some(false), Some(half), Some(carry));
}

impl Registers {
    /// The registers when the console hands over to the cartridge: all
    /// zero, with the program counter at 0x0100.
    pub fn init() -> (r: Registers)
        ensures
            r@ == (crate::classic::registers::Registers {
                pc: 0x0100,
                ..crate::classic::registers::Registers::init_value()
            }),
    {
        Registers { a: 0, b: 0, c: 0, d: 0, e: 0, f: 0, h: 0, l: 0, sp: 0, pc: 0x100 }
    }

    /// The registers as a register file.
    fn file(&self) -> (r: crate::classic::registers::Registers)
        ensures
            r == self@,
    {
        crate::classic::registers::Registers {
            a: Reg8(self.a),
            f: Reg8(self.f),
            b: Reg8(self.b),
            c: Reg8(self.c),
            d: Reg8(self.d),
            e: Reg8(self.e),
            h: Reg8(self.h),
            l: Reg8(self.l),
            sp: self.sp,
            pc: self.pc,
        }
    }

    /// Takes the registers from a register file.
    fn set_file(&mut self, r: crate::classic::registers::Registers)
        ensures
            final(self)@ == r,
    {
        self.a = r.a.0;
        self.f = r.f.0;
        self.b = r.b.0;
        self.c = r.c.0;
        self.d = r.d.0;
        self.e = r.e.0;
        self.h = r.h.0;
        self.l = r.l.0;
        self.sp = r.sp;
        self.pc = r.pc;
    }

    /// ADD.
    pub fn add(&mut self, val: u8)
        ensures
            final(self)@ == old(self)@.after_add(val),
    {
        let mut r = self.file();
        r.add(val);
        self.set_file(r);
    }

    /// ADC: adds `val` and the carry.
    pub fn addc(&mut self, val: u8)
        ensures
            final(self)@ == old(self)@.after_adc(val),
    {
        let mut r = self.file();
        r.adc(val);
        self.set_file(r);
    }

    /// SUB.
    pub fn sub(&mut self, val: u8)
        ensures
            final(self)@ == old(self)@.after_sub(val),
    {
        let mut r = self.file();
        r.sub(val);
        self.set_file(r);
    }

    /// SBC: subtracts `val` and the carry.
    pub fn subc(&mut self, val: u8)
        ensures
            final(self)@ == old(self)@.after_sbc(val),
    {
        let mut r = self.file();
        r.sbc(val);
        self.set_file(r);
    }

    /// AND.
    pub fn and(&mut self, val: u8)
        ensures
            final(self)@ == old(self)@.after_and(val),
    {
        let mut r = self.file();
        r.and(val);
        self.set_file(r);
    }

    /// OR.
    pub fn or(&mut self, val: u8)
        ensures
            final(self)@ == old(self)@.after_or(val),
    {
        let mut r = self.file();
        r.or(val);
        self.set_file(r);
    }

    /// XOR.
    pub fn xor(&mut self, val: u8)
        ensures
            final(self)@ == old(self)@.after_xor(val),
    {
        let mut r = self.file();
        r.xor(val);
        self.set_file(r);
    }

    /// CP: the flags of a subtraction, with A left as it was.
    pub fn comp(&mut self, val: u8)
        ensures
            final(self)@ == old(self)@.after_cp(val),
    {
        let mut r = self.file();
        r.cp(val);
        self.set_file(r);
    }

    /// DAA.
    pub fn decimal_adjust(&mut self)
        ensures
            final(self)@ == old(self)@.after_daa(),
    {
        let mut r = self.file();
        r.daa();
        self.set_file(r);
    }

    /// AF: A is the high byte and F the low byte.
    pub fn get_af(&mut self) -> (r: u16)
        ensures
            r == old(self)@.spec_get_af(),
            *final(self) == *old(self),
    {
        ((self.a as u16) << 8) | (self.f as u16)
    }

    /// Writes AF. The low nibble of F holds nothing.
    pub fn set_af(&mut self, val: u16)
        ensures
            final(self)@ == old(self)@.with_af(val),
    {
        self.a = (val >> 8) as u8;
        self.f = ((val & 0xFF) as u8) & 0xF0;
    }

    /// Adds to AF modulo 65536 and sets N, H and C from the addition.
    pub fn add_to_af(&mut self, val: u16)
        ensures
            final(self)@ == with_pair_flags(
                old(self)@.with_af(wrap16(old(self)@.spec_get_af() + val)),
                old(self)@.spec_get_af(),
                val,
            ),
    {
        let before = self.get_af();
        let mut r = self.file();
        r.set_af(before.wrapping_add(val));
        set_pair_flags(&mut r, before, val);
        self.set_file(r);
    }

    /// Subtracts from AF modulo 65536.
    pub fn sub_from_af(&mut self, val: u16)
        ensures
            final(self)@ == old(self)@.with_af(wrap16(old(self)@.spec_get_af() - val)),
    {
        let before = self.get_af();
        self.set_af(before.wrapping_sub(val));
    }

    /// BC: B is the high byte and C the low byte.
    pub fn get_bc(&mut self) -> (r: u16)
        ensures
            r == old(self)@.spec_get_bc(),
            *final(self) == *old(self),
    {
        ((self.b as u16) << 8) | (self.c as u16)
    }

    /// Writes BC: B takes the high byte and C the low byte.
    pub fn set_bc(&mut self, val: u16)
        ensures
            final(self)@ == old(self)@.with_bc(val),
    {
        self.b = (val >> 8) as u8;
        self.c = (val & 0xFF) as u8;
    }

    /// Adds to BC modulo 65536 and sets N, H and C from the addition.
    pub fn add_to_bc(&mut self, val: u16)
        ensures
            final(self)@ == with_pair_flags(
                old(self)@.with_bc(wrap16(old(self)@.spec_get_bc() + val)),
                old(self)@.spec_get_bc(),
                val,
            ),
    {
        let before = self.get_bc();
        let mut r = self.file();
        r.set_bc(before.wrapping_add(val));
        set_pair_flags(&mut r, before, val);
        self.set_file(r);
    }

    /// Subtracts from BC modulo 65536.
    pub fn sub_from_bc(&mut self, val: u16)
        ensures
            final(self)@ == old(self)@.with_bc(wrap16(old(self)@.spec_get_bc() - val)),
    {
        let before = self.get_bc();
        self.set_bc(before.wrapping_sub(val));
    }

    /// DE: D is the high byte and E the low byte.
    pub fn get_de(&mut self) -> (r: u16)
        ensures
            r == old(self)@.spec_get_de(),
            *final(self) == *old(self),
    {
        ((self.d as u16) << 8) | (self.e as u16)
    }

    /// Writes DE: D takes the high byte and E the low byte.
    pub fn set_de(&mut self, val: u16)
        ensures
            final(self)@ == old(self)@.with_de(val),
    {
        self.d = (val >> 8) as u8;
        self.e = (val & 0xFF) as u8;
    }

    /// Adds to DE modulo 65536 and sets N, H and C from the addition.
    pub fn add_to_de(&mut self, val: u16)
        ensures
            final(self)@ == with_pair_flags(
                old(self)@.with_de(wrap16(old(self)@.spec_get_de() + val)),
                old(self)@.spec_get_de(),
                val,
            ),
    {
        let before = self.get_de();
        let mut r = self.file();
        r.set_de(before.wrapping_add(val));
        set_pair_flags(&mut r, before, val);
        self.set_file(r);
    }

    /// Subtracts from DE modulo 65536.
    pub fn sub_from_de(&mut self, val: u16)
        ensures
            final(self)@ == old(self)@.with_de(wrap16(old(self)@.spec_get_de() - val)),
    {
        let before = self.get_de();
        self.set_de(before.wrapping_sub(val));
    }

    /// HL: H is the high byte and L the low byte.
    pub fn get_hl(&mut self) -> (r: u16)
        ensures
            r == old(self)@.spec_get_hl(),
            *final(self) == *old(self),
    {
        ((self.h as u16) << 8) | (self.l as u16)
    }

    /// Writes HL: H takes the high byte and L the low byte.
    pub fn set_hl(&mut self, val: u16)
        ensures
            final(self)@ == old(self)@.with_hl(val),
    {
        self.h = (val >> 8) as u8;
        self.l = (val & 0xFF) as u8;
    }

    /// ADD HL: adds to HL modulo 65536; Z is kept, N is cleared, H and C
    /// take the carries out of bit 11 and bit 15.
    pub fn add_to_hl(&mut self, val: u16)
        ensures
            final(self)@ == old(self)@.after_add_hl(val),
            final(self)@ == with_pair_flags(
                old(self)@.with_hl(wrap16(old(self)@.spec_get_hl() + val)),
                old(self)@.spec_get_hl(),
                val,
            ),
    {
        let mut r = self.file();
        r.add_hl(val);
        self.set_file(r);
    }

    /// Subtracts from HL modulo 65536.
    pub fn sub_from_hl(&mut self, val: u16)
        ensures
            final(self)@ == old(self)@.with_hl(wrap16(old(self)@.spec_get_hl() - val)),
    {
        let before = self.get_hl();
        self.set_hl(before.wrapping_sub(val));
    }

    /// Writes the flags, each given as a number: nothing leaves a flag as
    /// it is, zero clears it, anything else sets it.
    pub fn set_flags(&mut self, z: Option<u8>, n: Option<u8>, h: Option<u8>, c: Option<u8>)
        ensures
            final(self)@ == old(self)@.with_some_flags(
                flag_of(z),
                flag_of(n),
                flag_of(h),
                flag_of(c),
            ),
    {
        let mut r = self.file();
        r.set_flags(
            match z {
                Some(v) => Some(v != 0),
                None => None,
            },
            match n {
                Some(v) => Some(v != 0),
                None => None,
            },
            match h {
                Some(v) => Some(v != 0),
                None => None,
            },
            match c {
                Some(v) => Some(v != 0),
                None => None,
            },
        );
        self.set_file(r);
    }

    /// The Z flag, as 0 or 1.
    pub fn get_zero(&mut self) -> (r: u8)
        ensures
            r == (if old(self)@.spec_zero() { 1u8 } else { 0u8 }),
            *final(self) == *old(self),
    {
        if self.f & 0x80 != 0 {
            1
        } else {
            0
        }
    }

    /// The N flag, as 0 or 1.
    pub fn get_subtract(&mut self) -> (r: u8)
        ensures
            r == (if old(self)@.spec_neg() { 1u8 } else { 0u8 }),
            *final(self) == *old(self),
    {
        if self.f & 0x40 != 0 {
            1
        } else {
            0
        }
    }

    /// The H flag, as 0 or 1.
    pub fn get_half_carry(&mut self) -> (r: u8)
        ensures
            r == (if old(self)@.spec_half_carry() { 1u8 } else { 0u8 }),
            *final(self) == *old(self),
    {
        if self.f & 0x20 != 0 {
            1
        } else {
            0
        }
    }

    /// Whether adding `a` to `b` carries from bit 3 into bit 4.
    pub fn half_carry_occurred(b: u8, a: u8) -> (r: bool)
        ensures
            r == half_carry(b, a),
    {
        crate::classic::registers::Registers::half_carry_occurred(b, a)
    }

    /// Whether subtracting `a` from `b` borrows from bit 4 into bit 3.
    pub fn half_borrow_occurred(b: u8, a: u8) -> (r: bool)
        ensures
            r == half_borrow(b, a),
    {
        crate::classic::registers::Registers::half_borrow_occurred(b, a)
    }

    /// The C flag, as 0 or 1.
    pub fn get_carry(&mut self) -> (r: u8)
        ensures
            r == old(self)@.spec_carry_bit(),
            *final(self) == *old(self),
    {
        if self.f & 0x10 != 0 {
            1
        } else {
            0
        }
    }

    /// What `dump_bin` writes.
    pub open spec fn bin_text(&self) -> Seq<char> {
        "+--------------+--------------+\n|    15 - 8    |     7 - 0    |\n"@ + bin_rule() + bin_row(
            'A',
            self.a,
            'F',
            self.f,
        ) + bin_row('B', self.b, 'C', self.c) + bin_row('D', self.d, 'E', self.e) + bin_row(
            'H',
            self.h,
            'L',
            self.l,
        ) + "\n+----+---------+--------------+\n| SP |    "@ + binary_text(self.sp as nat, 16)
            + "    |\n+----+---------+--------------+\n| PC |    "@ + binary_text(
            self.pc as nat,
            16,
        ) + "    |\n+----+---------+--------------+"@
    }

    /// What `dump_hex` writes.
    pub open spec fn hex_dump_text(&self) -> Seq<char> {
        "+---------+---------+\n| 15 - 8  |  7 - 0  |\n"@ + hex_rule() + hex_row(
            'A',
            self.a,
            'F',
            self.f,
        ) + hex_row('B', self.b, 'C', self.c) + hex_row('D', self.d, 'E', self.e) + hex_row(
            'H',
            self.h,
            'L',
            self.l,
        ) + "\n+----+--------------+\n| SP |    $"@ + hex_text(self.sp as nat, 4)
            + "     |\n+----+--------------+\n| PC |    $"@ + hex_text(self.pc as nat, 4)
            + "     |\n+----+--------------+"@
    }

    /// The registers as a table, each in base 2.
    pub fn dump_bin(&mut self) -> (text: String)
        ensures
            text@ == old(self).bin_text(),
            *final(self) == *old(self),
    {
        let mut s = String::from_str(
            "+--------------+--------------+\n|    15 - 8    |     7 - 0    |\n",
        );
        push_text(&mut s, "+---+----------+---+----------+\n");
        push_bin_row(&mut s, 'A', self.a, 'F', self.f);
        push_bin_row(&mut s, 'B', self.b, 'C', self.c);
        push_bin_row(&mut s, 'D', self.d, 'E', self.e);
        push_bin_row(&mut s, 'H', self.h, 'L', self.l);
        push_text(&mut s, "\n+----+---------+--------------+\n| SP |    ");
        push_binary(&mut s, self.sp as usize, 16);
        push_text(&mut s, "    |\n+----+---------+--------------+\n| PC |    ");
        push_binary(&mut s, self.pc as usize, 16);
        push_text(&mut s, "    |\n+----+---------+--------------+");
        assert(s@ =~= self.bin_text());
        s
    }

    /// The registers as a table, each in base 16.
    pub fn dump_hex(&mut self) -> (text: String)
        ensures
            text@ == old(self).hex_dump_text(),
            *final(self) == *old(self),
    {
        let mut s = String::from_str("+---------+---------+\n| 15 - 8  |  7 - 0  |\n");
        push_text(&mut s, "+---+-----+---+-----+\n");
        push_hex_row(&mut s, 'A', self.a, 'F', self.f);
        push_hex_row(&mut s, 'B', self.b, 'C', self.c);
        push_hex_row(&mut s, 'D', self.d, 'E', self.e);
        push_hex_row(&mut s, 'H', self.h, 'L', self.l);
        push_text(&mut s, "\n+----+--------------+\n| SP |    $");
        push_hex(&mut s, self.sp as usize, 4);
        push_text(&mut s, "     |\n+----+--------------+\n| PC |    $");
        push_hex(&mut s, self.pc as usize, 4);
        push_text(&mut s, "     |\n+----+--------------+");
        assert(s@ =~= self.hex_dump_text());
        s
    }
}

/// Appends a row of two bytes in base 2.
fn push_bin_row(s: &mut String, first: char, x: u8, second: char, y: u8)
    ensures
        final(s)@ == old(s)@ + bin_row(first, x, second, y),
{
    s.push('|');
    s.push(' ');
    s.push(first);
    s.push(' ');
    s.push('|');
    s.push(' ');
    push_binary(s, x as usize, 8);
    s.push(' ');
    s.push('|');
    s.push(' ');
    s.push(second);
    s.push(' ');
    s.push('|');
    s.push(' ');
    push_binary(s, y as usize, 8);
    push_text(s, " |\n");
    push_text(s, "+---+----------+---+----------+\n");
    assert(s@ =~= old(s)@ + bin_row(first, x, second, y));
}

/// Appends a row of two bytes in base 16.
fn push_hex_row(s: &mut String, first: char, x: u8, second: char, y: u8)
    ensures
        final(s)@ == old(s)@ + hex_row(first, x, second, y),
{
    s.push('|');
    s.push(' ');
    s.push(first);
    s.push(' ');
    s.push('|');
    s.push(' ');
    s.push('$');
    push_hex(s, x as usize, 2);
    s.push(' ');
    s.push('|');
    s.push(' ');
    s.push(second);
    s.push(' ');
    s.push('|');
    s.push(' ');
    s.push('$');
    push_hex(s, y as usize, 2);
    push_text(s, " |\n");
    push_text(s, "+---+-----+---+-----+\n");
    assert(s@ =~= old(s)@ + hex_row(first, x, second, y));
}

} // verus!
