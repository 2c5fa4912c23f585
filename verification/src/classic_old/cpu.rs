//! What the CPU does to its registers, named one by one: loads, the stack,
//! increments, comparisons, and the shifts and bit operations of the
//! prefixed table.

use vstd::prelude::*;
use super::gb_types::{CPU, CPUStatus, Register};
use crate::classic::cpu::shifted;
use crate::classic::registers::{Reg8, Registers, half_carry};
use crate::classic::utils::{wrap16, wrap8};

verus! {

impl<'r> Register<'r> {
    /// One of the byte registers A, B, C, D, E, F, H and L.
    pub open spec fn is_byte(&self) -> bool {
        self is A || self is B || self is C || self is D || self is E || self is F || self is H
            || self is L
    }

    /// A byte that an instruction can work on: one of A, B, C, D, E, H and
    /// L, or a byte of memory.
    pub open spec fn is_operand(&self) -> bool {
        self is A || self is B || self is C || self is D || self is E || self is H || self is L
            || self is Address
    }

    /// One of the pairs AF, BC, DE and HL, or the stack pointer.
    pub open spec fn is_wide(&self) -> bool {
        self is AF || self is BC || self is DE || self is HL || self is SP
    }

    /// One of the pairs that can be pushed and popped: AF, BC, DE and HL.
    pub open spec fn is_stacked(&self) -> bool {
        self is AF || self is BC || self is DE || self is HL
    }

    /// The byte that the register holds; zero for what is not a byte.
    pub open spec fn byte_in(&self, regs: Registers) -> u8 {
        match self {
            Register::A => regs.a.0,
            Register::B => regs.b.0,
            Register::C => regs.c.0,
            Register::D => regs.d.0,
            Register::E => regs.e.0,
            Register::F => regs.f.0,
            Register::H => regs.h.0,
            Register::L => regs.l.0,
            Register::Address(m, addr) => m@[*addr as int],
            _ => 0,
        }
    }

    /// The register file with a byte in the register. The low nibble of F
    /// holds nothing. A byte of memory is no part of the register file.
    pub open spec fn byte_put(&self, regs: Registers, v: u8) -> Registers {
        match self {
            Register::A => Registers { a: Reg8(v), ..regs },
            Register::B => Registers { b: Reg8(v), ..regs },
            Register::C => Registers { c: Reg8(v), ..regs },
            Register::D => Registers { d: Reg8(v), ..regs },
            Register::E => Registers { e: Reg8(v), ..regs },
            Register::F => Registers { f: Reg8(v & 0xF0), ..regs },
            Register::H => Registers { h: Reg8(v), ..regs },
            Register::L => Registers { l: Reg8(v), ..regs },
            _ => regs,
        }
    }

    /// The short that the register holds; zero for what is not a short.
    pub open spec fn short_in(&self, regs: Registers) -> u16 {
        match self {
            Register::AF => regs.spec_get_af(),
            Register::BC => regs.spec_get_bc(),
            Register::DE => regs.spec_get_de(),
            Register::HL => regs.spec_get_hl(),
            Register::SP => regs.sp,
            Register::PC => regs.pc,
            _ => 0,
        }
    }

    /// The register file with a short in the register.
    pub open spec fn short_put(&self, regs: Registers, v: u16) -> Registers {
        match self {
            Register::AF => regs.with_af(v),
            Register::BC => regs.with_bc(v),
            Register::DE => regs.with_de(v),
            Register::HL => regs.with_hl(v),
            Register::SP => Registers { sp: v, ..regs },
            Register::PC => Registers { pc: v, ..regs },
            _ => regs,
        }
    }
}

/// A flag given as a number: anything but zero sets it.
pub open spec fn flag_of(b: Option<u8>) -> Option<bool> {
    match b {
        Some(v) => Some(v != 0),
        None => None,
    }
}

impl CPU {
    /// The registers as a register file.
    fn registers(&self) -> (r: Registers)
        ensures
            r == self.regs(),
    {
        Registers {
            a: Reg8(self.a),
            f: Reg8(self.f),
            b: Reg8(self.b),
            c: Reg8(self.c),
            d: Reg8(self.d),
            e: Reg8(self.e),
            h: Reg8(self.h),
            l: Reg8(self.l),
            sp: self.sp,
            pc: self.pc,
        }
    }

    /// Takes the registers from a register file.
    fn set_registers(&mut self, r: Registers)
        ensures
            final(self).regs() == r,
            final(self).stack == old(self).stack,
    {
        self.a = r.a.0;
        self.f = r.f.0;
        self.b = r.b.0;
        self.c = r.c.0;
        self.d = r.d.0;
        self.e = r.e.0;
        self.h = r.h.0;
        self.l = r.l.0;
        self.sp = r.sp;
        self.pc = r.pc;
    }

    /// Reads the byte that a register holds.
    fn byte(&self, r: &Register) -> (v: u8)
        ensures
            v == r.byte_in(self.regs()),
    {
        match r {
            Register::A => self.a,
            Register::B => self.b,
            Register::C => self.c,
            Register::D => self.d,
            Register::E => self.e,
            Register::F => self.f,
            Register::H => self.h,
            Register::L => self.l,
            Register::Address(m, addr) => m.read_byte(*addr),
            _ => 0,
        }
    }

    /// Writes a byte to a register, or to the memory that it names.
    fn put_byte(&mut self, r: Register, v: u8)
        ensures
            final(self).regs() == r.byte_put(old(self).regs(), v),
            final(self).stack == old(self).stack,
            r matches Register::Address(m, addr) ==> final(m)@ == m@.update(addr as int, v),
    {
        match r {
            Register::A => {
                self.a = v;
            },
            Register::B => {
                self.b = v;
            },
            Register::C => {
                self.c = v;
            },
            Register::D => {
                self.d = v;
            },
            Register::E => {
                self.e = v;
            },
            Register::F => {
                self.f = v & 0xF0;
            },
            Register::H => {
                self.h = v;
            },
            Register::L => {
                self.l = v;
            },
            Register::Address(m, addr) => {
                m.write_byte(addr, v);
            },
            _ => {},
        }
    }

    /// Reads the short that a register holds.
    fn short(&self, r: &Register) -> (v: u16)
        ensures
            v == r.short_in(self.regs()),
    {
        match r {
            Register::AF => self.get_af(),
            Register::BC => self.get_bc(),
            Register::DE => self.get_de(),
            Register::HL => self.get_hl(),
            Register::SP => self.sp,
            Register::PC => self.pc,
            _ => 0,
        }
    }

    /// Writes a short to a register.
    fn put_short(&mut self, r: &Register, v: u16)
        ensures
            final(self).regs() == r.short_put(old(self).regs(), v),
            final(self).stack == old(self).stack,
    {
        match r {
            Register::AF => {
                self.set_af(v);
            },
            Register::BC => {
                self.set_bc(v);
            },
            Register::DE => {
                self.set_de(v);
            },
            Register::HL => {
                self.set_hl(v);
            },
            Register::SP => {
                self.sp = v;
            },
            Register::PC => {
                self.pc = v;
            },
            _ => {},
        }
    }

    /// Executes one of the few instructions that need nothing but the
    /// registers: NOP, STOP, INC A, HALT, and DI and EI, which do nothing to
    /// them. The program counter moves past the instruction, but not past
    /// STOP or HALT. An opcode that is none of these gives `None` and
    /// changes nothing.
    pub fn exec(&mut self, opcode: u8) -> (status: Option<CPUStatus>)
        ensures
            final(self).stack == old(self).stack,
            status == (if opcode == 0x10 {
                Some(CPUStatus::Stop)
            } else if opcode == 0x76 {
                Some(CPUStatus::Halt)
            } else if opcode == 0x00 || opcode == 0x3C || opcode == 0xC3 || opcode == 0xCB || opcode
                == 0xF3 || opcode == 0xFB {
                Some(CPUStatus::Continue)
            } else {
                None
            }),
            final(self).regs() == (if status == Some(CPUStatus::Continue) {
                let r = if opcode == 0x3C {
                    Register::A.byte_put(old(self).regs(), wrap8(old(self).a + 1)).with_some_flags(
                        Some(wrap8(old(self).a + 1) == 0),
                        Some(false),
                        Some(half_carry(old(self).a, 1)),
                        None,
                    )
                } else {
                    old(self).regs()
                };
                Registers { pc: wrap16(r.pc + 1), ..r }
            } else {
                old(self).regs()
            }),
    {
        if opcode == 0x10 {
            return Some(CPUStatus::Stop);
        }
        if opcode == 0x76 {
            return Some(CPUStatus::Halt);
        }
        if opcode == 0x3C {
            self.inc(Register::A);
        } else if !(opcode == 0x00 || opcode == 0xC3 || opcode == 0xCB || opcode == 0xF3 || opcode
            == 0xFB) {
            return None;
        }
        self.pc = self.pc.wrapping_add(1);
        Some(CPUStatus::Continue)
    }

    /// INC. A byte register or a byte of memory goes up by one modulo 256,
    /// with Z from the result, N cleared and H from the low nibble; C is
    /// kept. A pair or the stack pointer goes up by one modulo 65536 and no
    /// flag changes. F, AF and the program counter are left alone.
    pub fn inc(&mut self, r: Register)
        ensures
            final(self).stack == old(self).stack,
            r.is_operand() ==> final(self).regs() == r.byte_put(
                old(self).regs(),
                wrap8(r.byte_in(old(self).regs()) + 1),
            ).with_some_flags(
                Some(wrap8(r.byte_in(old(self).regs()) + 1) == 0),
                Some(false),
                Some(half_carry(r.byte_in(old(self).regs()), 1)),
                None,
            ),
            r matches Register::Address(m, addr) ==> final(m)@ == m@.update(
                addr as int,
                wrap8(m@[addr as int] + 1),
            ),
            r is BC || r is DE || r is HL || r is SP ==> final(self).regs() == r.short_put(
                old(self).regs(),
                wrap16(r.short_in(old(self).regs()) + 1),
            ),
            r is F || r is AF || r is PC ==> final(self).regs() == old(self).regs(),
    {
        match r {
            Register::BC | Register::DE | Register::HL | Register::SP => {
                let v = self.short(&r);
                self.put_short(&r, v.wrapping_add(1));
            },
            Register::F | Register::AF | Register::PC => {},
            _ => {
                let v = self.byte(&r);
                let after = v.wrapping_add(1);
                self.put_byte(r, after);
                let half = Registers::half_carry_occurred(v, 1);
                let mut regs = self.registers();
                regs.set_flags(Some(after == 0), Some(false), Some(half), None);
                self.set_registers(regs);
            },
        }
    }

    /// CP: the flags of a subtraction of `other` from A, with A left as it
    /// was.
    pub fn cmp(&mut self, other: u8)
        ensures
            final(self).regs() == old(self).regs().after_cp(other),
            final(self).stack == old(self).stack,
    {
        let mut regs = self.registers();
        regs.cp(other);
        self.set_registers(regs);
    }

    /// Copies one byte register into another.
    pub fn load_8bit_reg(&mut self, target: Register, source: Register)
        requires
            target.is_byte(),
            source.is_byte(),
        ensures
            final(self).regs() == target.byte_put(old(self).regs(), source.byte_in(old(self).regs())),
            final(self).stack == old(self).stack,
    {
        let s = self.byte(&source);
        self.put_byte(target, s);
    }

    /// Loads a byte into one of A, B, C, D, E, H and L.
    pub fn load_8bit_literal(&mut self, target: Register, source: u8)
        requires
            target.is_operand(),
            !(target is Address),
        ensures
            final(self).regs() == target.byte_put(old(self).regs(), source),
            final(self).stack == old(self).stack,
    {
        self.put_byte(target, source);
    }

    /// Copies one of AF, BC, DE, HL and SP into another.
    pub fn load_16bit_reg(&mut self, target: Register, source: Register)
        requires
            target.is_wide(),
            source.is_wide(),
        ensures
            final(self).regs() == target.short_put(
                old(self).regs(),
                source.short_in(old(self).regs()),
            ),
            final(self).stack == old(self).stack,
    {
        let s = self.short(&source);
        self.put_short(&target, s);
    }

    /// Loads a short into one of BC, DE, HL and SP.
    pub fn load_16bit_literal(&mut self, target: Register, source: u16)
        requires
            target is BC || target is DE || target is HL || target is SP,
        ensures
            final(self).regs() == target.short_put(old(self).regs(), source),
            final(self).stack == old(self).stack,
    {
        self.put_short(&target, source);
    }

    /// PUSH: the stack pointer goes down by two, and the pair goes into the
    /// slot of the stack where it then points.
    pub fn push(&mut self, source: Register)
        requires
            source.is_stacked(),
            old(self).stack@.len() == 0x1_0000,
        ensures
            final(self).regs() == (Registers { sp: wrap16(old(self).sp - 2), ..old(self).regs() }),
            final(self).stack@ == old(self).stack@.update(
                wrap16(old(self).sp - 2) as int,
                source.short_in(old(self).regs()),
            ),
    {
        let value = self.short(&source);
        self.sp = self.sp.wrapping_sub(2);
        self.stack[self.sp as usize] = value;
    }

    /// POP: the pair is taken from the slot of the stack where the stack
    /// pointer points, and the stack pointer goes up by two.
    pub fn pop(&mut self, target: Register)
        requires
            target.is_stacked(),
            old(self).stack@.len() == 0x1_0000,
        ensures
            final(self).regs() == target.short_put(
                Registers { sp: wrap16(old(self).sp + 2), ..old(self).regs() },
                old(self).stack@[old(self).sp as int],
            ),
            final(self).stack == old(self).stack,
    {
        let value = self.stack[self.sp as usize];
        self.sp = self.sp.wrapping_add(2);
        self.put_short(&target, value);
    }

    /// Does one shift or rotation of the prefixed table to a byte: Z comes
    /// from the result, N and H are cleared, and C takes the bit moved out.
    fn shift(&mut self, target: Register, kind: u8)
        requires
            target.is_operand(),
        ensures
            final(self).stack == old(self).stack,
            final(self).regs() == target.byte_put(
                old(self).regs(),
                shifted(kind, target.byte_in(old(self).regs()), old(self).regs().spec_carry_bit()).0,
            ).with_flags(
                shifted(kind, target.byte_in(old(self).regs()), old(self).regs().spec_carry_bit()).0
                    == 0,
                false,
                false,
                shifted(kind, target.byte_in(old(self).regs()), old(self).regs().spec_carry_bit()).1,
            ),
            target matches Register::Address(m, addr) ==> final(m)@ == m@.update(
                addr as int,
                shifted(kind, m@[addr as int], old(self).regs().spec_carry_bit()).0,
            ),
    {
        let v = self.byte(&target);
        let (r, c) = crate::classic::cpu::shift(kind, v, self.get_carry());
        self.put_byte(target, r);
        let mut regs = self.registers();
        regs.set_flags(Some(r == 0), Some(false), Some(false), Some(c));
        self.set_registers(regs);
    }

    /// RLC: rotates the byte left; C takes bit 7.
    pub fn rlc(&mut self, target: Register)
        requires
            target.is_operand(),
        ensures
            CPU::shift_was_done(old(self), final(self), target, 0),
            target matches Register::Address(m, addr) ==> final(m)@ == m@.update(
                addr as int,
                shifted(0, m@[addr as int], old(self).regs().spec_carry_bit()).0,
            ),
    {
        self.shift(target, 0);
    }

    /// RRC: rotates the byte right; C takes bit 0.
    pub fn rrc(&mut self, target: Register)
        requires
            target.is_operand(),
        ensures
            CPU::shift_was_done(old(self), final(self), target, 1),
            target matches Register::Address(m, addr) ==> final(m)@ == m@.update(
                addr as int,
                shifted(1, m@[addr as int], old(self).regs().spec_carry_bit()).0,
            ),
    {
        self.shift(target, 1);
    }

    /// RL: rotates the byte left through the carry.
    pub fn rl(&mut self, target: Register)
        requires
            target.is_operand(),
        ensures
            CPU::shift_was_done(old(self), final(self), target, 2),
            target matches Register::Address(m, addr) ==> final(m)@ == m@.update(
                addr as int,
                shifted(2, m@[addr as int], old(self).regs().spec_carry_bit()).0,
            ),
    {
        self.shift(target, 2);
    }

    /// RR: rotates the byte right through the carry.
    pub fn rr(&mut self, target: Register)
        requires
            target.is_operand(),
        ensures
            CPU::shift_was_done(old(self), final(self), target, 3),
            target matches Register::Address(m, addr) ==> final(m)@ == m@.update(
                addr as int,
                shifted(3, m@[addr as int], old(self).regs().spec_carry_bit()).0,
            ),
    {
        self.shift(target, 3);
    }

    /// SLA: shifts the byte left, a zero comes in; C takes bit 7.
    pub fn sla(&mut self, target: Register)
        requires
            target.is_operand(),
        ensures
            CPU::shift_was_done(old(self), final(self), target, 4),
            target matches Register::Address(m, addr) ==> final(m)@ == m@.update(
                addr as int,
                shifted(4, m@[addr as int], old(self).regs().spec_carry_bit()).0,
            ),
    {
        self.shift(target, 4);
    }

    /// SRA: shifts the byte right, bit 7 stays; C takes bit 0.
    pub fn sra(&mut self, target: Register)
        requires
            target.is_operand(),
        ensures
            CPU::shift_was_done(old(self), final(self), target, 5),
            target matches Register::Address(m, addr) ==> final(m)@ == m@.update(
                addr as int,
                shifted(5, m@[addr as int], old(self).regs().spec_carry_bit()).0,
            ),
    {
        self.shift(target, 5);
    }

    /// SWAP: exchanges the nibbles of the byte; C is cleared.
    pub fn swap(&mut self, target: Register)
        requires
            target.is_operand(),
        ensures
            CPU::shift_was_done(old(self), final(self), target, 6),
            target matches Register::Address(m, addr) ==> final(m)@ == m@.update(
                addr as int,
                shifted(6, m@[addr as int], old(self).regs().spec_carry_bit()).0,
            ),
    {
        self.shift(target, 6);
    }

    /// SRL: shifts the byte right, a zero comes in; C takes bit 0.
    pub fn srl(&mut self, target: Register)
        requires
            target.is_operand(),
        ensures
            CPU::shift_was_done(old(self), final(self), target, 7),
            target matches Register::Address(m, addr) ==> final(m)@ == m@.update(
                addr as int,
                shifted(7, m@[addr as int], old(self).regs().spec_carry_bit()).0,
            ),
    {
        self.shift(target, 7);
    }

    /// What a shift or rotation of one kind does to the registers: the byte
    /// takes the result, Z comes from the result, N and H are cleared, and C
    /// takes the bit moved out. The stack is left alone.
    pub open spec fn shift_was_done(before: &CPU, after: &CPU, target: Register, kind: u8) -> bool {
        let v = target.byte_in(before.regs());
        let done = shifted(kind, v, before.regs().spec_carry_bit());
        &&& after.stack == before.stack
        &&& after.regs() == target.byte_put(before.regs(), done.0).with_flags(
            done.0 == 0,
            false,
            false,
            done.1,
        )
    }

    /// BIT: Z is set when the bit of the byte is zero; N is cleared, H is
    /// set, C is kept. The byte is left as it was.
    pub fn check_bit(&mut self, bit: u8, target: Register)
        requires
            bit < 8,
            target.is_operand(),
        ensures
            final(self).stack == old(self).stack,
            final(self).regs() == old(self).regs().with_some_flags(
                Some(target.byte_in(old(self).regs()) & (1u8 << bit) == 0),
                Some(false),
                Some(true),
                None,
            ),
            target matches Register::Address(m, addr) ==> final(m)@ == m@,
    {
        let v = self.byte(&target);
        let mut regs = self.registers();
        regs.set_flags(Some(v & (1u8 << bit) == 0), Some(false), Some(true), None);
        self.set_registers(regs);
    }

    /// RES: clears the bit of the byte. No flag changes.
    pub fn reset_bit(&mut self, bit: u8, target: Register)
        requires
            bit < 8,
            target.is_operand(),
        ensures
            final(self).stack == old(self).stack,
            final(self).regs() == target.byte_put(
                old(self).regs(),
                target.byte_in(old(self).regs()) & !(1u8 << bit),
            ),
            target matches Register::Address(m, addr) ==> final(m)@ == m@.update(
                addr as int,
                m@[addr as int] & !(1u8 << bit),
            ),
    {
        let v = self.byte(&target);
        self.put_byte(target, v & !(1u8 << bit));
    }

    /// SET: sets the bit of the byte. No flag changes.
    pub fn set_bit(&mut self, bit: u8, target: Register)
        requires
            bit < 8,
            target.is_operand(),
        ensures
            final(self).stack == old(self).stack,
            final(self).regs() == target.byte_put(
                old(self).regs(),
                target.byte_in(old(self).regs()) | (1u8 << bit),
            ),
            target matches Register::Address(m, addr) ==> final(m)@ == m@.update(
                addr as int,
                m@[addr as int] | (1u8 << bit),
            ),
    {
        let v = self.byte(&target);
        self.put_byte(target, v | (1u8 << bit));
    }

    /// AF: A is the high byte and F the low byte.
    pub fn get_af(&self) -> (r: u16)
        ensures
            r == self.regs().spec_get_af(),
    {
        ((self.a as u16) << 8) | (self.f as u16)
    }

    /// Writes AF. The low nibble of F holds nothing.
    pub fn set_af(&mut self, value: u16)
        ensures
            final(self).regs() == old(self).regs().with_af(value),
            final(self).stack == old(self).stack,
    {
        self.a = (value >> 8) as u8;
        self.f = ((value & 0xFF) as u8) & 0xF0;
    }

    /// BC: B is the high byte and C the low byte.
    pub fn get_bc(&self) -> (r: u16)
        ensures
            r == self.regs().spec_get_bc(),
    {
        ((self.b as u16) << 8) | (self.c as u16)
    }

    /// Writes BC: B takes the high byte and C the low byte.
    pub fn set_bc(&mut self, value: u16)
        ensures
            final(self).regs() == old(self).regs().with_bc(value),
            final(self).stack == old(self).stack,
    {
        self.b = (value >> 8) as u8;
        self.c = (value & 0xFF) as u8;
    }

    /// DE: D is the high byte and E the low byte.
    pub fn get_de(&self) -> (r: u16)
        ensures
            r == self.regs().spec_get_de(),
    {
        ((self.d as u16) << 8) | (self.e as u16)
    }

    /// Writes DE: D takes the high byte and E the low byte.
    pub fn set_de(&mut self, value: u16)
        ensures
            final(self).regs() == old(self).regs().with_de(value),
            final(self).stack == old(self).stack,
    {
        self.d = (value >> 8) as u8;
        self.e = (value & 0xFF) as u8;
    }

    /// HL: H is the high byte and L the low byte.
    pub fn get_hl(&self) -> (r: u16)
        ensures
            r == self.regs().spec_get_hl(),
    {
        ((self.h as u16) << 8) | (self.l as u16)
    }

    /// Writes HL: H takes the high byte and L the low byte.
    pub fn set_hl(&mut self, value: u16)
        ensures
            final(self).regs() == old(self).regs().with_hl(value),
            final(self).stack == old(self).stack,
    {
        self.h = (value >> 8) as u8;
        self.l = (value & 0xFF) as u8;
    }

    /// ADD HL: adds a short to HL; Z is kept, N is cleared, H and C take
    /// the carries out of bit 11 and bit 15.
    pub fn add_to_hl(&mut self, value: u16)
        ensures
            final(self).regs() == old(self).regs().after_add_hl(value),
            final(self).stack == old(self).stack,
    {
        let mut regs = self.registers();
        regs.add_hl(value);
        self.set_registers(regs);
    }

    /// BIT on one of A, B, C, D, E, H and L: gives the bit as 0 or 1 and
    /// sets the flags as `check_bit` does.
    pub fn get_bit(&mut self, reg: Register, n: u8) -> (bit: u8)
        requires
            n < 8,
            reg.is_operand(),
            !(reg is Address),
        ensures
            bit == (reg.byte_in(old(self).regs()) >> n) & 1,
            final(self).stack == old(self).stack,
            final(self).regs() == old(self).regs().with_some_flags(
                Some(bit == 0),
                Some(false),
                Some(true),
                None,
            ),
    {
        let v = self.byte(&reg);
        let bit = (v >> n) & 1;
        let mut regs = self.registers();
        regs.set_flags(Some(bit == 0), Some(false), Some(true), None);
        self.set_registers(regs);
        bit
    }

    /// Writes the flags, each given as a number: nothing leaves a flag as
    /// it is, zero clears it, anything else sets it.
    pub fn set_flags(&mut self, z: Option<u8>, n: Option<u8>, h: Option<u8>, c: Option<u8>)
        ensures
            final(self).regs() == old(self).regs().with_some_flags(
                flag_of(z),
                flag_of(n),
                flag_of(h),
                flag_of(c),
            ),
            final(self).stack == old(self).stack,
    {
        let mut regs = self.registers();
        regs.set_flags(
            match z {
                Some(v) => Some(v != 0),
                None => None,
            },
            match n {
                Some(v) => Some(v != 0),
                None => None,
            },
            match h {
                Some(v) => Some(v != 0),
                None => None,
            },
            match c {
                Some(v) => Some(v != 0),
                None => None,
            },
        );
        self.set_registers(regs);
    }

    /// The Z flag, as 0 or 1.
    pub fn get_zero(&self) -> (r: u8)
        ensures
            r == (if self.regs().spec_zero() { 1u8 } else { 0u8 }),
    {
        if self.f & 0x80 != 0 {
            1
        } else {
            0
        }
    }

    /// The N flag, as 0 or 1.
    pub fn get_subtract(&self) -> (r: u8)
        ensures
            r == (if self.regs().spec_neg() { 1u8 } else { 0u8 }),
    {
        if self.f & 0x40 != 0 {
            1
        } else {
            0
        }
    }

    /// The H flag, as 0 or 1.
    pub fn get_half_carry(&self) -> (r: u8)
        ensures
            r == (if self.regs().spec_half_carry() { 1u8 } else { 0u8 }),
    {
        if self.f & 0x20 != 0 {
            1
        } else {
            0
        }
    }

    /// The C flag, as 0 or 1.
    pub fn get_carry(&self) -> (r: u8)
        ensures
            r == self.regs().spec_carry_bit(),
    {
        if self.f & 0x10 != 0 {
            1
        } else {
            0
        }
    }

    /// Whether adding `a` to `b` carries from bit 3 into bit 4, as 0 or 1.
    pub fn half_carry_occurred(b: u8, a: u8) -> (r: u8)
        ensures
            r == (if half_carry(b, a) { 1u8 } else { 0u8 }),
    {
        if Registers::half_carry_occurred(b, a) {
            1
        } else {
            0
        }
    }

    /// Whether subtracting `a` from `b` borrows from bit 4 into bit 3, as 0
    /// or 1.
    pub fn half_borrow_occurred(b: u8, a: u8) -> (r: u8)
        ensures
            r == (if crate::classic::registers::half_borrow(b, a) { 1u8 } else { 0u8 }),
    {
        if Registers::half_borrow_occurred(b, a) {
            1
        } else {
            0
        }
    }
}

} // verus!
