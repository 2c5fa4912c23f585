//! The CPU as a state machine. A step reads one byte of the instruction at
//! the program counter, or executes the instruction once it is complete.

use vstd::prelude::*;
use super::console::{Console, ConsoleView};
use super::instruction::{Arg, Instruction, InstructionView, arg_of, is_undefined, table_entry};
use super::registers::{
    Registers,
    half_borrow,
    half_carry,
    high,
    low,
    pair,
    rot_left_8,
    rot_right_8,
    swap_nibbles,
};
use super::utils::{wrap16, wrap8, add_i8_to_u16, wrapping_dec_16, wrapping_inc_16};
use crate::text::{hex_text, push_hex};

verus! {

/// Which table the next opcode is looked up in.
#[derive(Copy, Clone, Debug, PartialEq, Eq)]
pub enum OpRead {
    General,
    PrefixCB,
}

/// Which part of the argument the next byte is.
#[derive(Copy, Clone, Debug, PartialEq, Eq)]
pub enum DataRead {
    Byte,
    ShortHi,
    ShortLo,
}

/// What the CPU does with its next step: it reads an opcode, it reads a byte
/// of the argument, or it executes the instruction that it has read.
#[derive(Copy, Clone, Debug, PartialEq, Eq)]
pub enum CpuState {
    OpRead(OpRead),
    DataRead(DataRead),
    Exec,
}

/// The CPU: where it is in its cycle, the instruction it is reading or about
/// to execute, its registers, and two latches. DI sets the first and EI the
/// second; each stays set through the instruction that follows and is
/// cleared when that instruction has been executed. `last_cycles` is what
/// the last instruction executed cost.
pub struct Cpu {
    pub state: CpuState,
    pub instruction: Instruction,
    pub registers: Registers,
    pub disable_interrupts: bool,
    pub enable_interrupts: bool,
    pub last_cycles: usize,
}

/// The CPU as a plain value.
pub struct CpuView {
    pub state: CpuState,
    pub instruction: InstructionView,
    pub registers: Registers,
    pub disable_interrupts: bool,
    pub enable_interrupts: bool,
    pub last_cycles: usize,
}

impl View for Cpu {
    type V = CpuView;

    open spec fn view(&self) -> CpuView {
        CpuView {
            state: self.state,
            instruction: self.instruction@,
            registers: self.registers,
            disable_interrupts: self.disable_interrupts,
            enable_interrupts: self.enable_interrupts,
            last_cycles: self.last_cycles,
        }
    }
}

/// The registers and the memory that an instruction works on.
pub struct Machine {
    pub regs: Registers,
    pub bus: ConsoleView,
}

/// A byte read as a signed number in two's complement.
pub open spec fn signed(b: u8) -> i8 {
    if b < 128 {
        b as i8
    } else {
        (b - 256) as i8
    }
}

/// The byte that an 8-bit argument holds.
pub open spec fn byte_of(arg: Arg) -> u8 {
    match arg {
        Arg::Data8(b) => b,
        Arg::Addr8(b) => b,
        _ => 0,
    }
}

/// The short that a 16-bit argument holds.
pub open spec fn short_of(arg: Arg) -> u16 {
    match arg {
        Arg::Data16(v) => v,
        Arg::Addr16(v) => v,
        _ => 0,
    }
}

/// The displacement that a relative argument holds.
pub open spec fn offset_of(arg: Arg) -> i8 {
    match arg {
        Arg::Offset8(o) => o,
        _ => 0,
    }
}

/// What a shift or rotation of the prefixed table makes of a byte, and the
/// bit that it moves into the carry. `kind` is 0 for RLC, 1 for RRC, 2 for
/// RL, 3 for RR, 4 for SLA, 5 for SRA, 6 for SWAP and 7 for SRL; `c` is the
/// carry before, as 0 or 1.
pub open spec fn shifted(kind: u8, v: u8, c: u8) -> (u8, bool) {
    if kind == 0 {
        (rot_left_8(v), v & 0x80 != 0)
    } else if kind == 1 {
        (rot_right_8(v), v & 0x01 != 0)
    } else if kind == 2 {
        ((v << 1) | c, v & 0x80 != 0)
    } else if kind == 3 {
        ((v >> 1) | (c << 7), v & 0x01 != 0)
    } else if kind == 4 {
        (v << 1, v & 0x80 != 0)
    } else if kind == 5 {
        ((v >> 1) | (v & 0x80), v & 0x01 != 0)
    } else if kind == 6 {
        (swap_nibbles(v), false)
    } else {
        (v >> 1, v & 0x01 != 0)
    }
}

/// The byte that the CPU reads at an address. Where nothing can be read,
/// it reads 0xFF.
pub open spec fn loaded(bus: ConsoleView, addr: u16) -> u8 {
    match bus.read(addr) {
        Some(b) => b,
        None => 0xFF,
    }
}

/// The registers and the memory taken together.
pub open spec fn machine(regs: Registers, bus: ConsoleView) -> Machine {
    Machine { regs, bus }
}

impl Machine {
    /// The byte at an address.
    pub open spec fn load(self, addr: u16) -> u8 {
        loaded(self.bus, addr)
    }

    /// A write to an address. A write that no region takes is lost.
    pub open spec fn store(self, addr: u16, v: u8) -> Machine {
        Machine { bus: self.bus.write(addr, v), ..self }
    }

    /// The machine with other registers.
    pub open spec fn with_regs(self, regs: Registers) -> Machine {
        Machine { regs, ..self }
    }

    /// The 8-bit operand that three bits of an opcode select: B, C, D, E,
    /// H, L, the byte at the address in HL, or A.
    pub open spec fn operand(self, sel: u8) -> u8 {
        if sel == 0 {
            self.regs.b.0
        } else if sel == 1 {
            self.regs.c.0
        } else if sel == 2 {
            self.regs.d.0
        } else if sel == 3 {
            self.regs.e.0
        } else if sel == 4 {
            self.regs.h.0
        } else if sel == 5 {
            self.regs.l.0
        } else if sel == 6 {
            self.load(self.regs.spec_get_hl())
        } else {
            self.regs.a.0
        }
    }

    /// The machine with a value in the 8-bit operand selected.
    pub open spec fn with_operand(self, sel: u8, v: u8) -> Machine {
        let r = self.regs;
        if sel == 0 {
            self.with_regs(Registers { b: super::registers::Reg8(v), ..r })
        } else if sel == 1 {
            self.with_regs(Registers { c: super::registers::Reg8(v), ..r })
        } else if sel == 2 {
            self.with_regs(Registers { d: super::registers::Reg8(v), ..r })
        } else if sel == 3 {
            self.with_regs(Registers { e: super::registers::Reg8(v), ..r })
        } else if sel == 4 {
            self.with_regs(Registers { h: super::registers::Reg8(v), ..r })
        } else if sel == 5 {
            self.with_regs(Registers { l: super::registers::Reg8(v), ..r })
        } else if sel == 6 {
            self.store(r.spec_get_hl(), v)
        } else {
            self.with_regs(r.with_a(v))
        }
    }

    /// The 16-bit register that two bits of an opcode select: BC, DE, HL
    /// or SP.
    pub open spec fn wide(self, sel: u8) -> u16 {
        if sel == 0 {
            self.regs.spec_get_bc()
        } else if sel == 1 {
            self.regs.spec_get_de()
        } else if sel == 2 {
            self.regs.spec_get_hl()
        } else {
            self.regs.sp
        }
    }

    /// The machine with a value in the 16-bit register selected.
    pub open spec fn with_wide(self, sel: u8, v: u16) -> Machine {
        if sel == 0 {
            self.with_regs(self.regs.with_bc(v))
        } else if sel == 1 {
            self.with_regs(self.regs.with_de(v))
        } else if sel == 2 {
            self.with_regs(self.regs.with_hl(v))
        } else {
            self.with_regs(Registers { sp: v, ..self.regs })
        }
    }

    /// The 16-bit register that PUSH and POP select: BC, DE, HL or AF.
    pub open spec fn stacked(self, sel: u8) -> u16 {
        if sel == 0 {
            self.regs.spec_get_bc()
        } else if sel == 1 {
            self.regs.spec_get_de()
        } else if sel == 2 {
            self.regs.spec_get_hl()
        } else {
            self.regs.spec_get_af()
        }
    }

    /// The machine with a value in the 16-bit register that POP selects.
    pub open spec fn with_stacked(self, sel: u8, v: u16) -> Machine {
        if sel == 0 {
            self.with_regs(self.regs.with_bc(v))
        } else if sel == 1 {
            self.with_regs(self.regs.with_de(v))
        } else if sel == 2 {
            self.with_regs(self.regs.with_hl(v))
        } else {
            self.with_regs(self.regs.with_af(v))
        }
    }

    /// The condition that two bits of an opcode select: NZ, Z, NC or C.
    pub open spec fn condition(self, sel: u8) -> bool {
        if sel == 0 {
            !self.regs.spec_zero()
        } else if sel == 1 {
            self.regs.spec_zero()
        } else if sel == 2 {
            !self.regs.spec_carry()
        } else {
            self.regs.spec_carry()
        }
    }

    /// The accumulator operation that three bits of an opcode select: ADD,
    /// ADC, SUB, SBC, AND, XOR, OR or CP.
    pub open spec fn alu(self, f: u8, d: u8) -> Machine {
        if f == 0 {
            self.with_regs(self.regs.after_add(d))
        } else if f == 1 {
            self.with_regs(self.regs.after_adc(d))
        } else if f == 2 {
            self.with_regs(self.regs.after_sub(d))
        } else if f == 3 {
            self.with_regs(self.regs.after_sbc(d))
        } else if f == 4 {
            self.with_regs(self.regs.after_and(d))
        } else if f == 5 {
            self.with_regs(self.regs.after_xor(d))
        } else if f == 6 {
            self.with_regs(self.regs.after_or(d))
        } else {
            self.with_regs(self.regs.after_cp(d))
        }
    }

    /// The machine with another program counter.
    pub open spec fn jump(self, target: u16) -> Machine {
        self.with_regs(Registers { pc: target, ..self.regs })
    }

    /// PUSH: the high byte goes to SP - 1 and the low byte to SP - 2, which
    /// is where SP ends.
    pub open spec fn push(self, v: u16) -> Machine {
        let first = wrap16(self.regs.sp - 1);
        let second = wrap16(self.regs.sp - 2);
        self.store(first, high(v)).store(second, low(v)).with_regs(
            Registers { sp: second, ..self.regs },
        )
    }

    /// What POP takes off the stack: the low byte from SP and the high byte
    /// from SP + 1.
    pub open spec fn top(self) -> u16 {
        pair(self.load(wrap16(self.regs.sp + 1)), self.load(self.regs.sp))
    }

    /// The machine after POP: SP is two higher.
    pub open spec fn pop(self) -> Machine {
        self.with_regs(Registers { sp: wrap16(self.regs.sp + 2), ..self.regs })
    }

    /// INC of an 8-bit operand: C is kept.
    pub open spec fn inc8(self, sel: u8) -> Machine {
        let v = self.operand(sel);
        let r = wrap8(v + 1);
        let m = self.with_operand(sel, r);
        m.with_regs(m.regs.with_some_flags(Some(r == 0), Some(false), Some(half_carry(v, 1)), None))
    }

    /// DEC of an 8-bit operand: C is kept.
    pub open spec fn dec8(self, sel: u8) -> Machine {
        let v = self.operand(sel);
        let r = wrap8(v - 1);
        let m = self.with_operand(sel, r);
        m.with_regs(m.regs.with_some_flags(Some(r == 0), Some(true), Some(half_borrow(v, 1)), None))
    }

    /// NOP, LD (a16),SP, STOP, JR and JR cc, and whether the jump was taken.
    pub open spec fn control0(self, y: u8, arg: Arg) -> (Machine, bool) {
        let r = self.regs;
        if y == 0 || y == 2 {
            (self, false)
        } else if y == 1 {
            let at = short_of(arg);
            (self.store(at, low(r.sp)).store(wrap16(at + 1), high(r.sp)), false)
        } else if y == 3 || self.condition((y - 4) as u8) {
            (self.jump(wrap16(r.pc + offset_of(arg))), y != 3)
        } else {
            (self, false)
        }
    }

    /// LD rr,d16 and ADD HL,rr.
    pub open spec fn wide_load(self, y: u8, arg: Arg) -> Machine {
        if y % 2 == 0 {
            self.with_wide(y / 2, short_of(arg))
        } else {
            self.with_regs(self.regs.after_add_hl(self.wide(y / 2)))
        }
    }

    /// LD (rr),A and LD A,(rr), where rr is BC, DE, HL+ or HL-: the last
    /// two move HL one up or down after the load.
    pub open spec fn indirect(self, y: u8) -> Machine {
        let p = y / 2;
        let r = self.regs;
        let at = if p == 0 {
            r.spec_get_bc()
        } else if p == 1 {
            r.spec_get_de()
        } else {
            r.spec_get_hl()
        };
        let moved = if y % 2 == 0 {
            self.store(at, r.a.0)
        } else {
            self.with_regs(r.with_a(self.load(at)))
        };
        if p == 2 {
            moved.with_regs(moved.regs.with_hl(wrap16(at + 1)))
        } else if p == 3 {
            moved.with_regs(moved.regs.with_hl(wrap16(at - 1)))
        } else {
            moved
        }
    }

    /// INC rr and DEC rr. No flag changes.
    pub open spec fn wide_step(self, y: u8) -> Machine {
        if y % 2 == 0 {
            self.with_wide(y / 2, wrap16(self.wide(y / 2) + 1))
        } else {
            self.with_wide(y / 2, wrap16(self.wide(y / 2) - 1))
        }
    }

    /// RLCA, RRCA, RLA, RRA, DAA, CPL, SCF and CCF.
    pub open spec fn accumulator(self, y: u8) -> Machine {
        let r = self.regs;
        if y == 0 {
            self.with_regs(r.after_rlca())
        } else if y == 1 {
            self.with_regs(r.after_rrca())
        } else if y == 2 {
            self.with_regs(r.after_rla())
        } else if y == 3 {
            self.with_regs(r.after_rra())
        } else if y == 4 {
            self.with_regs(r.after_daa())
        } else if y == 5 {
            self.with_regs(r.after_cpl())
        } else if y == 6 {
            self.with_regs(r.with_some_flags(None, Some(false), Some(false), Some(true)))
        } else {
            self.with_regs(r.with_some_flags(None, Some(false), Some(false), Some(!r.spec_carry())))
        }
    }

    /// The opcodes 0x00-0x3F, and whether a conditional jump was taken.
    pub open spec fn block0(self, y: u8, z: u8, arg: Arg) -> (Machine, bool) {
        if z == 0 {
            self.control0(y, arg)
        } else if z == 1 {
            (self.wide_load(y, arg), false)
        } else if z == 2 {
            (self.indirect(y), false)
        } else if z == 3 {
            (self.wide_step(y), false)
        } else if z == 4 {
            (self.inc8(y), false)
        } else if z == 5 {
            (self.dec8(y), false)
        } else if z == 6 {
            (self.with_operand(y, byte_of(arg)), false)
        } else {
            (self.accumulator(y), false)
        }
    }

    /// The opcodes 0x40-0x7F: loads between 8-bit operands. 0x76 is HALT,
    /// which does nothing.
    pub open spec fn block1(self, y: u8, z: u8) -> Machine {
        if y == 6 && z == 6 {
            self
        } else {
            self.with_operand(y, self.operand(z))
        }
    }

    /// The opcodes 0x80-0xBF: the accumulator operations on 8-bit operands.
    pub open spec fn block2(self, y: u8, z: u8) -> Machine {
        self.alu(y, self.operand(z))
    }

    /// RET cc, LDH (a8),A, ADD SP,r8, LDH A,(a8) and LD HL,SP+r8, and
    /// whether the return was taken.
    pub open spec fn control3(self, y: u8, arg: Arg) -> (Machine, bool) {
        let r = self.regs;
        if y < 4 {
            if self.condition(y) {
                (self.pop().jump(self.top()), true)
            } else {
                (self, false)
            }
        } else if y == 4 {
            (self.store((0xFF00 + byte_of(arg)) as u16, r.a.0), false)
        } else if y == 5 {
            (self.with_regs(Registers { sp: wrap16(r.sp + offset_of(arg)), ..r }), false)
        } else if y == 6 {
            (self.with_regs(r.with_a(self.load((0xFF00 + byte_of(arg)) as u16))), false)
        } else {
            (self.with_regs(r.with_hl(wrap16(r.sp + offset_of(arg)))), false)
        }
    }

    /// POP rr, RET, RETI, JP (HL) and LD SP,HL.
    pub open spec fn unstack(self, y: u8) -> Machine {
        let p = y / 2;
        let r = self.regs;
        if y % 2 == 0 {
            self.pop().with_stacked(p, self.top())
        } else if p == 0 || p == 1 {
            self.pop().jump(self.top())
        } else if p == 2 {
            self.jump(r.spec_get_hl())
        } else {
            self.with_regs(Registers { sp: r.spec_get_hl(), ..r })
        }
    }

    /// JP cc,a16, LD (C),A, LD (a16),A, LD A,(C) and LD A,(a16), and
    /// whether the jump was taken.
    pub open spec fn jump_or_high(self, y: u8, arg: Arg) -> (Machine, bool) {
        let r = self.regs;
        if y < 4 {
            if self.condition(y) {
                (self.jump(short_of(arg)), true)
            } else {
                (self, false)
            }
        } else if y == 4 {
            (self.store((0xFF00 + r.c.0) as u16, r.a.0), false)
        } else if y == 5 {
            (self.store(short_of(arg), r.a.0), false)
        } else if y == 6 {
            (self.with_regs(r.with_a(self.load((0xFF00 + r.c.0) as u16))), false)
        } else {
            (self.with_regs(r.with_a(self.load(short_of(arg)))), false)
        }
    }

    /// CALL: the program counter is pushed, then replaced.
    pub open spec fn call(self, target: u16) -> Machine {
        self.push(self.regs.pc).jump(target)
    }

    /// The opcodes 0xC0-0xFF that are defined, and whether a conditional
    /// jump, call or return was taken.
    pub open spec fn block3(self, y: u8, z: u8, arg: Arg) -> (Machine, bool) {
        if z == 0 {
            self.control3(y, arg)
        } else if z == 1 {
            (self.unstack(y), false)
        } else if z == 2 {
            self.jump_or_high(y, arg)
        } else if z == 3 {
            if y == 0 {
                (self.jump(short_of(arg)), false)
            } else {
                (self, false)
            }
        } else if z == 4 {
            if self.condition(y) {
                (self.call(short_of(arg)), true)
            } else {
                (self, false)
            }
        } else if z == 5 {
            if y % 2 == 0 {
                (self.push(self.stacked(y / 2)), false)
            } else {
                (self.call(short_of(arg)), false)
            }
        } else if z == 6 {
            (self.alu(y, byte_of(arg)), false)
        } else {
            (self.call((y * 8) as u16), false)
        }
    }

    /// An instruction of the main table, and whether it took its branch.
    pub open spec fn unprefixed(self, opcode: u8, arg: Arg) -> (Machine, bool) {
        let x = opcode / 64;
        let y = (opcode / 8) % 8;
        let z = opcode % 8;
        if x == 0 {
            self.block0(y, z, arg)
        } else if x == 1 {
            (self.block1(y, z), false)
        } else if x == 2 {
            (self.block2(y, z), false)
        } else {
            self.block3(y, z, arg)
        }
    }

    /// An instruction of the prefixed table: bits 7-3 of the opcode select
    /// what is done and bits 2-0 the operand it is done to.
    pub open spec fn prefixed(self, opcode: u8) -> Machine {
        let f = opcode / 8;
        let t = opcode % 8;
        let v = self.operand(t);
        if f < 8 {
            let (r, c) = shifted(f, v, self.regs.spec_carry_bit());
            let m = self.with_operand(t, r);
            m.with_regs(m.regs.with_flags(r == 0, false, false, c))
        } else if f < 16 {
            self.with_regs(
                self.regs.with_some_flags(
                    Some(v & (1u8 << ((f - 8) as u8)) == 0),
                    Some(false),
                    Some(true),
                    None,
                ),
            )
        } else if f < 24 {
            self.with_operand(t, v & !(1u8 << ((f - 16) as u8)))
        } else {
            self.with_operand(t, v | (1u8 << ((f - 24) as u8)))
        }
    }
}

/// What a step reports when it is asked to execute an opcode that the
/// processor does not define.
pub open spec fn undefined_text(opcode: u8) -> Seq<char> {
    "Undefined opcode 0x"@ + hex_text(opcode as nat, 2)
}

/// What a step reports when the argument does not go with the state or the
/// opcode.
pub open spec fn mismatch_text(opcode: u8) -> Seq<char> {
    "Wrong argument for opcode 0x"@ + hex_text(opcode as nat, 2)
}

impl CpuView {
    /// The state and the instruction go together: while an argument is
    /// read, and when an instruction of the main table is executed, the
    /// argument is of the kind that the opcode takes, and of the length
    /// that the state reads.
    pub open spec fn wf(self) -> bool {
        let fits = self.instruction.arg.same_kind(arg_of(self.instruction.opcode));
        match self.state {
            CpuState::OpRead(_) => true,
            CpuState::DataRead(DataRead::Byte) => !self.instruction.prefixed && fits
                && self.instruction.arg.is_byte(),
            CpuState::DataRead(_) => !self.instruction.prefixed && fits
                && self.instruction.arg.is_short(),
            CpuState::Exec => self.instruction.prefixed || fits,
        }
    }

    /// Why the CPU cannot take a step, if it cannot: it is to execute an
    /// undefined opcode, or its argument is not of the kind that the state
    /// or the opcode asks for.
    pub open spec fn fault(self) -> Option<Seq<char>> {
        if self.state is Exec && !self.instruction.prefixed && is_undefined(
            self.instruction.opcode,
        ) {
            Some(undefined_text(self.instruction.opcode))
        } else if !self.wf() {
            Some(mismatch_text(self.instruction.opcode))
        } else {
            None
        }
    }

    /// The CPU with its program counter one further.
    pub open spec fn advanced(self) -> CpuView {
        CpuView {
            registers: Registers { pc: wrap16(self.registers.pc + 1), ..self.registers },
            ..self
        }
    }

    /// The CPU and the console after the instruction of the main table
    /// that the CPU holds. DI sets the first latch, EI and RETI set the
    /// second. A conditional instruction that takes its branch costs the
    /// second of its two cycle counts, every other instruction the first.
    pub open spec fn run_unprefixed(self, bus: ConsoleView) -> (CpuView, ConsoleView) {
        let op = self.instruction.opcode;
        let (after, taken) = machine(self.registers, bus).unprefixed(op, self.instruction.arg);
        (
            CpuView {
                registers: after.regs,
                disable_interrupts: self.disable_interrupts || op == 0xF3,
                enable_interrupts: self.enable_interrupts || op == 0xFB || op == 0xD9,
                last_cycles: if taken {
                    self.instruction.cycles.1
                } else {
                    self.instruction.cycles.0
                },
                ..self
            },
            after.bus,
        )
    }

    /// The CPU and the console after the instruction of the prefixed table
    /// that the CPU holds.
    pub open spec fn run_prefixed(self, bus: ConsoleView) -> (CpuView, ConsoleView) {
        let after = machine(self.registers, bus).prefixed(self.instruction.opcode);
        (
            CpuView { registers: after.regs, last_cycles: self.instruction.cycles.0, ..self },
            after.bus,
        )
    }

    /// The CPU and the console after the Exec step: the instruction has
    /// been executed, a latch that was set before it is cleared, and the
    /// next step reads an opcode.
    pub open spec fn executed(self, bus: ConsoleView) -> (CpuView, ConsoleView) {
        let (cpu, after) = if self.instruction.prefixed {
            self.run_prefixed(bus)
        } else {
            self.run_unprefixed(bus)
        };
        (
            CpuView {
                state: CpuState::OpRead(OpRead::General),
                disable_interrupts: !self.disable_interrupts && cpu.disable_interrupts,
                enable_interrupts: !self.enable_interrupts && cpu.enable_interrupts,
                ..cpu
            },
            after,
        )
    }

    /// One step: the CPU and the console after it, or `None` when the CPU
    /// cannot take the step.
    pub open spec fn step(self, bus: ConsoleView) -> Option<(CpuView, ConsoleView)> {
        let byte = loaded(bus, self.registers.pc);
        if self.fault() is Some {
            None
        } else {
            match self.state {
                CpuState::OpRead(OpRead::General) => {
                    let found = table_entry(byte);
                    let next = if byte == 0xCB {
                        CpuState::OpRead(OpRead::PrefixCB)
                    } else if found.arg is Nothing {
                        CpuState::Exec
                    } else if found.arg.is_byte() {
                        CpuState::DataRead(DataRead::Byte)
                    } else {
                        CpuState::DataRead(DataRead::ShortLo)
                    };
                    Some((CpuView { state: next, instruction: found, ..self }.advanced(), bus))
                },
                CpuState::OpRead(OpRead::PrefixCB) => Some(
                    (
                        CpuView {
                            state: CpuState::Exec,
                            instruction: InstructionView {
                                opcode: byte,
                                prefixed: true,
                                mnemonic: Seq::empty(),
                                arg: Arg::Nothing,
                                cycles: (8, 8),
                            },
                            ..self
                        }.advanced(),
                        bus,
                    ),
                ),
                CpuState::DataRead(DataRead::Byte) => {
                    let arg = match self.instruction.arg {
                        Arg::Addr8(_) => Arg::Addr8(byte),
                        Arg::Data8(_) => Arg::Data8(byte),
                        _ => Arg::Offset8(signed(byte)),
                    };
                    Some(
                        (
                            CpuView {
                                state: CpuState::Exec,
                                instruction: InstructionView { arg, ..self.instruction },
                                ..self
                            }.advanced(),
                            bus,
                        ),
                    )
                },
                CpuState::DataRead(DataRead::ShortLo) => {
                    let arg = match self.instruction.arg {
                        Arg::Addr16(_) => Arg::Addr16(byte as u16),
                        _ => Arg::Data16(byte as u16),
                    };
                    Some(
                        (
                            CpuView {
                                state: CpuState::DataRead(DataRead::ShortHi),
                                instruction: InstructionView { arg, ..self.instruction },
                                ..self
                            }.advanced(),
                            bus,
                        ),
                    )
                },
                CpuState::DataRead(DataRead::ShortHi) => {
                    let arg = match self.instruction.arg {
                        Arg::Addr16(lo) => Arg::Addr16(((byte as u16) << 8) | lo),
                        Arg::Data16(lo) => Arg::Data16(((byte as u16) << 8) | lo),
                        other => other,
                    };
                    Some(
                        (
                            CpuView {
                                state: CpuState::Exec,
                                instruction: InstructionView { arg, ..self.instruction },
                                ..self
                            }.advanced(),
                            bus,
                        ),
                    )
                },
                CpuState::Exec => Some(self.executed(bus)),
            }
        }
    }
}

/// Reads the byte at an address; 0xFF where nothing can be read.
fn load(bus: &Console, addr: u16) -> (b: u8)
    ensures
        b == loaded(bus@, addr),
{
    match bus.read(addr) {
        Some(b) => b,
        None => 0xFF,
    }
}

/// Writes a byte to an address. A write that no region takes is lost.
fn store(bus: &mut Console, addr: u16, v: u8)
    ensures
        final(bus)@ == old(bus)@.write(addr, v),
        final(bus)@.same_layout(old(bus)@),
{
    let _ = bus.write(addr, v);
}

/// Reads a byte as a signed number.
pub fn to_signed(b: u8) -> (o: i8)
    ensures
        o == signed(b),
{
    if b < 128 {
        b as i8
    } else {
        ((b as i16) - 256) as i8
    }
}

/// Reads an 8-bit operand.
fn operand(regs: &Registers, bus: &Console, sel: u8) -> (v: u8)
    ensures
        v == machine(*regs, bus@).operand(sel),
{
    if sel == 0 {
        regs.b.0
    } else if sel == 1 {
        regs.c.0
    } else if sel == 2 {
        regs.d.0
    } else if sel == 3 {
        regs.e.0
    } else if sel == 4 {
        regs.h.0
    } else if sel == 5 {
        regs.l.0
    } else if sel == 6 {
        load(bus, regs.get_hl())
    } else {
        regs.a.0
    }
}

/// Writes an 8-bit operand.
fn set_operand(regs: &mut Registers, bus: &mut Console, sel: u8, v: u8)
    ensures
        machine(*final(regs), final(bus)@) == machine(*old(regs), old(bus)@).with_operand(sel, v),
        final(regs).f == old(regs).f,
        final(bus)@.same_layout(old(bus)@),
{
    if sel == 0 {
        regs.b.load(v);
    } else if sel == 1 {
        regs.c.load(v);
    } else if sel == 2 {
        regs.d.load(v);
    } else if sel == 3 {
        regs.e.load(v);
    } else if sel == 4 {
        regs.h.load(v);
    } else if sel == 5 {
        regs.l.load(v);
    } else if sel == 6 {
        store(bus, regs.get_hl(), v);
    } else {
        regs.a.load(v);
    }
}

/// Reads BC, DE, HL or SP.
fn wide(regs: &Registers, sel: u8) -> (v: u16)
    ensures
        v == machine(*regs, arbitrary()).wide(sel),
{
    if sel == 0 {
        regs.get_bc()
    } else if sel == 1 {
        regs.get_de()
    } else if sel == 2 {
        regs.get_hl()
    } else {
        regs.sp
    }
}

/// Writes BC, DE, HL or SP.
fn set_wide(regs: &mut Registers, sel: u8, v: u16)
    ensures
        forall|bus: ConsoleView|
            machine(*final(regs), bus) == #[trigger] machine(*old(regs), bus).with_wide(sel, v),
        final(regs).f == old(regs).f,
{
    if sel == 0 {
        regs.set_bc(v);
    } else if sel == 1 {
        regs.set_de(v);
    } else if sel == 2 {
        regs.set_hl(v);
    } else {
        regs.sp = v;
    }
}

/// Reads BC, DE, HL or AF.
fn stacked(regs: &Registers, sel: u8) -> (v: u16)
    ensures
        v == machine(*regs, arbitrary()).stacked(sel),
{
    if sel == 0 {
        regs.get_bc()
    } else if sel == 1 {
        regs.get_de()
    } else if sel == 2 {
        regs.get_hl()
    } else {
        regs.get_af()
    }
}

/// Writes BC, DE, HL or AF.
fn set_stacked(regs: &mut Registers, sel: u8, v: u16)
    ensures
        forall|bus: ConsoleView|
            machine(*final(regs), bus) == #[trigger] machine(*old(regs), bus).with_stacked(sel, v),
        old(regs).wf() ==> final(regs).wf(),
{
    if sel == 0 {
        regs.set_bc(v);
    } else if sel == 1 {
        regs.set_de(v);
    } else if sel == 2 {
        regs.set_hl(v);
    } else {
        regs.set_af(v);
    }
}

/// Tests NZ, Z, NC or C.
fn condition(regs: &Registers, sel: u8) -> (b: bool)
    ensures
        b == machine(*regs, arbitrary()).condition(sel),
{
    if sel == 0 {
        !regs.zero()
    } else if sel == 1 {
        regs.zero()
    } else if sel == 2 {
        !regs.carry()
    } else {
        regs.carry()
    }
}

/// Does ADD, ADC, SUB, SBC, AND, XOR, OR or CP.
fn alu(regs: &mut Registers, f: u8, d: u8)
    ensures
        forall|bus: ConsoleView|
            machine(*final(regs), bus) == #[trigger] machine(*old(regs), bus).alu(f, d),
        final(regs).wf(),
{
    if f == 0 {
        regs.add(d);
    } else if f == 1 {
        regs.adc(d);
    } else if f == 2 {
        regs.sub(d);
    } else if f == 3 {
        regs.sbc(d);
    } else if f == 4 {
        regs.and(d);
    } else if f == 5 {
        regs.xor(d);
    } else if f == 6 {
        regs.or(d);
    } else {
        regs.cp(d);
    }
}

/// Pushes a short on the stack.
fn push(regs: &mut Registers, bus: &mut Console, v: u16)
    ensures
        machine(*final(regs), final(bus)@) == machine(*old(regs), old(bus)@).push(v),
        final(regs).f == old(regs).f,
        final(bus)@.same_layout(old(bus)@),
{
    regs.sp = wrapping_dec_16(regs.sp);
    store(bus, regs.sp, (v >> 8) as u8);
    regs.sp = wrapping_dec_16(regs.sp);
    store(bus, regs.sp, (v & 0xFF) as u8);
}

/// Pops a short off the stack.
fn pop(regs: &mut Registers, bus: &Console) -> (v: u16)
    ensures
        v == machine(*old(regs), bus@).top(),
        machine(*final(regs), bus@) == machine(*old(regs), bus@).pop(),
        final(regs).f == old(regs).f,
{
    let lo = load(bus, regs.sp);
    regs.sp = wrapping_inc_16(regs.sp);
    let hi = load(bus, regs.sp);
    regs.sp = wrapping_inc_16(regs.sp);
    ((hi as u16) << 8) | (lo as u16)
}

/// Does a shift or rotation of the prefixed table.
pub fn shift(kind: u8, v: u8, c: u8) -> (r: (u8, bool))
    ensures
        r == shifted(kind, v, c),
{
    if kind == 0 {
        ((v << 1) | (v >> 7), v & 0x80 != 0)
    } else if kind == 1 {
        ((v >> 1) | (v << 7), v & 0x01 != 0)
    } else if kind == 2 {
        ((v << 1) | c, v & 0x80 != 0)
    } else if kind == 3 {
        ((v >> 1) | (c << 7), v & 0x01 != 0)
    } else if kind == 4 {
        (v << 1, v & 0x80 != 0)
    } else if kind == 5 {
        ((v >> 1) | (v & 0x80), v & 0x01 != 0)
    } else if kind == 6 {
        ((v << 4) | (v >> 4), false)
    } else {
        (v >> 1, v & 0x01 != 0)
    }
}

/// The byte of an 8-bit argument.
fn arg_byte(arg: Arg) -> (b: u8)
    ensures
        b == byte_of(arg),
{
    match arg {
        Arg::Data8(b) => b,
        Arg::Addr8(b) => b,
        _ => 0,
    }
}

/// The short of a 16-bit argument.
fn arg_short(arg: Arg) -> (v: u16)
    ensures
        v == short_of(arg),
{
    match arg {
        Arg::Data16(v) => v,
        Arg::Addr16(v) => v,
        _ => 0,
    }
}

/// The displacement of a relative argument.
fn arg_offset(arg: Arg) -> (o: i8)
    ensures
        o == offset_of(arg),
{
    match arg {
        Arg::Offset8(o) => o,
        _ => 0,
    }
}

/// Whether two arguments are of the same kind.
fn same_kind(a: Arg, b: Arg) -> (r: bool)
    ensures
        r == a.same_kind(b),
{
    match a {
        Arg::Nothing => matches!(b, Arg::Nothing),
        Arg::Data8(_) => matches!(b, Arg::Data8(_)),
        Arg::Data16(_) => matches!(b, Arg::Data16(_)),
        Arg::Addr8(_) => matches!(b, Arg::Addr8(_)),
        Arg::Addr16(_) => matches!(b, Arg::Addr16(_)),
        Arg::Offset8(_) => matches!(b, Arg::Offset8(_)),
    }
}

/// The kind of argument that an opcode takes.
fn arg_kind(opcode: u8) -> (r: Arg)
    ensures
        r == arg_of(opcode),
{
    let x = opcode / 64;
    let y = (opcode / 8) % 8;
    let z = opcode % 8;
    if x == 0 {
        if z == 0 {
            if y == 0 {
                Arg::Nothing
            } else if y == 1 {
                Arg::Addr16(0)
            } else if y == 2 {
                Arg::Data8(0)
            } else {
                Arg::Offset8(0)
            }
        } else if z == 1 {
            if y % 2 == 0 {
                Arg::Data16(0)
            } else {
                Arg::Nothing
            }
        } else if z == 6 {
            Arg::Data8(0)
        } else {
            Arg::Nothing
        }
    } else if x == 3 && !undefined(opcode) {
        if z == 0 {
            if y < 4 {
                Arg::Nothing
            } else if y == 4 || y == 6 {
                Arg::Addr8(0)
            } else {
                Arg::Offset8(0)
            }
        } else if z == 2 {
            if y < 4 || y == 5 || y == 7 {
                Arg::Addr16(0)
            } else {
                Arg::Nothing
            }
        } else if z == 3 {
            if y == 0 {
                Arg::Addr16(0)
            } else {
                Arg::Nothing
            }
        } else if z == 4 {
            Arg::Addr16(0)
        } else if z == 5 {
            if y == 1 {
                Arg::Addr16(0)
            } else {
                Arg::Nothing
            }
        } else if z == 6 {
            Arg::Data8(0)
        } else {
            Arg::Nothing
        }
    } else {
        Arg::Nothing
    }
}

/// Whether the processor leaves an opcode undefined.
fn undefined(opcode: u8) -> (r: bool)
    ensures
        r == is_undefined(opcode),
{
    opcode == 0xD3 || opcode == 0xDB || opcode == 0xDD || opcode == 0xE3 || opcode == 0xE4
        || opcode == 0xEB || opcode == 0xEC || opcode == 0xED || opcode == 0xF4 || opcode == 0xFC
        || opcode == 0xFD
}

/// Executes NOP, LD (a16),SP, STOP, JR or JR cc.
fn execute_control0(regs: &mut Registers, bus: &mut Console, y: u8, arg: Arg) -> (taken: bool)
    requires
        y < 8,
    ensures
        (machine(*final(regs), final(bus)@), taken) == machine(*old(regs), old(bus)@).control0(
            y,
            arg,
        ),
        final(regs).f == old(regs).f,
        final(bus)@.same_layout(old(bus)@),
{
    if y == 0 || y == 2 {
        false
    } else if y == 1 {
        let at = arg_short(arg);
        store(bus, at, (regs.sp & 0xFF) as u8);
        store(bus, wrapping_inc_16(at), (regs.sp >> 8) as u8);
        false
    } else if y == 3 || condition(regs, y - 4) {
        regs.pc = add_i8_to_u16(regs.pc, arg_offset(arg));
        y != 3
    } else {
        false
    }
}

/// Executes LD rr,d16 or ADD HL,rr.
fn execute_wide_load(regs: &mut Registers, y: u8, arg: Arg)
    requires
        y < 8,
    ensures
        forall|bus: ConsoleView|
            machine(*final(regs), bus) == #[trigger] machine(*old(regs), bus).wide_load(y, arg),
        old(regs).wf() ==> final(regs).wf(),
{
    if y % 2 == 0 {
        set_wide(regs, y / 2, arg_short(arg));
    } else {
        let source = wide(regs, y / 2);
        regs.add_hl(source);
    }
}

/// Executes LD (rr),A or LD A,(rr).
fn execute_indirect(regs: &mut Registers, bus: &mut Console, y: u8)
    requires
        y < 8,
    ensures
        machine(*final(regs), final(bus)@) == machine(*old(regs), old(bus)@).indirect(y),
        final(regs).f == old(regs).f,
        final(bus)@.same_layout(old(bus)@),
{
    let p = y / 2;
    let at = if p == 0 {
        regs.get_bc()
    } else if p == 1 {
        regs.get_de()
    } else {
        regs.get_hl()
    };
    if y % 2 == 0 {
        store(bus, at, regs.a.0);
    } else {
        let b = load(bus, at);
        regs.a.load(b);
    }
    if p == 2 {
        regs.set_hl(wrapping_inc_16(at));
    } else if p == 3 {
        regs.set_hl(wrapping_dec_16(at));
    }
}

/// Executes INC rr or DEC rr.
fn execute_wide_step(regs: &mut Registers, y: u8)
    requires
        y < 8,
    ensures
        forall|bus: ConsoleView|
            machine(*final(regs), bus) == #[trigger] machine(*old(regs), bus).wide_step(y),
        final(regs).f == old(regs).f,
{
    let v = wide(regs, y / 2);
    if y % 2 == 0 {
        set_wide(regs, y / 2, wrapping_inc_16(v));
    } else {
        set_wide(regs, y / 2, wrapping_dec_16(v));
    }
}

/// Executes INC of an 8-bit operand.
fn execute_inc8(regs: &mut Registers, bus: &mut Console, sel: u8)
    ensures
        machine(*final(regs), final(bus)@) == machine(*old(regs), old(bus)@).inc8(sel),
        final(regs).wf(),
        final(bus)@.same_layout(old(bus)@),
{
    let v = operand(regs, bus, sel);
    let r = v.wrapping_add(1);
    set_operand(regs, bus, sel, r);
    regs.set_flags(Some(r == 0), Some(false), Some(Registers::half_carry_occurred(v, 1)), None);
}

/// Executes DEC of an 8-bit operand.
fn execute_dec8(regs: &mut Registers, bus: &mut Console, sel: u8)
    ensures
        machine(*final(regs), final(bus)@) == machine(*old(regs), old(bus)@).dec8(sel),
        final(regs).wf(),
        final(bus)@.same_layout(old(bus)@),
{
    let v = operand(regs, bus, sel);
    let r = v.wrapping_sub(1);
    set_operand(regs, bus, sel, r);
    regs.set_flags(Some(r == 0), Some(true), Some(Registers::half_borrow_occurred(v, 1)), None);
}

/// Executes RLCA, RRCA, RLA, RRA, DAA, CPL, SCF or CCF.
fn execute_accumulator(regs: &mut Registers, y: u8)
    requires
        y < 8,
    ensures
        forall|bus: ConsoleView|
            machine(*final(regs), bus) == #[trigger] machine(*old(regs), bus).accumulator(y),
        final(regs).wf(),
{
    if y == 0 {
        regs.rlca();
    } else if y == 1 {
        regs.rrca();
    } else if y == 2 {
        regs.rla();
    } else if y == 3 {
        regs.rra();
    } else if y == 4 {
        regs.daa();
    } else if y == 5 {
        regs.cpl();
    } else if y == 6 {
        regs.set_flags(None, Some(false), Some(false), Some(true));
    } else {
        let c = regs.carry();
        regs.set_flags(None, Some(false), Some(false), Some(!c));
    }
}

/// Executes an opcode of 0x00-0x3F.
fn execute_block0(regs: &mut Registers, bus: &mut Console, y: u8, z: u8, arg: Arg) -> (taken: bool)
    requires
        y < 8,
        z < 8,
    ensures
        (machine(*final(regs), final(bus)@), taken) == machine(*old(regs), old(bus)@).block0(
            y,
            z,
            arg,
        ),
        old(regs).wf() ==> final(regs).wf(),
        final(bus)@.same_layout(old(bus)@),
{
    if z == 0 {
        execute_control0(regs, bus, y, arg)
    } else if z == 1 {
        execute_wide_load(regs, y, arg);
        false
    } else if z == 2 {
        execute_indirect(regs, bus, y);
        false
    } else if z == 3 {
        execute_wide_step(regs, y);
        false
    } else if z == 4 {
        execute_inc8(regs, bus, y);
        false
    } else if z == 5 {
        execute_dec8(regs, bus, y);
        false
    } else if z == 6 {
        set_operand(regs, bus, y, arg_byte(arg));
        false
    } else {
        execute_accumulator(regs, y);
        false
    }
}

/// Executes an opcode of 0x40-0x7F.
fn execute_block1(regs: &mut Registers, bus: &mut Console, y: u8, z: u8)
    requires
        y < 8,
        z < 8,
    ensures
        machine(*final(regs), final(bus)@) == machine(*old(regs), old(bus)@).block1(y, z),
        final(regs).f == old(regs).f,
        final(bus)@.same_layout(old(bus)@),
{
    if !(y == 6 && z == 6) {
        let v = operand(regs, bus, z);
        set_operand(regs, bus, y, v);
    }
}

/// Executes an opcode of 0x80-0xBF.
fn execute_block2(regs: &mut Registers, bus: &Console, y: u8, z: u8)
    requires
        y < 8,
        z < 8,
    ensures
        machine(*final(regs), bus@) == machine(*old(regs), bus@).block2(y, z),
        final(regs).wf(),
{
    let v = operand(regs, bus, z);
    alu(regs, y, v);
}

/// Executes RET cc, LDH (a8),A, ADD SP,r8, LDH A,(a8) or LD HL,SP+r8.
fn execute_control3(regs: &mut Registers, bus: &mut Console, y: u8, arg: Arg) -> (taken: bool)
    requires
        y < 8,
    ensures
        (machine(*final(regs), final(bus)@), taken) == machine(*old(regs), old(bus)@).control3(
            y,
            arg,
        ),
        final(regs).f == old(regs).f,
        final(bus)@.same_layout(old(bus)@),
{
    if y < 4 {
        if condition(regs, y) {
            let target = pop(regs, bus);
            regs.pc = target;
            true
        } else {
            false
        }
    } else if y == 4 {
        store(bus, 0xFF00u16 + (arg_byte(arg) as u16), regs.a.0);
        false
    } else if y == 5 {
        regs.sp = add_i8_to_u16(regs.sp, arg_offset(arg));
        false
    } else if y == 6 {
        let b = load(bus, 0xFF00u16 + (arg_byte(arg) as u16));
        regs.a.load(b);
        false
    } else {
        let v = add_i8_to_u16(regs.sp, arg_offset(arg));
        regs.set_hl(v);
        false
    }
}

/// Executes POP rr, RET, RETI, JP (HL) or LD SP,HL.
fn execute_unstack(regs: &mut Registers, bus: &Console, y: u8)
    requires
        y < 8,
    ensures
        machine(*final(regs), bus@) == machine(*old(regs), bus@).unstack(y),
        old(regs).wf() ==> final(regs).wf(),
{
    let p = y / 2;
    if y % 2 == 0 {
        let v = pop(regs, bus);
        set_stacked(regs, p, v);
    } else if p == 0 || p == 1 {
        let target = pop(regs, bus);
        regs.pc = target;
    } else if p == 2 {
        regs.pc = regs.get_hl();
    } else {
        regs.sp = regs.get_hl();
    }
}

/// Executes JP cc,a16, LD (C),A, LD (a16),A, LD A,(C) or LD A,(a16).
fn execute_jump_or_high(regs: &mut Registers, bus: &mut Console, y: u8, arg: Arg) -> (taken: bool)
    requires
        y < 8,
    ensures
        (machine(*final(regs), final(bus)@), taken) == machine(
            *old(regs),
            old(bus)@,
        ).jump_or_high(y, arg),
        final(regs).f == old(regs).f,
        final(bus)@.same_layout(old(bus)@),
{
    if y < 4 {
        if condition(regs, y) {
            regs.pc = arg_short(arg);
            true
        } else {
            false
        }
    } else if y == 4 {
        store(bus, 0xFF00u16 + (regs.c.0 as u16), regs.a.0);
        false
    } else if y == 5 {
        store(bus, arg_short(arg), regs.a.0);
        false
    } else if y == 6 {
        let b = load(bus, 0xFF00u16 + (regs.c.0 as u16));
        regs.a.load(b);
        false
    } else {
        let b = load(bus, arg_short(arg));
        regs.a.load(b);
        false
    }
}

/// Executes a call: pushes the program counter and replaces it.
fn execute_call(regs: &mut Registers, bus: &mut Console, target: u16)
    ensures
        machine(*final(regs), final(bus)@) == machine(*old(regs), old(bus)@).call(target),
        final(regs).f == old(regs).f,
        final(bus)@.same_layout(old(bus)@),
{
    push(regs, bus, regs.pc);
    regs.pc = target;
}

/// Executes a defined opcode of 0xC0-0xFF.
fn execute_block3(regs: &mut Registers, bus: &mut Console, y: u8, z: u8, arg: Arg) -> (taken: bool)
    requires
        y < 8,
        z < 8,
    ensures
        (machine(*final(regs), final(bus)@), taken) == machine(*old(regs), old(bus)@).block3(
            y,
            z,
            arg,
        ),
        old(regs).wf() ==> final(regs).wf(),
        final(bus)@.same_layout(old(bus)@),
{
    if z == 0 {
        execute_control3(regs, bus, y, arg)
    } else if z == 1 {
        execute_unstack(regs, bus, y);
        false
    } else if z == 2 {
        execute_jump_or_high(regs, bus, y, arg)
    } else if z == 3 {
        if y == 0 {
            regs.pc = arg_short(arg);
        }
        false
    } else if z == 4 {
        if condition(regs, y) {
            execute_call(regs, bus, arg_short(arg));
            true
        } else {
            false
        }
    } else if z == 5 {
        if y % 2 == 0 {
            let v = stacked(regs, y / 2);
            push(regs, bus, v);
        } else {
            execute_call(regs, bus, arg_short(arg));
        }
        false
    } else if z == 6 {
        alu(regs, y, arg_byte(arg));
        false
    } else {
        execute_call(regs, bus, (y as u16) * 8);
        false
    }
}

/// Builds the report on an undefined opcode.
fn undefined_error(opcode: u8) -> (e: String)
    ensures
        e@ == undefined_text(opcode),
{
    let mut e = String::from_str("Undefined opcode 0x");
    push_hex(&mut e, opcode as usize, 2);
    e
}

/// Builds the report on an argument of the wrong kind.
fn mismatch_error(opcode: u8) -> (e: String)
    ensures
        e@ == mismatch_text(opcode),
{
    let mut e = String::from_str("Wrong argument for opcode 0x");
    push_hex(&mut e, opcode as usize, 2);
    e
}

impl Cpu {
    /// The CPU when the console is switched on: every register is zero and
    /// the first step reads an opcode at address 0.
    pub fn init() -> (cpu: Cpu)
        ensures
            cpu@ == (CpuView {
                state: CpuState::OpRead(OpRead::General),
                instruction: table_entry(0),
                registers: Registers::init_value(),
                disable_interrupts: false,
                enable_interrupts: false,
                last_cycles: 0,
            }),
            cpu@.wf(),
            cpu.registers.wf(),
    {
        Cpu {
            state: CpuState::OpRead(OpRead::General),
            instruction: Instruction::from_opcode(0),
            registers: Registers::init(),
            disable_interrupts: false,
            enable_interrupts: false,
            last_cycles: 0,
        }
    }

    /// Whether the argument is of the kind that the opcode takes.
    fn fits(&self) -> (r: bool)
        ensures
            r == self.instruction.arg.same_kind(arg_of(self.instruction.opcode)),
    {
        same_kind(self.instruction.arg, arg_kind(self.instruction.opcode))
    }

    /// One step of the CPU. While an instruction is being read, the step
    /// reads the byte at the program counter and moves the program counter
    /// past it. Once the instruction is complete, the step executes it.
    ///
    /// The step fails, and changes nothing, when the instruction to execute
    /// has an opcode that the processor does not define, or when the state
    /// and the instruction do not go together.
    pub fn step(&mut self, bus: &mut Console) -> (r: Result<(), String>)
        ensures
            r is Ok <==> old(self)@.fault() is None,
            r matches Err(e) ==> Some(e@) == old(self)@.fault() && final(self)@ == old(self)@
                && final(bus)@ == old(bus)@,
            r is Ok ==> Some((final(self)@, final(bus)@)) == old(self)@.step(old(bus)@),
            r is Ok ==> final(self)@.wf(),
            old(self)@.wf() ==> (r is Err <==> old(self).state is Exec && !old(
                self,
            ).instruction.prefixed && is_undefined(old(self).instruction.opcode)),
            old(self).registers.wf() ==> final(self).registers.wf(),
            final(bus)@.same_layout(old(bus)@),
            old(bus)@.wf() ==> final(bus)@.wf(),
    {
        match self.state {
            CpuState::OpRead(OpRead::General) => {
                let opcode = load(bus, self.registers.pc);
                self.instruction = Instruction::from_opcode(opcode);
                self.state = if opcode == 0xCB {
                    CpuState::OpRead(OpRead::PrefixCB)
                } else {
                    match self.instruction.arg {
                        Arg::Nothing => CpuState::Exec,
                        Arg::Addr8(_) | Arg::Data8(_) | Arg::Offset8(_) => CpuState::DataRead(
                            DataRead::Byte,
                        ),
                        Arg::Addr16(_) | Arg::Data16(_) => CpuState::DataRead(DataRead::ShortLo),
                    }
                };
                self.registers.pc = wrapping_inc_16(self.registers.pc);
                Ok(())
            },
            CpuState::OpRead(OpRead::PrefixCB) => {
                let opcode = load(bus, self.registers.pc);
                self.instruction = Instruction::prefixed(opcode, "");
                proof {
                    reveal_strlit("");
                    assert(""@ =~= Seq::<char>::empty());
                }
                self.state = CpuState::Exec;
                self.registers.pc = wrapping_inc_16(self.registers.pc);
                Ok(())
            },
            CpuState::DataRead(DataRead::Byte) => {
                if self.instruction.prefixed || !self.fits() {
                    return Err(mismatch_error(self.instruction.opcode));
                }
                let byte = load(bus, self.registers.pc);
                match self.instruction.arg {
                    Arg::Addr8(_) => {
                        self.instruction.arg = Arg::Addr8(byte);
                    },
                    Arg::Data8(_) => {
                        self.instruction.arg = Arg::Data8(byte);
                    },
                    Arg::Offset8(_) => {
                        self.instruction.arg = Arg::Offset8(to_signed(byte));
                    },
                    _ => {
                        return Err(mismatch_error(self.instruction.opcode));
                    },
                }
                self.state = CpuState::Exec;
                self.registers.pc = wrapping_inc_16(self.registers.pc);
                Ok(())
            },
            CpuState::DataRead(DataRead::ShortLo) => {
                if self.instruction.prefixed || !self.fits() {
                    return Err(mismatch_error(self.instruction.opcode));
                }
                let byte = load(bus, self.registers.pc);
                match self.instruction.arg {
                    Arg::Addr16(_) => {
                        self.instruction.arg = Arg::Addr16(byte as u16);
                    },
                    Arg::Data16(_) => {
                        self.instruction.arg = Arg::Data16(byte as u16);
                    },
                    _ => {
                        return Err(mismatch_error(self.instruction.opcode));
                    },
                }
                self.state = CpuState::DataRead(DataRead::ShortHi);
                self.registers.pc = wrapping_inc_16(self.registers.pc);
                Ok(())
            },
            CpuState::DataRead(DataRead::ShortHi) => {
                if self.instruction.prefixed || !self.fits() {
                    return Err(mismatch_error(self.instruction.opcode));
                }
                let byte = load(bus, self.registers.pc);
                match self.instruction.arg {
                    Arg::Addr16(lo) => {
                        self.instruction.arg = Arg::Addr16(((byte as u16) << 8) | lo);
                    },
                    Arg::Data16(lo) => {
                        self.instruction.arg = Arg::Data16(((byte as u16) << 8) | lo);
                    },
                    _ => {
                        return Err(mismatch_error(self.instruction.opcode));
                    },
                }
                self.state = CpuState::Exec;
                self.registers.pc = wrapping_inc_16(self.registers.pc);
                Ok(())
            },
            CpuState::Exec => {
                let di = self.disable_interrupts;
                let ei = self.enable_interrupts;
                if self.instruction.prefixed {
                    self.execute_prefixed_instruction(bus)?;
                } else {
                    self.execute_instruction(bus)?;
                }
                if di {
                    self.disable_interrupts = false;
                }
                if ei {
                    self.enable_interrupts = false;
                }
                self.state = CpuState::OpRead(OpRead::General);
                Ok(())
            },
        }
    }

    /// Executes the instruction of the main table that the CPU holds, and
    /// charges its cycles. Fails, and changes nothing, when the opcode is
    /// undefined or the argument is not of the kind that the opcode takes.
    pub fn execute_instruction(&mut self, bus: &mut Console) -> (r: Result<(), String>)
        ensures
            r is Ok <==> !is_undefined(old(self).instruction.opcode) && old(
                self,
            ).instruction.arg.same_kind(arg_of(old(self).instruction.opcode)),
            r is Ok ==> (final(self)@, final(bus)@) == old(self)@.run_unprefixed(old(bus)@),
            r matches Err(e) ==> final(self)@ == old(self)@ && final(bus)@ == old(bus)@ && e@ == (
            if is_undefined(old(self).instruction.opcode) {
                undefined_text(old(self).instruction.opcode)
            } else {
                mismatch_text(old(self).instruction.opcode)
            }),
            old(self).registers.wf() ==> final(self).registers.wf(),
            final(bus)@.same_layout(old(bus)@),
    {
        let opcode = self.instruction.opcode;
        let arg = self.instruction.arg;
        if undefined(opcode) {
            return Err(undefined_error(opcode));
        }
        if !self.fits() {
            return Err(mismatch_error(opcode));
        }
        let x = opcode / 64;
        let y = (opcode / 8) % 8;
        let z = opcode % 8;
        let taken = if x == 0 {
            execute_block0(&mut self.registers, bus, y, z, arg)
        } else if x == 1 {
            execute_block1(&mut self.registers, bus, y, z);
            false
        } else if x == 2 {
            execute_block2(&mut self.registers, bus, y, z);
            false
        } else {
            execute_block3(&mut self.registers, bus, y, z, arg)
        };
        if opcode == 0xF3 {
            self.disable_interrupts = true;
        }
        if opcode == 0xFB || opcode == 0xD9 {
            self.enable_interrupts = true;
        }
        let cycles = if taken {
            self.instruction.cycles.1
        } else {
            self.instruction.cycles.0
        };
        self.pause_for_cycles(cycles);
        Ok(())
    }

    /// Executes the instruction of the prefixed table that the CPU holds,
    /// and charges its cycles. The opcode is read as five bits that say
    /// what to do and three bits that say to which operand.
    pub fn execute_prefixed_instruction(&mut self, bus: &mut Console) -> (r: Result<(), String>)
        ensures
            r is Ok,
            (final(self)@, final(bus)@) == old(self)@.run_prefixed(old(bus)@),
            old(self).registers.wf() ==> final(self).registers.wf(),
            final(bus)@.same_layout(old(bus)@),
    {
        let opcode = self.instruction.opcode;
        let f = opcode / 8;
        let t = opcode % 8;
        let v = operand(&self.registers, bus, t);
        if f < 8 {
            let (r, c) = shift(f, v, self.registers.carry_bit());
            set_operand(&mut self.registers, bus, t, r);
            self.registers.set_flags(Some(r == 0), Some(false), Some(false), Some(c));
        } else if f < 16 {
            self.registers.set_flags(
                Some(v & (1u8 << (f - 8)) == 0),
                Some(false),
                Some(true),
                None,
            );
        } else if f < 24 {
            set_operand(&mut self.registers, bus, t, v & !(1u8 << (f - 16)));
        } else {
            set_operand(&mut self.registers, bus, t, v | (1u8 << (f - 24)));
        }
        let cycles = self.instruction.cycles.0;
        self.pause_for_cycles(cycles);
        Ok(())
    }

    /// Takes the cycles that an instruction cost. The CPU does not wait: it
    /// keeps the count, and whoever drives the CPU may wait that long
    /// before the next step.
    pub fn pause_for_cycles(&mut self, cycles: usize)
        ensures
            final(self)@ == (CpuView { last_cycles: cycles, ..old(self)@ }),
    {
        self.last_cycles = cycles;
    }

    /// Pushes a short on the stack: the high byte goes to SP - 1, the low
    /// byte to SP - 2, and SP ends two lower.
    pub fn push_stack(&mut self, bus: &mut Console, addr: u16)
        ensures
            machine(final(self).registers, final(bus)@) == machine(
                old(self).registers,
                old(bus)@,
            ).push(addr),
            final(self)@ == (CpuView { registers: final(self).registers, ..old(self)@ }),
            final(bus)@.same_layout(old(bus)@),
    {
        push(&mut self.registers, bus, addr);
    }

    /// Pops a short off the stack: the low byte comes from SP, the high
    /// byte from SP + 1, and SP ends two higher.
    pub fn pop_stack(&mut self, bus: &Console) -> (v: u16)
        ensures
            v == machine(old(self).registers, bus@).top(),
            final(self).registers == machine(old(self).registers, bus@).pop().regs,
            final(self)@ == (CpuView { registers: final(self).registers, ..old(self)@ }),
    {
        pop(&mut self.registers, bus)
    }
}

/// An address at which the console keeps the byte written there: one in a
/// RAM of its own.
pub open spec fn keeps_bytes(addr: u16) -> bool {
    (0x8000 <= addr <= 0x9FFF) || (0xC000 <= addr <= 0xFE9F) || (0xFF00 <= addr <= 0xFFFE)
}

/// A push followed by a pop gives back the value pushed and leaves the stack
/// pointer, and every other register, as it was, wherever the two bytes of the
/// stack lie in the RAM of the console.
pub proof fn law_push_then_pop(m: Machine, v: u16)
    requires
        m.bus.wf(),
        keeps_bytes(wrap16(m.regs.sp - 1)),
        keeps_bytes(wrap16(m.regs.sp - 2)),
    ensures
        m.push(v).top() == v,
        m.push(v).pop().regs.sp == m.regs.sp,
        m.push(v).pop().regs == m.regs,
{
    let first = wrap16(m.regs.sp - 1);
    let second = wrap16(m.regs.sp - 2);
    let pushed = m.push(v);
    assert(pushed.regs.sp == second);
    assert(wrap16(second + 1) == first);
    assert(wrap16(second + 2) == m.regs.sp);
    let one = m.bus.write(first, high(v));
    assert(one.wf());
    assert(one.read(first) == Some(high(v)));
    assert(pushed.bus == one.write(second, low(v)));
    assert(pushed.bus.read(second) == Some(low(v)));
    assert(pushed.bus.read(first) == Some(high(v)));
    super::registers::lemma_pair_split(0, 0, v);
}

/// The byte and the carry, as 0 or 1, after `n` shifts or rotations of one
/// kind of the prefixed table.
pub open spec fn shifted_times(kind: u8, v: u8, c: u8, n: nat) -> (u8, u8)
    decreases n,
{
    if n == 0 {
        (v, c)
    } else {
        let before = shifted_times(kind, v, c, (n - 1) as nat);
        let after = shifted(kind, before.0, before.1);
        (
            after.0,
            if after.1 {
                1u8
            } else {
                0u8
            },
        )
    }
}

proof fn lemma_eight_rotations(v: u8)
    by (bit_vector)
    ensures
        rot_left_8(
            rot_left_8(
                rot_left_8(rot_left_8(rot_left_8(rot_left_8(rot_left_8(rot_left_8(v)))))),
            ),
        ) == v,
        rot_right_8(
            rot_right_8(
                rot_right_8(rot_right_8(rot_right_8(rot_right_8(rot_right_8(rot_right_8(v)))))),
            ),
        ) == v,
        swap_nibbles(swap_nibbles(v)) == v,
        (((((((((v << 1) << 1) << 1) << 1) << 1) << 1) << 1) << 1) as u8) == 0,
        (((((((((v >> 1) >> 1) >> 1) >> 1) >> 1) >> 1) >> 1) >> 1) as u8) == 0,
{
}

proof fn lemma_left_through_carry(
    b0: u8,
    c0: u8,
    b1: u8,
    c1: u8,
    b2: u8,
    c2: u8,
    b3: u8,
    c3: u8,
    b4: u8,
    c4: u8,
    b5: u8,
    c5: u8,
    b6: u8,
    c6: u8,
    b7: u8,
    c7: u8,
    b8: u8,
    c8: u8,
    b9: u8,
    c9: u8,
)
    by (bit_vector)
    requires
        c0 <= 1,
        b1 == (b0 << 1) | c0 && c1 == (if b0 & 0x80 != 0 { 1u8 } else { 0u8 }),
        b2 == (b1 << 1) | c1 && c2 == (if b1 & 0x80 != 0 { 1u8 } else { 0u8 }),
        b3 == (b2 << 1) | c2 && c3 == (if b2 & 0x80 != 0 { 1u8 } else { 0u8 }),
        b4 == (b3 << 1) | c3 && c4 == (if b3 & 0x80 != 0 { 1u8 } else { 0u8 }),
        b5 == (b4 << 1) | c4 && c5 == (if b4 & 0x80 != 0 { 1u8 } else { 0u8 }),
        b6 == (b5 << 1) | c5 && c6 == (if b5 & 0x80 != 0 { 1u8 } else { 0u8 }),
        b7 == (b6 << 1) | c6 && c7 == (if b6 & 0x80 != 0 { 1u8 } else { 0u8 }),
        b8 == (b7 << 1) | c7 && c8 == (if b7 & 0x80 != 0 { 1u8 } else { 0u8 }),
        b9 == (b8 << 1) | c8 && c9 == (if b8 & 0x80 != 0 { 1u8 } else { 0u8 }),
    ensures
        b9 == b0,
        c9 == c0,
        b8 == b0 <==> (b0 == 0x00 && c0 == 0) || (b0 == 0xFF && c0 == 1),
{
}

proof fn lemma_right_through_carry(
    b0: u8,
    c0: u8,
    b1: u8,
    c1: u8,
    b2: u8,
    c2: u8,
    b3: u8,
    c3: u8,
    b4: u8,
    c4: u8,
    b5: u8,
    c5: u8,
    b6: u8,
    c6: u8,
    b7: u8,
    c7: u8,
    b8: u8,
    c8: u8,
    b9: u8,
    c9: u8,
)
    by (bit_vector)
    requires
        c0 <= 1,
        b1 == (b0 >> 1) | (c0 << 7) && c1 == (if b0 & 0x01 != 0 { 1u8 } else { 0u8 }),
        b2 == (b1 >> 1) | (c1 << 7) && c2 == (if b1 & 0x01 != 0 { 1u8 } else { 0u8 }),
        b3 == (b2 >> 1) | (c2 << 7) && c3 == (if b2 & 0x01 != 0 { 1u8 } else { 0u8 }),
        b4 == (b3 >> 1) | (c3 << 7) && c4 == (if b3 & 0x01 != 0 { 1u8 } else { 0u8 }),
        b5 == (b4 >> 1) | (c4 << 7) && c5 == (if b4 & 0x01 != 0 { 1u8 } else { 0u8 }),
        b6 == (b5 >> 1) | (c5 << 7) && c6 == (if b5 & 0x01 != 0 { 1u8 } else { 0u8 }),
        b7 == (b6 >> 1) | (c6 << 7) && c7 == (if b6 & 0x01 != 0 { 1u8 } else { 0u8 }),
        b8 == (b7 >> 1) | (c7 << 7) && c8 == (if b7 & 0x01 != 0 { 1u8 } else { 0u8 }),
        b9 == (b8 >> 1) | (c8 << 7) && c9 == (if b8 & 0x01 != 0 { 1u8 } else { 0u8 }),
    ensures
        b9 == b0,
        c9 == c0,
        b8 == b0 <==> (b0 == 0x00 && c0 == 0) || (b0 == 0xFF && c0 == 1),
{
}

/// RLC and RRC move the eight bits of a byte round in a ring: eight of
/// either give the byte back.
pub proof fn law_eight_rlc_or_rrc(v: u8, c: u8)
    ensures
        shifted_times(0, v, c, 8).0 == v,
        shifted_times(1, v, c, 8).0 == v,
{
    reveal_with_fuel(shifted_times, 9);
    lemma_eight_rotations(v);
}

/// SWAP exchanges the nibbles: two of them, and so eight of them, give the
/// byte back.
pub proof fn law_two_swaps(v: u8, c: u8)
    ensures
        shifted_times(6, v, c, 2).0 == v,
        shifted_times(6, v, c, 8).0 == v,
{
    reveal_with_fuel(shifted_times, 9);
    lemma_eight_rotations(v);
    lemma_eight_rotations(swap_nibbles(v));
}

/// SLA and SRL move zeros in: eight of either leave zero, which is the byte
/// they started from only when that was zero.
pub proof fn law_eight_sla_or_srl(v: u8, c: u8)
    ensures
        shifted_times(4, v, c, 8).0 == 0,
        shifted_times(7, v, c, 8).0 == 0,
        shifted_times(4, v, c, 8).0 == v <==> v == 0,
        shifted_times(7, v, c, 8).0 == v <==> v == 0,
{
    reveal_with_fuel(shifted_times, 9);
    lemma_eight_rotations(v);
}

/// RL and RR move the eight bits of a byte and the carry round in a ring
/// of nine: nine of either give the byte and the carry back. Eight of either
/// give the byte back only where all nine bits are the same.
pub proof fn law_nine_rl_or_rr(v: u8, c: u8)
    requires
        c <= 1,
    ensures
        shifted_times(2, v, c, 9) == (v, c),
        shifted_times(3, v, c, 9) == (v, c),
        shifted_times(2, v, c, 8).0 == v <==> (v == 0x00 && c == 0) || (v == 0xFF && c == 1),
        shifted_times(3, v, c, 8).0 == v <==> (v == 0x00 && c == 0) || (v == 0xFF && c == 1),
{
    reveal_with_fuel(shifted_times, 10);
    let l1 = shifted_times(2, v, c, 1);
    let l2 = shifted_times(2, v, c, 2);
    let l3 = shifted_times(2, v, c, 3);
    let l4 = shifted_times(2, v, c, 4);
    let l5 = shifted_times(2, v, c, 5);
    let l6 = shifted_times(2, v, c, 6);
    let l7 = shifted_times(2, v, c, 7);
    let l8 = shifted_times(2, v, c, 8);
    let l9 = shifted_times(2, v, c, 9);
    lemma_left_through_carry(
        v, c, l1.0, l1.1, l2.0, l2.1, l3.0, l3.1, l4.0, l4.1, l5.0, l5.1, l6.0, l6.1, l7.0, l7.1,
        l8.0, l8.1, l9.0, l9.1,
    );
    let r1 = shifted_times(3, v, c, 1);
    let r2 = shifted_times(3, v, c, 2);
    let r3 = shifted_times(3, v, c, 3);
    let r4 = shifted_times(3, v, c, 4);
    let r5 = shifted_times(3, v, c, 5);
    let r6 = shifted_times(3, v, c, 6);
    let r7 = shifted_times(3, v, c, 7);
    let r8 = shifted_times(3, v, c, 8);
    let r9 = shifted_times(3, v, c, 9);
    lemma_right_through_carry(
        v, c, r1.0, r1.1, r2.0, r2.1, r3.0, r3.1, r4.0, r4.1, r5.0, r5.1, r6.0, r6.1, r7.0, r7.1,
        r8.0, r8.1, r9.0, r9.1,
    );
}

/// On a CPU whose state and instruction go together, a step fails only on
/// an undefined opcode, and the state and instruction go together after
/// every step that does not fail.
pub proof fn law_steps_keep_the_cpu_consistent(cpu: CpuView, bus: ConsoleView)
    requires
        cpu.wf(),
    ensures
        cpu.step(bus) is None <==> cpu.state is Exec && !cpu.instruction.prefixed && is_undefined(
            cpu.instruction.opcode,
        ),
        cpu.step(bus) matches Some(after) ==> after.0.wf(),
{
    if cpu.state == CpuState::OpRead(OpRead::General) {
        let byte = loaded(bus, cpu.registers.pc);
        assert(table_entry(byte).arg.same_kind(arg_of(byte)));
    }
}

/// What every instruction keeps of a machine: the low nibble of F is zero
/// where it was zero before, no byte of the ROM changes, and every region
/// keeps its size.
pub open spec fn kept(before: Machine, after: Machine) -> bool {
    &&& before.regs.wf() ==> after.regs.wf()
    &&& after.bus.same_layout(before.bus)
}

/// Flags that are written leave the low nibble of F zero, and AF written
/// keeps it zero.
proof fn lemma_flags_keep()
    ensures
        forall|r: Registers, z: bool, n: bool, h: bool, c: bool| #[trigger]
            r.with_flags(z, n, h, c).wf(),
        forall|r: Registers, v: u16| #[trigger] r.with_af(v).wf(),
{
    assert forall|r: Registers, z: bool, n: bool, h: bool, c: bool| #[trigger]
        r.with_flags(z, n, h, c).wf() by {
        super::registers::lemma_pack_flags(z, n, h, c);
    }
    assert forall|r: Registers, v: u16| #[trigger] r.with_af(v).wf() by {
        let f = low(v);
        assert((f & 0xF0) & 0x0F == 0) by (bit_vector);
    }
}

proof fn lemma_store_keeps(m: Machine, addr: u16, v: u8)
    ensures
        kept(m, m.store(addr, v)),
        m.store(addr, v).regs == m.regs,
{
    super::console::law_write_keeps_the_rom(m.bus, addr, v);
}

proof fn lemma_with_operand_keeps(m: Machine, sel: u8, v: u8)
    ensures
        kept(m, m.with_operand(sel, v)),
        m.with_operand(sel, v).regs.f == m.regs.f,
{
    lemma_store_keeps(m, m.regs.spec_get_hl(), v);
}

proof fn lemma_push_keeps(m: Machine, v: u16)
    ensures
        kept(m, m.push(v)),
        kept(m, m.call(v)),
{
    let first = wrap16(m.regs.sp - 1);
    let second = wrap16(m.regs.sp - 2);
    lemma_store_keeps(m, first, high(m.regs.pc));
    lemma_store_keeps(m.store(first, high(m.regs.pc)), second, low(m.regs.pc));
    lemma_store_keeps(m, first, high(v));
    lemma_store_keeps(m.store(first, high(v)), second, low(v));
}

proof fn lemma_alu_keeps(m: Machine, f: u8, d: u8)
    ensures
        kept(m, m.alu(f, d)),
{
    lemma_flags_keep();
}

proof fn lemma_control0_keeps(m: Machine, y: u8, arg: Arg)
    ensures
        kept(m, m.control0(y, arg).0),
{
    let at = short_of(arg);
    lemma_store_keeps(m, at, low(m.regs.sp));
    lemma_store_keeps(m.store(at, low(m.regs.sp)), wrap16(at + 1), high(m.regs.sp));
}

proof fn lemma_wide_load_keeps(m: Machine, y: u8, arg: Arg)
    ensures
        kept(m, m.wide_load(y, arg)),
{
    lemma_flags_keep();
}

proof fn lemma_indirect_keeps(m: Machine, y: u8)
    ensures
        kept(m, m.indirect(y)),
{
    lemma_store_keeps(m, m.regs.spec_get_bc(), m.regs.a.0);
    lemma_store_keeps(m, m.regs.spec_get_de(), m.regs.a.0);
    lemma_store_keeps(m, m.regs.spec_get_hl(), m.regs.a.0);
}

proof fn lemma_inc_dec_keeps(m: Machine, sel: u8)
    ensures
        kept(m, m.inc8(sel)),
        kept(m, m.dec8(sel)),
{
    lemma_flags_keep();
    lemma_with_operand_keeps(m, sel, wrap8(m.operand(sel) + 1));
    lemma_with_operand_keeps(m, sel, wrap8(m.operand(sel) - 1));
}

proof fn lemma_accumulator_keeps(m: Machine, y: u8)
    ensures
        kept(m, m.accumulator(y)),
{
    lemma_flags_keep();
}

proof fn lemma_block0_keeps(m: Machine, y: u8, z: u8, arg: Arg)
    ensures
        kept(m, m.block0(y, z, arg).0),
{
    lemma_control0_keeps(m, y, arg);
    lemma_wide_load_keeps(m, y, arg);
    lemma_indirect_keeps(m, y);
    lemma_inc_dec_keeps(m, y);
    lemma_with_operand_keeps(m, y, byte_of(arg));
    lemma_accumulator_keeps(m, y);
}

proof fn lemma_block1_keeps(m: Machine, y: u8, z: u8)
    ensures
        kept(m, m.block1(y, z)),
{
    lemma_with_operand_keeps(m, y, m.operand(z));
}

proof fn lemma_block2_keeps(m: Machine, y: u8, z: u8)
    ensures
        kept(m, m.block2(y, z)),
{
    lemma_alu_keeps(m, y, m.operand(z));
}

proof fn lemma_control3_keeps(m: Machine, y: u8, arg: Arg)
    ensures
        kept(m, m.control3(y, arg).0),
{
    lemma_store_keeps(m, (0xFF00 + byte_of(arg)) as u16, m.regs.a.0);
}

proof fn lemma_unstack_keeps(m: Machine, y: u8)
    ensures
        kept(m, m.unstack(y)),
{
    lemma_flags_keep();
}

proof fn lemma_jump_or_high_keeps(m: Machine, y: u8, arg: Arg)
    ensures
        kept(m, m.jump_or_high(y, arg).0),
{
    lemma_store_keeps(m, (0xFF00 + m.regs.c.0) as u16, m.regs.a.0);
    lemma_store_keeps(m, short_of(arg), m.regs.a.0);
}

proof fn lemma_block3_keeps(m: Machine, y: u8, z: u8, arg: Arg)
    ensures
        kept(m, m.block3(y, z, arg).0),
{
    lemma_control3_keeps(m, y, arg);
    lemma_unstack_keeps(m, y);
    lemma_jump_or_high_keeps(m, y, arg);
    lemma_push_keeps(m, m.stacked((y / 2) as u8));
    lemma_push_keeps(m, short_of(arg));
    lemma_push_keeps(m, (y * 8) as u16);
    lemma_alu_keeps(m, y, byte_of(arg));
}

proof fn lemma_prefixed_keeps(m: Machine, opcode: u8)
    ensures
        kept(m, m.prefixed(opcode)),
{
    let f = opcode / 8;
    let t = opcode % 8;
    let v = m.operand(t);
    lemma_flags_keep();
    lemma_with_operand_keeps(m, t, shifted(f, v, m.regs.spec_carry_bit()).0);
    lemma_with_operand_keeps(m, t, v & !(1u8 << ((f - 16) as u8)));
    lemma_with_operand_keeps(m, t, v | (1u8 << ((f - 24) as u8)));
}

/// Whatever state the CPU and the console are in, a step keeps the low
/// nibble of F zero where it was zero, changes no byte of the ROM of the
/// cartridge, and leaves every region of the console of the size it had.
pub proof fn law_steps_keep_flags_and_rom(cpu: CpuView, bus: ConsoleView)
    ensures
        cpu.step(bus) matches Some(after) ==> {
            &&& cpu.registers.wf() ==> after.0.registers.wf()
            &&& after.1.rom() == bus.rom()
            &&& after.1.same_layout(bus)
            &&& bus.wf() ==> after.1.wf()
        },
{
    let m = machine(cpu.registers, bus);
    let op = cpu.instruction.opcode;
    let y = (op / 8) % 8;
    let z = op % 8;
    lemma_block0_keeps(m, y, z, cpu.instruction.arg);
    lemma_block1_keeps(m, y, z);
    lemma_block2_keeps(m, y, z);
    lemma_block3_keeps(m, y, z, cpu.instruction.arg);
    lemma_prefixed_keeps(m, op);
}

} // verus!
