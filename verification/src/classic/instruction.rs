//! The instruction table: for each of the 256 opcodes its mnemonic, the kind
//! of argument that follows it in memory, and what it costs in cycles.

use vstd::prelude::*;

verus! {

/// The argument of an instruction. The table holds each kind with a zero in
/// it; the CPU fills in what it reads.
#[derive(Copy, Clone, Debug, PartialEq, Eq)]
pub enum Arg {
    Nothing,
    Data8(u8),
    Data16(u16),
    Addr8(u8),
    Addr16(u16),
    Offset8(i8),
}

/// One instruction: its opcode, whether the opcode followed the prefix 0xCB,
/// its mnemonic, its argument, and its cost in cycles when a conditional
/// branch is not taken and when it is.
#[derive(Debug)]
pub struct Instruction {
    pub opcode: u8,
    pub prefixed: bool,
    pub mnemonic: String,
    pub arg: Arg,
    pub cycles: (usize, usize),
}

/// An instruction as a plain value.
pub struct InstructionView {
    pub opcode: u8,
    pub prefixed: bool,
    pub mnemonic: Seq<char>,
    pub arg: Arg,
    pub cycles: (usize, usize),
}

impl View for Instruction {
    type V = InstructionView;

    open spec fn view(&self) -> InstructionView {
        InstructionView {
            opcode: self.opcode,
            prefixed: self.prefixed,
            mnemonic: self.mnemonic@,
            arg: self.arg,
            cycles: self.cycles,
        }
    }
}

impl Clone for Instruction {
    fn clone(&self) -> (r: Instruction)
        ensures
            r@ == self@,
    {
        Instruction {
            opcode: self.opcode,
            prefixed: self.prefixed,
            mnemonic: self.mnemonic.clone(),
            arg: self.arg,
            cycles: (self.cycles.0, self.cycles.1),
        }
    }
}

/// The opcodes that the processor does not define.
pub open spec fn is_undefined(opcode: u8) -> bool {
    opcode == 0xD3 || opcode == 0xDB || opcode == 0xDD || opcode == 0xE3 || opcode == 0xE4
        || opcode == 0xEB || opcode == 0xEC || opcode == 0xED || opcode == 0xF4 || opcode == 0xFC
        || opcode == 0xFD
}

/// The kind of argument that follows an opcode, by the bit fields of the
/// opcode: `x` is bits 7-6, `y` bits 5-3 and `z` bits 2-0.
pub open spec fn arg_of(opcode: u8) -> Arg {
    let x = opcode / 64;
    let y = (opcode / 8) % 8;
    let z = opcode % 8;
    if x == 0 {
        if z == 0 {
            if y == 0 {
                Arg::Nothing
            } else if y == 1 {
                Arg::Addr16(0)
            } else if y == 2 {
                Arg::Data8(0)
            } else {
                Arg::Offset8(0)
            }
        } else if z == 1 {
            if y % 2 == 0 {
                Arg::Data16(0)
            } else {
                Arg::Nothing
            }
        } else if z == 6 {
            Arg::Data8(0)
        } else {
            Arg::Nothing
        }
    } else if x == 3 && !is_undefined(opcode) {
        if z == 0 {
            if y < 4 {
                Arg::Nothing
            } else if y == 4 || y == 6 {
                Arg::Addr8(0)
            } else {
                Arg::Offset8(0)
            }
        } else if z == 2 {
            if y < 4 || y == 5 || y == 7 {
                Arg::Addr16(0)
            } else {
                Arg::Nothing
            }
        } else if z == 3 {
            if y == 0 {
                Arg::Addr16(0)
            } else {
                Arg::Nothing
            }
        } else if z == 4 {
            Arg::Addr16(0)
        } else if z == 5 {
            if y == 1 {
                Arg::Addr16(0)
            } else {
                Arg::Nothing
            }
        } else if z == 6 {
            Arg::Data8(0)
        } else {
            Arg::Nothing
        }
    } else {
        Arg::Nothing
    }
}

/// The cost of an opcode in cycles: first when a conditional branch is not
/// taken, then when it is. The two are the same for every other instruction,
/// and both zero for an undefined opcode.
pub open spec fn cycles_of(opcode: u8) -> (usize, usize) {
    let x = opcode / 64;
    let y = (opcode / 8) % 8;
    let z = opcode % 8;
    if is_undefined(opcode) {
        (0, 0)
    } else if x == 0 {
        if z == 0 {
            if y == 0 || y == 2 {
                (4, 4)
            } else if y == 1 {
                (20, 20)
            } else if y == 3 {
                (12, 12)
            } else {
                (8, 12)
            }
        } else if z == 1 {
            if y % 2 == 0 {
                (12, 12)
            } else {
                (8, 8)
            }
        } else if z == 2 || z == 3 {
            (8, 8)
        } else if z == 4 || z == 5 || z == 6 {
            let base: usize = if z == 6 { 8 } else { 4 };
            if y == 6 {
                (12, 12)
            } else {
                (base, base)
            }
        } else {
            (4, 4)
        }
    } else if x == 1 {
        if opcode != 0x76 && (y == 6 || z == 6) {
            (8, 8)
        } else {
            (4, 4)
        }
    } else if x == 2 {
        if z == 6 {
            (8, 8)
        } else {
            (4, 4)
        }
    } else {
        if z == 0 {
            if y < 4 {
                (8, 20)
            } else if y == 5 {
                (16, 16)
            } else {
                (12, 12)
            }
        } else if z == 1 {
            if y % 2 == 0 {
                (12, 12)
            } else if y == 1 || y == 3 {
                (16, 16)
            } else if y == 5 {
                (4, 4)
            } else {
                (8, 8)
            }
        } else if z == 2 {
            if y < 4 {
                (12, 16)
            } else if y == 4 || y == 6 {
                (8, 8)
            } else {
                (16, 16)
            }
        } else if z == 3 {
            if y == 0 {
                (16, 16)
            } else {
                (4, 4)
            }
        } else if z == 4 {
            (12, 24)
        } else if z == 5 {
            if y == 1 {
                (24, 24)
            } else {
                (16, 16)
            }
        } else if z == 6 {
            (8, 8)
        } else {
            (16, 16)
        }
    }
}

/// The mnemonic of an opcode; empty for an undefined opcode.
pub open spec fn mnemonic_of(opcode: u8) -> Seq<char> {
    match opcode {
        0x00 => "nop"@,
        0x01 => "ld BC, <d16>"@,
        0x02 => "ld (BC), A"@,
        0x03 => "inc BC"@,
        0x04 => "inc B"@,
        0x05 => "dec B"@,
        0x06 => "ld B, <d8>"@,
        0x07 => "rlca"@,
        0x08 => "ld (<a16>), SP"@,
        0x09 => "add HL, BC"@,
        0x0A => "ld A, (BC)"@,
        0x0B => "dec BC"@,
        0x0C => "inc C"@,
        0x0D => "dec C"@,
        0x0E => "ld C, <d8>"@,
        0x0F => "rrca"@,
        0x10 => "stop $00"@,
        0x11 => "ld DE, <d16>"@,
        0x12 => "ld (DE), A"@,
        0x13 => "inc DE"@,
        0x14 => "inc D"@,
        0x15 => "dec D"@,
        0x16 => "ld D, <d8>"@,
        0x17 => "rla"@,
        0x18 => "jr <r8>"@,
        0x19 => "add HL, DE"@,
        0x1A => "ld A, (DE)"@,
        0x1B => "dec DE"@,
        0x1C => "inc E"@,
        0x1D => "dec E"@,
        0x1E => "ld E, <d8>"@,
        0x1F => "rra"@,
        0x20 => "jr nz, <r8>"@,
        0x21 => "ld HL, <d16>"@,
        0x22 => "ld (HL+), A"@,
        0x23 => "inc HL"@,
        0x24 => "inc H"@,
        0x25 => "dec H"@,
        0x26 => "ld H, <d8>"@,
        0x27 => "daa"@,
        0x28 => "jr z, <r8>"@,
        0x29 => "add HL, HL"@,
        0x2A => "ld A, (HL+)"@,
        0x2B => "dec HL"@,
        0x2C => "inc L"@,
        0x2D => "dec L"@,
        0x2E => "ld L, <d8>"@,
        0x2F => "cpl"@,
        0x30 => "jr nc, <r8>"@,
        0x31 => "ld SP, <d16>"@,
        0x32 => "ld (HL-), A"@,
        0x33 => "inc SP"@,
        0x34 => "inc (HL)"@,
        0x35 => "dec (HL)"@,
        0x36 => "ld (HL), <d8>"@,
        0x37 => "scf"@,
        0x38 => "jr c, <r8>"@,
        0x39 => "add HL, SP"@,
        0x3A => "ld A, (HL-)"@,
        0x3B => "dec SP"@,
        0x3C => "inc A"@,
        0x3D => "dec A"@,
        0x3E => "ld A, <d8>"@,
        0x3F => "ccf"@,
        0x40 => "ld B, B"@,
        0x41 => "ld B, C"@,
        0x42 => "ld B, D"@,
        0x43 => "ld B, E"@,
        0x44 => "ld B, H"@,
        0x45 => "ld B, L"@,
        0x46 => "ld B, (HL)"@,
        0x47 => "ld B, A"@,
        0x48 => "ld C, B"@,
        0x49 => "ld C, C"@,
        0x4A => "ld C, D"@,
        0x4B => "ld C, E"@,
        0x4C => "ld C, H"@,
        0x4D => "ld C, L"@,
        0x4E => "ld C, (HL)"@,
        0x4F => "ld C, A"@,
        0x50 => "ld D, B"@,
        0x51 => "ld D, C"@,
        0x52 => "ld D, D"@,
        0x53 => "ld D, E"@,
        0x54 => "ld D, H"@,
        0x55 => "ld D, L"@,
        0x56 => "ld D, (HL)"@,
        0x57 => "ld D, A"@,
        0x58 => "ld E, B"@,
        0x59 => "ld E, C"@,
        0x5A => "ld E, D"@,
        0x5B => "ld E, E"@,
        0x5C => "ld E, H"@,
        0x5D => "ld E, L"@,
        0x5E => "ld E, (HL)"@,
        0x5F => "ld E, A"@,
        0x60 => "ld H, B"@,
        0x61 => "ld H, C"@,
        0x62 => "ld H, D"@,
        0x63 => "ld H, E"@,
        0x64 => "ld H, H"@,
        0x65 => "ld H, L"@,
        0x66 => "ld H, (HL)"@,
        0x67 => "ld H, A"@,
        0x68 => "ld L, B"@,
        0x69 => "ld L, C"@,
        0x6A => "ld L, D"@,
        0x6B => "ld L, E"@,
        0x6C => "ld L, H"@,
        0x6D => "ld L, L"@,
        0x6E => "ld L, (HL)"@,
        0x6F => "ld L, A"@,
        0x70 => "ld (HL), B"@,
        0x71 => "ld (HL), C"@,
        0x72 => "ld (HL), D"@,
        0x73 => "ld (HL), E"@,
        0x74 => "ld (HL), H"@,
        0x75 => "ld (HL), L"@,
        0x76 => "halt"@,
        0x77 => "ld (HL), A"@,
        0x78 => "ld A, B"@,
        0x79 => "ld A, C"@,
        0x7A => "ld A, D"@,
        0x7B => "ld A, E"@,
        0x7C => "ld A, H"@,
        0x7D => "ld A, L"@,
        0x7E => "ld A, (HL)"@,
        0x7F => "ld A, A"@,
        0x80 => "add A, B"@,
        0x81 => "add A, C"@,
        0x82 => "add A, D"@,
        0x83 => "add A, E"@,
        0x84 => "add A, H"@,
        0x85 => "add A, L"@,
        0x86 => "add A, (HL)"@,
        0x87 => "add A, A"@,
        0x88 => "adc A, B"@,
        0x89 => "adc A, C"@,
        0x8A => "adc A, D"@,
        0x8B => "adc A, E"@,
        0x8C => "adc A, H"@,
        0x8D => "adc A, L"@,
        0x8E => "adc A, (HL)"@,
        0x8F => "adc A, A"@,
        0x90 => "sub A, B"@,
        0x91 => "sub A, C"@,
        0x92 => "sub A, D"@,
        0x93 => "sub A, E"@,
        0x94 => "sub A, H"@,
        0x95 => "sub A, L"@,
        0x96 => "sub A, (HL)"@,
        0x97 => "sub A, A"@,
        0x98 => "sbc A, B"@,
        0x99 => "sbc A, C"@,
        0x9A => "sbc A, D"@,
        0x9B => "sbc A, E"@,
        0x9C => "sbc A, H"@,
        0x9D => "sbc A, L"@,
        0x9E => "sbc A, (HL)"@,
        0x9F => "sbc A, A"@,
        0xA0 => "and A, B"@,
        0xA1 => "and A, C"@,
        0xA2 => "and A, D"@,
        0xA3 => "and A, E"@,
        0xA4 => "and A, H"@,
        0xA5 => "and A, L"@,
        0xA6 => "and A, (HL)"@,
        0xA7 => "and A, A"@,
        0xA8 => "xor A, B"@,
        0xA9 => "xor A, C"@,
        0xAA => "xor A, D"@,
        0xAB => "xor A, E"@,
        0xAC => "xor A, H"@,
        0xAD => "xor A, L"@,
        0xAE => "xor A, (HL)"@,
        0xAF => "xor A, A"@,
        0xB0 => "or A, B"@,
        0xB1 => "or A, C"@,
        0xB2 => "or A, D"@,
        0xB3 => "or A, E"@,
        0xB4 => "or A, H"@,
        0xB5 => "or A, L"@,
        0xB6 => "or A, (HL)"@,
        0xB7 => "or A, A"@,
        0xB8 => "cp A, B"@,
        0xB9 => "cp A, C"@,
        0xBA => "cp A, D"@,
        0xBB => "cp A, E"@,
        0xBC => "cp A, H"@,
        0xBD => "cp A, L"@,
        0xBE => "cp A, (HL)"@,
        0xBF => "cp A, A"@,
        0xC0 => "ret nz"@,
        0xC1 => "pop BC"@,
        0xC2 => "jp nz, <a16>"@,
        0xC3 => "jp <a16>"@,
        0xC4 => "call nz, <a16>"@,
        0xC5 => "push BC"@,
        0xC6 => "add A, <d8>"@,
        0xC7 => "rst $00"@,
        0xC8 => "ret z"@,
        0xC9 => "ret"@,
        0xCA => "jp z, <a16>"@,
        0xCB => "prefix $CB"@,
        0xCC => "call z, <a16>"@,
        0xCD => "call <a16>"@,
        0xCE => "adc A, <d8>"@,
        0xCF => "rst $08"@,
        0xD0 => "ret nc"@,
        0xD1 => "pop DE"@,
        0xD2 => "jp nc, <a16>"@,
        0xD3 => Seq::empty(),
        0xD4 => "call nc, <a16>"@,
        0xD5 => "push DE"@,
        0xD6 => "sub A, <d8>"@,
        0xD7 => "rst $10"@,
        0xD8 => "ret c"@,
        0xD9 => "reti"@,
        0xDA => "jp c, <a16>"@,
        0xDB => Seq::empty(),
        0xDC => "call c, <a16>"@,
        0xDD => Seq::empty(),
        0xDE => "sbc A, <d8>"@,
        0xDF => "rst $18"@,
        0xE0 => "ldh (<a8>), A"@,
        0xE1 => "pop HL"@,
        0xE2 => "ld (C), A"@,
        0xE3 => Seq::empty(),
        0xE4 => Seq::empty(),
        0xE5 => "push HL"@,
        0xE6 => "and A, <d8>"@,
        0xE7 => "rst $20"@,
        0xE8 => "add SP, <r8>"@,
        0xE9 => "jp (HL)"@,
        0xEA => "ld (<a16>), A"@,
        0xEB => Seq::empty(),
        0xEC => Seq::empty(),
        0xED => Seq::empty(),
        0xEE => "xor A, <d8>"@,
        0xEF => "rst $28"@,
        0xF0 => "ldh A, (<a8>)"@,
        0xF1 => "pop AF"@,
        0xF2 => "ld A, (C)"@,
        0xF3 => "di"@,
        0xF4 => Seq::empty(),
        0xF5 => "push AF"@,
        0xF6 => "or A, <d8>"@,
        0xF7 => "rst $30"@,
        0xF8 => "ld HL, SP + <r8>"@,
        0xF9 => "ld SP, HL"@,
        0xFA => "ld A, (<a16>)"@,
        0xFB => "ei"@,
        0xFC => Seq::empty(),
        0xFD => Seq::empty(),
        0xFE => "cp A, <d8>"@,
        0xFF => "rst $38"@,
    }
}

/// What the table holds for an opcode.
pub open spec fn table_entry(opcode: u8) -> InstructionView {
    InstructionView {
        opcode,
        prefixed: false,
        mnemonic: mnemonic_of(opcode),
        arg: arg_of(opcode),
        cycles: cycles_of(opcode),
    }
}

impl Arg {
    /// Whether the argument is one byte long.
    pub open spec fn is_byte(self) -> bool {
        self is Data8 || self is Addr8 || self is Offset8
    }

    /// Whether the argument is two bytes long.
    pub open spec fn is_short(self) -> bool {
        self is Data16 || self is Addr16
    }

    /// Whether two arguments are of the same kind, whatever they hold.
    pub open spec fn same_kind(self, other: Arg) -> bool {
        match self {
            Arg::Nothing => other is Nothing,
            Arg::Data8(_) => other is Data8,
            Arg::Data16(_) => other is Data16,
            Arg::Addr8(_) => other is Addr8,
            Arg::Addr16(_) => other is Addr16,
            Arg::Offset8(_) => other is Offset8,
        }
    }

    /// An 8-bit datum, not yet read.
    pub fn d8() -> (r: Arg)
        ensures
            r == Arg::Data8(0),
    {
        Arg::Data8(0)
    }

    /// A 16-bit datum, not yet read.
    pub fn d16() -> (r: Arg)
        ensures
            r == Arg::Data16(0),
    {
        Arg::Data16(0)
    }

    /// An 8-bit address, not yet read.
    pub fn a8() -> (r: Arg)
        ensures
            r == Arg::Addr8(0),
    {
        Arg::Addr8(0)
    }

    /// A 16-bit address, not yet read.
    pub fn a16() -> (r: Arg)
        ensures
            r == Arg::Addr16(0),
    {
        Arg::Addr16(0)
    }

    /// A signed 8-bit displacement, not yet read.
    pub fn r8() -> (r: Arg)
        ensures
            r == Arg::Offset8(0),
    {
        Arg::Offset8(0)
    }
}

impl Instruction {
    /// An instruction of the main table.
    pub fn new(opcode: u8, mnemonic: &str, arg: Arg, min_cycles: usize, max_cycles: usize) -> (r:
        Instruction)
        ensures
            r@ == (InstructionView {
                opcode,
                prefixed: false,
                mnemonic: mnemonic@,
                arg,
                cycles: (min_cycles, max_cycles),
            }),
    {
        Instruction {
            opcode,
            prefixed: false,
            mnemonic: String::from_str(mnemonic),
            arg,
            cycles: (min_cycles, max_cycles),
        }
    }

    /// An instruction that followed the prefix 0xCB: it has no argument and
    /// costs 8 cycles.
    pub fn prefixed(opcode: u8, mnemonic: &str) -> (r: Instruction)
        ensures
            r@ == (InstructionView {
                opcode,
                prefixed: true,
                mnemonic: mnemonic@,
                arg: Arg::Nothing,
                cycles: (8, 8),
            }),
    {
        Instruction {
            opcode,
            prefixed: true,
            mnemonic: String::from_str(mnemonic),
            arg: Arg::Nothing,
            cycles: (8, 8),
        }
    }

    /// What the table holds for an opcode that the processor does not define.
    pub fn none(opcode: u8) -> (r: Instruction)
        ensures
            r@ == (InstructionView {
                opcode,
                prefixed: false,
                mnemonic: Seq::empty(),
                arg: Arg::Nothing,
                cycles: (0, 0),
            }),
    {
        Instruction { opcode, prefixed: false, mnemonic: String::new(), arg: Arg::Nothing, cycles: (0, 0) }
    }

    /// Looks an opcode up in the table.
    pub fn from_opcode(opcode: u8) -> (r: Instruction)
        ensures
            r@ == table_entry(opcode),
    {
        if opcode < 0x40 {
            Instruction::entry_00_3f(opcode)
        } else if opcode < 0x80 {
            Instruction::entry_40_7f(opcode)
        } else if opcode < 0xC0 {
            Instruction::entry_80_bf(opcode)
        } else {
            Instruction::entry_c0_ff(opcode)
        }
    }

    /// The table for the opcodes 0x00-0x3F.
    fn entry_00_3f(opcode: u8) -> (r: Instruction)
        requires
            opcode <= 0x3F,
        ensures
            r@ == table_entry(opcode),
    {
        match opcode {
            0x00 => Instruction::new(0x00, "nop", Arg::Nothing, 4, 4),
            0x01 => Instruction::new(0x01, "ld BC, <d16>", Arg::d16(), 12, 12),
            0x02 => Instruction::new(0x02, "ld (BC), A", Arg::Nothing, 8, 8),
            0x03 => Instruction::new(0x03, "inc BC", Arg::Nothing, 8, 8),
            0x04 => Instruction::new(0x04, "inc B", Arg::Nothing, 4, 4),
            0x05 => Instruction::new(0x05, "dec B", Arg::Nothing, 4, 4),
            0x06 => Instruction::new(0x06, "ld B, <d8>", Arg::d8(), 8, 8),
            0x07 => Instruction::new(0x07, "rlca", Arg::Nothing, 4, 4),
            0x08 => Instruction::new(0x08, "ld (<a16>), SP", Arg::a16(), 20, 20),
            0x09 => Instruction::new(0x09, "add HL, BC", Arg::Nothing, 8, 8),
            0x0A => Instruction::new(0x0A, "ld A, (BC)", Arg::Nothing, 8, 8),
            0x0B => Instruction::new(0x0B, "dec BC", Arg::Nothing, 8, 8),
            0x0C => Instruction::new(0x0C, "inc C", Arg::Nothing, 4, 4),
            0x0D => Instruction::new(0x0D, "dec C", Arg::Nothing, 4, 4),
            0x0E => Instruction::new(0x0E, "ld C, <d8>", Arg::d8(), 8, 8),
            0x0F => Instruction::new(0x0F, "rrca", Arg::Nothing, 4, 4),
            0x10 => Instruction::new(0x10, "stop $00", Arg::d8(), 4, 4),
            0x11 => Instruction::new(0x11, "ld DE, <d16>", Arg::d16(), 12, 12),
            0x12 => Instruction::new(0x12, "ld (DE), A", Arg::Nothing, 8, 8),
            0x13 => Instruction::new(0x13, "inc DE", Arg::Nothing, 8, 8),
            0x14 => Instruction::new(0x14, "inc D", Arg::Nothing, 4, 4),
            0x15 => Instruction::new(0x15, "dec D", Arg::Nothing, 4, 4),
            0x16 => Instruction::new(0x16, "ld D, <d8>", Arg::d8(), 8, 8),
            0x17 => Instruction::new(0x17, "rla", Arg::Nothing, 4, 4),
            0x18 => Instruction::new(0x18, "jr <r8>", Arg::r8(), 12, 12),
            0x19 => Instruction::new(0x19, "add HL, DE", Arg::Nothing, 8, 8),
            0x1A => Instruction::new(0x1A, "ld A, (DE)", Arg::Nothing, 8, 8),
            0x1B => Instruction::new(0x1B, "dec DE", Arg::Nothing, 8, 8),
            0x1C => Instruction::new(0x1C, "inc E", Arg::Nothing, 4, 4),
            0x1D => Instruction::new(0x1D, "dec E", Arg::Nothing, 4, 4),
            0x1E => Instruction::new(0x1E, "ld E, <d8>", Arg::d8(), 8, 8),
            0x1F => Instruction::new(0x1F, "rra", Arg::Nothing, 4, 4),
            0x20 => Instruction::new(0x20, "jr nz, <r8>", Arg::r8(), 8, 12),
            0x21 => Instruction::new(0x21, "ld HL, <d16>", Arg::d16(), 12, 12),
            0x22 => Instruction::new(0x22, "ld (HL+), A", Arg::Nothing, 8, 8),
            0x23 => Instruction::new(0x23, "inc HL", Arg::Nothing, 8, 8),
            0x24 => Instruction::new(0x24, "inc H", Arg::Nothing, 4, 4),
            0x25 => Instruction::new(0x25, "dec H", Arg::Nothing, 4, 4),
            0x26 => Instruction::new(0x26, "ld H, <d8>", Arg::d8(), 8, 8),
            0x27 => Instruction::new(0x27, "daa", Arg::Nothing, 4, 4),
            0x28 => Instruction::new(0x28, "jr z, <r8>", Arg::r8(), 8, 12),
            0x29 => Instruction::new(0x29, "add HL, HL", Arg::Nothing, 8, 8),
            0x2A => Instruction::new(0x2A, "ld A, (HL+)", Arg::Nothing, 8, 8),
            0x2B => Instruction::new(0x2B, "dec HL", Arg::Nothing, 8, 8),
            0x2C => Instruction::new(0x2C, "inc L", Arg::Nothing, 4, 4),
            0x2D => Instruction::new(0x2D, "dec L", Arg::Nothing, 4, 4),
            0x2E => Instruction::new(0x2E, "ld L, <d8>", Arg::d8(), 8, 8),
            0x2F => Instruction::new(0x2F, "cpl", Arg::Nothing, 4, 4),
            0x30 => Instruction::new(0x30, "jr nc, <r8>", Arg::r8(), 8, 12),
            0x31 => Instruction::new(0x31, "ld SP, <d16>", Arg::d16(), 12, 12),
            0x32 => Instruction::new(0x32, "ld (HL-), A", Arg::Nothing, 8, 8),
            0x33 => Instruction::new(0x33, "inc SP", Arg::Nothing, 8, 8),
            0x34 => Instruction::new(0x34, "inc (HL)", Arg::Nothing, 12, 12),
            0x35 => Instruction::new(0x35, "dec (HL)", Arg::Nothing, 12, 12),
            0x36 => Instruction::new(0x36, "ld (HL), <d8>", Arg::d8(), 12, 12),
            0x37 => Instruction::new(0x37, "scf", Arg::Nothing, 4, 4),
            0x38 => Instruction::new(0x38, "jr c, <r8>", Arg::r8(), 8, 12),
            0x39 => Instruction::new(0x39, "add HL, SP", Arg::Nothing, 8, 8),
            0x3A => Instruction::new(0x3A, "ld A, (HL-)", Arg::Nothing, 8, 8),
            0x3B => Instruction::new(0x3B, "dec SP", Arg::Nothing, 8, 8),
            0x3C => Instruction::new(0x3C, "inc A", Arg::Nothing, 4, 4),
            0x3D => Instruction::new(0x3D, "dec A", Arg::Nothing, 4, 4),
            0x3E => Instruction::new(0x3E, "ld A, <d8>", Arg::d8(), 8, 8),
            _ => Instruction::new(0x3F, "ccf", Arg::Nothing, 4, 4),
        }
    }

    /// The table for the opcodes 0x40-0x7F.
    fn entry_40_7f(opcode: u8) -> (r: Instruction)
        requires
            0x40 <= opcode <= 0x7F,
        ensures
            r@ == table_entry(opcode),
    {
        match opcode {
            0x40 => Instruction::new(0x40, "ld B, B", Arg::Nothing, 4, 4),
            0x41 => Instruction::new(0x41, "ld B, C", Arg::Nothing, 4, 4),
            0x42 => Instruction::new(0x42, "ld B, D", Arg::Nothing, 4, 4),
            0x43 => Instruction::new(0x43, "ld B, E", Arg::Nothing, 4, 4),
            0x44 => Instruction::new(0x44, "ld B, H", Arg::Nothing, 4, 4),
            0x45 => Instruction::new(0x45, "ld B, L", Arg::Nothing, 4, 4),
            0x46 => Instruction::new(0x46, "ld B, (HL)", Arg::Nothing, 8, 8),
            0x47 => Instruction::new(0x47, "ld B, A", Arg::Nothing, 4, 4),
            0x48 => Instruction::new(0x48, "ld C, B", Arg::Nothing, 4, 4),
            0x49 => Instruction::new(0x49, "ld C, C", Arg::Nothing, 4, 4),
            0x4A => Instruction::new(0x4A, "ld C, D", Arg::Nothing, 4, 4),
            0x4B => Instruction::new(0x4B, "ld C, E", Arg::Nothing, 4, 4),
            0x4C => Instruction::new(0x4C, "ld C, H", Arg::Nothing, 4, 4),
            0x4D => Instruction::new(0x4D, "ld C, L", Arg::Nothing, 4, 4),
            0x4E => Instruction::new(0x4E, "ld C, (HL)", Arg::Nothing, 8, 8),
            0x4F => Instruction::new(0x4F, "ld C, A", Arg::Nothing, 4, 4),
            0x50 => Instruction::new(0x50, "ld D, B", Arg::Nothing, 4, 4),
            0x51 => Instruction::new(0x51, "ld D, C", Arg::Nothing, 4, 4),
            0x52 => Instruction::new(0x52, "ld D, D", Arg::Nothing, 4, 4),
            0x53 => Instruction::new(0x53, "ld D, E", Arg::Nothing, 4, 4),
            0x54 => Instruction::new(0x54, "ld D, H", Arg::Nothing, 4, 4),
            0x55 => Instruction::new(0x55, "ld D, L", Arg::Nothing, 4, 4),
            0x56 => Instruction::new(0x56, "ld D, (HL)", Arg::Nothing, 8, 8),
            0x57 => Instruction::new(0x57, "ld D, A", Arg::Nothing, 4, 4),
            0x58 => Instruction::new(0x58, "ld E, B", Arg::Nothing, 4, 4),
            0x59 => Instruction::new(0x59, "ld E, C", Arg::Nothing, 4, 4),
            0x5A => Instruction::new(0x5A, "ld E, D", Arg::Nothing, 4, 4),
            0x5B => Instruction::new(0x5B, "ld E, E", Arg::Nothing, 4, 4),
            0x5C => Instruction::new(0x5C, "ld E, H", Arg::Nothing, 4, 4),
            0x5D => Instruction::new(0x5D, "ld E, L", Arg::Nothing, 4, 4),
            0x5E => Instruction::new(0x5E, "ld E, (HL)", Arg::Nothing, 8, 8),
            0x5F => Instruction::new(0x5F, "ld E, A", Arg::Nothing, 4, 4),
            0x60 => Instruction::new(0x60, "ld H, B", Arg::Nothing, 4, 4),
            0x61 => Instruction::new(0x61, "ld H, C", Arg::Nothing, 4, 4),
            0x62 => Instruction::new(0x62, "ld H, D", Arg::Nothing, 4, 4),
            0x63 => Instruction::new(0x63, "ld H, E", Arg::Nothing, 4, 4),
            0x64 => Instruction::new(0x64, "ld H, H", Arg::Nothing, 4, 4),
            0x65 => Instruction::new(0x65, "ld H, L", Arg::Nothing, 4, 4),
            0x66 => Instruction::new(0x66, "ld H, (HL)", Arg::Nothing, 8, 8),
            0x67 => Instruction::new(0x67, "ld H, A", Arg::Nothing, 4, 4),
            0x68 => Instruction::new(0x68, "ld L, B", Arg::Nothing, 4, 4),
            0x69 => Instruction::new(0x69, "ld L, C", Arg::Nothing, 4, 4),
            0x6A => Instruction::new(0x6A, "ld L, D", Arg::Nothing, 4, 4),
            0x6B => Instruction::new(0x6B, "ld L, E", Arg::Nothing, 4, 4),
            0x6C => Instruction::new(0x6C, "ld L, H", Arg::Nothing, 4, 4),
            0x6D => Instruction::new(0x6D, "ld L, L", Arg::Nothing, 4, 4),
            0x6E => Instruction::new(0x6E, "ld L, (HL)", Arg::Nothing, 8, 8),
            0x6F => Instruction::new(0x6F, "ld L, A", Arg::Nothing, 4, 4),
            0x70 => Instruction::new(0x70, "ld (HL), B", Arg::Nothing, 8, 8),
            0x71 => Instruction::new(0x71, "ld (HL), C", Arg::Nothing, 8, 8),
            0x72 => Instruction::new(0x72, "ld (HL), D", Arg::Nothing, 8, 8),
            0x73 => Instruction::new(0x73, "ld (HL), E", Arg::Nothing, 8, 8),
            0x74 => Instruction::new(0x74, "ld (HL), H", Arg::Nothing, 8, 8),
            0x75 => Instruction::new(0x75, "ld (HL), L", Arg::Nothing, 8, 8),
            0x76 => Instruction::new(0x76, "halt", Arg::Nothing, 4, 4),
            0x77 => Instruction::new(0x77, "ld (HL), A", Arg::Nothing, 8, 8),
            0x78 => Instruction::new(0x78, "ld A, B", Arg::Nothing, 4, 4),
            0x79 => Instruction::new(0x79, "ld A, C", Arg::Nothing, 4, 4),
            0x7A => Instruction::new(0x7A, "ld A, D", Arg::Nothing, 4, 4),
            0x7B => Instruction::new(0x7B, "ld A, E", Arg::Nothing, 4, 4),
            0x7C => Instruction::new(0x7C, "ld A, H", Arg::Nothing, 4, 4),
            0x7D => Instruction::new(0x7D, "ld A, L", Arg::Nothing, 4, 4),
            0x7E => Instruction::new(0x7E, "ld A, (HL)", Arg::Nothing, 8, 8),
            _ => Instruction::new(0x7F, "ld A, A", Arg::Nothing, 4, 4),
        }
    }

    /// The table for the opcodes 0x80-0xBF.
    fn entry_80_bf(opcode: u8) -> (r: Instruction)
        requires
            0x80 <= opcode <= 0xBF,
        ensures
            r@ == table_entry(opcode),
    {
        match opcode {
            0x80 => Instruction::new(0x80, "add A, B", Arg::Nothing, 4, 4),
            0x81 => Instruction::new(0x81, "add A, C", Arg::Nothing, 4, 4),
            0x82 => Instruction::new(0x82, "add A, D", Arg::Nothing, 4, 4),
            0x83 => Instruction::new(0x83, "add A, E", Arg::Nothing, 4, 4),
            0x84 => Instruction::new(0x84, "add A, H", Arg::Nothing, 4, 4),
            0x85 => Instruction::new(0x85, "add A, L", Arg::Nothing, 4, 4),
            0x86 => Instruction::new(0x86, "add A, (HL)", Arg::Nothing, 8, 8),
            0x87 => Instruction::new(0x87, "add A, A", Arg::Nothing, 4, 4),
            0x88 => Instruction::new(0x88, "adc A, B", Arg::Nothing, 4, 4),
            0x89 => Instruction::new(0x89, "adc A, C", Arg::Nothing, 4, 4),
            0x8A => Instruction::new(0x8A, "adc A, D", Arg::Nothing, 4, 4),
            0x8B => Instruction::new(0x8B, "adc A, E", Arg::Nothing, 4, 4),
            0x8C => Instruction::new(0x8C, "adc A, H", Arg::Nothing, 4, 4),
            0x8D => Instruction::new(0x8D, "adc A, L", Arg::Nothing, 4, 4),
            0x8E => Instruction::new(0x8E, "adc A, (HL)", Arg::Nothing, 8, 8),
            0x8F => Instruction::new(0x8F, "adc A, A", Arg::Nothing, 4, 4),
            0x90 => Instruction::new(0x90, "sub A, B", Arg::Nothing, 4, 4),
            0x91 => Instruction::new(0x91, "sub A, C", Arg::Nothing, 4, 4),
            0x92 => Instruction::new(0x92, "sub A, D", Arg::Nothing, 4, 4),
            0x93 => Instruction::new(0x93, "sub A, E", Arg::Nothing, 4, 4),
            0x94 => Instruction::new(0x94, "sub A, H", Arg::Nothing, 4, 4),
            0x95 => Instruction::new(0x95, "sub A, L", Arg::Nothing, 4, 4),
            0x96 => Instruction::new(0x96, "sub A, (HL)", Arg::Nothing, 8, 8),
            0x97 => Instruction::new(0x97, "sub A, A", Arg::Nothing, 4, 4),
            0x98 => Instruction::new(0x98, "sbc A, B", Arg::Nothing, 4, 4),
            0x99 => Instruction::new(0x99, "sbc A, C", Arg::Nothing, 4, 4),
            0x9A => Instruction::new(0x9A, "sbc A, D", Arg::Nothing, 4, 4),
            0x9B => Instruction::new(0x9B, "sbc A, E", Arg::Nothing, 4, 4),
            0x9C => Instruction::new(0x9C, "sbc A, H", Arg::Nothing, 4, 4),
            0x9D => Instruction::new(0x9D, "sbc A, L", Arg::Nothing, 4, 4),
            0x9E => Instruction::new(0x9E, "sbc A, (HL)", Arg::Nothing, 8, 8),
            0x9F => Instruction::new(0x9F, "sbc A, A", Arg::Nothing, 4, 4),
            0xA0 => Instruction::new(0xA0, "and A, B", Arg::Nothing, 4, 4),
            0xA1 => Instruction::new(0xA1, "and A, C", Arg::Nothing, 4, 4),
            0xA2 => Instruction::new(0xA2, "and A, D", Arg::Nothing, 4, 4),
            0xA3 => Instruction::new(0xA3, "and A, E", Arg::Nothing, 4, 4),
            0xA4 => Instruction::new(0xA4, "and A, H", Arg::Nothing, 4, 4),
            0xA5 => Instruction::new(0xA5, "and A, L", Arg::Nothing, 4, 4),
            0xA6 => Instruction::new(0xA6, "and A, (HL)", Arg::Nothing, 8, 8),
            0xA7 => Instruction::new(0xA7, "and A, A", Arg::Nothing, 4, 4),
            0xA8 => Instruction::new(0xA8, "xor A, B", Arg::Nothing, 4, 4),
            0xA9 => Instruction::new(0xA9, "xor A, C", Arg::Nothing, 4, 4),
            0xAA => Instruction::new(0xAA, "xor A, D", Arg::Nothing, 4, 4),
            0xAB => Instruction::new(0xAB, "xor A, E", Arg::Nothing, 4, 4),
            0xAC => Instruction::new(0xAC, "xor A, H", Arg::Nothing, 4, 4),
            0xAD => Instruction::new(0xAD, "xor A, L", Arg::Nothing, 4, 4),
            0xAE => Instruction::new(0xAE, "xor A, (HL)", Arg::Nothing, 8, 8),
            0xAF => Instruction::new(0xAF, "xor A, A", Arg::Nothing, 4, 4),
            0xB0 => Instruction::new(0xB0, "or A, B", Arg::Nothing, 4, 4),
            0xB1 => Instruction::new(0xB1, "or A, C", Arg::Nothing, 4, 4),
            0xB2 => Instruction::new(0xB2, "or A, D", Arg::Nothing, 4, 4),
            0xB3 => Instruction::new(0xB3, "or A, E", Arg::Nothing, 4, 4),
            0xB4 => Instruction::new(0xB4, "or A, H", Arg::Nothing, 4, 4),
            0xB5 => Instruction::new(0xB5, "or A, L", Arg::Nothing, 4, 4),
            0xB6 => Instruction::new(0xB6, "or A, (HL)", Arg::Nothing, 8, 8),
            0xB7 => Instruction::new(0xB7, "or A, A", Arg::Nothing, 4, 4),
            0xB8 => Instruction::new(0xB8, "cp A, B", Arg::Nothing, 4, 4),
            0xB9 => Instruction::new(0xB9, "cp A, C", Arg::Nothing, 4, 4),
            0xBA => Instruction::new(0xBA, "cp A, D", Arg::Nothing, 4, 4),
            0xBB => Instruction::new(0xBB, "cp A, E", Arg::Nothing, 4, 4),
            0xBC => Instruction::new(0xBC, "cp A, H", Arg::Nothing, 4, 4),
            0xBD => Instruction::new(0xBD, "cp A, L", Arg::Nothing, 4, 4),
            0xBE => Instruction::new(0xBE, "cp A, (HL)", Arg::Nothing, 8, 8),
            _ => Instruction::new(0xBF, "cp A, A", Arg::Nothing, 4, 4),
        }
    }

    /// The table for the opcodes 0xC0-0xFF.
    fn entry_c0_ff(opcode: u8) -> (r: Instruction)
        requires
            0xC0 <= opcode <= 0xFF,
        ensures
            r@ == table_entry(opcode),
    {
        match opcode {
            0xC0 => Instruction::new(0xC0, "ret nz", Arg::Nothing, 8, 20),
            0xC1 => Instruction::new(0xC1, "pop BC", Arg::Nothing, 12, 12),
            0xC2 => Instruction::new(0xC2, "jp nz, <a16>", Arg::a16(), 12, 16),
            0xC3 => Instruction::new(0xC3, "jp <a16>", Arg::a16(), 16, 16),
            0xC4 => Instruction::new(0xC4, "call nz, <a16>", Arg::a16(), 12, 24),
            0xC5 => Instruction::new(0xC5, "push BC", Arg::Nothing, 16, 16),
            0xC6 => Instruction::new(0xC6, "add A, <d8>", Arg::d8(), 8, 8),
            0xC7 => Instruction::new(0xC7, "rst $00", Arg::Nothing, 16, 16),
            0xC8 => Instruction::new(0xC8, "ret z", Arg::Nothing, 8, 20),
            0xC9 => Instruction::new(0xC9, "ret", Arg::Nothing, 16, 16),
            0xCA => Instruction::new(0xCA, "jp z, <a16>", Arg::a16(), 12, 16),
            0xCB => Instruction::new(0xCB, "prefix $CB", Arg::Nothing, 4, 4),
            0xCC => Instruction::new(0xCC, "call z, <a16>", Arg::a16(), 12, 24),
            0xCD => Instruction::new(0xCD, "call <a16>", Arg::a16(), 24, 24),
            0xCE => Instruction::new(0xCE, "adc A, <d8>", Arg::d8(), 8, 8),
            0xCF => Instruction::new(0xCF, "rst $08", Arg::Nothing, 16, 16),
            0xD0 => Instruction::new(0xD0, "ret nc", Arg::Nothing, 8, 20),
            0xD1 => Instruction::new(0xD1, "pop DE", Arg::Nothing, 12, 12),
            0xD2 => Instruction::new(0xD2, "jp nc, <a16>", Arg::a16(), 12, 16),
            0xD3 => Instruction::none(0xD3),
            0xD4 => Instruction::new(0xD4, "call nc, <a16>", Arg::a16(), 12, 24),
            0xD5 => Instruction::new(0xD5, "push DE", Arg::Nothing, 16, 16),
            0xD6 => Instruction::new(0xD6, "sub A, <d8>", Arg::d8(), 8, 8),
            0xD7 => Instruction::new(0xD7, "rst $10", Arg::Nothing, 16, 16),
            0xD8 => Instruction::new(0xD8, "ret c", Arg::Nothing, 8, 20),
            0xD9 => Instruction::new(0xD9, "reti", Arg::Nothing, 16, 16),
            0xDA => Instruction::new(0xDA, "jp c, <a16>", Arg::a16(), 12, 16),
            0xDB => Instruction::none(0xDB),
            0xDC => Instruction::new(0xDC, "call c, <a16>", Arg::a16(), 12, 24),
            0xDD => Instruction::none(0xDD),
            0xDE => Instruction::new(0xDE, "sbc A, <d8>", Arg::d8(), 8, 8),
            0xDF => Instruction::new(0xDF, "rst $18", Arg::Nothing, 16, 16),
            0xE0 => Instruction::new(0xE0, "ldh (<a8>), A", Arg::a8(), 12, 12),
            0xE1 => Instruction::new(0xE1, "pop HL", Arg::Nothing, 12, 12),
            0xE2 => Instruction::new(0xE2, "ld (C), A", Arg::Nothing, 8, 8),
            0xE3 => Instruction::none(0xE3),
            0xE4 => Instruction::none(0xE4),
            0xE5 => Instruction::new(0xE5, "push HL", Arg::Nothing, 16, 16),
            0xE6 => Instruction::new(0xE6, "and A, <d8>", Arg::d8(), 8, 8),
            0xE7 => Instruction::new(0xE7, "rst $20", Arg::Nothing, 16, 16),
            0xE8 => Instruction::new(0xE8, "add SP, <r8>", Arg::r8(), 16, 16),
            0xE9 => Instruction::new(0xE9, "jp (HL)", Arg::Nothing, 4, 4),
            0xEA => Instruction::new(0xEA, "ld (<a16>), A", Arg::a16(), 16, 16),
            0xEB => Instruction::none(0xEB),
            0xEC => Instruction::none(0xEC),
            0xED => Instruction::none(0xED),
            0xEE => Instruction::new(0xEE, "xor A, <d8>", Arg::d8(), 8, 8),
            0xEF => Instruction::new(0xEF, "rst $28", Arg::Nothing, 16, 16),
            0xF0 => Instruction::new(0xF0, "ldh A, (<a8>)", Arg::a8(), 12, 12),
            0xF1 => Instruction::new(0xF1, "pop AF", Arg::Nothing, 12, 12),
            0xF2 => Instruction::new(0xF2, "ld A, (C)", Arg::Nothing, 8, 8),
            0xF3 => Instruction::new(0xF3, "di", Arg::Nothing, 4, 4),
            0xF4 => Instruction::none(0xF4),
            0xF5 => Instruction::new(0xF5, "push AF", Arg::Nothing, 16, 16),
            0xF6 => Instruction::new(0xF6, "or A, <d8>", Arg::d8(), 8, 8),
            0xF7 => Instruction::new(0xF7, "rst $30", Arg::Nothing, 16, 16),
            0xF8 => Instruction::new(0xF8, "ld HL, SP + <r8>", Arg::r8(), 12, 12),
            0xF9 => Instruction::new(0xF9, "ld SP, HL", Arg::Nothing, 8, 8),
            0xFA => Instruction::new(0xFA, "ld A, (<a16>)", Arg::a16(), 16, 16),
            0xFB => Instruction::new(0xFB, "ei", Arg::Nothing, 4, 4),
            0xFC => Instruction::none(0xFC),
            0xFD => Instruction::none(0xFD),
            0xFE => Instruction::new(0xFE, "cp A, <d8>", Arg::d8(), 8, 8),
            _ => Instruction::new(0xFF, "rst $38", Arg::Nothing, 16, 16),
        }
    }
}

} // verus!
