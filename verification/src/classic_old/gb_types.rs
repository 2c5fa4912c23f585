//! The console as one flat memory and a CPU with a stack of its own, and
//! what the console shows: palettes, the screen buffer and the joypad.

use vstd::prelude::*;
use crate::classic::cartridge::{
    CartridgeFeature,
    byte_or_zero,
    check_header,
    fault_in,
    features_of,
    image_byte,
    image_byte_or_zero,
    locale_of,
    ram_size_of,
    read_features,
    read_locale,
    read_ram_size,
    read_rom_size,
    read_title,
    rom_size_of,
    title_of,
};
use crate::classic::cpu::shifted;
use crate::classic::memory::{byte_at, bytes_between};
use crate::classic::registers::{Reg8, Registers, half_carry, pair};
use crate::classic::utils::{wrap16, wrap8};
use crate::text::{dump_text, hex_text, push_dump, push_hex};

pub mod mbc;

verus! {

/// Clock frequency of the console, in cycles per second.
pub const CLOCK_SPEED: u32 = 4_194_304;

/// Size of the address space, and so of the memory and of the stack.
pub const ADDRESS_SPACE: usize = 0x1_0000;

/// Something that can be written out as text and read back from it.
pub trait Serial: Sized {
    fn serialize(&self) -> String;

    fn deserialize(text: String) -> Self;
}

/// What the CPU is doing when it comes back from an instruction.
#[derive(Copy, Clone, Debug, PartialEq, Eq)]
pub enum CPUStatus {
    Continue,
    Halt,
    Stop,
    Start,
    Interrupt,
}

/// What an instruction works on: a byte register, a pair of them, the stack
/// pointer or the program counter, or the byte of memory at an address.
#[derive(Debug)]
pub enum Register<'r> {
    A,
    B,
    C,
    D,
    E,
    F,
    H,
    L,
    AF,
    BC,
    DE,
    HL,
    SP,
    PC,
    Address(&'r mut Memory, u16),
}

/// The registers of the CPU and its stack. The stack has one slot for each
/// address: a push puts a short in the slot two below the stack pointer.
pub struct CPU {
    pub a: u8,
    pub b: u8,
    pub c: u8,
    pub d: u8,
    pub e: u8,
    pub f: u8,
    pub h: u8,
    pub l: u8,
    pub stack: Vec<u16>,
    pub sp: u16,
    pub pc: u16,
}

impl CPU {
    /// The registers as a register file.
    pub open spec fn regs(&self) -> Registers {
        Registers {
            a: Reg8(self.a),
            f: Reg8(self.f),
            b: Reg8(self.b),
            c: Reg8(self.c),
            d: Reg8(self.d),
            e: Reg8(self.e),
            h: Reg8(self.h),
            l: Reg8(self.l),
            sp: self.sp,
            pc: self.pc,
        }
    }

    /// The stack has a slot for every value of the stack pointer, and the
    /// low nibble of F is zero.
    pub open spec fn wf(&self) -> bool {
        self.stack@.len() == 0x1_0000 && self.regs().wf()
    }

    /// The registers as the console leaves them when it hands over to the
    /// cartridge.
    pub open spec fn boot_registers() -> Registers {
        Registers {
            a: Reg8(0x01),
            f: Reg8(0xB0),
            b: Reg8(0x00),
            c: Reg8(0x13),
            d: Reg8(0x00),
            e: Reg8(0xD8),
            h: Reg8(0x01),
            l: Reg8(0x4D),
            sp: 0xFFFE,
            pc: 0x0100,
        }
    }

    /// The CPU as the console leaves it when it hands over to the cartridge:
    /// an empty stack below 0xFFFE and the program counter at 0x0100.
    pub fn init() -> (cpu: CPU)
        ensures
            cpu.regs() == CPU::boot_registers(),
            cpu.stack@ == Seq::new(0x1_0000, |i: int| 0u16),
            cpu.wf(),
    {
        let cpu = CPU {
            a: 0x01,
            b: 0x00,
            c: 0x13,
            d: 0x00,
            e: 0xD8,
            f: 0xB0,
            h: 0x01,
            l: 0x4D,
            stack: vec![0u16; ADDRESS_SPACE],
            sp: 0xFFFE,
            pc: 0x100,
        };
        assert(cpu.stack@ =~= Seq::new(0x1_0000, |i: int| 0u16));
        assert(0xB0u8 & 0x0F == 0) by (bit_vector);
        cpu
    }
}

/// What the table of instructions says of one opcode.
#[derive(Copy, Clone, Debug, PartialEq, Eq)]
pub struct Instruction {
    pub opcode: u8,
    pub min_cycles: u8,
    pub max_cycles: u8,
    pub length: u8,
    pub steps: u16,
}

/// The whole address space as one run of 65536 bytes.
#[derive(Debug)]
pub struct Memory {
    inner: Vec<u8>,
}

impl View for Memory {
    type V = Seq<u8>;

    closed spec fn view(&self) -> Seq<u8> {
        self.inner@
    }
}

impl Memory {
    #[verifier::type_invariant]
    spec fn whole(&self) -> bool {
        self.inner@.len() == 0x1_0000
    }

    /// The number of bytes: one for every address.
    pub fn len(&self) -> (n: usize)
        ensures
            n == 0x1_0000,
            n == self@.len(),
    {
        proof {
            use_type_invariant(self);
        }
        self.inner.len()
    }

    /// A memory of zeros.
    pub fn init() -> (m: Memory)
        ensures
            m@ == Seq::new(0x1_0000, |i: int| 0u8),
    {
        let m = Memory { inner: super::utils::make_vec(ADDRESS_SPACE) };
        assert(m.inner@ =~= Seq::new(0x1_0000, |i: int| 0u8));
        m
    }

    /// The byte at an index, if the index is an address.
    pub fn get(&self, idx: usize) -> (r: Option<&u8>)
        ensures
            r is Some <==> idx < 0x1_0000,
            r matches Some(b) ==> *b == self@[idx as int],
    {
        proof {
            use_type_invariant(self);
        }
        if idx < self.inner.len() {
            Some(&self.inner[idx])
        } else {
            None
        }
    }

    /// The byte at an index, to be written through, if the index is an
    /// address.
    pub fn get_mut(&mut self, idx: usize) -> (r: Option<&mut u8>)
        ensures
            r is Some <==> idx < 0x1_0000,
            r matches Some(b) ==> *b == old(self)@[idx as int] && final(self)@ == old(self)@.update(
                idx as int,
                *final(b),
            ),
            r is None ==> final(self)@ == old(self)@,
    {
        proof {
            use_type_invariant(&*self);
        }
        if idx < self.inner.len() {
            Some(&mut self.inner[idx])
        } else {
            None
        }
    }

    /// The byte at `addr`.
    pub fn read_byte(&self, addr: u16) -> (b: u8)
        ensures
            b == self@[addr as int],
    {
        proof {
            use_type_invariant(self);
        }
        self.inner[addr as usize]
    }

    /// The bytes from `start` up to `end`; none where `end` is below `start`.
    pub fn read_buf(&self, start: u16, end: u16) -> (r: Vec<u8>)
        ensures
            r@ == (if start <= end {
                self@.subrange(start as int, end as int)
            } else {
                Seq::empty()
            }),
    {
        proof {
            use_type_invariant(self);
        }
        let mut out: Vec<u8> = Vec::new();
        if start > end {
            return out;
        }
        let mut i: usize = start as usize;
        while i < end as usize
            invariant
                self.inner@.len() == 0x1_0000,
                start <= i <= end,
                out@ == self.inner@.subrange(start as int, i as int),
            decreases end - i,
        {
            out.push(self.inner[i]);
            i = i + 1;
            assert(out@ =~= self.inner@.subrange(start as int, i as int));
        }
        out
    }

    /// Writes the byte at `addr`.
    pub fn write_byte(&mut self, addr: u16, byte: u8)
        ensures
            final(self)@ == old(self)@.update(addr as int, byte),
    {
        proof {
            use_type_invariant(&*self);
        }
        self.inner[addr as usize] = byte;
    }

    /// Writes `buf` from `addr` on. The bytes must all fit below the end of
    /// the address space.
    pub fn write_buf(&mut self, addr: u16, buf: &[u8])
        requires
            addr + buf@.len() <= 0x1_0000,
        ensures
            final(self)@ == crate::classic::memory::overwrite(old(self)@, addr as int, buf@),
    {
        proof {
            use_type_invariant(&*self);
        }
        let n = buf.len();
        let mut i: usize = 0;
        while i < n
            invariant
                n == buf@.len(),
                addr + n <= 0x1_0000,
                self.inner@.len() == 0x1_0000,
                old(self).inner@.len() == 0x1_0000,
                i <= n,
                self.inner@ == crate::classic::memory::overwrite(
                    old(self).inner@,
                    addr as int,
                    buf@.subrange(0, i as int),
                ),
            decreases n - i,
        {
            self.inner[addr as usize + i] = buf[i];
            i = i + 1;
            assert(self.inner@ =~= crate::classic::memory::overwrite(
                old(self).inner@,
                addr as int,
                buf@.subrange(0, i as int),
            ));
        }
        assert(buf@.subrange(0, n as int) =~= buf@);
    }
}

/// The button that is held down, if one is.
#[derive(Copy, Clone, Debug, PartialEq, Eq)]
pub enum JoyPad {
    Released,
    Start,
    Select,
    B,
    A,
    Down,
    Up,
    Left,
    Right,
}

impl JoyPad {
    /// The button that a value of the joypad register stands for. The two
    /// bits above the low nibble say which row of buttons is read, the low
    /// nibble says which button of the row.
    pub open spec fn of_register(value: u8) -> JoyPad {
        let bits = value & 0b0011_1111;
        if bits == 0b0010_1000 {
            JoyPad::Start
        } else if bits == 0b0010_0100 {
            JoyPad::Select
        } else if bits == 0b0010_0010 {
            JoyPad::B
        } else if bits == 0b0010_0001 {
            JoyPad::A
        } else if bits == 0b0001_1000 {
            JoyPad::Down
        } else if bits == 0b0001_0100 {
            JoyPad::Up
        } else if bits == 0b0001_0010 {
            JoyPad::Left
        } else if bits == 0b0001_0001 {
            JoyPad::Right
        } else {
            JoyPad::Released
        }
    }

    /// Reads the joypad register at 0xFF00.
    pub fn from(m: &Memory) -> (r: JoyPad)
        ensures
            r == JoyPad::of_register(m@[0xFF00]),
    {
        let bits = m.read_byte(0xFF00) & 0b0011_1111;
        if bits == 0b0010_1000 {
            JoyPad::Start
        } else if bits == 0b0010_0100 {
            JoyPad::Select
        } else if bits == 0b0010_0010 {
            JoyPad::B
        } else if bits == 0b0010_0001 {
            JoyPad::A
        } else if bits == 0b0001_1000 {
            JoyPad::Down
        } else if bits == 0b0001_0100 {
            JoyPad::Up
        } else if bits == 0b0001_0010 {
            JoyPad::Left
        } else if bits == 0b0001_0001 {
            JoyPad::Right
        } else {
            JoyPad::Released
        }
    }
}

/// The two palettes: four shades of grey, or colors.
#[derive(Copy, Clone, Debug, PartialEq, Eq)]
pub enum Palette {
    Monochrome,
    Color,
}

/// One of the four shades of the monochrome palette.
#[derive(Copy, Clone, Debug, PartialEq, Eq)]
pub enum MonoShade {
    White,
    LightGrey,
    DarkGrey,
    Black,
}

impl MonoShade {
    /// The shade that a number stands for: 0 is white, 1 light grey, 2 dark
    /// grey, and 3 and everything above it black.
    pub open spec fn of(b: u8) -> MonoShade {
        if b == 0 {
            MonoShade::White
        } else if b == 1 {
            MonoShade::LightGrey
        } else if b == 2 {
            MonoShade::DarkGrey
        } else {
            MonoShade::Black
        }
    }

    /// The shade that a number stands for.
    pub fn from(b: u8) -> (r: MonoShade)
        ensures
            r == MonoShade::of(b),
    {
        match b {
            0 => MonoShade::White,
            1 => MonoShade::LightGrey,
            2 => MonoShade::DarkGrey,
            _ => MonoShade::Black,
        }
    }
}

/// A palette of four shades, as one byte of memory holds it: two bits for
/// each shade, the first shade in the lowest two.
#[derive(Copy, Clone, Debug, PartialEq, Eq)]
pub struct MonoPaletteData(pub MonoShade, pub MonoShade, pub MonoShade, pub MonoShade);

impl MonoPaletteData {
    /// The palette that a byte stands for.
    pub open spec fn of(b: u8) -> MonoPaletteData {
        MonoPaletteData(
            MonoShade::of(0b0000_0011 & b),
            MonoShade::of((0b0000_1100 & b) >> 2),
            MonoShade::of((0b0011_0000 & b) >> 4),
            MonoShade::of((0b1100_0000 & b) >> 6),
        )
    }

    /// The palette that a byte stands for.
    pub fn from(b: u8) -> (r: MonoPaletteData)
        ensures
            r == MonoPaletteData::of(b),
    {
        let color0 = 0b0000_0011 & b;
        let color1 = (0b0000_1100 & b) >> 2;
        let color2 = (0b0011_0000 & b) >> 4;
        let color3 = (0b1100_0000 & b) >> 6;
        MonoPaletteData(
            MonoShade::from(color0),
            MonoShade::from(color1),
            MonoShade::from(color2),
            MonoShade::from(color3),
        )
    }
}

/// The three palettes of the monochrome console: the one of the background
/// at 0xFF47 and the two of the sprites at 0xFF48 and 0xFF49.
#[derive(Copy, Clone, Debug, PartialEq, Eq)]
pub struct MonoPalettes {
    pub background: MonoPaletteData,
    pub sprites: [MonoPaletteData; 2],
}

impl MonoPalettes {
    /// Reads the three palettes from 0xFF47, 0xFF48 and 0xFF49.
    pub fn from(m: Memory) -> (r: MonoPalettes)
        ensures
            r.background == MonoPaletteData::of(m@[0xFF47]),
            r.sprites@ == seq![MonoPaletteData::of(m@[0xFF48]), MonoPaletteData::of(m@[0xFF49])],
    {
        let bg = m.read_byte(0xFF47);
        let sp0 = m.read_byte(0xFF48);
        let sp1 = m.read_byte(0xFF49);
        let r = MonoPalettes {
            background: MonoPaletteData::from(bg),
            sprites: [MonoPaletteData::from(sp0), MonoPaletteData::from(sp1)],
        };
        assert(r.sprites@ =~= seq![MonoPaletteData::of(sp0), MonoPaletteData::of(sp1)]);
        r
    }
}

/// A color as red, green and blue.
pub type RGB = (u8, u8, u8);

/// The colors in which the four shades are shown: one of twelve fixed sets,
/// or a set of one's own. Each set gives four colors for the background, four
/// for the first sprite palette and four for the second.
#[derive(Debug)]
pub enum MonoShadeColors {
    Brown,
    Red,
    DarkBrown,
    Pastel,
    Orange,
    Yellow,
    Blue,
    DarkBlue,
    Greyscale,
    Green,
    DarkGreen,
    Inverted,
    Custom { background: Vec<RGB>, sprite0: Vec<RGB>, sprite1: Vec<RGB> },
}

impl MonoShadeColors {
    /// The colors of the set: those of the background, then those of the
    /// first sprite palette, then those of the second.
    pub open spec fn colors(&self) -> Seq<RGB> {
        match self {
            MonoShadeColors::Brown => seq![
                (255u8, 255u8, 255u8), (255, 173, 99), (131, 49, 0), (0, 0, 0),
                (255, 255, 255), (255, 173, 99), (131, 49, 0), (0, 0, 0),
                (255, 255, 255), (255, 173, 99), (131, 49, 0), (0, 0, 0),
            ],
            MonoShadeColors::Red => seq![
                (255u8, 255u8, 255u8), (255, 133, 132), (148, 58, 58), (0, 0, 0),
                (255, 255, 255), (101, 164, 155), (0, 0, 254), (0, 0, 0),
                (255, 255, 255), (123, 255, 48), (0, 131, 0), (0, 0, 0),
            ],
            MonoShadeColors::DarkBrown => seq![
                (255u8, 255u8, 255u8), (255, 173, 99), (131, 49, 0), (0, 0, 0),
                (255, 255, 255), (255, 173, 99), (131, 49, 0), (0, 0, 0),
                (255, 231, 197), (206, 156, 133), (132, 107, 41), (91, 49, 9),
            ],
            MonoShadeColors::Pastel => seq![
                (255u8, 255u8, 165u8), (254, 148, 148), (147, 148, 254), (0, 0, 0),
                (255, 255, 165), (254, 148, 148), (147, 148, 254), (0, 0, 0),
                (255, 255, 165), (254, 148, 148), (147, 148, 254), (0, 0, 0),
            ],
            MonoShadeColors::Orange => seq![
                (255u8, 255u8, 255u8), (255, 255, 0), (254, 0, 0), (0, 0, 0),
                (255, 255, 255), (255, 255, 0), (254, 0, 0), (0, 0, 0),
                (255, 255, 255), (255, 255, 0), (254, 0, 0), (0, 0, 0),
            ],
            MonoShadeColors::Yellow => seq![
                (255u8, 255u8, 255u8), (255, 255, 0), (125, 73, 0), (0, 0, 0),
                (255, 255, 255), (101, 164, 155), (0, 0, 254), (0, 0, 0),
                (255, 255, 255), (123, 255, 48), (0, 131, 0), (0, 0, 0),
            ],
            MonoShadeColors::Blue => seq![
                (255u8, 255u8, 255u8), (101, 164, 155), (0, 0, 254), (0, 0, 0),
                (255, 255, 255), (255, 133, 132), (131, 49, 0), (0, 0, 0),
                (255, 255, 255), (123, 255, 48), (0, 131, 0), (0, 0, 0),
            ],
            MonoShadeColors::DarkBlue => seq![
                (255u8, 255u8, 255u8), (139, 140, 222), (83, 82, 140), (0, 0, 0),
                (255, 255, 255), (255, 133, 132), (148, 58, 58), (0, 0, 0),
                (255, 255, 255), (255, 173, 99), (131, 49, 0), (0, 0, 0),
            ],
            MonoShadeColors::Greyscale => seq![
                (255u8, 255u8, 255u8), (165, 165, 165), (82, 82, 82), (0, 0, 0),
                (255, 255, 255), (165, 165, 165), (82, 82, 82), (0, 0, 0),
                (255, 255, 255), (165, 165, 165), (82, 82, 82), (0, 0, 0),
            ],
            MonoShadeColors::Green => seq![
                (255u8, 255u8, 255u8), (81, 255, 0), (255, 66, 0), (0, 0, 0),
                (255, 255, 255), (81, 255, 0), (255, 66, 0), (0, 0, 0),
                (255, 255, 255), (81, 255, 0), (255, 66, 0), (0, 0, 0),
            ],
            MonoShadeColors::DarkGreen => seq![
                (255u8, 255u8, 255u8), (123, 255, 48), (1, 99, 198), (0, 0, 0),
                (255, 255, 255), (255, 133, 132), (148, 58, 58), (0, 0, 0),
                (255, 255, 255), (255, 133, 132), (148, 58, 58), (0, 0, 0),
            ],
            MonoShadeColors::Inverted => seq![
                (0u8, 0u8, 0u8), (0, 132, 134), (255, 222, 0), (255, 255, 255),
                (0, 0, 0), (0, 132, 134), (255, 222, 0), (255, 255, 255),
                (0, 0, 0), (0, 132, 134), (255, 222, 0), (255, 255, 255),
            ],
            MonoShadeColors::Custom { background, sprite0, sprite1 } => background@ + sprite0@
                + sprite1@,
        }
    }

    /// A set of one's own.
    pub fn custom_from_rgb(bg: &[RGB; 4], sp0: &[RGB; 4], sp1: &[RGB; 4]) -> (r: MonoShadeColors)
        ensures
            r matches MonoShadeColors::Custom { background, sprite0, sprite1 } && background@
                == bg@ && sprite0@ == sp0@ && sprite1@ == sp1@,
            r.colors() == bg@ + sp0@ + sp1@,
    {
        let background = four(bg);
        let sprite0 = four(sp0);
        let sprite1 = four(sp1);
        MonoShadeColors::Custom { background, sprite0, sprite1 }
    }

    /// The colors of the set, as `colors` gives them.
    pub fn to_rgb(&self) -> (v: Vec<RGB>)
        ensures
            v@ == self.colors(),
    {
        let v = match self {
            MonoShadeColors::Brown => vec![
                (255u8, 255u8, 255u8), (255, 173, 99), (131, 49, 0), (0, 0, 0),
                (255, 255, 255), (255, 173, 99), (131, 49, 0), (0, 0, 0),
                (255, 255, 255), (255, 173, 99), (131, 49, 0), (0, 0, 0),
            ],
            MonoShadeColors::Red => vec![
                (255u8, 255u8, 255u8), (255, 133, 132), (148, 58, 58), (0, 0, 0),
                (255, 255, 255), (101, 164, 155), (0, 0, 254), (0, 0, 0),
                (255, 255, 255), (123, 255, 48), (0, 131, 0), (0, 0, 0),
            ],
            MonoShadeColors::DarkBrown => vec![
                (255u8, 255u8, 255u8), (255, 173, 99), (131, 49, 0), (0, 0, 0),
                (255, 255, 255), (255, 173, 99), (131, 49, 0), (0, 0, 0),
                (255, 231, 197), (206, 156, 133), (132, 107, 41), (91, 49, 9),
            ],
            MonoShadeColors::Pastel => vec![
                (255u8, 255u8, 165u8), (254, 148, 148), (147, 148, 254), (0, 0, 0),
                (255, 255, 165), (254, 148, 148), (147, 148, 254), (0, 0, 0),
                (255, 255, 165), (254, 148, 148), (147, 148, 254), (0, 0, 0),
            ],
            MonoShadeColors::Orange => vec![
                (255u8, 255u8, 255u8), (255, 255, 0), (254, 0, 0), (0, 0, 0),
                (255, 255, 255), (255, 255, 0), (254, 0, 0), (0, 0, 0),
                (255, 255, 255), (255, 255, 0), (254, 0, 0), (0, 0, 0),
            ],
            MonoShadeColors::Yellow => vec![
                (255u8, 255u8, 255u8), (255, 255, 0), (125, 73, 0), (0, 0, 0),
                (255, 255, 255), (101, 164, 155), (0, 0, 254), (0, 0, 0),
                (255, 255, 255), (123, 255, 48), (0, 131, 0), (0, 0, 0),
            ],
            MonoShadeColors::Blue => vec![
                (255u8, 255u8, 255u8), (101, 164, 155), (0, 0, 254), (0, 0, 0),
                (255, 255, 255), (255, 133, 132), (131, 49, 0), (0, 0, 0),
                (255, 255, 255), (123, 255, 48), (0, 131, 0), (0, 0, 0),
            ],
            MonoShadeColors::DarkBlue => vec![
                (255u8, 255u8, 255u8), (139, 140, 222), (83, 82, 140), (0, 0, 0),
                (255, 255, 255), (255, 133, 132), (148, 58, 58), (0, 0, 0),
                (255, 255, 255), (255, 173, 99), (131, 49, 0), (0, 0, 0),
            ],
            MonoShadeColors::Greyscale => vec![
                (255u8, 255u8, 255u8), (165, 165, 165), (82, 82, 82), (0, 0, 0),
                (255, 255, 255), (165, 165, 165), (82, 82, 82), (0, 0, 0),
                (255, 255, 255), (165, 165, 165), (82, 82, 82), (0, 0, 0),
            ],
            MonoShadeColors::Green => vec![
                (255u8, 255u8, 255u8), (81, 255, 0), (255, 66, 0), (0, 0, 0),
                (255, 255, 255), (81, 255, 0), (255, 66, 0), (0, 0, 0),
                (255, 255, 255), (81, 255, 0), (255, 66, 0), (0, 0, 0),
            ],
            MonoShadeColors::DarkGreen => vec![
                (255u8, 255u8, 255u8), (123, 255, 48), (1, 99, 198), (0, 0, 0),
                (255, 255, 255), (255, 133, 132), (148, 58, 58), (0, 0, 0),
                (255, 255, 255), (255, 133, 132), (148, 58, 58), (0, 0, 0),
            ],
            MonoShadeColors::Inverted => vec![
                (0u8, 0u8, 0u8), (0, 132, 134), (255, 222, 0), (255, 255, 255),
                (0, 0, 0), (0, 132, 134), (255, 222, 0), (255, 255, 255),
                (0, 0, 0), (0, 132, 134), (255, 222, 0), (255, 255, 255),
            ],
            MonoShadeColors::Custom { background, sprite0, sprite1 } => {
                let mut v: Vec<RGB> = Vec::new();
                append(&mut v, background);
                append(&mut v, sprite0);
                append(&mut v, sprite1);
                v
            },
        };
        assert(v@ =~= self.colors());
        v
    }
}

/// The four colors of an array as a vector.
fn four(colors: &[RGB; 4]) -> (v: Vec<RGB>)
    ensures
        v@ == colors@,
{
    let mut v: Vec<RGB> = Vec::new();
    v.push(colors[0]);
    v.push(colors[1]);
    v.push(colors[2]);
    v.push(colors[3]);
    assert(v@ =~= colors@);
    v
}

/// Appends colors to a vector.
fn append(v: &mut Vec<RGB>, more: &Vec<RGB>)
    ensures
        final(v)@ == old(v)@ + more@,
{
    let mut i: usize = 0;
    while i < more.len()
        invariant
            i <= more@.len(),
            v@ == old(v)@ + more@.subrange(0, i as int),
        decreases more@.len() - i,
    {
        v.push(more[i]);
        i = i + 1;
        assert(v@ =~= old(v)@ + more@.subrange(0, i as int));
    }
    assert(more@.subrange(0, more@.len() as int) =~= more@);
}

/// Which way the screen scrolls.
#[derive(Copy, Clone, Debug, PartialEq, Eq)]
pub enum ScrollDirection {
    Up,
    Down,
    Left,
    Right,
}

/// The picture that the console draws: 256 lines of 256 pixels, of which
/// the screen shows a window, and the registers that say where.
pub struct ScreenBuffer {
    pub pixels: Vec<u8>,
    pub scale: usize,
    /// Scroll Y, from 0xFF42.
    pub scy: usize,
    /// Scroll X, from 0xFF43.
    pub scx: usize,
    /// The line being drawn, from 0xFF44.
    pub ly: usize,
    /// The line to compare with, from 0xFF45.
    pub lyc: u8,
    /// Window Y, from 0xFF4A.
    pub wy: usize,
    /// Window X, from 0xFF4B.
    pub wx: usize,
}

impl ScreenBuffer {
    /// Lines in the buffer, and pixels in a line.
    pub const DIMENSION: usize = 256;

    /// Pixels in a line of the screen.
    pub const VISIBLE_X: usize = 160;

    /// Lines on the screen.
    pub const VISIBLE_Y: usize = 144;

    /// The lines from `scy` up to `upto`, each from its first pixel up to
    /// pixel `scx + 160`, one after the other.
    pub open spec fn lines(&self, upto: int) -> Seq<u8>
        decreases upto,
    {
        if upto <= self.scy {
            Seq::empty()
        } else {
            self.lines(upto - 1) + self.pixels@.subrange(
                256 * (upto - 1),
                256 * (upto - 1) + self.scx + 160,
            )
        }
    }

    /// What `get_visible` gives.
    pub open spec fn visible(&self) -> Seq<u8> {
        self.lines(self.scy + 144)
    }

    /// The pixel in column `x` of line `y`, if the buffer holds it.
    pub fn get_pixel(&self, x: usize, y: usize) -> (r: Option<&u8>)
        ensures
            r is Some <==> 256 * y + x < self.pixels@.len(),
            r matches Some(p) ==> *p == self.pixels@[256 * y + x],
    {
        let len = self.pixels.len();
        let at = match y.checked_mul(256) {
            Some(line) => line.checked_add(x),
            None => None,
        };
        match at {
            Some(i) => {
                if i < self.pixels.len() {
                    Some(&self.pixels[i])
                } else {
                    None
                }
            },
            None => None,
        }
    }

    /// Writes the pixel in column `x` of line `y`, which the buffer must
    /// hold.
    pub fn set_pixel(&mut self, x: usize, y: usize, value: u8)
        requires
            256 * y + x < old(self).pixels@.len(),
        ensures
            final(self).pixels@ == old(self).pixels@.update(256 * y + x, value),
            final(self).same_registers(old(self)),
    {
        let len = self.pixels.len();
        self.pixels[256 * y + x] = value;
    }

    /// Everything but the pixels is the same.
    pub open spec fn same_registers(&self, other: &ScreenBuffer) -> bool {
        &&& self.scale == other.scale
        &&& self.scy == other.scy
        &&& self.scx == other.scx
        &&& self.ly == other.ly
        &&& self.lyc == other.lyc
        &&& self.wy == other.wy
        &&& self.wx == other.wx
    }

    /// The 144 lines from line `scy` on, each from its first pixel up to
    /// pixel `scx + 160`. The buffer must hold them all.
    pub fn get_visible(&self) -> (vis: Vec<u8>)
        requires
            256 * (self.scy + 143) + self.scx + 160 <= self.pixels@.len(),
        ensures
            vis@ == self.visible(),
    {
        let len = self.pixels.len();
        let mut vis: Vec<u8> = Vec::new();
        let mut y: usize = self.scy;
        while y < self.scy + 144
            invariant
                256 * (self.scy + 143) + self.scx + 160 <= self.pixels@.len(),
                self.pixels@.len() <= usize::MAX,
                self.scy <= y <= self.scy + 144,
                vis@ == self.lines(y as int),
            decreases self.scy + 144 - y,
        {
            let start = 256 * y;
            let end = start + self.scx + 160;
            let mut i: usize = start;
            while i < end
                invariant
                    start <= i <= end <= self.pixels@.len(),
                    vis@ == self.lines(y as int) + self.pixels@.subrange(start as int, i as int),
                decreases end - i,
            {
                vis.push(self.pixels[i]);
                i = i + 1;
                assert(vis@ =~= self.lines(y as int) + self.pixels@.subrange(
                    start as int,
                    i as int,
                ));
            }
            y = y + 1;
        }
        vis
    }

    /// Tiles are not drawn by the buffer: nothing happens.
    pub fn get_tile(&self, tx: usize, ty: usize) {
    }

    /// Sprites are not drawn by the buffer: nothing happens.
    pub fn draw_sprite(&mut self, x: usize, y: usize)
        ensures
            final(self).pixels@ == old(self).pixels@,
            final(self).same_registers(old(self)),
    {
    }

    /// The buffer does not scroll by itself: the scroll registers are its
    /// fields `scy` and `scx`, and nothing happens to them here.
    pub fn scroll(&mut self, dir: ScrollDirection, value: usize)
        ensures
            final(self).pixels@ == old(self).pixels@,
            final(self).same_registers(old(self)),
    {
    }

    /// How bright a pixel is shown, from 0 for black to 255 for white: shade
    /// 0 is white, 1 light grey, 2 dark grey, and 3 and everything above it
    /// black.
    pub open spec fn level(pixel: u8) -> u8 {
        if pixel == 0 {
            255
        } else if pixel == 1 {
            165
        } else if pixel == 2 {
            82
        } else {
            0
        }
    }

    /// The levels of some pixels, each three times: for red, green and blue.
    pub open spec fn levels(pixels: Seq<u8>) -> Seq<u8> {
        Seq::new(3 * pixels.len(), |i: int| ScreenBuffer::level(pixels[i / 3]))
    }

    /// What `get_visible` gives, each pixel as its level of red, of green
    /// and of blue, out of 255. The buffer must hold what `get_visible`
    /// asks for.
    pub fn gl_rgb_pixels(&self) -> (rgb: Vec<u8>)
        requires
            256 * (self.scy + 143) + self.scx + 160 <= self.pixels@.len(),
        ensures
            rgb@ == ScreenBuffer::levels(self.visible()),
    {
        let visible = self.get_visible();
        let mut rgb: Vec<u8> = Vec::new();
        let mut i: usize = 0;
        while i < visible.len()
            invariant
                i <= visible@.len(),
                rgb@ == ScreenBuffer::levels(visible@.subrange(0, i as int)),
            decreases visible@.len() - i,
        {
            let pixel = visible[i];
            let level: u8 = if pixel == 0 {
                255
            } else if pixel == 1 {
                165
            } else if pixel == 2 {
                82
            } else {
                0
            };
            rgb.push(level);
            rgb.push(level);
            rgb.push(level);
            i = i + 1;
            assert(rgb@ =~= ScreenBuffer::levels(visible@.subrange(0, i as int)));
        }
        assert(visible@.subrange(0, visible@.len() as int) =~= visible@);
        rgb
    }

    /// Pixels in a line of the buffer when it is drawn at its scale.
    pub fn scaled_dimension(&self) -> (n: usize)
        requires
            256 * self.scale <= usize::MAX,
        ensures
            n == 256 * self.scale,
    {
        256 * self.scale
    }

    /// An empty buffer with the scroll and window registers that the memory
    /// holds at 0xFF42 to 0xFF45, 0xFF4A and 0xFF4B.
    pub fn from(m: &Memory) -> (s: ScreenBuffer)
        ensures
            s.pixels@.len() == 0,
            s.scale == 1,
            s.scy == m@[0xFF42],
            s.scx == m@[0xFF43],
            s.ly == m@[0xFF44],
            s.lyc == m@[0xFF45],
            s.wy == m@[0xFF4A],
            s.wx == m@[0xFF4B],
    {
        let scy = m.read_byte(0xFF42);
        let scx = m.read_byte(0xFF43);
        let ly = m.read_byte(0xFF44);
        let lyc = m.read_byte(0xFF45);
        let wy = m.read_byte(0xFF4A);
        let wx = m.read_byte(0xFF4B);
        ScreenBuffer {
            pixels: Vec::new(),
            scale: 1,
            scy: scy as usize,
            scx: scx as usize,
            ly: ly as usize,
            lyc,
            wy: wy as usize,
            wx: wx as usize,
        }
    }
}

/// How high a sprite is, in pixels.
#[derive(Copy, Clone, Debug, PartialEq, Eq)]
pub enum SpriteSize {
    Eight,
    Sixteen,
}

/// A sprite.
pub struct Sprite {
    pub size: SpriteSize,
    pub pixels: Vec<u8>,
}

/// The first sound channel: a tone with a sweep.
pub struct ToneSweepChannel {}

/// The second sound channel: a tone.
pub struct ToneChannel {}

/// The third sound channel: a wave.
pub struct WaveChannel {}

/// The fourth sound channel: noise.
pub struct NoiseChannel {}

/// One of the two outputs that the channels are mixed to.
pub struct SoundTerminal {}

/// What mixes the channels.
pub struct SoundController {}

/// Everything a cartridge can have.
#[derive(Copy, Clone, Debug, PartialEq, Eq)]
pub enum CartFeature {
    Unknown,
    ROM,
    RAM,
    MBC1,
    MBC2,
    MBC3,
    MBC5,
    MBC6,
    MBC7,
    MMM01,
    Battery,
    Timer,
    Rumble,
    Sensor,
    PocketCamera,
    BandaiTama5,
    HuC1,
    HuC3,
}

impl CartFeature {
    /// The same feature, as the memory bank controllers know it.
    pub open spec fn of(f: CartridgeFeature) -> CartFeature {
        match f {
            CartridgeFeature::Unknown => CartFeature::Unknown,
            CartridgeFeature::ROM => CartFeature::ROM,
            CartridgeFeature::RAM => CartFeature::RAM,
            CartridgeFeature::MBC1 => CartFeature::MBC1,
            CartridgeFeature::MBC2 => CartFeature::MBC2,
            CartridgeFeature::MBC3 => CartFeature::MBC3,
            CartridgeFeature::MBC5 => CartFeature::MBC5,
            CartridgeFeature::MBC6 => CartFeature::MBC6,
            CartridgeFeature::MBC7 => CartFeature::MBC7,
            CartridgeFeature::MMM01 => CartFeature::MMM01,
            CartridgeFeature::Battery => CartFeature::Battery,
            CartridgeFeature::Timer => CartFeature::Timer,
            CartridgeFeature::Rumble => CartFeature::Rumble,
            CartridgeFeature::Sensor => CartFeature::Sensor,
            CartridgeFeature::PocketCamera => CartFeature::PocketCamera,
            CartridgeFeature::BandaiTama5 => CartFeature::BandaiTama5,
            CartridgeFeature::HuC1 => CartFeature::HuC1,
            CartridgeFeature::HuC3 => CartFeature::HuC3,
        }
    }

    fn from_feature(f: CartridgeFeature) -> (r: CartFeature)
        ensures
            r == CartFeature::of(f),
    {
        match f {
            CartridgeFeature::Unknown => CartFeature::Unknown,
            CartridgeFeature::ROM => CartFeature::ROM,
            CartridgeFeature::RAM => CartFeature::RAM,
            CartridgeFeature::MBC1 => CartFeature::MBC1,
            CartridgeFeature::MBC2 => CartFeature::MBC2,
            CartridgeFeature::MBC3 => CartFeature::MBC3,
            CartridgeFeature::MBC5 => CartFeature::MBC5,
            CartridgeFeature::MBC6 => CartFeature::MBC6,
            CartridgeFeature::MBC7 => CartFeature::MBC7,
            CartridgeFeature::MMM01 => CartFeature::MMM01,
            CartridgeFeature::Battery => CartFeature::Battery,
            CartridgeFeature::Timer => CartFeature::Timer,
            CartridgeFeature::Rumble => CartFeature::Rumble,
            CartridgeFeature::Sensor => CartFeature::Sensor,
            CartridgeFeature::PocketCamera => CartFeature::PocketCamera,
            CartridgeFeature::BandaiTama5 => CartFeature::BandaiTama5,
            CartridgeFeature::HuC1 => CartFeature::HuC1,
            CartridgeFeature::HuC3 => CartFeature::HuC3,
        }
    }
}

/// A cartridge as its whole image, and what its header says of it.
pub struct Cartridge {
    pub title: String,
    pub contents: Vec<u8>,
    pub features: Vec<CartFeature>,
    pub rom_size: usize,
    pub rom_banks: usize,
    pub ram_size: usize,
    pub ram_banks: usize,
    pub locale: String,
    pub header_checksum: u8,
    pub global_checksum: u16,
}

/// Copies a run of bytes out of an image, if the image holds them all.
fn image_bytes(contents: &Vec<u8>, start: usize, end: usize) -> (r: Option<Vec<u8>>)
    requires
        start <= end,
    ensures
        r is Some == bytes_between(contents@, start as int, end as int) is Some,
        r matches Some(v) ==> Some(v@) == bytes_between(contents@, start as int, end as int),
{
    if end > contents.len() {
        None
    } else {
        let mut out: Vec<u8> = Vec::new();
        let mut i: usize = start;
        while i < end
            invariant
                start <= i <= end <= contents@.len(),
                out@ == contents@.subrange(start as int, i as int),
            decreases end - i,
        {
            out.push(contents[i]);
            i = i + 1;
            assert(out@ =~= contents@.subrange(start as int, i as int));
        }
        Some(out)
    }
}

impl Cartridge {
    /// Why the cartridge is not valid, if it is not: the reason that
    /// `validate` gives.
    pub open spec fn fault(&self) -> Option<Seq<char>> {
        fault_in(
            bytes_between(self.contents@, 0x0104, 0x0134),
            bytes_between(self.contents@, 0x0134, 0x014D),
            self.header_checksum,
        )
    }

    /// Reads a cartridge out of its image. Where the image ends before a
    /// field of the header, the field reads as unknown or zero.
    pub fn from_bytes(contents: Vec<u8>) -> (c: Cartridge)
        ensures
            c.contents@ == contents@,
            c.title@ == title_of(contents@),
            c.features@ == features_of(byte_at(contents@, 0x0147)).map_values(
                |f: CartridgeFeature| CartFeature::of(f),
            ),
            (c.rom_size, c.rom_banks) == rom_size_of(byte_at(contents@, 0x0148)),
            (c.ram_size, c.ram_banks) == ram_size_of(byte_at(contents@, 0x0149)),
            c.locale@ == locale_of(byte_at(contents@, 0x014A)),
            c.header_checksum == byte_or_zero(contents@, 0x014D),
            c.global_checksum == ((byte_or_zero(contents@, 0x014E) as u16) << 8) | (byte_or_zero(
                contents@,
                0x014F,
            ) as u16),
    {
        let title = read_title(&contents);
        let found = read_features(image_byte(&contents, 0x0147));
        let mut features: Vec<CartFeature> = Vec::new();
        let mut i: usize = 0;
        while i < found.len()
            invariant
                i <= found@.len(),
                features@ == found@.subrange(0, i as int).map_values(
                    |f: CartridgeFeature| CartFeature::of(f),
                ),
            decreases found@.len() - i,
        {
            features.push(CartFeature::from_feature(found[i]));
            i = i + 1;
            assert(features@ =~= found@.subrange(0, i as int).map_values(
                |f: CartridgeFeature| CartFeature::of(f),
            ));
        }
        assert(found@.subrange(0, found@.len() as int) =~= found@);
        let (rom_size, rom_banks) = read_rom_size(image_byte(&contents, 0x0148));
        let (ram_size, ram_banks) = read_ram_size(image_byte(&contents, 0x0149));
        let locale = read_locale(image_byte(&contents, 0x014A));
        let header_checksum = image_byte_or_zero(&contents, 0x014D);
        let upper = image_byte_or_zero(&contents, 0x014E);
        let lower = image_byte_or_zero(&contents, 0x014F);
        let global_checksum = ((upper as u16) << 8) | (lower as u16);
        Cartridge {
            title,
            contents,
            features,
            rom_size,
            rom_banks,
            ram_size,
            ram_banks,
            locale,
            header_checksum,
            global_checksum,
        }
    }

    /// Checks the logo at 0x0104 and the header checksum. The reason comes
    /// back when one of them is wrong.
    pub fn validate(&self) -> (r: Result<(), String>)
        ensures
            r is Ok <==> self.fault() is None,
            r matches Err(e) ==> Some(e@) == self.fault(),
    {
        check_header(
            image_bytes(&self.contents, 0x0104, 0x0134),
            image_bytes(&self.contents, 0x0134, 0x014D),
            self.header_checksum,
        )
    }

    /// The image written out for reading: sixteen bytes to a line, each as
    /// a character or as two digits in base 16.
    pub fn dump_text(&self, as_chars: bool) -> (text: String)
        ensures
            text@ == dump_text(self.contents@, self.contents@.len() as int, as_chars),
    {
        let mut text = String::new();
        push_dump(&mut text, &self.contents, as_chars);
        text
    }
}

/// The console: a CPU, a memory, and the cartridge in the slot, if there
/// is one. Instructions are read from the image of the cartridge; loads and
/// stores go to the memory.
pub struct Console {
    pub cpu: CPU,
    pub ram: Memory,
    pub rom: Option<Cartridge>,
}

/// What an instruction can change of a console.
pub struct ConsoleState {
    pub regs: Registers,
    pub stack: Seq<u16>,
    pub ram: Seq<u8>,
}

/// What is reported for an opcode that the console does not know.
pub open spec fn unknown_opcode_text(opcode: u8) -> Seq<char> {
    "UNKNOWN OPCODE: "@ + hex_text(opcode as nat, 2)
}

/// What is reported when an instruction runs over the end of the image.
pub open spec fn beyond_image_text(pc: u16) -> Seq<char> {
    "No instruction to read at "@ + hex_text(pc as nat, 4)
}

/// The opcodes that the console knows.
pub open spec fn is_known(opcode: u8) -> bool {
    opcode == 0x00 || opcode == 0x01 || opcode == 0x06 || opcode == 0x10 || opcode == 0x20 || opcode
        == 0x21 || opcode == 0x3B || opcode == 0x3C || opcode == 0x44 || opcode == 0x4D || opcode
        == 0x50 || opcode == 0x51 || opcode == 0x61 || opcode == 0x76 || opcode == 0x78 || opcode
        == 0x7E || opcode == 0x7F || opcode == 0xC1 || opcode == 0xC3 || opcode == 0xC5 || opcode
        == 0xCB || opcode == 0xE0 || opcode == 0xE9 || opcode == 0xEA || opcode == 0xF0 || opcode
        == 0xF3 || opcode == 0xF5 || opcode == 0xFB || opcode == 0xFE
}

/// How many bytes an instruction that the console knows takes, its opcode
/// among them.
pub open spec fn length_of(opcode: u8) -> int {
    if opcode == 0x01 || opcode == 0x21 || opcode == 0xC3 || opcode == 0xEA {
        3
    } else if opcode == 0x06 || opcode == 0x20 || opcode == 0xCB || opcode == 0xE0 || opcode == 0xF0
        || opcode == 0xFE {
        2
    } else {
        1
    }
}

/// The byte at `at` of what instructions are read from: a byte of the
/// image, or zero where there is no cartridge.
pub open spec fn code_at(image: Option<Seq<u8>>, at: int) -> u8 {
    match image {
        Some(bytes) => bytes[at],
        None => 0,
    }
}

/// Whether the bytes from `at` up to `at + n` can be read as code.
pub open spec fn code_within(image: Option<Seq<u8>>, at: int, n: int) -> bool {
    at + n <= 0x1_0000 && (image matches Some(bytes) ==> at + n <= bytes.len())
}

impl ConsoleState {
    /// The byte that three bits of a prefixed opcode select: B, C, D, E, H,
    /// L, the byte of memory at the address in HL, or A.
    pub open spec fn operand(self, t: u8) -> u8 {
        if t == 0 {
            self.regs.b.0
        } else if t == 1 {
            self.regs.c.0
        } else if t == 2 {
            self.regs.d.0
        } else if t == 3 {
            self.regs.e.0
        } else if t == 4 {
            self.regs.h.0
        } else if t == 5 {
            self.regs.l.0
        } else if t == 6 {
            self.ram[self.regs.spec_get_hl() as int]
        } else {
            self.regs.a.0
        }
    }

    /// The state with a byte in the operand selected.
    pub open spec fn with_operand(self, t: u8, v: u8) -> ConsoleState {
        let r = self.regs;
        if t == 0 {
            ConsoleState { regs: Registers { b: Reg8(v), ..r }, ..self }
        } else if t == 1 {
            ConsoleState { regs: Registers { c: Reg8(v), ..r }, ..self }
        } else if t == 2 {
            ConsoleState { regs: Registers { d: Reg8(v), ..r }, ..self }
        } else if t == 3 {
            ConsoleState { regs: Registers { e: Reg8(v), ..r }, ..self }
        } else if t == 4 {
            ConsoleState { regs: Registers { h: Reg8(v), ..r }, ..self }
        } else if t == 5 {
            ConsoleState { regs: Registers { l: Reg8(v), ..r }, ..self }
        } else if t == 6 {
            ConsoleState { ram: self.ram.update(r.spec_get_hl() as int, v), ..self }
        } else {
            ConsoleState { regs: Registers { a: Reg8(v), ..r }, ..self }
        }
    }

    /// The state with other registers.
    pub open spec fn with_regs(self, regs: Registers) -> ConsoleState {
        ConsoleState { regs, ..self }
    }

    /// The state after an instruction of the prefixed table: bits 7-3 of
    /// the opcode select what is done and bits 2-0 the operand.
    pub open spec fn prefixed(self, opcode: u8) -> ConsoleState {
        let f = opcode / 8;
        let t = opcode % 8;
        let v = self.operand(t);
        if f < 8 {
            let done = shifted(f, v, self.regs.spec_carry_bit());
            let s = self.with_operand(t, done.0);
            s.with_regs(s.regs.with_flags(done.0 == 0, false, false, done.1))
        } else if f < 16 {
            self.with_regs(
                self.regs.with_some_flags(
                    Some(v & (1u8 << ((f - 8) as u8)) == 0),
                    Some(false),
                    Some(true),
                    None,
                ),
            )
        } else if f < 24 {
            self.with_operand(t, v & !(1u8 << ((f - 16) as u8)))
        } else {
            self.with_operand(t, v | (1u8 << ((f - 24) as u8)))
        }
    }

    /// The state after the instruction at the program counter, which the
    /// console must know and be able to read whole, but for where the
    /// program counter ends. `b1` and `b2` are the two bytes after the
    /// opcode.
    pub open spec fn after(self, opcode: u8, b1: u8, b2: u8) -> ConsoleState {
        let r = self.regs;
        let short = pair(b2, b1);
        if opcode == 0x01 {
            self.with_regs(r.with_bc(short))
        } else if opcode == 0x06 {
            self.with_regs(Registers { b: Reg8(b1), ..r })
        } else if opcode == 0x21 {
            self.with_regs(r.with_hl(short))
        } else if opcode == 0x3B {
            self.with_regs(Registers { sp: wrap16(r.sp - 1), ..r })
        } else if opcode == 0x3C {
            self.with_regs(
                Registers { a: Reg8(wrap8(r.a.0 + 1)), ..r }.with_some_flags(
                    Some(wrap8(r.a.0 + 1) == 0),
                    Some(false),
                    Some(half_carry(r.a.0, 1)),
                    None,
                ),
            )
        } else if opcode == 0x44 {
            self.with_regs(Registers { b: r.h, ..r })
        } else if opcode == 0x4D {
            self.with_regs(Registers { c: r.l, ..r })
        } else if opcode == 0x50 {
            self.with_regs(Registers { d: r.b, ..r })
        } else if opcode == 0x51 {
            self.with_regs(Registers { d: r.c, ..r })
        } else if opcode == 0x61 {
            self.with_regs(Registers { h: r.c, ..r })
        } else if opcode == 0x78 {
            self.with_regs(Registers { a: r.b, ..r })
        } else if opcode == 0x7E {
            self.with_regs(Registers { a: Reg8(self.ram[r.spec_get_hl() as int]), ..r })
        } else if opcode == 0xC1 {
            self.with_regs(
                Registers { sp: wrap16(r.sp + 2), ..r }.with_bc(self.stack[r.sp as int]),
            )
        } else if opcode == 0xC5 {
            ConsoleState {
                regs: Registers { sp: wrap16(r.sp - 2), ..r },
                stack: self.stack.update(wrap16(r.sp - 2) as int, r.spec_get_bc()),
                ..self
            }
        } else if opcode == 0xF5 {
            ConsoleState {
                regs: Registers { sp: wrap16(r.sp - 2), ..r },
                stack: self.stack.update(wrap16(r.sp - 2) as int, r.spec_get_af()),
                ..self
            }
        } else if opcode == 0xCB {
            self.prefixed(b1)
        } else if opcode == 0xE0 {
            ConsoleState { ram: self.ram.update(0xFF00 + b1, r.a.0), ..self }
        } else if opcode == 0xEA {
            ConsoleState { ram: self.ram.update(short as int, r.a.0), ..self }
        } else if opcode == 0xF0 {
            self.with_regs(Registers { a: Reg8(self.ram[0xFF00 + b1]), ..r })
        } else if opcode == 0xF3 {
            ConsoleState { ram: self.ram.update(0xFFFF, 0), ..self }
        } else if opcode == 0xFE {
            self.with_regs(r.after_cp(b1))
        } else {
            self
        }
    }

    /// Where the program counter ends after the instruction: at the
    /// target of a jump that is taken, else behind the instruction. STOP
    /// and HALT leave it where it is.
    pub open spec fn next_pc(self, opcode: u8, b1: u8, b2: u8) -> u16 {
        let behind = wrap16(self.regs.pc + length_of(opcode));
        if opcode == 0x10 || opcode == 0x76 {
            self.regs.pc
        } else if opcode == 0xC3 {
            pair(b2, b1)
        } else if opcode == 0xE9 {
            self.regs.spec_get_hl()
        } else if opcode == 0x20 && !self.regs.spec_zero() {
            wrap16(behind + crate::classic::cpu::signed(b1))
        } else {
            behind
        }
    }

    /// What the CPU reports after the instruction.
    pub open spec fn status(opcode: u8) -> CPUStatus {
        if opcode == 0x10 {
            CPUStatus::Stop
        } else if opcode == 0x76 {
            CPUStatus::Halt
        } else {
            CPUStatus::Continue
        }
    }
}

/// CP with a byte.
fn compare(cpu: &mut CPU, other: u8)
    ensures
        final(cpu).regs() == old(cpu).regs().after_cp(other),
        final(cpu).stack == old(cpu).stack,
{
    cpu.cmp(other);
}

impl Console {
    /// The registers, the stack and the memory.
    pub open spec fn state(&self) -> ConsoleState {
        ConsoleState { regs: self.cpu.regs(), stack: self.cpu.stack@, ram: self.ram@ }
    }

    /// The image of the cartridge in the slot, if there is one.
    pub open spec fn image(&self) -> Option<Seq<u8>> {
        match self.rom {
            Some(c) => Some(c.contents@),
            None => None,
        }
    }

    /// Why the console cannot execute the instruction at the program
    /// counter, if it cannot: the instruction runs over the end of the image or
    /// of the address space, or the console does not know the opcode.
    pub open spec fn fault(&self) -> Option<Seq<char>> {
        let pc = self.cpu.pc;
        if !code_within(self.image(), pc as int, 1) {
            Some(beyond_image_text(pc))
        } else if !is_known(code_at(self.image(), pc as int)) {
            Some(unknown_opcode_text(code_at(self.image(), pc as int)))
        } else if !code_within(
            self.image(),
            pc as int,
            length_of(code_at(self.image(), pc as int)),
        ) {
            Some(beyond_image_text(pc))
        } else {
            None
        }
    }

    /// The state after the instruction at the program counter.
    pub open spec fn executed(&self) -> ConsoleState {
        let pc = self.cpu.pc as int;
        let opcode = code_at(self.image(), pc);
        let b1 = if length_of(opcode) >= 2 {
            code_at(self.image(), pc + 1)
        } else {
            0
        };
        let b2 = if length_of(opcode) >= 3 {
            code_at(self.image(), pc + 2)
        } else {
            0
        };
        let s = self.state().after(opcode, b1, b2);
        s.with_regs(Registers { pc: self.state().next_pc(opcode, b1, b2), ..s.regs })
    }

    /// A console with a CPU and a memory as they are when the console is
    /// switched on, and the given cartridge in the slot.
    pub fn new(rom: Option<Cartridge>) -> (console: Console)
        ensures
            console.cpu.regs() == CPU::boot_registers(),
            console.cpu.wf(),
            console.ram@ == Seq::new(0x1_0000, |i: int| 0u8),
            console.rom == rom,
    {
        Console { cpu: CPU::init(), ram: Memory::init(), rom }
    }

    /// Executes the instruction at the program counter.
    pub fn step(&mut self) -> (r: Result<(), String>)
        requires
            old(self).cpu.stack@.len() == 0x1_0000,
        ensures
            final(self).rom == old(self).rom,
            r is Ok <==> old(self).fault() is None,
            r matches Err(e) ==> Some(e@) == old(self).fault() && final(self).state() == old(
                self,
            ).state(),
            r is Ok ==> final(self).state() == old(self).executed(),
    {
        match self.exec() {
            Ok(_) => Ok(()),
            Err(e) => Err(e),
        }
    }

    /// Reads a byte of code.
    fn code(&self, at: usize) -> (b: u8)
        requires
            code_within(self.image(), at as int, 1),
        ensures
            b == code_at(self.image(), at as int),
    {
        match &self.rom {
            Some(rom) => rom.contents[at],
            None => 0,
        }
    }

    /// Whether `n` bytes of code can be read from `at` on.
    fn has_code(&self, at: usize, n: usize) -> (r: bool)
        requires
            at <= 0xFFFF,
            n <= 3,
        ensures
            r == code_within(self.image(), at as int, n as int),
    {
        at + n <= ADDRESS_SPACE && match &self.rom {
            Some(rom) => at + n <= rom.contents.len(),
            None => true,
        }
    }

    /// Executes an instruction of the prefixed table.
    fn exec_prefixed(&mut self, opcode: u8)
        ensures
            final(self).rom == old(self).rom,
            final(self).state() == old(self).state().prefixed(opcode),
    {
        let f = opcode / 8;
        let t = opcode % 8;
        let hl = self.cpu.get_hl();
        let target = if t == 0 {
            Register::B
        } else if t == 1 {
            Register::C
        } else if t == 2 {
            Register::D
        } else if t == 3 {
            Register::E
        } else if t == 4 {
            Register::H
        } else if t == 5 {
            Register::L
        } else if t == 6 {
            Register::Address(&mut self.ram, hl)
        } else {
            Register::A
        };
        if f == 0 {
            self.cpu.rlc(target);
        } else if f == 1 {
            self.cpu.rrc(target);
        } else if f == 2 {
            self.cpu.rl(target);
        } else if f == 3 {
            self.cpu.rr(target);
        } else if f == 4 {
            self.cpu.sla(target);
        } else if f == 5 {
            self.cpu.sra(target);
        } else if f == 6 {
            self.cpu.swap(target);
        } else if f == 7 {
            self.cpu.srl(target);
        } else if f < 16 {
            self.cpu.check_bit(f - 8, target);
        } else if f < 24 {
            self.cpu.reset_bit(f - 16, target);
        } else {
            self.cpu.set_bit(f - 24, target);
        }
    }

    /// Executes the instruction at the program counter and says what the
    /// CPU does next. Fails, and changes nothing, when the instruction
    /// cannot be read whole or the console does not know its opcode.
    pub fn exec(&mut self) -> (r: Result<CPUStatus, String>)
        requires
            old(self).cpu.stack@.len() == 0x1_0000,
        ensures
            final(self).rom == old(self).rom,
            r is Ok <==> old(self).fault() is None,
            r matches Err(e) ==> Some(e@) == old(self).fault() && final(self).state() == old(
                self,
            ).state(),
            r matches Ok(status) ==> final(self).state() == old(self).executed() && status
                == ConsoleState::status(code_at(old(self).image(), old(self).cpu.pc as int)),
    {
        let pc = self.cpu.pc;
        let at = pc as usize;
        if !self.has_code(at, 1) {
            return Err(beyond_image_error(pc));
        }
        let opcode = self.code(at);
        if !known(opcode) {
            return Err(unknown_opcode_error(opcode));
        }
        let length = length(opcode);
        if !self.has_code(at, length) {
            return Err(beyond_image_error(pc));
        }
        let b1 = if length >= 2 {
            self.code(at + 1)
        } else {
            0
        };
        let b2 = if length >= 3 {
            self.code(at + 2)
        } else {
            0
        };
        let short = ((b2 as u16) << 8) | (b1 as u16);
        let behind = pc.wrapping_add(length as u16);
        let mut next = behind;
        let mut status = CPUStatus::Continue;
        if opcode == 0x01 {
            self.cpu.load_16bit_literal(Register::BC, short);
        } else if opcode == 0x06 {
            self.cpu.load_8bit_literal(Register::B, b1);
        } else if opcode == 0x10 {
            status = CPUStatus::Stop;
            next = pc;
        } else if opcode == 0x20 {
            if self.cpu.get_zero() != 1 {
                next = crate::classic::utils::add_i8_to_u16(
                    behind,
                    crate::classic::cpu::to_signed(b1),
                );
            }
        } else if opcode == 0x21 {
            self.cpu.load_16bit_literal(Register::HL, short);
        } else if opcode == 0x3B {
            self.cpu.sp = self.cpu.sp.wrapping_sub(1);
        } else if opcode == 0x3C {
            self.cpu.inc(Register::A);
        } else if opcode == 0x44 {
            self.cpu.load_8bit_reg(Register::B, Register::H);
        } else if opcode == 0x4D {
            self.cpu.load_8bit_reg(Register::C, Register::L);
        } else if opcode == 0x50 {
            self.cpu.load_8bit_reg(Register::D, Register::B);
        } else if opcode == 0x51 {
            self.cpu.load_8bit_reg(Register::D, Register::C);
        } else if opcode == 0x61 {
            self.cpu.load_8bit_reg(Register::H, Register::C);
        } else if opcode == 0x76 {
            status = CPUStatus::Halt;
            next = pc;
        } else if opcode == 0x78 {
            self.cpu.load_8bit_reg(Register::A, Register::B);
        } else if opcode == 0x7E {
            let addr = self.cpu.get_hl();
            self.cpu.a = self.ram.read_byte(addr);
        } else if opcode == 0x7F {
            self.cpu.load_8bit_reg(Register::A, Register::A);
        } else if opcode == 0xC1 {
            self.cpu.pop(Register::BC);
        } else if opcode == 0xC3 {
            next = short;
        } else if opcode == 0xC5 {
            self.cpu.push(Register::BC);
        } else if opcode == 0xCB {
            self.exec_prefixed(b1);
        } else if opcode == 0xE0 {
            self.ram.write_byte(0xFF00u16 + (b1 as u16), self.cpu.a);
        } else if opcode == 0xE9 {
            next = self.cpu.get_hl();
        } else if opcode == 0xEA {
            self.ram.write_byte(short, self.cpu.a);
        } else if opcode == 0xF0 {
            self.cpu.a = self.ram.read_byte(0xFF00u16 + (b1 as u16));
        } else if opcode == 0xF3 {
            self.ram.write_byte(0xFFFF, 0);
        } else if opcode == 0xF5 {
            self.cpu.push(Register::AF);
        } else if opcode == 0xFE {
            compare(&mut self.cpu, b1);
        }
        self.cpu.pc = next;
        Ok(status)
    }
}

/// Whether the console knows an opcode.
fn known(opcode: u8) -> (r: bool)
    ensures
        r == is_known(opcode),
{
    opcode == 0x00 || opcode == 0x01 || opcode == 0x06 || opcode == 0x10 || opcode == 0x20 || opcode
        == 0x21 || opcode == 0x3B || opcode == 0x3C || opcode == 0x44 || opcode == 0x4D || opcode
        == 0x50 || opcode == 0x51 || opcode == 0x61 || opcode == 0x76 || opcode == 0x78 || opcode
        == 0x7E || opcode == 0x7F || opcode == 0xC1 || opcode == 0xC3 || opcode == 0xC5 || opcode
        == 0xCB || opcode == 0xE0 || opcode == 0xE9 || opcode == 0xEA || opcode == 0xF0 || opcode
        == 0xF3 || opcode == 0xF5 || opcode == 0xFB || opcode == 0xFE
}

/// How many bytes an instruction takes.
fn length(opcode: u8) -> (n: usize)
    ensures
        n == length_of(opcode),
        1 <= n <= 3,
{
    if opcode == 0x01 || opcode == 0x21 || opcode == 0xC3 || opcode == 0xEA {
        3
    } else if opcode == 0x06 || opcode == 0x20 || opcode == 0xCB || opcode == 0xE0 || opcode == 0xF0
        || opcode == 0xFE {
        2
    } else {
        1
    }
}

/// Builds the report on an opcode that the console does not know.
fn unknown_opcode_error(opcode: u8) -> (e: String)
    ensures
        e@ == unknown_opcode_text(opcode),
{
    let mut e = String::from_str("UNKNOWN OPCODE: ");
    push_hex(&mut e, opcode as usize, 2);
    e
}

/// Builds the report on an instruction that cannot be read whole.
fn beyond_image_error(pc: u16) -> (e: String)
    ensures
        e@ == beyond_image_text(pc),
{
    let mut e = String::from_str("No instruction to read at ");
    push_hex(&mut e, pc as usize, 4);
    e
}

} // verus!
