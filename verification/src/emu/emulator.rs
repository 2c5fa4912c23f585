//! The console as registers over one memory: the table of instructions with
//! what each of them does in words, a few instructions executed on the
//! registers, and what the header of a ROM says.

use vstd::prelude::*;
use super::registers::Registers;
use crate::classic::cartridge::{logo, read_title, title_of};
use crate::classic::registers::{half_borrow, half_carry};
use crate::classic::utils::{wrap16, wrap8};
use crate::text::{
    decimal_text,
    dump_text,
    hex_text,
    push_decimal,
    push_dump,
    push_hex,
    push_text,
};

verus! {

/// Which console a ROM was made for.
#[derive(Copy, Clone, Debug, PartialEq, Eq)]
pub enum GameBoyType {
    Unset,
    Classic,
    Color,
    Advance,
}

/// Everything a cartridge can have.
#[derive(Copy, Clone, Debug, PartialEq, Eq)]
pub enum CartFeature {
    Unknown,
    ROM,
    RAM,
    MBC1,
    MBC2,
    MBC3,
    MBC5,
    MBC6,
    MBC7,
    MMM01,
    Battery,
    Timer,
    Rumble,
    Sensor,
    PocketCamera,
    BandaiTama5,
    HuC1,
    HuC3,
}

impl CartFeature {
    /// The name of the feature.
    pub open spec fn name_text(self) -> Seq<char> {
        match self {
            CartFeature::Unknown => "Unknown"@,
            CartFeature::ROM => "ROM"@,
            CartFeature::RAM => "RAM"@,
            CartFeature::MBC1 => "MBC1"@,
            CartFeature::MBC2 => "MBC2"@,
            CartFeature::MBC3 => "MBC3"@,
            CartFeature::MBC5 => "MBC5"@,
            CartFeature::MBC6 => "MBC6"@,
            CartFeature::MBC7 => "MBC7"@,
            CartFeature::MMM01 => "MMM01"@,
            CartFeature::Battery => "Battery"@,
            CartFeature::Timer => "Timer"@,
            CartFeature::Rumble => "Rumble"@,
            CartFeature::Sensor => "Sensor"@,
            CartFeature::PocketCamera => "PocketCamera"@,
            CartFeature::BandaiTama5 => "BandaiTama5"@,
            CartFeature::HuC1 => "HuC1"@,
            CartFeature::HuC3 => "HuC3"@,
        }
    }

    /// The name of the feature.
    pub fn name(&self) -> (s: &'static str)
        ensures
            s@ == self.name_text(),
    {
        match self {
            CartFeature::Unknown => "Unknown",
            CartFeature::ROM => "ROM",
            CartFeature::RAM => "RAM",
            CartFeature::MBC1 => "MBC1",
            CartFeature::MBC2 => "MBC2",
            CartFeature::MBC3 => "MBC3",
            CartFeature::MBC5 => "MBC5",
            CartFeature::MBC6 => "MBC6",
            CartFeature::MBC7 => "MBC7",
            CartFeature::MMM01 => "MMM01",
            CartFeature::Battery => "Battery",
            CartFeature::Timer => "Timer",
            CartFeature::Rumble => "Rumble",
            CartFeature::Sensor => "Sensor",
            CartFeature::PocketCamera => "PocketCamera",
            CartFeature::BandaiTama5 => "BandaiTama5",
            CartFeature::HuC1 => "HuC1",
            CartFeature::HuC3 => "HuC3",
        }
    }
}

/// One line of the table of instructions: the opcode, the mnemonic, what
/// the instruction does, how many bytes it takes and how many cycles.
#[derive(Debug)]
pub struct Instruction {
    pub mnemonic: String,
    pub opcode: u8,
    pub description: String,
    pub size: usize,
    pub cycles: u32,
}

/// What the table says of an opcode: the mnemonic, the description, the
/// size in bytes and the cycles. Nothing for an opcode that the processor
/// does not define.
pub open spec fn listed(code: u8) -> Option<(Seq<char>, Seq<char>, usize, u32)> {
    match code {
        0x00 => Some(("nop"@, "No operation"@, 1, 4)),
        0x01 => Some(("ld BC, <u16>"@, "Load a short into BC"@, 3, 12)),
        0x02 => Some(("ld (BC), A"@, "Load the value in A into the address stored in BC"@, 1, 8)),
        0x03 => Some(("inc BC"@, "Increment BC"@, 1, 8)),
        0x04 => Some(("inc B"@, "Increment B"@, 1, 4)),
        0x05 => Some(("dec B"@, "Decrement B"@, 1, 4)),
        0x06 => Some(("ld B, <u8>"@, "Load a byte into B"@, 2, 8)),
        0x07 => Some(("rlca"@, "Rotate the value in A to the left, storing the leftmost bit in Carry"@, 1, 4)),
        0x08 => Some(("ld (<u16>), SP"@, "Load the value of the stack pointer into memory"@, 3, 20)),
        0x09 => Some(("add HL, BC"@, "Add the value in BC to the value in HL, storing the result in HL"@, 1, 8)),
        0x0A => Some(("ld A, (BC)"@, "Load the value in the memory location stored in BC into A"@, 1, 8)),
        0x0B => Some(("dec BC"@, "Decrement BC"@, 1, 8)),
        0x0C => Some(("inc C"@, "Increment C"@, 1, 4)),
        0x0D => Some(("dec C"@, "Decrement C"@, 1, 4)),
        0x0E => Some(("ld C, <u8>"@, "Load a byte into C"@, 2, 8)),
        0x0F => Some(("rrca"@, "Rotate the value in A to the right, storing the rightmost bit in Carry"@, 1, 4)),
        0x10 => Some(("stop $00"@, "Halt CPU and screen until a button is pressed"@, 2, 4)),
        0x11 => Some(("ld DE, <u16>"@, "Load a short into DE"@, 3, 12)),
        0x12 => Some(("ld (DE), A"@, "Load the value in A into the address stored in BC"@, 1, 8)),
        0x13 => Some(("inc DE"@, "Increment DE"@, 1, 8)),
        0x14 => Some(("inc D"@, "Increment D"@, 1, 4)),
        0x15 => Some(("dec D"@, "Decrement D"@, 1, 4)),
        0x16 => Some(("ld D, <u8>"@, "Load a byte into D"@, 2, 8)),
        0x17 => Some(("rla"@, "Rotate the value in A to the left"@, 1, 4)),
        0x18 => Some(("jr <i8>"@, "Jump relative to the current position"@, 2, 12)),
        0x19 => Some(("add HL, DE"@, "Add the value in DE to the value in HL, storing the result in HL"@, 1, 8)),
        0x1A => Some(("ld A, (DE)"@, "Load the value in the memory location stored in DE into A"@, 1, 8)),
        0x1B => Some(("dec DE"@, "Decrement DE"@, 1, 8)),
        0x1C => Some(("inc E"@, "Increment E"@, 1, 4)),
        0x1D => Some(("dec E"@, "Decrement E"@, 1, 4)),
        0x1E => Some(("ld E, <u8>"@, "Load a byte into E"@, 2, 8)),
        0x1F => Some(("rra"@, "Rotate the value in A to the right"@, 1, 4)),
        0x20 => Some(("jr NZ, <i8>"@, "Jump relative to current position if Zero is not set"@, 2, 8)),
        0x21 => Some(("ld HL, <u16>"@, "Load a short into HL"@, 3, 12)),
        0x22 => Some(("ld (HL+), A"@, "Load the value in A into the address stored in HL and increment HL"@, 1, 8)),
        0x23 => Some(("inc HL"@, "Increment HL"@, 1, 8)),
        0x24 => Some(("inc H"@, "Increment H"@, 1, 4)),
        0x25 => Some(("dec H"@, "Decrement H"@, 1, 4)),
        0x26 => Some(("ld H, <u8>"@, "Load a byte into H"@, 2, 8)),
        0x27 => Some(("daa"@, "Convert the value in A to a binary-encoded decimal"@, 1, 4)),
        0x28 => Some(("jr Z, <i8>"@, "Jump relative to current position if Zero is set"@, 2, 8)),
        0x29 => Some(("add HL, HL"@, "Add the value stored in HL to the value in HL and store the result in HL"@, 1, 8)),
        0x2A => Some(("ld A, (HL+)"@, "Load the value at the address stored in HL to A and increment HL"@, 1, 8)),
        0x2B => Some(("dec HL"@, "Decrement HL"@, 1, 8)),
        0x2C => Some(("inc L"@, "Increment L"@, 1, 4)),
        0x2D => Some(("dec L"@, "Decrement L"@, 1, 4)),
        0x2E => Some(("ld L, <u8>"@, "Load a byte into L"@, 2, 8)),
        0x2F => Some(("cpl"@, "Flip all the bits of A"@, 1, 4)),
        0x30 => Some(("jr NC, <i8>"@, "Jump relative to current position if Carry is not set"@, 2, 8)),
        0x31 => Some(("ld SP, <u16>"@, "Load a short into the stack pointer"@, 3, 12)),
        0x32 => Some(("ld (HL-), A"@, "Load the value in A into the address stored in HL and decrement HL"@, 1, 8)),
        0x33 => Some(("inc SP"@, "Increment the stack pointer"@, 1, 8)),
        0x34 => Some(("inc (HL)"@, "Increment the value at the address stored in HL"@, 1, 12)),
        0x35 => Some(("dec (HL)"@, "Decrement the value at the address stored in HL"@, 1, 12)),
        0x36 => Some(("ld (HL), <u8>"@, "Load a byte into the address stored in HL"@, 2, 8)),
        0x37 => Some(("scf"@, "Set the Carry flag"@, 1, 4)),
        0x38 => Some(("jr C, <i8>"@, "Jump relative to current position if Carry is set"@, 2, 8)),
        0x39 => Some(("add HL, SP"@, "Add the value of the stack pointer to the value in HL and store the result in HL"@, 1, 8)),
        0x3A => Some(("ld A, (HL-)"@, "Load the value at the address stored in HL to A and decrement HL"@, 1, 8)),
        0x3B => Some(("dec SP"@, "Decrement the stack pointer"@, 1, 8)),
        0x3C => Some(("inc A"@, "Increment A"@, 1, 4)),
        0x3D => Some(("dec A"@, "Decrement A"@, 1, 4)),
        0x3E => Some(("ld A, <u8>"@, "Load a byte into A"@, 2, 8)),
        0x3F => Some(("ccf"@, "Flip the Carry flag"@, 1, 4)),
        0x40 => Some(("ld B, B"@, "Load the value in B into B"@, 1, 4)),
        0x41 => Some(("ld B, C"@, "Load the value in C into B"@, 1, 4)),
        0x42 => Some(("ld B, D"@, "Load the value in D into B"@, 1, 4)),
        0x43 => Some(("ld B, E"@, "Load the value in E into B"@, 1, 4)),
        0x44 => Some(("ld B, H"@, "Load the value in H into B"@, 1, 4)),
        0x45 => Some(("ld B, H"@, "Load the value in L into B"@, 1, 4)),
        0x46 => Some(("ld B, (HL)"@, "Load the value at the address stored in HL into B"@, 1, 8)),
        0x47 => Some(("ld B, A"@, "Load the value in A into B"@, 1, 4)),
        0x48 => Some(("ld C, B"@, "Load the value in B into C"@, 1, 4)),
        0x49 => Some(("ld C, C"@, "Load the value in C into C"@, 1, 4)),
        0x4A => Some(("ld C, D"@, "Load the value in D into C"@, 1, 4)),
        0x4B => Some(("ld C, E"@, "Load the value in E into C"@, 1, 4)),
        0x4C => Some(("ld C, H"@, "Load the value in H into C"@, 1, 4)),
        0x4D => Some(("ld C, H"@, "Load the value in L into C"@, 1, 4)),
        0x4E => Some(("ld C, (HL)"@, "Load the value at the address stored in HL into C"@, 1, 8)),
        0x4F => Some(("ld C, A"@, "Load the value in A into C"@, 1, 4)),
        0x50 => Some(("ld D, B"@, "Load the value in B into D"@, 1, 4)),
        0x51 => Some(("ld D, C"@, "Load the value in C into D"@, 1, 4)),
        0x52 => Some(("ld D, D"@, "Load the value in D into D"@, 1, 4)),
        0x53 => Some(("ld D, E"@, "Load the value in E into D"@, 1, 4)),
        0x54 => Some(("ld D, H"@, "Load the value in H into D"@, 1, 4)),
        0x55 => Some(("ld D, H"@, "Load the value in L into D"@, 1, 4)),
        0x56 => Some(("ld D, (HL)"@, "Load the value at the address stored in HL into D"@, 1, 8)),
        0x57 => Some(("ld D, A"@, "Load the value in A into D"@, 1, 4)),
        0x58 => Some(("ld E, B"@, "Load the value in B into E"@, 1, 4)),
        0x59 => Some(("ld E, C"@, "Load the value in C into E"@, 1, 4)),
        0x5A => Some(("ld E, D"@, "Load the value in D into E"@, 1, 4)),
        0x5B => Some(("ld E, E"@, "Load the value in E into E"@, 1, 4)),
        0x5C => Some(("ld E, H"@, "Load the value in H into E"@, 1, 4)),
        0x5D => Some(("ld E, H"@, "Load the value in L into E"@, 1, 4)),
        0x5E => Some(("ld E, (HL)"@, "Load the value at the address stored in HL into E"@, 1, 8)),
        0x5F => Some(("ld E, A"@, "Load the value in A into E"@, 1, 4)),
        0x60 => Some(("ld H, B"@, "Load the value in B into H"@, 1, 4)),
        0x61 => Some(("ld H, C"@, "Load the value in C into H"@, 1, 4)),
        0x62 => Some(("ld H, D"@, "Load the value in D into H"@, 1, 4)),
        0x63 => Some(("ld H, E"@, "Load the value in E into H"@, 1, 4)),
        0x64 => Some(("ld H, H"@, "Load the value in H into H"@, 1, 4)),
        0x65 => Some(("ld H, H"@, "Load the value in L into H"@, 1, 4)),
        0x66 => Some(("ld H, (HL)"@, "Load the value at the address stored in HL into H"@, 1, 8)),
        0x67 => Some(("ld H, A"@, "Load the value in A into H"@, 1, 4)),
        0x68 => Some(("ld L, B"@, "Load the value in B into L"@, 1, 4)),
        0x69 => Some(("ld L, C"@, "Load the value in C into L"@, 1, 4)),
        0x6A => Some(("ld L, D"@, "Load the value in D into L"@, 1, 4)),
        0x6B => Some(("ld L, E"@, "Load the value in E into L"@, 1, 4)),
        0x6C => Some(("ld L, H"@, "Load the value in H into L"@, 1, 4)),
        0x6D => Some(("ld L, H"@, "Load the value in L into L"@, 1, 4)),
        0x6E => Some(("ld L, (HL)"@, "Load the value at the address stored in HL into L"@, 1, 8)),
        0x6F => Some(("ld L, A"@, "Load the value in A into L"@, 1, 4)),
        0x70 => Some(("ld (HL), B"@, "Load the value in B into the address stored in HL"@, 1, 8)),
        0x71 => Some(("ld (HL), C"@, "Load the value in C into the address stored in HL"@, 1, 8)),
        0x72 => Some(("ld (HL), D"@, "Load the value in D into the address stored in HL"@, 1, 8)),
        0x73 => Some(("ld (HL), E"@, "Load the value in E into the address stored in HL"@, 1, 8)),
        0x74 => Some(("ld (HL), H"@, "Load the value in H into the address stored in HL"@, 1, 8)),
        0x75 => Some(("ld (HL), H"@, "Load the value in L into the address stored in HL"@, 1, 8)),
        0x76 => Some(("halt"@, "Power down CPU until an interrupt occurs"@, 1, 4)),
        0x77 => Some(("ld (HL), A"@, "Load the value in A into the address stored in HL"@, 1, 8)),
        0x78 => Some(("ld A, B"@, "Load the value in B into A"@, 1, 4)),
        0x79 => Some(("ld A, C"@, "Load the value in C into A"@, 1, 4)),
        0x7A => Some(("ld A, D"@, "Load the value in D into A"@, 1, 4)),
        0x7B => Some(("ld A, E"@, "Load the value in E into A"@, 1, 4)),
        0x7C => Some(("ld A, H"@, "Load the value in H into A"@, 1, 4)),
        0x7D => Some(("ld A, H"@, "Load the value in L into A"@, 1, 4)),
        0x7E => Some(("ld A, (HL)"@, "Load the value at the address stored in HL into A"@, 1, 8)),
        0x7F => Some(("ld A, A"@, "Load the value in A into A"@, 1, 4)),
        0x80 => Some(("add A, B"@, "Add the value in B to A"@, 1, 4)),
        0x81 => Some(("add A, C"@, "Add the value in C to A"@, 1, 4)),
        0x82 => Some(("add A, D"@, "Add the value in D to A"@, 1, 4)),
        0x83 => Some(("add A, E"@, "Add the value in E to A"@, 1, 4)),
        0x84 => Some(("add A, H"@, "Add the value in H to A"@, 1, 4)),
        0x85 => Some(("add A, L"@, "Add the value in L to A"@, 1, 4)),
        0x86 => Some(("add A, (HL)"@, "Add the value at the address stored in HL to A"@, 1, 8)),
        0x87 => Some(("add A, A"@, "Add the value in A to A"@, 1, 4)),
        0x88 => Some(("adc A, B"@, "Add the value in B plus Carry to A"@, 1, 4)),
        0x89 => Some(("adc A, C"@, "Add the value in C plus Carry to A"@, 1, 4)),
        0x8A => Some(("adc A, D"@, "Add the value in D plus Carry to A"@, 1, 4)),
        0x8B => Some(("adc A, E"@, "Add the value in E plus Carry to A"@, 1, 4)),
        0x8C => Some(("adc A, H"@, "Add the value in H plus Carry to A"@, 1, 4)),
        0x8D => Some(("adc A, L"@, "Add the value in L plus Carry to A"@, 1, 4)),
        0x8E => Some(("adc A, (HL)"@, "Add the value at the address stored in HL plus Carry to A"@, 1, 8)),
        0x8F => Some(("adc A, A"@, "Add the value in A plus Carry to A"@, 1, 4)),
        0x90 => Some(("sub B"@, "Subtract the value in B from A"@, 1, 4)),
        0x91 => Some(("sub C"@, "Subtract the value in C from A"@, 1, 4)),
        0x92 => Some(("sub D"@, "Subtract the value in D from A"@, 1, 4)),
        0x93 => Some(("sub E"@, "Subtract the value in E from A"@, 1, 4)),
        0x94 => Some(("sub H"@, "Subtract the value in H from A"@, 1, 4)),
        0x95 => Some(("sub L"@, "Subtract the value in L from A"@, 1, 4)),
        0x96 => Some(("sub (HL)"@, "Subtract the value at the address stored in HL from A"@, 1, 8)),
        0x97 => Some(("sub A, A"@, "Subtract the value in A from A"@, 1, 4)),
        0x98 => Some(("sbc A, B"@, "Subtract the value in B plus Carry from A"@, 1, 4)),
        0x99 => Some(("sbc A, C"@, "Subtract the value in C plus Carry from A"@, 1, 4)),
        0x9A => Some(("sbc A, D"@, "Subtract the value in D plus Carry from A"@, 1, 4)),
        0x9B => Some(("sbc A, E"@, "Subtract the value in E plus Carry from A"@, 1, 4)),
        0x9C => Some(("sbc A, H"@, "Subtract the value in H plus Carry from A"@, 1, 4)),
        0x9D => Some(("sbc A, L"@, "Subtract the value in L plus Carry from A"@, 1, 4)),
        0x9E => Some(("sbc A, (HL)"@, "Subtract the value at the address stored in HL plus Carry from A"@, 1, 8)),
        0x9F => Some(("sbc A, A"@, "Subtract the value in A plus Carry from A"@, 1, 4)),
        0xA0 => Some(("and B"@, "Bitwise and the value in B with A"@, 1, 4)),
        0xA1 => Some(("and C"@, "Bitwise and the value in C from A"@, 1, 4)),
        0xA2 => Some(("and D"@, "Bitwise and the value in D from A"@, 1, 4)),
        0xA3 => Some(("and E"@, "Bitwise and the value in E from A"@, 1, 4)),
        0xA4 => Some(("and H"@, "Bitwise and the value in H from A"@, 1, 4)),
        0xA5 => Some(("and L"@, "Bitwise and the value in L from A"@, 1, 4)),
        0xA6 => Some(("and (HL)"@, "Bitwise and the value at the address stored in HL with A"@, 1, 8)),
        0xA7 => Some(("and A"@, "Bitwise and the value in A with A"@, 1, 4)),
        0xA8 => Some(("xor B"@, "Bitwise xor the value in B with A"@, 1, 4)),
        0xA9 => Some(("xor C"@, "Bitwise xor the value in C with A"@, 1, 4)),
        0xAA => Some(("xor D"@, "Bitwise xor the value in D with A"@, 1, 4)),
        0xAB => Some(("xor E"@, "Bitwise xor the value in E with A"@, 1, 4)),
        0xAC => Some(("xor H"@, "Bitwise xor the value in H with A"@, 1, 4)),
        0xAD => Some(("xor L"@, "Bitwise xor the value in L with A"@, 1, 4)),
        0xAE => Some(("xor (HL)"@, "Bitwise xor the value at the address stored in HL with A"@, 1, 8)),
        0xAF => Some(("xor A"@, "Bitwise xor the value in A with A"@, 1, 4)),
        0xB0 => Some(("or B"@, "Bitwise or the value in B with A"@, 1, 4)),
        0xB1 => Some(("or C"@, "Bitwise or the value in C from A"@, 1, 4)),
        0xB2 => Some(("or D"@, "Bitwise or the value in D from A"@, 1, 4)),
        0xB3 => Some(("or E"@, "Bitwise or the value in E from A"@, 1, 4)),
        0xB4 => Some(("or H"@, "Bitwise or the value in H from A"@, 1, 4)),
        0xB5 => Some(("or L"@, "Bitwise or the value in L from A"@, 1, 4)),
        0xB6 => Some(("or (HL)"@, "Bitwise or the value at the address stored in HL with A"@, 1, 8)),
        0xB7 => Some(("or A"@, "Bitwise or the value in A with A"@, 1, 4)),
        0xB8 => Some(("cp B"@, "Compare the value in B to that in A"@, 1, 4)),
        0xB9 => Some(("cp C"@, "Compare the value in C to that in A"@, 1, 4)),
        0xBA => Some(("cp D"@, "Compare the value in D to that in A"@, 1, 4)),
        0xBB => Some(("cp E"@, "Compare the value in E to that in A"@, 1, 4)),
        0xBC => Some(("cp H"@, "Compare the value in H to that in A"@, 1, 4)),
        0xBD => Some(("cp L"@, "Compare the value in L to that in A"@, 1, 4)),
        0xBE => Some(("cp (HL)"@, "Compare the value at the address stored in HL to that A"@, 1, 8)),
        0xBF => Some(("cp A"@, "Compare the value in A to that in A"@, 1, 4)),
        0xC0 => Some(("ret NZ"@, "Return from a function if Zero is not set"@, 1, 8)),
        0xC1 => Some(("pop BC"@, "Pop a value off the stack and store it in BC"@, 1, 12)),
        0xC2 => Some(("jp NZ, <u16>"@, "Jump somewhere in memory if Zero is not set"@, 3, 12)),
        0xC3 => Some(("jp <u16>"@, "Jump somewhere in memory"@, 3, 16)),
        0xC4 => Some(("call NZ, <u16>"@, "Call a function beginning at an address if Zero is not set"@, 3, 24)),
        0xC5 => Some(("push BC"@, "Push the value in BC onto the stack"@, 1, 16)),
        0xC6 => Some(("add A, <u8>"@, "Add a byte to A"@, 2, 8)),
        0xC7 => Some(("rst $00"@, "Push present address onto stack and jump to address $0000"@, 1, 16)),
        0xC8 => Some(("ret Z"@, "Return from a function if Zero is set"@, 1, 16)),
        0xC9 => Some(("ret"@, "Return from a function"@, 1, 16)),
        0xCA => Some(("jp Z, <u16>"@, "Jump somewhere in memory if Zero is set"@, 3, 12)),
        0xCB => Some(("prefix CB"@, "Prefix for bitwise operations"@, 1, 4)),
        0xCC => Some(("call Z, <u16>"@, "Call a function beginning at an address if Zero is set"@, 3, 24)),
        0xCD => Some(("call <u16>"@, "Call a function beginning at some address"@, 3, 24)),
        0xCE => Some(("adc A, <u8>"@, "Add a byte plus Carry to A"@, 2, 8)),
        0xCF => Some(("rst $08"@, "Push present address onto stack and jump to address $0008"@, 1, 16)),
        0xD0 => Some(("ret NC"@, "Return from a function if Carry is not set"@, 1, 8)),
        0xD1 => Some(("pop DE"@, "Pop a value off the stack and store it in DE"@, 1, 12)),
        0xD2 => Some(("jp NC, <u16>"@, "Jump somewhere in memory if Carry is not set"@, 3, 12)),
        0xD3 => None,
        0xD4 => Some(("call NC, <u16>"@, "Call a function beginning at an address if Carry is not set"@, 3, 24)),
        0xD5 => Some(("push DE"@, "Push the value in DE onto the stack"@, 1, 16)),
        0xD6 => Some(("sub <u8>"@, "Subtract a byte from A"@, 2, 8)),
        0xD7 => Some(("rst $10"@, "Push present address onto stack and jump to address $0010"@, 1, 16)),
        0xD8 => Some(("ret C"@, "Return from a function if Carry is set"@, 1, 8)),
        0xD9 => Some(("reti"@, "Return from a function and enable interrupts"@, 1, 16)),
        0xDA => Some(("jp C, <u16>"@, "Jump somewhere in memory if Carry is set"@, 3, 12)),
        0xDB => None,
        0xDC => Some(("call C, <u16>"@, "Call a function beginning at an address if Carry is set"@, 3, 24)),
        0xDD => None,
        0xDE => Some(("sbc <u8>"@, "Subtract a byte plus Carry from A"@, 2, 8)),
        0xDF => Some(("rst $18"@, "Push present address onto stack and jump to address $0018"@, 1, 16)),
        0xE0 => Some(("ldh (<u8>), A"@, "Load the value in A into memory address $FF00 + a byte"@, 2, 12)),
        0xE1 => Some(("pop HL"@, "Pop a value off the stack and store it in HL"@, 1, 12)),
        0xE2 => Some(("ld (C), A"@, "Load the value in A into memory address $FF00 + C"@, 2, 8)),
        0xE3 => None,
        0xE4 => None,
        0xE5 => Some(("push HL"@, "Push the value in HL onto the stack"@, 1, 16)),
        0xE6 => Some(("and <u8>"@, "Bitwise and a byte with A"@, 2, 8)),
        0xE7 => Some(("rst $20"@, "Push present address onto stack and jump to address $0020"@, 1, 16)),
        0xE8 => Some(("add SP, <u8>"@, "Add a byte to the stack pointer"@, 2, 16)),
        0xE9 => Some(("jp (HL)"@, "Jump to the address stored in HL"@, 1, 4)),
        0xEA => Some(("ld (<u16>), A"@, "Load A into a memory address"@, 3, 16)),
        0xEB => None,
        0xEC => None,
        0xED => None,
        0xEE => Some(("xor <u8>"@, "Bitwise xor a byte with A"@, 2, 8)),
        0xEF => Some(("rst $28"@, "Push present address onto stack and jump to address $0028"@, 1, 16)),
        0xF0 => Some(("ldh A, (<u8>)"@, "Load the value at memory address $FF00 + a byte into A"@, 2, 12)),
        0xF1 => Some(("pop AF"@, "Pop a value off the stack and store it in AF"@, 1, 12)),
        0xF2 => Some(("ld A, (C)"@, "Load the value at memory address $FF00 + C into A"@, 2, 8)),
        0xF3 => Some(("di"@, "Disable interrupts starting after the next instruction"@, 1, 4)),
        0xF4 => None,
        0xF5 => Some(("push AF"@, "Push the value in AF onto the stack"@, 1, 16)),
        0xF6 => Some(("or <u8>"@, "Bitwise or a byte to A"@, 2, 8)),
        0xF7 => Some(("rst $30"@, "Push present address onto stack and jump to address $0030"@, 1, 16)),
        0xF8 => Some(("ld HL, SP+<u8>"@, "Add a byte to the value of the stack pointer, storing the result in HL"@, 2, 12)),
        0xF9 => Some(("ld SP, HL"@, "Load the value in HL into the stack pointer"@, 1, 8)),
        0xFA => Some(("ld A, (<u16>)"@, "Load the value at some memory address into A"@, 3, 16)),
        0xFB => Some(("ei"@, "Enable interrupts starting after the next instruction"@, 1, 4)),
        0xFC => None,
        0xFD => None,
        0xFE => Some(("cp <u8>"@, "Compare a byte with A"@, 2, 8)),
        0xFF => Some(("rst $38"@, "Push present address onto stack and jump to address $0038"@, 1, 16)),
    }
}

impl Instruction {
    /// A line of the table.
    pub fn new(code: u8, mnemonic: &str, desc: &str, bytes: usize, cycles: u32) -> (r: Instruction)
        ensures
            r.opcode == code,
            r.mnemonic@ == mnemonic@,
            r.description@ == desc@,
            r.size == bytes,
            r.cycles == cycles,
    {
        Instruction {
            opcode: code,
            mnemonic: String::from_str(mnemonic),
            description: String::from_str(desc),
            size: bytes,
            cycles,
        }
    }

    /// Looks an opcode up in the table.
    pub fn lookup(code: u8) -> (r: Option<Instruction>)
        ensures
            r is Some <==> listed(code) is Some,
            r matches Some(i) ==> i.opcode == code && Some(
                (i.mnemonic@, i.description@, i.size, i.cycles),
            ) == listed(code),
    {
        match code {
            0x00 => Some(Instruction::new(0x00, "nop", "No operation", 1, 4)),
            0x01 => Some(Instruction::new(0x01, "ld BC, <u16>", "Load a short into BC", 3, 12)),
            0x02 => Some(Instruction::new(0x02, "ld (BC), A", "Load the value in A into the address stored in BC", 1, 8)),
            0x03 => Some(Instruction::new(0x03, "inc BC", "Increment BC", 1, 8)),
            0x04 => Some(Instruction::new(0x04, "inc B", "Increment B", 1, 4)),
            0x05 => Some(Instruction::new(0x05, "dec B", "Decrement B", 1, 4)),
            0x06 => Some(Instruction::new(0x06, "ld B, <u8>", "Load a byte into B", 2, 8)),
            0x07 => Some(Instruction::new(0x07, "rlca", "Rotate the value in A to the left, storing the leftmost bit in Carry", 1, 4)),
            0x08 => Some(Instruction::new(0x08, "ld (<u16>), SP", "Load the value of the stack pointer into memory", 3, 20)),
            0x09 => Some(Instruction::new(0x09, "add HL, BC", "Add the value in BC to the value in HL, storing the result in HL", 1, 8)),
            0x0A => Some(Instruction::new(0x0A, "ld A, (BC)", "Load the value in the memory location stored in BC into A", 1, 8)),
            0x0B => Some(Instruction::new(0x0B, "dec BC", "Decrement BC", 1, 8)),
            0x0C => Some(Instruction::new(0x0C, "inc C", "Increment C", 1, 4)),
            0x0D => Some(Instruction::new(0x0D, "dec C", "Decrement C", 1, 4)),
            0x0E => Some(Instruction::new(0x0E, "ld C, <u8>", "Load a byte into C", 2, 8)),
            0x0F => Some(Instruction::new(0x0F, "rrca", "Rotate the value in A to the right, storing the rightmost bit in Carry", 1, 4)),
            0x10 => Some(Instruction::new(0x10, "stop $00", "Halt CPU and screen until a button is pressed", 2, 4)),
            0x11 => Some(Instruction::new(0x11, "ld DE, <u16>", "Load a short into DE", 3, 12)),
            0x12 => Some(Instruction::new(0x12, "ld (DE), A", "Load the value in A into the address stored in BC", 1, 8)),
            0x13 => Some(Instruction::new(0x13, "inc DE", "Increment DE", 1, 8)),
            0x14 => Some(Instruction::new(0x14, "inc D", "Increment D", 1, 4)),
            0x15 => Some(Instruction::new(0x15, "dec D", "Decrement D", 1, 4)),
            0x16 => Some(Instruction::new(0x16, "ld D, <u8>", "Load a byte into D", 2, 8)),
            0x17 => Some(Instruction::new(0x17, "rla", "Rotate the value in A to the left", 1, 4)),
            0x18 => Some(Instruction::new(0x18, "jr <i8>", "Jump relative to the current position", 2, 12)),
            0x19 => Some(Instruction::new(0x19, "add HL, DE", "Add the value in DE to the value in HL, storing the result in HL", 1, 8)),
            0x1A => Some(Instruction::new(0x1A, "ld A, (DE)", "Load the value in the memory location stored in DE into A", 1, 8)),
            0x1B => Some(Instruction::new(0x1B, "dec DE", "Decrement DE", 1, 8)),
            0x1C => Some(Instruction::new(0x1C, "inc E", "Increment E", 1, 4)),
            0x1D => Some(Instruction::new(0x1D, "dec E", "Decrement E", 1, 4)),
            0x1E => Some(Instruction::new(0x1E, "ld E, <u8>", "Load a byte into E", 2, 8)),
            0x1F => Some(Instruction::new(0x1F, "rra", "Rotate the value in A to the right", 1, 4)),
            0x20 => Some(Instruction::new(0x20, "jr NZ, <i8>", "Jump relative to current position if Zero is not set", 2, 8)),
            0x21 => Some(Instruction::new(0x21, "ld HL, <u16>", "Load a short into HL", 3, 12)),
            0x22 => Some(Instruction::new(0x22, "ld (HL+), A", "Load the value in A into the address stored in HL and increment HL", 1, 8)),
            0x23 => Some(Instruction::new(0x23, "inc HL", "Increment HL", 1, 8)),
            0x24 => Some(Instruction::new(0x24, "inc H", "Increment H", 1, 4)),
            0x25 => Some(Instruction::new(0x25, "dec H", "Decrement H", 1, 4)),
            0x26 => Some(Instruction::new(0x26, "ld H, <u8>", "Load a byte into H", 2, 8)),
            0x27 => Some(Instruction::new(0x27, "daa", "Convert the value in A to a binary-encoded decimal", 1, 4)),
            0x28 => Some(Instruction::new(0x28, "jr Z, <i8>", "Jump relative to current position if Zero is set", 2, 8)),
            0x29 => Some(Instruction::new(0x29, "add HL, HL", "Add the value stored in HL to the value in HL and store the result in HL", 1, 8)),
            0x2A => Some(Instruction::new(0x2A, "ld A, (HL+)", "Load the value at the address stored in HL to A and increment HL", 1, 8)),
            0x2B => Some(Instruction::new(0x2B, "dec HL", "Decrement HL", 1, 8)),
            0x2C => Some(Instruction::new(0x2C, "inc L", "Increment L", 1, 4)),
            0x2D => Some(Instruction::new(0x2D, "dec L", "Decrement L", 1, 4)),
            0x2E => Some(Instruction::new(0x2E, "ld L, <u8>", "Load a byte into L", 2, 8)),
            0x2F => Some(Instruction::new(0x2F, "cpl", "Flip all the bits of A", 1, 4)),
            0x30 => Some(Instruction::new(0x30, "jr NC, <i8>", "Jump relative to current position if Carry is not set", 2, 8)),
            0x31 => Some(Instruction::new(0x31, "ld SP, <u16>", "Load a short into the stack pointer", 3, 12)),
            0x32 => Some(Instruction::new(0x32, "ld (HL-), A", "Load the value in A into the address stored in HL and decrement HL", 1, 8)),
            0x33 => Some(Instruction::new(0x33, "inc SP", "Increment the stack pointer", 1, 8)),
            0x34 => Some(Instruction::new(0x34, "inc (HL)", "Increment the value at the address stored in HL", 1, 12)),
            0x35 => Some(Instruction::new(0x35, "dec (HL)", "Decrement the value at the address stored in HL", 1, 12)),
            0x36 => Some(Instruction::new(0x36, "ld (HL), <u8>", "Load a byte into the address stored in HL", 2, 8)),
            0x37 => Some(Instruction::new(0x37, "scf", "Set the Carry flag", 1, 4)),
            0x38 => Some(Instruction::new(0x38, "jr C, <i8>", "Jump relative to current position if Carry is set", 2, 8)),
            0x39 => Some(Instruction::new(0x39, "add HL, SP", "Add the value of the stack pointer to the value in HL and store the result in HL", 1, 8)),
            0x3A => Some(Instruction::new(0x3A, "ld A, (HL-)", "Load the value at the address stored in HL to A and decrement HL", 1, 8)),
            0x3B => Some(Instruction::new(0x3B, "dec SP", "Decrement the stack pointer", 1, 8)),
            0x3C => Some(Instruction::new(0x3C, "inc A", "Increment A", 1, 4)),
            0x3D => Some(Instruction::new(0x3D, "dec A", "Decrement A", 1, 4)),
            0x3E => Some(Instruction::new(0x3E, "ld A, <u8>", "Load a byte into A", 2, 8)),
            0x3F => Some(Instruction::new(0x3F, "ccf", "Flip the Carry flag", 1, 4)),
            0x40 => Some(Instruction::new(0x40, "ld B, B", "Load the value in B into B", 1, 4)),
            0x41 => Some(Instruction::new(0x41, "ld B, C", "Load the value in C into B", 1, 4)),
            0x42 => Some(Instruction::new(0x42, "ld B, D", "Load the value in D into B", 1, 4)),
            0x43 => Some(Instruction::new(0x43, "ld B, E", "Load the value in E into B", 1, 4)),
            0x44 => Some(Instruction::new(0x44, "ld B, H", "Load the value in H into B", 1, 4)),
            0x45 => Some(Instruction::new(0x45, "ld B, H", "Load the value in L into B", 1, 4)),
            0x46 => Some(Instruction::new(0x46, "ld B, (HL)", "Load the value at the address stored in HL into B", 1, 8)),
            0x47 => Some(Instruction::new(0x47, "ld B, A", "Load the value in A into B", 1, 4)),
            0x48 => Some(Instruction::new(0x48, "ld C, B", "Load the value in B into C", 1, 4)),
            0x49 => Some(Instruction::new(0x49, "ld C, C", "Load the value in C into C", 1, 4)),
            0x4A => Some(Instruction::new(0x4A, "ld C, D", "Load the value in D into C", 1, 4)),
            0x4B => Some(Instruction::new(0x4B, "ld C, E", "Load the value in E into C", 1, 4)),
            0x4C => Some(Instruction::new(0x4C, "ld C, H", "Load the value in H into C", 1, 4)),
            0x4D => Some(Instruction::new(0x4D, "ld C, H", "Load the value in L into C", 1, 4)),
            0x4E => Some(Instruction::new(0x4E, "ld C, (HL)", "Load the value at the address stored in HL into C", 1, 8)),
            0x4F => Some(Instruction::new(0x4F, "ld C, A", "Load the value in A into C", 1, 4)),
            0x50 => Some(Instruction::new(0x50, "ld D, B", "Load the value in B into D", 1, 4)),
            0x51 => Some(Instruction::new(0x51, "ld D, C", "Load the value in C into D", 1, 4)),
            0x52 => Some(Instruction::new(0x52, "ld D, D", "Load the value in D into D", 1, 4)),
            0x53 => Some(Instruction::new(0x53, "ld D, E", "Load the value in E into D", 1, 4)),
            0x54 => Some(Instruction::new(0x54, "ld D, H", "Load the value in H into D", 1, 4)),
            0x55 => Some(Instruction::new(0x55, "ld D, H", "Load the value in L into D", 1, 4)),
            0x56 => Some(Instruction::new(0x56, "ld D, (HL)", "Load the value at the address stored in HL into D", 1, 8)),
            0x57 => Some(Instruction::new(0x57, "ld D, A", "Load the value in A into D", 1, 4)),
            0x58 => Some(Instruction::new(0x58, "ld E, B", "Load the value in B into E", 1, 4)),
            0x59 => Some(Instruction::new(0x59, "ld E, C", "Load the value in C into E", 1, 4)),
            0x5A => Some(Instruction::new(0x5A, "ld E, D", "Load the value in D into E", 1, 4)),
            0x5B => Some(Instruction::new(0x5B, "ld E, E", "Load the value in E into E", 1, 4)),
            0x5C => Some(Instruction::new(0x5C, "ld E, H", "Load the value in H into E", 1, 4)),
            0x5D => Some(Instruction::new(0x5D, "ld E, H", "Load the value in L into E", 1, 4)),
            0x5E => Some(Instruction::new(0x5E, "ld E, (HL)", "Load the value at the address stored in HL into E", 1, 8)),
            0x5F => Some(Instruction::new(0x5F, "ld E, A", "Load the value in A into E", 1, 4)),
            0x60 => Some(Instruction::new(0x60, "ld H, B", "Load the value in B into H", 1, 4)),
            0x61 => Some(Instruction::new(0x61, "ld H, C", "Load the value in C into H", 1, 4)),
            0x62 => Some(Instruction::new(0x62, "ld H, D", "Load the value in D into H", 1, 4)),
            0x63 => Some(Instruction::new(0x63, "ld H, E", "Load the value in E into H", 1, 4)),
            0x64 => Some(Instruction::new(0x64, "ld H, H", "Load the value in H into H", 1, 4)),
            0x65 => Some(Instruction::new(0x65, "ld H, H", "Load the value in L into H", 1, 4)),
            0x66 => Some(Instruction::new(0x66, "ld H, (HL)", "Load the value at the address stored in HL into H", 1, 8)),
            0x67 => Some(Instruction::new(0x67, "ld H, A", "Load the value in A into H", 1, 4)),
            0x68 => Some(Instruction::new(0x68, "ld L, B", "Load the value in B into L", 1, 4)),
            0x69 => Some(Instruction::new(0x69, "ld L, C", "Load the value in C into L", 1, 4)),
            0x6A => Some(Instruction::new(0x6A, "ld L, D", "Load the value in D into L", 1, 4)),
            0x6B => Some(Instruction::new(0x6B, "ld L, E", "Load the value in E into L", 1, 4)),
            0x6C => Some(Instruction::new(0x6C, "ld L, H", "Load the value in H into L", 1, 4)),
            0x6D => Some(Instruction::new(0x6D, "ld L, H", "Load the value in L into L", 1, 4)),
            0x6E => Some(Instruction::new(0x6E, "ld L, (HL)", "Load the value at the address stored in HL into L", 1, 8)),
            0x6F => Some(Instruction::new(0x6F, "ld L, A", "Load the value in A into L", 1, 4)),
            0x70 => Some(Instruction::new(0x70, "ld (HL), B", "Load the value in B into the address stored in HL", 1, 8)),
            0x71 => Some(Instruction::new(0x71, "ld (HL), C", "Load the value in C into the address stored in HL", 1, 8)),
            0x72 => Some(Instruction::new(0x72, "ld (HL), D", "Load the value in D into the address stored in HL", 1, 8)),
            0x73 => Some(Instruction::new(0x73, "ld (HL), E", "Load the value in E into the address stored in HL", 1, 8)),
            0x74 => Some(Instruction::new(0x74, "ld (HL), H", "Load the value in H into the address stored in HL", 1, 8)),
            0x75 => Some(Instruction::new(0x75, "ld (HL), H", "Load the value in L into the address stored in HL", 1, 8)),
            0x76 => Some(Instruction::new(0x76, "halt", "Power down CPU until an interrupt occurs", 1, 4)),
            0x77 => Some(Instruction::new(0x77, "ld (HL), A", "Load the value in A into the address stored in HL", 1, 8)),
            0x78 => Some(Instruction::new(0x78, "ld A, B", "Load the value in B into A", 1, 4)),
            0x79 => Some(Instruction::new(0x79, "ld A, C", "Load the value in C into A", 1, 4)),
            0x7A => Some(Instruction::new(0x7A, "ld A, D", "Load the value in D into A", 1, 4)),
            0x7B => Some(Instruction::new(0x7B, "ld A, E", "Load the value in E into A", 1, 4)),
            0x7C => Some(Instruction::new(0x7C, "ld A, H", "Load the value in H into A", 1, 4)),
            0x7D => Some(Instruction::new(0x7D, "ld A, H", "Load the value in L into A", 1, 4)),
            0x7E => Some(Instruction::new(0x7E, "ld A, (HL)", "Load the value at the address stored in HL into A", 1, 8)),
            0x7F => Some(Instruction::new(0x7F, "ld A, A", "Load the value in A into A", 1, 4)),
            0x80 => Some(Instruction::new(0x80, "add A, B", "Add the value in B to A", 1, 4)),
            0x81 => Some(Instruction::new(0x81, "add A, C", "Add the value in C to A", 1, 4)),
            0x82 => Some(Instruction::new(0x82, "add A, D", "Add the value in D to A", 1, 4)),
            0x83 => Some(Instruction::new(0x83, "add A, E", "Add the value in E to A", 1, 4)),
            0x84 => Some(Instruction::new(0x84, "add A, H", "Add the value in H to A", 1, 4)),
            0x85 => Some(Instruction::new(0x85, "add A, L", "Add the value in L to A", 1, 4)),
            0x86 => Some(Instruction::new(0x86, "add A, (HL)", "Add the value at the address stored in HL to A", 1, 8)),
            0x87 => Some(Instruction::new(0x87, "add A, A", "Add the value in A to A", 1, 4)),
            0x88 => Some(Instruction::new(0x88, "adc A, B", "Add the value in B plus Carry to A", 1, 4)),
            0x89 => Some(Instruction::new(0x89, "adc A, C", "Add the value in C plus Carry to A", 1, 4)),
            0x8A => Some(Instruction::new(0x8A, "adc A, D", "Add the value in D plus Carry to A", 1, 4)),
            0x8B => Some(Instruction::new(0x8B, "adc A, E", "Add the value in E plus Carry to A", 1, 4)),
            0x8C => Some(Instruction::new(0x8C, "adc A, H", "Add the value in H plus Carry to A", 1, 4)),
            0x8D => Some(Instruction::new(0x8D, "adc A, L", "Add the value in L plus Carry to A", 1, 4)),
            0x8E => Some(Instruction::new(0x8E, "adc A, (HL)", "Add the value at the address stored in HL plus Carry to A", 1, 8)),
            0x8F => Some(Instruction::new(0x8F, "adc A, A", "Add the value in A plus Carry to A", 1, 4)),
            0x90 => Some(Instruction::new(0x90, "sub B", "Subtract the value in B from A", 1, 4)),
            0x91 => Some(Instruction::new(0x91, "sub C", "Subtract the value in C from A", 1, 4)),
            0x92 => Some(Instruction::new(0x92, "sub D", "Subtract the value in D from A", 1, 4)),
            0x93 => Some(Instruction::new(0x93, "sub E", "Subtract the value in E from A", 1, 4)),
            0x94 => Some(Instruction::new(0x94, "sub H", "Subtract the value in H from A", 1, 4)),
            0x95 => Some(Instruction::new(0x95, "sub L", "Subtract the value in L from A", 1, 4)),
            0x96 => Some(Instruction::new(0x96, "sub (HL)", "Subtract the value at the address stored in HL from A", 1, 8)),
            0x97 => Some(Instruction::new(0x97, "sub A, A", "Subtract the value in A from A", 1, 4)),
            0x98 => Some(Instruction::new(0x98, "sbc A, B", "Subtract the value in B plus Carry from A", 1, 4)),
            0x99 => Some(Instruction::new(0x99, "sbc A, C", "Subtract the value in C plus Carry from A", 1, 4)),
            0x9A => Some(Instruction::new(0x9A, "sbc A, D", "Subtract the value in D plus Carry from A", 1, 4)),
            0x9B => Some(Instruction::new(0x9B, "sbc A, E", "Subtract the value in E plus Carry from A", 1, 4)),
            0x9C => Some(Instruction::new(0x9C, "sbc A, H", "Subtract the value in H plus Carry from A", 1, 4)),
            0x9D => Some(Instruction::new(0x9D, "sbc A, L", "Subtract the value in L plus Carry from A", 1, 4)),
            0x9E => Some(Instruction::new(0x9E, "sbc A, (HL)", "Subtract the value at the address stored in HL plus Carry from A", 1, 8)),
            0x9F => Some(Instruction::new(0x9F, "sbc A, A", "Subtract the value in A plus Carry from A", 1, 4)),
            0xA0 => Some(Instruction::new(0xA0, "and B", "Bitwise and the value in B with A", 1, 4)),
            0xA1 => Some(Instruction::new(0xA1, "and C", "Bitwise and the value in C from A", 1, 4)),
            0xA2 => Some(Instruction::new(0xA2, "and D", "Bitwise and the value in D from A", 1, 4)),
            0xA3 => Some(Instruction::new(0xA3, "and E", "Bitwise and the value in E from A", 1, 4)),
            0xA4 => Some(Instruction::new(0xA4, "and H", "Bitwise and the value in H from A", 1, 4)),
            0xA5 => Some(Instruction::new(0xA5, "and L", "Bitwise and the value in L from A", 1, 4)),
            0xA6 => Some(Instruction::new(0xA6, "and (HL)", "Bitwise and the value at the address stored in HL with A", 1, 8)),
            0xA7 => Some(Instruction::new(0xA7, "and A", "Bitwise and the value in A with A", 1, 4)),
            0xA8 => Some(Instruction::new(0xA8, "xor B", "Bitwise xor the value in B with A", 1, 4)),
            0xA9 => Some(Instruction::new(0xA9, "xor C", "Bitwise xor the value in C with A", 1, 4)),
            0xAA => Some(Instruction::new(0xAA, "xor D", "Bitwise xor the value in D with A", 1, 4)),
            0xAB => Some(Instruction::new(0xAB, "xor E", "Bitwise xor the value in E with A", 1, 4)),
            0xAC => Some(Instruction::new(0xAC, "xor H", "Bitwise xor the value in H with A", 1, 4)),
            0xAD => Some(Instruction::new(0xAD, "xor L", "Bitwise xor the value in L with A", 1, 4)),
            0xAE => Some(Instruction::new(0xAE, "xor (HL)", "Bitwise xor the value at the address stored in HL with A", 1, 8)),
            0xAF => Some(Instruction::new(0xAF, "xor A", "Bitwise xor the value in A with A", 1, 4)),
            0xB0 => Some(Instruction::new(0xB0, "or B", "Bitwise or the value in B with A", 1, 4)),
            0xB1 => Some(Instruction::new(0xB1, "or C", "Bitwise or the value in C from A", 1, 4)),
            0xB2 => Some(Instruction::new(0xB2, "or D", "Bitwise or the value in D from A", 1, 4)),
            0xB3 => Some(Instruction::new(0xB3, "or E", "Bitwise or the value in E from A", 1, 4)),
            0xB4 => Some(Instruction::new(0xB4, "or H", "Bitwise or the value in H from A", 1, 4)),
            0xB5 => Some(Instruction::new(0xB5, "or L", "Bitwise or the value in L from A", 1, 4)),
            0xB6 => Some(Instruction::new(0xB6, "or (HL)", "Bitwise or the value at the address stored in HL with A", 1, 8)),
            0xB7 => Some(Instruction::new(0xB7, "or A", "Bitwise or the value in A with A", 1, 4)),
            0xB8 => Some(Instruction::new(0xB8, "cp B", "Compare the value in B to that in A", 1, 4)),
            0xB9 => Some(Instruction::new(0xB9, "cp C", "Compare the value in C to that in A", 1, 4)),
            0xBA => Some(Instruction::new(0xBA, "cp D", "Compare the value in D to that in A", 1, 4)),
            0xBB => Some(Instruction::new(0xBB, "cp E", "Compare the value in E to that in A", 1, 4)),
            0xBC => Some(Instruction::new(0xBC, "cp H", "Compare the value in H to that in A", 1, 4)),
            0xBD => Some(Instruction::new(0xBD, "cp L", "Compare the value in L to that in A", 1, 4)),
            0xBE => Some(Instruction::new(0xBE, "cp (HL)", "Compare the value at the address stored in HL to that A", 1, 8)),
            0xBF => Some(Instruction::new(0xBF, "cp A", "Compare the value in A to that in A", 1, 4)),
            0xC0 => Some(Instruction::new(0xC0, "ret NZ", "Return from a function if Zero is not set", 1, 8)),
            0xC1 => Some(Instruction::new(0xC1, "pop BC", "Pop a value off the stack and store it in BC", 1, 12)),
            0xC2 => Some(Instruction::new(0xC2, "jp NZ, <u16>", "Jump somewhere in memory if Zero is not set", 3, 12)),
            0xC3 => Some(Instruction::new(0xC3, "jp <u16>", "Jump somewhere in memory", 3, 16)),
            0xC4 => Some(Instruction::new(0xC4, "call NZ, <u16>", "Call a function beginning at an address if Zero is not set", 3, 24)),
            0xC5 => Some(Instruction::new(0xC5, "push BC", "Push the value in BC onto the stack", 1, 16)),
            0xC6 => Some(Instruction::new(0xC6, "add A, <u8>", "Add a byte to A", 2, 8)),
            0xC7 => Some(Instruction::new(0xC7, "rst $00", "Push present address onto stack and jump to address $0000", 1, 16)),
            0xC8 => Some(Instruction::new(0xC8, "ret Z", "Return from a function if Zero is set", 1, 16)),
            0xC9 => Some(Instruction::new(0xC9, "ret", "Return from a function", 1, 16)),
            0xCA => Some(Instruction::new(0xCA, "jp Z, <u16>", "Jump somewhere in memory if Zero is set", 3, 12)),
            0xCB => Some(Instruction::new(0xCB, "prefix CB", "Prefix for bitwise operations", 1, 4)),
            0xCC => Some(Instruction::new(0xCC, "call Z, <u16>", "Call a function beginning at an address if Zero is set", 3, 24)),
            0xCD => Some(Instruction::new(0xCD, "call <u16>", "Call a function beginning at some address", 3, 24)),
            0xCE => Some(Instruction::new(0xCE, "adc A, <u8>", "Add a byte plus Carry to A", 2, 8)),
            0xCF => Some(Instruction::new(0xCF, "rst $08", "Push present address onto stack and jump to address $0008", 1, 16)),
            0xD0 => Some(Instruction::new(0xD0, "ret NC", "Return from a function if Carry is not set", 1, 8)),
            0xD1 => Some(Instruction::new(0xD1, "pop DE", "Pop a value off the stack and store it in DE", 1, 12)),
            0xD2 => Some(Instruction::new(0xD2, "jp NC, <u16>", "Jump somewhere in memory if Carry is not set", 3, 12)),
            0xD3 => None,
            0xD4 => Some(Instruction::new(0xD4, "call NC, <u16>", "Call a function beginning at an address if Carry is not set", 3, 24)),
            0xD5 => Some(Instruction::new(0xD5, "push DE", "Push the value in DE onto the stack", 1, 16)),
            0xD6 => Some(Instruction::new(0xD6, "sub <u8>", "Subtract a byte from A", 2, 8)),
            0xD7 => Some(Instruction::new(0xD7, "rst $10", "Push present address onto stack and jump to address $0010", 1, 16)),
            0xD8 => Some(Instruction::new(0xD8, "ret C", "Return from a function if Carry is set", 1, 8)),
            0xD9 => Some(Instruction::new(0xD9, "reti", "Return from a function and enable interrupts", 1, 16)),
            0xDA => Some(Instruction::new(0xDA, "jp C, <u16>", "Jump somewhere in memory if Carry is set", 3, 12)),
            0xDB => None,
            0xDC => Some(Instruction::new(0xDC, "call C, <u16>", "Call a function beginning at an address if Carry is set", 3, 24)),
            0xDD => None,
            0xDE => Some(Instruction::new(0xDE, "sbc <u8>", "Subtract a byte plus Carry from A", 2, 8)),
            0xDF => Some(Instruction::new(0xDF, "rst $18", "Push present address onto stack and jump to address $0018", 1, 16)),
            0xE0 => Some(Instruction::new(0xE0, "ldh (<u8>), A", "Load the value in A into memory address $FF00 + a byte", 2, 12)),
            0xE1 => Some(Instruction::new(0xE1, "pop HL", "Pop a value off the stack and store it in HL", 1, 12)),
            0xE2 => Some(Instruction::new(0xE2, "ld (C), A", "Load the value in A into memory address $FF00 + C", 2, 8)),
            0xE3 => None,
            0xE4 => None,
            0xE5 => Some(Instruction::new(0xE5, "push HL", "Push the value in HL onto the stack", 1, 16)),
            0xE6 => Some(Instruction::new(0xE6, "and <u8>", "Bitwise and a byte with A", 2, 8)),
            0xE7 => Some(Instruction::new(0xE7, "rst $20", "Push present address onto stack and jump to address $0020", 1, 16)),
            0xE8 => Some(Instruction::new(0xE8, "add SP, <u8>", "Add a byte to the stack pointer", 2, 16)),
            0xE9 => Some(Instruction::new(0xE9, "jp (HL)", "Jump to the address stored in HL", 1, 4)),
            0xEA => Some(Instruction::new(0xEA, "ld (<u16>), A", "Load A into a memory address", 3, 16)),
            0xEB => None,
            0xEC => None,
            0xED => None,
            0xEE => Some(Instruction::new(0xEE, "xor <u8>", "Bitwise xor a byte with A", 2, 8)),
            0xEF => Some(Instruction::new(0xEF, "rst $28", "Push present address onto stack and jump to address $0028", 1, 16)),
            0xF0 => Some(Instruction::new(0xF0, "ldh A, (<u8>)", "Load the value at memory address $FF00 + a byte into A", 2, 12)),
            0xF1 => Some(Instruction::new(0xF1, "pop AF", "Pop a value off the stack and store it in AF", 1, 12)),
            0xF2 => Some(Instruction::new(0xF2, "ld A, (C)", "Load the value at memory address $FF00 + C into A", 2, 8)),
            0xF3 => Some(Instruction::new(0xF3, "di", "Disable interrupts starting after the next instruction", 1, 4)),
            0xF4 => None,
            0xF5 => Some(Instruction::new(0xF5, "push AF", "Push the value in AF onto the stack", 1, 16)),
            0xF6 => Some(Instruction::new(0xF6, "or <u8>", "Bitwise or a byte to A", 2, 8)),
            0xF7 => Some(Instruction::new(0xF7, "rst $30", "Push present address onto stack and jump to address $0030", 1, 16)),
            0xF8 => Some(Instruction::new(0xF8, "ld HL, SP+<u8>", "Add a byte to the value of the stack pointer, storing the result in HL", 2, 12)),
            0xF9 => Some(Instruction::new(0xF9, "ld SP, HL", "Load the value in HL into the stack pointer", 1, 8)),
            0xFA => Some(Instruction::new(0xFA, "ld A, (<u16>)", "Load the value at some memory address into A", 3, 16)),
            0xFB => Some(Instruction::new(0xFB, "ei", "Enable interrupts starting after the next instruction", 1, 4)),
            0xFC => None,
            0xFD => None,
            0xFE => Some(Instruction::new(0xFE, "cp <u8>", "Compare a byte with A", 2, 8)),
            0xFF => Some(Instruction::new(0xFF, "rst $38", "Push present address onto stack and jump to address $0038", 1, 16)),
        }
    }
}

/// The licensee that two characters of a newer header stand for.
pub open spec fn new_licensee(c1: u8, c2: u8) -> Seq<char> {
    if false {
        Seq::empty()
    } else if c1 == 0x30 && c2 == 0x30 {
        "None"@
    } else if c1 == 0x30 && c2 == 0x31 {
        "Nintendo R&D1"@
    } else if c1 == 0x30 && c2 == 0x38 {
        "Capcom"@
    } else if c1 == 0x31 && c2 == 0x33 {
        "EA (Electronic Arts)"@
    } else if c1 == 0x31 && c2 == 0x38 {
        "Hudson Soft"@
    } else if c1 == 0x31 && c2 == 0x39 {
        "b-ai"@
    } else if c1 == 0x32 && c2 == 0x30 {
        "KSS"@
    } else if c1 == 0x32 && c2 == 0x32 {
        "POW"@
    } else if c1 == 0x32 && c2 == 0x34 {
        "PCM Complete"@
    } else if c1 == 0x32 && c2 == 0x35 {
        "San-X"@
    } else if c1 == 0x32 && c2 == 0x38 {
        "Kemco Japan"@
    } else if c1 == 0x32 && c2 == 0x39 {
        "Seta"@
    } else if c1 == 0x33 && c2 == 0x30 {
        "Viacom"@
    } else if c1 == 0x33 && c2 == 0x31 {
        "Nintendo"@
    } else if c1 == 0x33 && c2 == 0x32 {
        "Bandai"@
    } else if c1 == 0x33 && c2 == 0x33 {
        "Ocean/Acclaim"@
    } else if c1 == 0x33 && c2 == 0x34 {
        "Konami"@
    } else if c1 == 0x33 && c2 == 0x35 {
        "Hector"@
    } else if c1 == 0x33 && c2 == 0x37 {
        "Taito"@
    } else if c1 == 0x33 && c2 == 0x38 {
        "Hudson"@
    } else if c1 == 0x33 && c2 == 0x39 {
        "Banpresto"@
    } else if c1 == 0x34 && c2 == 0x31 {
        "Ubisoft"@
    } else if c1 == 0x34 && c2 == 0x32 {
        "Atlus"@
    } else if c1 == 0x34 && c2 == 0x34 {
        "Malibu"@
    } else if c1 == 0x34 && c2 == 0x36 {
        "Angel"@
    } else if c1 == 0x34 && c2 == 0x37 {
        "Bullet-Proof"@
    } else if c1 == 0x34 && c2 == 0x39 {
        "IREM"@
    } else if c1 == 0x35 && c2 == 0x30 {
        "Absolute"@
    } else if c1 == 0x35 && c2 == 0x31 {
        "Acclaim"@
    } else if c1 == 0x35 && c2 == 0x32 {
        "Activision"@
    } else if c1 == 0x35 && c2 == 0x33 {
        "American Sammy"@
    } else if c1 == 0x35 && c2 == 0x34 {
        "Konami"@
    } else if c1 == 0x35 && c2 == 0x35 {
        "Hi Tech Entertainment"@
    } else if c1 == 0x35 && c2 == 0x36 {
        "LJN"@
    } else if c1 == 0x35 && c2 == 0x37 {
        "Matchbox"@
    } else if c1 == 0x35 && c2 == 0x38 {
        "Mattel"@
    } else if c1 == 0x35 && c2 == 0x39 {
        "Milton Bradley"@
    } else if c1 == 0x36 && c2 == 0x30 {
        "Titus"@
    } else if c1 == 0x36 && c2 == 0x31 {
        "Virgin"@
    } else if c1 == 0x36 && c2 == 0x34 {
        "LucasArts"@
    } else if c1 == 0x36 && c2 == 0x37 {
        "Ocean"@
    } else if c1 == 0x36 && c2 == 0x39 {
        "EA (Electronic Arts)"@
    } else if c1 == 0x37 && c2 == 0x30 {
        "Infogrames"@
    } else if c1 == 0x37 && c2 == 0x31 {
        "Interplay"@
    } else if c1 == 0x37 && c2 == 0x32 {
        "Broderbund"@
    } else if c1 == 0x37 && c2 == 0x33 {
        "Sculptured"@
    } else if c1 == 0x37 && c2 == 0x35 {
        "sci"@
    } else if c1 == 0x37 && c2 == 0x38 {
        "THQ"@
    } else if c1 == 0x37 && c2 == 0x39 {
        "Accolade"@
    } else if c1 == 0x38 && c2 == 0x30 {
        "misawa"@
    } else if c1 == 0x38 && c2 == 0x33 {
        "lozc"@
    } else if c1 == 0x38 && c2 == 0x36 {
        "Tokuma Shoten"@
    } else if c1 == 0x38 && c2 == 0x37 {
        "Tsukoda Ori"@
    } else if c1 == 0x39 && c2 == 0x31 {
        "Chunsoft"@
    } else if c1 == 0x39 && c2 == 0x32 {
        "Video System"@
    } else if c1 == 0x39 && c2 == 0x33 {
        "Ocean/Acclaim"@
    } else if c1 == 0x39 && c2 == 0x35 {
        "Varie"@
    } else if c1 == 0x39 && c2 == 0x36 {
        "Yonezawa/s'pal"@
    } else if c1 == 0x39 && c2 == 0x37 {
        "Kaneko"@
    } else if c1 == 0x39 && c2 == 0x38 {
        "Pack in Soft"@
    } else if c1 == 0x41 && c2 == 0x34 {
        "Konami (Yu-Gi-Oh!)"@
    } else {
        "Unknown"@
    }
}

/// The licensee that the code of an older header stands for.
pub open spec fn old_licensee(code: u8) -> Seq<char> {
    if false {
        Seq::empty()
    } else if code == 0x00 {
        "None"@
    } else if code == 0x01 || code == 0x31 {
        "Nintendo"@
    } else if code == 0x08 || code == 0x38 {
        "Capcom"@
    } else if code == 0x09 {
        "hot-b"@
    } else if code == 0x0A {
        "Jaleco"@
    } else if code == 0x0B {
        "Coconuts"@
    } else if code == 0x0C || code == 0x6E {
        "Elite Systems"@
    } else if code == 0x13 || code == 0x69 {
        "EA (Electronic Arts)"@
    } else if code == 0x18 {
        "Hudson Soft"@
    } else if code == 0x19 {
        "ITC Entertainment"@
    } else if code == 0x1A {
        "Yanoman"@
    } else if code == 0x1D {
        "Clary"@
    } else if code == 0x1F || code == 0x4A || code == 0x61 {
        "Virgin"@
    } else if code == 0x20 {
        "KSS"@
    } else if code == 0x24 {
        "PCM Complete"@
    } else if code == 0x25 {
        "San-X"@
    } else if code == 0x28 {
        "Kotobuki Systems"@
    } else if code == 0x29 {
        "Seta"@
    } else if code == 0x30 || code == 0x70 {
        "Infogrames"@
    } else if code == 0x32 {
        "Bandai"@
    } else if code == 0x34 {
        "Konami"@
    } else if code == 0x35 {
        "Hector"@
    } else if code == 0x39 {
        "Banpresto"@
    } else if code == 0x3C {
        "*entertainment i"@
    } else if code == 0x3E {
        "Gremlin"@
    } else if code == 0x41 {
        "Ubisoft"@
    } else if code == 0x42 {
        "Atlus"@
    } else if code == 0x44 || code == 0x4D {
        "Malibu"@
    } else if code == 0x46 {
        "Angel"@
    } else if code == 0x47 {
        "Spectrum Holoby"@
    } else if code == 0x49 {
        "IREM"@
    } else if code == 0x4F {
        "U.S. Gold"@
    } else if code == 0x50 {
        "Absolute"@
    } else if code == 0x51 {
        "Acclaim"@
    } else if code == 0x52 {
        "Activision"@
    } else if code == 0x53 {
        "American Sammy"@
    } else if code == 0x54 {
        "Gametek"@
    } else if code == 0x55 {
        "Park Place"@
    } else if code == 0x56 {
        "LJN"@
    } else if code == 0x57 {
        "Matchbox"@
    } else if code == 0x59 {
        "Milton Bradley"@
    } else if code == 0x5A {
        "Mindscape"@
    } else if code == 0x5B {
        "Romstar"@
    } else if code == 0x5C {
        "Naxat Soft"@
    } else if code == 0x5D {
        "Tradewest"@
    } else if code == 0x60 {
        "Titus"@
    } else if code == 0x67 {
        "Ocean"@
    } else if code == 0x6F {
        "Electro Brain"@
    } else if code == 0x71 {
        "Interplay"@
    } else if code == 0x72 {
        "Broderbund"@
    } else if code == 0x73 {
        "Sculptured Soft"@
    } else if code == 0x75 {
        "The Sales Curve"@
    } else if code == 0x78 {
        "THQ"@
    } else if code == 0x79 {
        "Accolade"@
    } else if code == 0x7A {
        "Traffix Entertainment"@
    } else if code == 0x7C {
        "Microprose"@
    } else if code == 0x7F {
        "Kemco"@
    } else if code == 0x80 {
        "Misawa Entertainment"@
    } else if code == 0x83 {
        "LOZC"@
    } else if code == 0x86 {
        "Tokuma Shoten Intermedia"@
    } else if code == 0x8B {
        "Bullet-Proof Software"@
    } else if code == 0x8C {
        "Vic Tokai"@
    } else if code == 0x8E {
        "Ape"@
    } else if code == 0x8F {
        "I'MAX"@
    } else if code == 0x91 {
        "Chunsoft"@
    } else if code == 0x92 {
        "Video System"@
    } else if code == 0x93 {
        "Tsuburava"@
    } else {
        "Unknown"@
    }
}

/// The licensee of a ROM. A header with 0x33 at 0x014B is a newer one, with
/// the licensee as two characters at 0x0144; an older header has the code
/// of the licensee at 0x014B itself.
pub open spec fn licensee_of(rom: Seq<u8>) -> Seq<char> {
    if rom[0x014B] == 0x33 {
        new_licensee(rom[0x0144], rom[0x0145])
    } else {
        old_licensee(rom[0x014B])
    }
}

/// The features that the byte at 0x0147 stands for.
pub open spec fn cart_type_of(code: u8) -> Seq<CartFeature> {
    match code {
        0x00 => seq![CartFeature::ROM],
        0x01 => seq![CartFeature::MBC1],
        0x02 => seq![CartFeature::MBC1, CartFeature::RAM],
        0x03 => seq![CartFeature::MBC1, CartFeature::RAM, CartFeature::Battery],
        0x05 => seq![CartFeature::MBC2],
        0x06 => seq![CartFeature::MBC2, CartFeature::Battery],
        0x08 => seq![CartFeature::ROM, CartFeature::RAM],
        0x09 => seq![CartFeature::ROM, CartFeature::RAM, CartFeature::Battery],
        0x0B => seq![CartFeature::MMM01],
        0x0C => seq![CartFeature::MMM01, CartFeature::RAM],
        0x0D => seq![CartFeature::MMM01, CartFeature::RAM, CartFeature::Battery],
        0x0F => seq![CartFeature::MBC3, CartFeature::Timer, CartFeature::Battery],
        0x10 => seq![CartFeature::MBC3, CartFeature::Timer, CartFeature::RAM, CartFeature::Battery],
        0x11 => seq![CartFeature::MBC3],
        0x12 => seq![CartFeature::MBC3, CartFeature::RAM],
        0x13 => seq![CartFeature::MBC3, CartFeature::RAM, CartFeature::Battery],
        0x19 => seq![CartFeature::MBC5],
        0x1A => seq![CartFeature::MBC5, CartFeature::RAM],
        0x1B => seq![CartFeature::MBC5, CartFeature::RAM, CartFeature::Battery],
        0x1C => seq![CartFeature::MBC5, CartFeature::Rumble],
        0x1D => seq![CartFeature::MBC5, CartFeature::Rumble, CartFeature::RAM],
        0x1E => seq![CartFeature::MBC5, CartFeature::Rumble, CartFeature::RAM, CartFeature::Battery],
        0x20 => seq![CartFeature::MBC6],
        0x22 => seq![CartFeature::MBC7, CartFeature::Sensor, CartFeature::Rumble, CartFeature::RAM, CartFeature::Rumble],
        0xFC => seq![CartFeature::PocketCamera],
        0xFD => seq![CartFeature::BandaiTama5],
        0xFE => seq![CartFeature::HuC3],
        0xFF => seq![CartFeature::HuC1, CartFeature::RAM, CartFeature::Battery],
        _ => seq![CartFeature::Unknown],
    }
}

fn read_new_licensee(c1: u8, c2: u8) -> (s: &'static str)
    ensures
        s@ == new_licensee(c1, c2),
{
    proof {
        reveal_strlit("");
    }
    if false {
        ""
    } else if c1 == 0x30 && c2 == 0x30 {
        "None"
    } else if c1 == 0x30 && c2 == 0x31 {
        "Nintendo R&D1"
    } else if c1 == 0x30 && c2 == 0x38 {
        "Capcom"
    } else if c1 == 0x31 && c2 == 0x33 {
        "EA (Electronic Arts)"
    } else if c1 == 0x31 && c2 == 0x38 {
        "Hudson Soft"
    } else if c1 == 0x31 && c2 == 0x39 {
        "b-ai"
    } else if c1 == 0x32 && c2 == 0x30 {
        "KSS"
    } else if c1 == 0x32 && c2 == 0x32 {
        "POW"
    } else if c1 == 0x32 && c2 == 0x34 {
        "PCM Complete"
    } else if c1 == 0x32 && c2 == 0x35 {
        "San-X"
    } else if c1 == 0x32 && c2 == 0x38 {
        "Kemco Japan"
    } else if c1 == 0x32 && c2 == 0x39 {
        "Seta"
    } else if c1 == 0x33 && c2 == 0x30 {
        "Viacom"
    } else if c1 == 0x33 && c2 == 0x31 {
        "Nintendo"
    } else if c1 == 0x33 && c2 == 0x32 {
        "Bandai"
    } else if c1 == 0x33 && c2 == 0x33 {
        "Ocean/Acclaim"
    } else if c1 == 0x33 && c2 == 0x34 {
        "Konami"
    } else if c1 == 0x33 && c2 == 0x35 {
        "Hector"
    } else if c1 == 0x33 && c2 == 0x37 {
        "Taito"
    } else if c1 == 0x33 && c2 == 0x38 {
        "Hudson"
    } else if c1 == 0x33 && c2 == 0x39 {
        "Banpresto"
    } else if c1 == 0x34 && c2 == 0x31 {
        "Ubisoft"
    } else if c1 == 0x34 && c2 == 0x32 {
        "Atlus"
    } else if c1 == 0x34 && c2 == 0x34 {
        "Malibu"
    } else if c1 == 0x34 && c2 == 0x36 {
        "Angel"
    } else if c1 == 0x34 && c2 == 0x37 {
        "Bullet-Proof"
    } else if c1 == 0x34 && c2 == 0x39 {
        "IREM"
    } else if c1 == 0x35 && c2 == 0x30 {
        "Absolute"
    } else if c1 == 0x35 && c2 == 0x31 {
        "Acclaim"
    } else if c1 == 0x35 && c2 == 0x32 {
        "Activision"
    } else if c1 == 0x35 && c2 == 0x33 {
        "American Sammy"
    } else if c1 == 0x35 && c2 == 0x34 {
        "Konami"
    } else if c1 == 0x35 && c2 == 0x35 {
        "Hi Tech Entertainment"
    } else if c1 == 0x35 && c2 == 0x36 {
        "LJN"
    } else if c1 == 0x35 && c2 == 0x37 {
        "Matchbox"
    } else if c1 == 0x35 && c2 == 0x38 {
        "Mattel"
    } else if c1 == 0x35 && c2 == 0x39 {
        "Milton Bradley"
    } else if c1 == 0x36 && c2 == 0x30 {
        "Titus"
    } else if c1 == 0x36 && c2 == 0x31 {
        "Virgin"
    } else if c1 == 0x36 && c2 == 0x34 {
        "LucasArts"
    } else if c1 == 0x36 && c2 == 0x37 {
        "Ocean"
    } else if c1 == 0x36 && c2 == 0x39 {
        "EA (Electronic Arts)"
    } else if c1 == 0x37 && c2 == 0x30 {
        "Infogrames"
    } else if c1 == 0x37 && c2 == 0x31 {
        "Interplay"
    } else if c1 == 0x37 && c2 == 0x32 {
        "Broderbund"
    } else if c1 == 0x37 && c2 == 0x33 {
        "Sculptured"
    } else if c1 == 0x37 && c2 == 0x35 {
        "sci"
    } else if c1 == 0x37 && c2 == 0x38 {
        "THQ"
    } else if c1 == 0x37 && c2 == 0x39 {
        "Accolade"
    } else if c1 == 0x38 && c2 == 0x30 {
        "misawa"
    } else if c1 == 0x38 && c2 == 0x33 {
        "lozc"
    } else if c1 == 0x38 && c2 == 0x36 {
        "Tokuma Shoten"
    } else if c1 == 0x38 && c2 == 0x37 {
        "Tsukoda Ori"
    } else if c1 == 0x39 && c2 == 0x31 {
        "Chunsoft"
    } else if c1 == 0x39 && c2 == 0x32 {
        "Video System"
    } else if c1 == 0x39 && c2 == 0x33 {
        "Ocean/Acclaim"
    } else if c1 == 0x39 && c2 == 0x35 {
        "Varie"
    } else if c1 == 0x39 && c2 == 0x36 {
        "Yonezawa/s'pal"
    } else if c1 == 0x39 && c2 == 0x37 {
        "Kaneko"
    } else if c1 == 0x39 && c2 == 0x38 {
        "Pack in Soft"
    } else if c1 == 0x41 && c2 == 0x34 {
        "Konami (Yu-Gi-Oh!)"
    } else {
        "Unknown"
    }
}

fn read_old_licensee(code: u8) -> (s: &'static str)
    ensures
        s@ == old_licensee(code),
{
    proof {
        reveal_strlit("");
    }
    if false {
        ""
    } else if code == 0x00 {
        "None"
    } else if code == 0x01 || code == 0x31 {
        "Nintendo"
    } else if code == 0x08 || code == 0x38 {
        "Capcom"
    } else if code == 0x09 {
        "hot-b"
    } else if code == 0x0A {
        "Jaleco"
    } else if code == 0x0B {
        "Coconuts"
    } else if code == 0x0C || code == 0x6E {
        "Elite Systems"
    } else if code == 0x13 || code == 0x69 {
        "EA (Electronic Arts)"
    } else if code == 0x18 {
        "Hudson Soft"
    } else if code == 0x19 {
        "ITC Entertainment"
    } else if code == 0x1A {
        "Yanoman"
    } else if code == 0x1D {
        "Clary"
    } else if code == 0x1F || code == 0x4A || code == 0x61 {
        "Virgin"
    } else if code == 0x20 {
        "KSS"
    } else if code == 0x24 {
        "PCM Complete"
    } else if code == 0x25 {
        "San-X"
    } else if code == 0x28 {
        "Kotobuki Systems"
    } else if code == 0x29 {
        "Seta"
    } else if code == 0x30 || code == 0x70 {
        "Infogrames"
    } else if code == 0x32 {
        "Bandai"
    } else if code == 0x34 {
        "Konami"
    } else if code == 0x35 {
        "Hector"
    } else if code == 0x39 {
        "Banpresto"
    } else if code == 0x3C {
        "*entertainment i"
    } else if code == 0x3E {
        "Gremlin"
    } else if code == 0x41 {
        "Ubisoft"
    } else if code == 0x42 {
        "Atlus"
    } else if code == 0x44 || code == 0x4D {
        "Malibu"
    } else if code == 0x46 {
        "Angel"
    } else if code == 0x47 {
        "Spectrum Holoby"
    } else if code == 0x49 {
        "IREM"
    } else if code == 0x4F {
        "U.S. Gold"
    } else if code == 0x50 {
        "Absolute"
    } else if code == 0x51 {
        "Acclaim"
    } else if code == 0x52 {
        "Activision"
    } else if code == 0x53 {
        "American Sammy"
    } else if code == 0x54 {
        "Gametek"
    } else if code == 0x55 {
        "Park Place"
    } else if code == 0x56 {
        "LJN"
    } else if code == 0x57 {
        "Matchbox"
    } else if code == 0x59 {
        "Milton Bradley"
    } else if code == 0x5A {
        "Mindscape"
    } else if code == 0x5B {
        "Romstar"
    } else if code == 0x5C {
        "Naxat Soft"
    } else if code == 0x5D {
        "Tradewest"
    } else if code == 0x60 {
        "Titus"
    } else if code == 0x67 {
        "Ocean"
    } else if code == 0x6F {
        "Electro Brain"
    } else if code == 0x71 {
        "Interplay"
    } else if code == 0x72 {
        "Broderbund"
    } else if code == 0x73 {
        "Sculptured Soft"
    } else if code == 0x75 {
        "The Sales Curve"
    } else if code == 0x78 {
        "THQ"
    } else if code == 0x79 {
        "Accolade"
    } else if code == 0x7A {
        "Traffix Entertainment"
    } else if code == 0x7C {
        "Microprose"
    } else if code == 0x7F {
        "Kemco"
    } else if code == 0x80 {
        "Misawa Entertainment"
    } else if code == 0x83 {
        "LOZC"
    } else if code == 0x86 {
        "Tokuma Shoten Intermedia"
    } else if code == 0x8B {
        "Bullet-Proof Software"
    } else if code == 0x8C {
        "Vic Tokai"
    } else if code == 0x8E {
        "Ape"
    } else if code == 0x8F {
        "I'MAX"
    } else if code == 0x91 {
        "Chunsoft"
    } else if code == 0x92 {
        "Video System"
    } else if code == 0x93 {
        "Tsuburava"
    } else {
        "Unknown"
    }
}

fn read_cart_type(code: u8) -> (v: Vec<CartFeature>)
    ensures
        v@ == cart_type_of(code),
{
    let v = match code {
        0x00 => vec![CartFeature::ROM],
        0x01 => vec![CartFeature::MBC1],
        0x02 => vec![CartFeature::MBC1, CartFeature::RAM],
        0x03 => vec![CartFeature::MBC1, CartFeature::RAM, CartFeature::Battery],
        0x05 => vec![CartFeature::MBC2],
        0x06 => vec![CartFeature::MBC2, CartFeature::Battery],
        0x08 => vec![CartFeature::ROM, CartFeature::RAM],
        0x09 => vec![CartFeature::ROM, CartFeature::RAM, CartFeature::Battery],
        0x0B => vec![CartFeature::MMM01],
        0x0C => vec![CartFeature::MMM01, CartFeature::RAM],
        0x0D => vec![CartFeature::MMM01, CartFeature::RAM, CartFeature::Battery],
        0x0F => vec![CartFeature::MBC3, CartFeature::Timer, CartFeature::Battery],
        0x10 => vec![CartFeature::MBC3, CartFeature::Timer, CartFeature::RAM, CartFeature::Battery],
        0x11 => vec![CartFeature::MBC3],
        0x12 => vec![CartFeature::MBC3, CartFeature::RAM],
        0x13 => vec![CartFeature::MBC3, CartFeature::RAM, CartFeature::Battery],
        0x19 => vec![CartFeature::MBC5],
        0x1A => vec![CartFeature::MBC5, CartFeature::RAM],
        0x1B => vec![CartFeature::MBC5, CartFeature::RAM, CartFeature::Battery],
        0x1C => vec![CartFeature::MBC5, CartFeature::Rumble],
        0x1D => vec![CartFeature::MBC5, CartFeature::Rumble, CartFeature::RAM],
        0x1E => vec![CartFeature::MBC5, CartFeature::Rumble, CartFeature::RAM, CartFeature::Battery],
        0x20 => vec![CartFeature::MBC6],
        0x22 => vec![CartFeature::MBC7, CartFeature::Sensor, CartFeature::Rumble, CartFeature::RAM, CartFeature::Rumble],
        0xFC => vec![CartFeature::PocketCamera],
        0xFD => vec![CartFeature::BandaiTama5],
        0xFE => vec![CartFeature::HuC3],
        0xFF => vec![CartFeature::HuC1, CartFeature::RAM, CartFeature::Battery],
        _ => vec![CartFeature::Unknown],
    };
    assert(v@ =~= cart_type_of(code));
    v
}

/// What the header of a ROM says of the game.
#[derive(Debug)]
pub struct Header {
    pub title: String,
    pub gbtype: GameBoyType,
    pub gbs_compatible: bool,
}

/// Whether the memory holds the logo at 0x0104.
pub open spec fn has_logo(memory: Seq<u8>) -> bool {
    memory.len() >= 0x0134 && memory.subrange(0x0104, 0x0134) == logo()
}

/// The console that the byte at 0x0143 stands for.
pub open spec fn gbtype_of(code: u8) -> GameBoyType {
    if code == 0x80 || code == 0xC0 {
        GameBoyType::Color
    } else {
        GameBoyType::Classic
    }
}

/// Reads the header of the ROM that the memory holds from address 0 on:
/// the title at 0x0134, the console at 0x0143 and the flag at 0x0146. A
/// memory that does not hold the logo at 0x0104, or that ends before 0x0147,
/// holds no valid ROM.
pub fn inspect(memory: &Vec<u8>) -> (r: Result<Header, &'static str>)
    ensures
        r is Ok <==> has_logo(memory@) && memory@.len() >= 0x0147,
        r matches Ok(h) ==> h.title@ == title_of(memory@) && h.gbtype == gbtype_of(memory@[0x0143])
            && h.gbs_compatible == (memory@[0x0146] == 0x03),
        r matches Err(e) ==> e@ == "Invalid ROM"@,
{
    if memory.len() < 0x0147 {
        return Err("Invalid ROM");
    }
    let graphic = crate::classic::cartridge::logo_bytes();
    let mut i: usize = 0;
    while i < 48
        invariant
            i <= 48,
            memory@.len() >= 0x0147,
            graphic@ == logo(),
            forall|k: int| 0 <= k < i ==> memory@[0x0104 + k] == logo()[k],
        decreases 48 - i,
    {
        if memory[0x0104 + i] != graphic[i] {
            assert(memory@.subrange(0x0104, 0x0134)[i as int] != logo()[i as int]);
            return Err("Invalid ROM");
        }
        i = i + 1;
    }
    assert(memory@.subrange(0x0104, 0x0134) =~= logo());
    let title = read_title(memory);
    let code = memory[0x0143];
    let gbtype = if code == 0x80 || code == 0xC0 {
        GameBoyType::Color
    } else {
        GameBoyType::Classic
    };
    Ok(Header { title, gbtype, gbs_compatible: memory[0x0146] == 0x03 })
}

/// The instructions that `exec` executes: NOP, INC and DEC of a byte
/// register or of the byte at the address in HL, INC and DEC of a pair or of
/// the stack pointer, and ADD A,B.
pub open spec fn is_executable(code: u8) -> bool {
    code == 0x00 || code == 0x80 || (code < 0x40 && (code % 8 == 4 || code % 8 == 5 || code % 8
        == 3))
}

/// The byte that INC and DEC of a byte select with bits 5-3 of the opcode:
/// B, C, D, E, H, L, the byte at the address in HL, or A.
pub open spec fn selected(r: crate::classic::registers::Registers, memory: Seq<u8>, y: u8) -> u8 {
    if y == 0 {
        r.b.0
    } else if y == 1 {
        r.c.0
    } else if y == 2 {
        r.d.0
    } else if y == 3 {
        r.e.0
    } else if y == 4 {
        r.h.0
    } else if y == 5 {
        r.l.0
    } else if y == 6 {
        memory[r.spec_get_hl() as int]
    } else {
        r.a.0
    }
}

/// The registers and the memory with a byte where bits 5-3 of the opcode
/// select.
pub open spec fn use_reg(
    r: crate::classic::registers::Registers,
    memory: Seq<u8>,
    y: u8,
    v: u8,
) -> (crate::classic::registers::Registers, Seq<u8>) {
    let b = crate::classic::registers::Reg8(v);
    if y == 0 {
        (crate::classic::registers::Registers { b, ..r }, memory)
    } else if y == 1 {
        (crate::classic::registers::Registers { c: b, ..r }, memory)
    } else if y == 2 {
        (crate::classic::registers::Registers { d: b, ..r }, memory)
    } else if y == 3 {
        (crate::classic::registers::Registers { e: b, ..r }, memory)
    } else if y == 4 {
        (crate::classic::registers::Registers { h: b, ..r }, memory)
    } else if y == 5 {
        (crate::classic::registers::Registers { l: b, ..r }, memory)
    } else if y == 6 {
        (r, memory.update(r.spec_get_hl() as int, v))
    } else {
        (crate::classic::registers::Registers { a: b, ..r }, memory)
    }
}

/// The registers and the memory after an instruction that `exec` executes.
/// INC and DEC of a byte set Z, N and H and keep C; INC and DEC of a pair
/// change no flag.
pub open spec fn executed(
    r: crate::classic::registers::Registers,
    memory: Seq<u8>,
    code: u8,
) -> (crate::classic::registers::Registers, Seq<u8>) {
    let y = (code / 8) % 8;
    let z = code % 8;
    if code == 0x00 {
        (r, memory)
    } else if code == 0x80 {
        (r.after_add(r.b.0), memory)
    } else if z == 4 {
        let v = selected(r, memory, y);
        let after = use_reg(r, memory, y, wrap8(v + 1));
        (
            after.0.with_some_flags(
                Some(wrap8(v + 1) == 0),
                Some(false),
                Some(half_carry(v, 1)),
                None,
            ),
            after.1,
        )
    } else if z == 5 {
        let v = selected(r, memory, y);
        let after = use_reg(r, memory, y, wrap8(v - 1));
        (
            after.0.with_some_flags(
                Some(wrap8(v - 1) == 0),
                Some(true),
                Some(half_borrow(v, 1)),
                None,
            ),
            after.1,
        )
    } else {
        (stepped(r, y), memory)
    }
}

/// Reads the byte that bits 5-3 of an opcode select.
fn select(cpu: &Registers, memory: &Vec<u8>, y: u8) -> (v: u8)
    requires
        memory@.len() > 0xFFFF,
    ensures
        v == selected(cpu@, memory@, y),
{
    let mut copy = *cpu;
    if y == 0 {
        cpu.b
    } else if y == 1 {
        cpu.c
    } else if y == 2 {
        cpu.d
    } else if y == 3 {
        cpu.e
    } else if y == 4 {
        cpu.h
    } else if y == 5 {
        cpu.l
    } else if y == 6 {
        memory[copy.get_hl() as usize]
    } else {
        cpu.a
    }
}

/// Writes the byte that bits 5-3 of an opcode select.
fn put(cpu: &mut Registers, memory: &mut Vec<u8>, y: u8, v: u8)
    requires
        old(memory)@.len() > 0xFFFF,
    ensures
        (final(cpu)@, final(memory)@) == use_reg(old(cpu)@, old(memory)@, y, v),
{
    if y == 0 {
        cpu.b = v;
    } else if y == 1 {
        cpu.c = v;
    } else if y == 2 {
        cpu.d = v;
    } else if y == 3 {
        cpu.e = v;
    } else if y == 4 {
        cpu.h = v;
    } else if y == 5 {
        cpu.l = v;
    } else if y == 6 {
        let at = cpu.get_hl() as usize;
        memory[at] = v;
    } else {
        cpu.a = v;
    }
}

/// Executes INC of the byte that bits 5-3 of the opcode select.
fn exec_inc(cpu: &mut Registers, memory: &mut Vec<u8>, y: u8)
    requires
        old(memory)@.len() > 0xFFFF,
    ensures
        final(memory)@ == use_reg(
            old(cpu)@,
            old(memory)@,
            y,
            wrap8(selected(old(cpu)@, old(memory)@, y) + 1),
        ).1,
        final(cpu)@ == use_reg(
            old(cpu)@,
            old(memory)@,
            y,
            wrap8(selected(old(cpu)@, old(memory)@, y) + 1),
        ).0.with_some_flags(
            Some(wrap8(selected(old(cpu)@, old(memory)@, y) + 1) == 0),
            Some(false),
            Some(half_carry(selected(old(cpu)@, old(memory)@, y), 1)),
            None,
        ),
{
    let v = select(cpu, memory, y);
    let after = v.wrapping_add(1);
    put(cpu, memory, y, after);
    let half = Registers::half_carry_occurred(v, 1);
    cpu.set_flags(Some(if after == 0 { 1 } else { 0 }), Some(0), Some(if half { 1 } else { 0 }), None);
}

/// Executes DEC of the byte that bits 5-3 of the opcode select.
fn exec_dec(cpu: &mut Registers, memory: &mut Vec<u8>, y: u8)
    requires
        old(memory)@.len() > 0xFFFF,
    ensures
        final(memory)@ == use_reg(
            old(cpu)@,
            old(memory)@,
            y,
            wrap8(selected(old(cpu)@, old(memory)@, y) - 1),
        ).1,
        final(cpu)@ == use_reg(
            old(cpu)@,
            old(memory)@,
            y,
            wrap8(selected(old(cpu)@, old(memory)@, y) - 1),
        ).0.with_some_flags(
            Some(wrap8(selected(old(cpu)@, old(memory)@, y) - 1) == 0),
            Some(true),
            Some(half_borrow(selected(old(cpu)@, old(memory)@, y), 1)),
            None,
        ),
{
    let v = select(cpu, memory, y);
    let after = v.wrapping_sub(1);
    put(cpu, memory, y, after);
    let half = Registers::half_borrow_occurred(v, 1);
    cpu.set_flags(Some(if after == 0 { 1 } else { 0 }), Some(1), Some(if half { 1 } else { 0 }), None);
}

/// The registers after INC or DEC of the pair, or of the stack pointer, that
/// bits 5-4 of the opcode select; bit 3 says which of the two it is.
pub open spec fn stepped(
    r: crate::classic::registers::Registers,
    y: u8,
) -> crate::classic::registers::Registers {
    let step: int = if y % 2 == 0 {
        1
    } else {
        -1
    };
    if y / 2 == 0 {
        r.with_bc(wrap16(r.spec_get_bc() + step))
    } else if y / 2 == 1 {
        r.with_de(wrap16(r.spec_get_de() + step))
    } else if y / 2 == 2 {
        r.with_hl(wrap16(r.spec_get_hl() + step))
    } else {
        crate::classic::registers::Registers { sp: wrap16(r.sp + step), ..r }
    }
}

/// Executes INC or DEC of a pair or of the stack pointer.
fn exec_wide(cpu: &mut Registers, y: u8)
    ensures
        final(cpu)@ == stepped(old(cpu)@, y),
{
    let up = y % 2 == 0;
    if y / 2 == 0 {
        let v = cpu.get_bc();
        cpu.set_bc(if up { v.wrapping_add(1) } else { v.wrapping_sub(1) });
    } else if y / 2 == 1 {
        let v = cpu.get_de();
        cpu.set_de(if up { v.wrapping_add(1) } else { v.wrapping_sub(1) });
    } else if y / 2 == 2 {
        let v = cpu.get_hl();
        cpu.set_hl(if up { v.wrapping_add(1) } else { v.wrapping_sub(1) });
    } else {
        cpu.sp = if up { cpu.sp.wrapping_add(1) } else { cpu.sp.wrapping_sub(1) };
    }
}

/// Executes one instruction on the registers and the memory, and gives its
/// size in bytes. Gives nothing, and changes nothing, for an opcode that is
/// not among those that it executes.
pub fn exec(cpu: &mut Registers, memory: &mut Vec<u8>, code: u8) -> (size: Option<u16>)
    requires
        old(memory)@.len() > 0xFFFF,
    ensures
        size == (if is_executable(code) { Some(1u16) } else { None }),
        is_executable(code) ==> (final(cpu)@, final(memory)@) == executed(
            old(cpu)@,
            old(memory)@,
            code,
        ),
        !is_executable(code) ==> *final(cpu) == *old(cpu) && final(memory)@ == old(memory)@,
{
    let y = (code / 8) % 8;
    let z = code % 8;
    if code == 0x00 {
    } else if code == 0x80 {
        let b = cpu.b;
        cpu.add(b);
    } else if code < 0x40 && z == 4 {
        exec_inc(cpu, memory, y);
    } else if code < 0x40 && z == 5 {
        exec_dec(cpu, memory, y);
    } else if code < 0x40 && z == 3 {
        exec_wide(cpu, y);
    } else {
        return None;
    }
    Some(1)
}

/// Executes the instruction at the program counter and moves the program
/// counter past it. Gives nothing, and changes nothing, where `exec` gives
/// nothing.
pub fn step(cpu: &mut Registers, memory: &mut Vec<u8>) -> (r: Option<()>)
    requires
        old(memory)@.len() > 0xFFFF,
    ensures
        r is Some <==> is_executable(old(memory)@[old(cpu).pc as int]),
        r is Some ==> ({
            let after = executed(old(cpu)@, old(memory)@, old(memory)@[old(cpu).pc as int]);
            final(memory)@ == after.1 && final(cpu)@ == (crate::classic::registers::Registers {
                pc: wrap16(after.0.pc + 1),
                ..after.0
            })
        }),
        r is None ==> *final(cpu) == *old(cpu) && final(memory)@ == old(memory)@,
{
    let opcode = memory[cpu.pc as usize];
    match exec(cpu, memory, opcode) {
        Some(skip) => {
            cpu.pc = cpu.pc.wrapping_add(skip);
            Some(())
        },
        None => None,
    }
}

/// A ROM and what its header says of it.
#[derive(Debug)]
pub struct ROM {
    pub path: String,
    pub size: usize,
    pub contents: Vec<u8>,
    pub title: String,
    pub licensee: String,
    pub cart_type: Vec<CartFeature>,
    pub version_no: u8,
    pub gbs_compatible: bool,
    pub header_checksum: u8,
    pub global_checksum: u16,
}

/// The names of some features, with a plus sign between one and the next.
pub open spec fn joined(features: Seq<CartFeature>) -> Seq<char>
    decreases features.len(),
{
    if features.len() == 0 {
        Seq::empty()
    } else if features.len() == 1 {
        features[0].name_text()
    } else {
        joined(features.drop_last()).push('+') + features.last().name_text()
    }
}

/// Writes the names of some features, with a plus sign between one and the
/// next.
pub fn join(features: &Vec<CartFeature>) -> (s: String)
    ensures
        s@ == joined(features@),
{
    let mut s = String::new();
    let mut i: usize = 0;
    while i < features.len()
        invariant
            i <= features@.len(),
            s@ == joined(features@.subrange(0, i as int)),
        decreases features@.len() - i,
    {
        let ghost before = features@.subrange(0, i as int);
        let ghost now = features@.subrange(0, i + 1);
        assert(now.drop_last() =~= before);
        assert(now.last() == features@[i as int]);
        if i > 0 {
            s.push('+');
        }
        push_text(&mut s, features[i].name());
        i = i + 1;
        assert(s@ =~= joined(now));
    }
    assert(features@.subrange(0, features@.len() as int) =~= features@);
    s
}

impl ROM {
    /// What `info` writes.
    pub open spec fn info_text(&self) -> Seq<char> {
        "Verbose ROM information on "@ + self.path@ + "\nTitle:\t\t\t"@ + self.title@
            + "\nVersion:\t\t"@ + decimal_text(self.version_no as nat) + "\nLicensee:\t\t"@
            + self.licensee@ + "\nCart Type:\t\t"@ + joined(self.cart_type@) + "\nGBS Features:\t"@
            + (if self.gbs_compatible {
            "Available"@
        } else {
            "Unavailable"@
        }) + "\nChecksum:\t\t0x"@ + hex_text(self.global_checksum as nat, 4)
    }

    /// Reads a ROM out of its image, which must reach to the end of the
    /// header at 0x0150; `path` is where the image came from.
    pub fn from_bytes(path: &str, contents: Vec<u8>) -> (r: Option<ROM>)
        ensures
            r is Some <==> contents@.len() >= 0x0150,
            r matches Some(rom) ==> {
                &&& rom.path@ == path@
                &&& rom.size == contents@.len()
                &&& rom.contents@ == contents@
                &&& rom.title@ == title_of(contents@)
                &&& rom.licensee@ == licensee_of(contents@)
                &&& rom.cart_type@ == cart_type_of(contents@[0x0147])
                &&& rom.version_no == contents@[0x014C]
                &&& rom.gbs_compatible == (contents@[0x0146] == 0x03)
                &&& rom.header_checksum == contents@[0x014D]
                &&& rom.global_checksum == ((contents@[0x014E] as u16) << 8) | (
                contents@[0x014F] as u16)
            },
    {
        if contents.len() < 0x0150 {
            return None;
        }
        let title = read_title(&contents);
        let gbs_compatible = contents[0x0146] == 0x03;
        let licensee = if contents[0x014B] == 0x33 {
            read_new_licensee(contents[0x0144], contents[0x0145])
        } else {
            read_old_licensee(contents[0x014B])
        };
        let cart_type = read_cart_type(contents[0x0147]);
        let version_no = contents[0x014C];
        let header_checksum = contents[0x014D];
        let global_checksum = ((contents[0x014E] as u16) << 8) | (contents[0x014F] as u16);
        let size = contents.len();
        Some(
            ROM {
                path: String::from_str(path),
                size,
                contents,
                title,
                licensee: String::from_str(licensee),
                cart_type,
                version_no,
                gbs_compatible,
                header_checksum,
                global_checksum,
            },
        )
    }

    /// What the header says, written out in full.
    pub fn info(&mut self) -> (text: String)
        ensures
            text@ == old(self).info_text(),
            *final(self) == *old(self),
    {
        let mut s = String::from_str("Verbose ROM information on ");
        push_text(&mut s, self.path.as_str());
        push_text(&mut s, "\nTitle:\t\t\t");
        push_text(&mut s, self.title.as_str());
        push_text(&mut s, "\nVersion:\t\t");
        push_decimal(&mut s, self.version_no as usize);
        push_text(&mut s, "\nLicensee:\t\t");
        push_text(&mut s, self.licensee.as_str());
        push_text(&mut s, "\nCart Type:\t\t");
        let cart_type = join(&self.cart_type);
        push_text(&mut s, cart_type.as_str());
        push_text(&mut s, "\nGBS Features:\t");
        push_text(&mut s, if self.gbs_compatible { "Available" } else { "Unavailable" });
        push_text(&mut s, "\nChecksum:\t\t0x");
        push_hex(&mut s, self.global_checksum as usize, 4);
        assert(s@ =~= self.info_text());
        s
    }

    /// The image written out for reading: sixteen bytes to a line, each as
    /// a character, with a dot for what has no character to show.
    pub fn dump_text(&mut self) -> (text: String)
        ensures
            text@ == dump_text(old(self).contents@, old(self).contents@.len() as int, true),
            *final(self) == *old(self),
    {
        let mut text = String::new();
        push_dump(&mut text, &self.contents, true);
        text
    }
}
} // verus!
