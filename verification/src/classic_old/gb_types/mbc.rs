//! The memory bank controllers as banks of ROM and RAM.

use vstd::prelude::*;
use super::Memory;

verus! {

/// The controller of a cartridge, if it has one.
pub enum MemoryBankController {
    Absent,
    MBC1(MBC1<'static>),
    MBC2(MBC2<'static>),
    MBC3(MBC3<'static>),
    MBC5(MBC5<'static>),
}

/// What an MBC1 selects with the two bits written to 0x4000-0x5FFF.
#[derive(Copy, Clone, Debug, PartialEq, Eq)]
pub enum MBCMode {
    ROM,
    RAM,
}

pub struct MBC1<'m> {
    pub rom_bank_0: &'m [u8; 0x4000],
    pub rom_banks: Vec<&'m [u8; 0x4000]>,
    pub ram_banks: Vec<Memory>,
    pub ram_enabled: bool,
    pub current_rom_bank: u8,
    pub current_ram_bank: u8,
    pub mode: MBCMode,
}

pub struct MBC2<'m> {
    pub rom_bank_0: &'m [u8; 0x4000],
    pub rom_banks: Vec<&'m [u8; 0x4000]>,
    pub ram_enabled: &'m [bool; 4],
    pub current_rom_bank: u8,
    pub ram: Memory,
}

pub struct MBC3<'m> {
    pub rom_bank_0: &'m [u8; 0x4000],
    pub rom_banks: Vec<&'m [u8; 0x4000]>,
    pub ram_banks: Vec<Memory>,
    pub ram_timer_enabled: bool,
    pub current_rom_bank: u8,
    pub current_ram_timer_bank: u8,
}

pub struct MBC5<'m> {
    pub rom_bank_0: &'m [u8; 0x4000],
    pub rom_banks: Vec<&'m [u8; 0x4000]>,
    pub ram_banks: Vec<Memory>,
    pub ram_enabled: bool,
    pub current_rom_bank: u16,
    pub current_ram_bank: u8,
}

impl MemoryBankController {
    /// The ROM bank selected. A cartridge without a controller has none.
    pub open spec fn rom_bank(&self) -> Option<u16> {
        match self {
            MemoryBankController::Absent => None,
            MemoryBankController::MBC1(m) => Some(m.current_rom_bank as u16),
            MemoryBankController::MBC2(m) => Some(m.current_rom_bank as u16),
            MemoryBankController::MBC3(m) => Some(m.current_rom_bank as u16),
            MemoryBankController::MBC5(m) => Some(m.current_rom_bank),
        }
    }

    /// The RAM bank selected. A cartridge without a controller has none,
    /// and an MBC2 has one RAM without banks.
    pub open spec fn ram_bank(&self) -> Option<u8> {
        match self {
            MemoryBankController::Absent => None,
            MemoryBankController::MBC1(m) => Some(m.current_ram_bank),
            MemoryBankController::MBC2(_) => None,
            MemoryBankController::MBC3(m) => Some(m.current_ram_timer_bank),
            MemoryBankController::MBC5(m) => Some(m.current_ram_bank),
        }
    }

    /// Whether `other` is this controller but for the banks selected.
    pub open spec fn same_memory(&self, other: &MemoryBankController) -> bool {
        match (self, other) {
            (MemoryBankController::Absent, MemoryBankController::Absent) => true,
            (MemoryBankController::MBC1(a), MemoryBankController::MBC1(b)) => a.rom_bank_0
                == b.rom_bank_0 && a.rom_banks == b.rom_banks && a.ram_banks == b.ram_banks
                && a.ram_enabled == b.ram_enabled && a.mode == b.mode,
            (MemoryBankController::MBC2(a), MemoryBankController::MBC2(b)) => a.rom_bank_0
                == b.rom_bank_0 && a.rom_banks == b.rom_banks && a.ram_enabled == b.ram_enabled
                && a.ram == b.ram,
            (MemoryBankController::MBC3(a), MemoryBankController::MBC3(b)) => a.rom_bank_0
                == b.rom_bank_0 && a.rom_banks == b.rom_banks && a.ram_banks == b.ram_banks
                && a.ram_timer_enabled == b.ram_timer_enabled,
            (MemoryBankController::MBC5(a), MemoryBankController::MBC5(b)) => a.rom_bank_0
                == b.rom_bank_0 && a.rom_banks == b.rom_banks && a.ram_banks == b.ram_banks
                && a.ram_enabled == b.ram_enabled,
            _ => false,
        }
    }
}

/// Selects a ROM bank. An MBC5 takes the whole number; the others take its
/// low eight bits.
pub fn set_rom_bank(controller: &mut MemoryBankController, bank: u16)
    ensures
        final(controller).same_memory(old(controller)),
        final(controller).ram_bank() == old(controller).ram_bank(),
        final(controller).rom_bank() == (match *old(controller) {
            MemoryBankController::Absent => None,
            MemoryBankController::MBC5(_) => Some(bank),
            _ => Some((bank & 0xFF) as u16),
        }),
{
    let low = (bank & 0xFF) as u8;
    assert((bank & 0xFF) < 256 && ((bank & 0xFF) as u8) as u16 == bank & 0xFF) by (bit_vector);
    match controller {
        MemoryBankController::Absent => {},
        MemoryBankController::MBC1(mbc1) => {
            mbc1.current_rom_bank = low;
        },
        MemoryBankController::MBC2(mbc2) => {
            mbc2.current_rom_bank = low;
        },
        MemoryBankController::MBC3(mbc3) => {
            mbc3.current_rom_bank = low;
        },
        MemoryBankController::MBC5(mbc5) => {
            mbc5.current_rom_bank = bank;
        },
    }
}

/// Selects a RAM bank, on a controller that has RAM banks.
pub fn set_ram_bank(controller: &mut MemoryBankController, bank: u8)
    ensures
        final(controller).same_memory(old(controller)),
        final(controller).rom_bank() == old(controller).rom_bank(),
        final(controller).ram_bank() == (match *old(controller) {
            MemoryBankController::Absent => None,
            MemoryBankController::MBC2(_) => None,
            _ => Some(bank),
        }),
{
    match controller {
        MemoryBankController::Absent => {},
        MemoryBankController::MBC1(mbc1) => {
            mbc1.current_ram_bank = bank;
        },
        MemoryBankController::MBC2(_) => {},
        MemoryBankController::MBC3(mbc3) => {
            mbc3.current_ram_timer_bank = bank;
        },
        MemoryBankController::MBC5(mbc5) => {
            mbc5.current_ram_bank = bank;
        },
    }
}

} // verus!
