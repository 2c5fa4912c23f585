//! The address bus of the console: every 16-bit address belongs to exactly
//! one region, and reads and writes go to the region that owns the address.

use vstd::prelude::*;
use super::cartridge::{Cartridge, CartridgeView};
use super::memory::byte_at;

verus! {

pub const ROM_BANK_0_START: usize = 0x0000;

pub const ROM_BANK_N_START: usize = 0x4000;

pub const CHR_RAM_START: usize = 0x8000;

pub const BG_MAP_DATA_1_START: usize = 0x9800;

pub const BG_MAP_DATA_2_START: usize = 0x9C00;

pub const CARTRIDGE_RAM_START: usize = 0xA000;

pub const WRAM_START: usize = 0xC000;

pub const ECHO_RAM_START: usize = 0xE000;

pub const OAM_START: usize = 0xFE00;

pub const OAM_END: usize = 0xFEA0;

pub const HARDWARE_IO_START: usize = 0xFF00;

pub const HIGH_RAM_START: usize = 0xFF80;

pub const IE_START: usize = 0xFFFF;

pub const CHR_RAM_SIZE: usize = 0x1800;

pub const BG_MAP_DATA_SIZE: usize = 0x0800;

pub const WRAM_SIZE: usize = 0x2000;

pub const ECHO_RAM_SIZE: usize = 0x1E00;

pub const OAM_SIZE: usize = 0x00A0;

pub const HARDWARE_IO_SIZE: usize = 0x0080;

pub const HIGH_RAM_SIZE: usize = 0x007F;

/// The console seen from the CPU: the cartridge in its slot, if there is
/// one, and the memory that the console has of its own.
pub struct Console {
    pub cartridge: Option<Cartridge>,
    /// Character RAM, at 0x8000.
    pub chr_ram: Vec<u8>,
    /// Background map data, at 0x9800.
    pub bg_data: Vec<u8>,
    /// Work RAM, at 0xC000 and once more at 0xE000.
    pub wram: Vec<u8>,
    /// Sprite attributes, at 0xFE00.
    pub oam: Vec<u8>,
    /// Hardware I/O registers, at 0xFF00.
    pub hardware: Vec<u8>,
    /// High RAM, at 0xFF80.
    pub hi_ram: Vec<u8>,
    /// The interrupt enable register, at 0xFFFF.
    pub ie: bool,
}

/// The console as a plain value.
pub struct ConsoleView {
    pub cartridge: Option<CartridgeView>,
    pub chr_ram: Seq<u8>,
    pub bg_data: Seq<u8>,
    pub wram: Seq<u8>,
    pub oam: Seq<u8>,
    pub hardware: Seq<u8>,
    pub hi_ram: Seq<u8>,
    pub ie: bool,
}

impl View for Console {
    type V = ConsoleView;

    open spec fn view(&self) -> ConsoleView {
        ConsoleView {
            cartridge: match self.cartridge {
                Some(c) => Some(c@),
                None => None,
            },
            chr_ram: self.chr_ram@,
            bg_data: self.bg_data@,
            wram: self.wram@,
            oam: self.oam@,
            hardware: self.hardware@,
            hi_ram: self.hi_ram@,
            ie: self.ie,
        }
    }
}

/// `s` with the byte at `i` replaced, if there is one.
pub open spec fn with_byte(s: Seq<u8>, i: int, data: u8) -> Seq<u8> {
    if 0 <= i < s.len() {
        s.update(i, data)
    } else {
        s
    }
}

/// A region of `n` zero bytes.
pub open spec fn zeros(n: nat) -> Seq<u8> {
    Seq::new(n, |i: int| 0u8)
}

impl ConsoleView {
    /// Every region has the size that the memory map gives it.
    pub open spec fn wf(self) -> bool {
        &&& self.chr_ram.len() == 0x1800
        &&& self.bg_data.len() == 0x0800
        &&& self.wram.len() == 0x2000
        &&& self.oam.len() == 0x00A0
        &&& self.hardware.len() == 0x0080
        &&& self.hi_ram.len() == 0x007F
    }

    /// The console when it is switched on: its own memory is all zero.
    pub open spec fn fresh(cartridge: Option<CartridgeView>) -> ConsoleView {
        ConsoleView {
            cartridge,
            chr_ram: zeros(0x1800),
            bg_data: zeros(0x0800),
            wram: zeros(0x2000),
            oam: zeros(0x00A0),
            hardware: zeros(0x0080),
            hi_ram: zeros(0x007F),
            ie: false,
        }
    }

    /// The ROM of the cartridge in the slot, if there is one.
    pub open spec fn rom(self) -> Option<Seq<u8>> {
        match self.cartridge {
            Some(c) => Some(c.mbc.rom),
            None => None,
        }
    }

    /// The ROM is the one of `before`, and every region has the size that
    /// it has in `before`.
    pub open spec fn same_layout(self, before: ConsoleView) -> bool {
        &&& self.rom() == before.rom()
        &&& self.chr_ram.len() == before.chr_ram.len()
        &&& self.bg_data.len() == before.bg_data.len()
        &&& self.wram.len() == before.wram.len()
        &&& self.oam.len() == before.oam.len()
        &&& self.hardware.len() == before.hardware.len()
        &&& self.hi_ram.len() == before.hi_ram.len()
    }

    /// What a read of `addr` gives.
    pub open spec fn read(self, addr: u16) -> Option<u8> {
        if addr <= 0x7FFF {
            match self.cartridge {
                Some(c) => c.mbc.read_rom(addr as int),
                None => None,
            }
        } else if addr <= 0x97FF {
            byte_at(self.chr_ram, addr - 0x8000)
        } else if addr <= 0x9FFF {
            byte_at(self.bg_data, addr - 0x9800)
        } else if addr <= 0xBFFF {
            match self.cartridge {
                Some(c) => c.mbc.read_ram(addr - 0xA000),
                None => None,
            }
        } else if addr <= 0xDFFF {
            byte_at(self.wram, addr - 0xC000)
        } else if addr <= 0xFDFF {
            byte_at(self.wram, addr - 0xE000)
        } else if addr <= 0xFE9F {
            byte_at(self.oam, addr - 0xFE00)
        } else if addr <= 0xFEFF {
            None
        } else if addr <= 0xFF7F {
            byte_at(self.hardware, addr - 0xFF00)
        } else if addr <= 0xFFFE {
            byte_at(self.hi_ram, addr - 0xFF80)
        } else {
            Some(if self.ie { 1u8 } else { 0u8 })
        }
    }

    /// Whether a write to `addr` reaches a region that takes it.
    pub open spec fn accepts(self, addr: u16) -> bool {
        if addr <= 0x7FFF {
            self.cartridge is Some
        } else if addr <= 0x97FF {
            addr - 0x8000 < self.chr_ram.len()
        } else if addr <= 0x9FFF {
            addr - 0x9800 < self.bg_data.len()
        } else if addr <= 0xBFFF {
            match self.cartridge {
                Some(c) => !c.mbc.has_ram() || c.mbc.ram_writable(addr - 0xA000),
                None => false,
            }
        } else if addr <= 0xDFFF {
            addr - 0xC000 < self.wram.len()
        } else if addr <= 0xFDFF {
            addr - 0xE000 < self.wram.len()
        } else if addr <= 0xFE9F {
            addr - 0xFE00 < self.oam.len()
        } else if addr <= 0xFEFF {
            false
        } else if addr <= 0xFF7F {
            addr - 0xFF00 < self.hardware.len()
        } else if addr <= 0xFFFE {
            addr - 0xFF80 < self.hi_ram.len()
        } else {
            true
        }
    }

    /// The console after a write of `data` to `addr`. A write into ROM
    /// space sets the registers of the controller; a write that no region
    /// takes changes nothing.
    pub open spec fn write(self, addr: u16, data: u8) -> ConsoleView {
        if addr <= 0x7FFF {
            match self.cartridge {
                Some(c) => ConsoleView {
                    cartridge: Some(CartridgeView { mbc: c.mbc.write_rom(addr as int, data), ..c }),
                    ..self
                },
                None => self,
            }
        } else if addr <= 0x97FF {
            ConsoleView { chr_ram: with_byte(self.chr_ram, addr - 0x8000, data), ..self }
        } else if addr <= 0x9FFF {
            ConsoleView { bg_data: with_byte(self.bg_data, addr - 0x9800, data), ..self }
        } else if addr <= 0xBFFF {
            match self.cartridge {
                Some(c) => ConsoleView {
                    cartridge: Some(
                        CartridgeView { mbc: c.mbc.write_ram(addr - 0xA000, data), ..c },
                    ),
                    ..self
                },
                None => self,
            }
        } else if addr <= 0xDFFF {
            ConsoleView { wram: with_byte(self.wram, addr - 0xC000, data), ..self }
        } else if addr <= 0xFDFF {
            ConsoleView { wram: with_byte(self.wram, addr - 0xE000, data), ..self }
        } else if addr <= 0xFE9F {
            ConsoleView { oam: with_byte(self.oam, addr - 0xFE00, data), ..self }
        } else if addr <= 0xFEFF {
            self
        } else if addr <= 0xFF7F {
            ConsoleView { hardware: with_byte(self.hardware, addr - 0xFF00, data), ..self }
        } else if addr <= 0xFFFE {
            ConsoleView { hi_ram: with_byte(self.hi_ram, addr - 0xFF80, data), ..self }
        } else {
            ConsoleView { ie: data != 0, ..self }
        }
    }
}

/// Reads a byte of a region.
fn region_get(region: &Vec<u8>, i: usize) -> (r: Option<u8>)
    ensures
        r == byte_at(region@, i as int),
{
    if i < region.len() {
        Some(region[i])
    } else {
        None
    }
}

/// Writes a byte of a region.
fn region_set(region: &mut Vec<u8>, i: usize, data: u8) -> (r: Option<()>)
    ensures
        final(region)@ == with_byte(old(region)@, i as int, data),
        r is Some <==> i < old(region)@.len(),
{
    if i < region.len() {
        region[i] = data;
        Some(())
    } else {
        None
    }
}

impl Console {
    /// Switches the console on with the given cartridge in its slot.
    pub fn start(cartridge: Option<Cartridge>) -> (console: Console)
        ensures
            console@ == ConsoleView::fresh(
                match cartridge {
                    Some(c) => Some(c@),
                    None => None,
                },
            ),
            console@.wf(),
    {
        let console = Console {
            cartridge,
            chr_ram: vec![0u8; CHR_RAM_SIZE],
            bg_data: vec![0u8; BG_MAP_DATA_SIZE],
            wram: vec![0u8; WRAM_SIZE],
            oam: vec![0u8; OAM_SIZE],
            hardware: vec![0u8; HARDWARE_IO_SIZE],
            hi_ram: vec![0u8; HIGH_RAM_SIZE],
            ie: false,
        };
        assert(console.chr_ram@ =~= zeros(0x1800));
        assert(console.bg_data@ =~= zeros(0x0800));
        assert(console.wram@ =~= zeros(0x2000));
        assert(console.oam@ =~= zeros(0x00A0));
        assert(console.hardware@ =~= zeros(0x0080));
        assert(console.hi_ram@ =~= zeros(0x007F));
        console
    }

    /// Reads the byte at an address. Nothing can be read from ROM space or
    /// cartridge RAM without a cartridge, from beyond the end of its ROM or
    /// RAM, or from the prohibited region 0xFEA0-0xFEFF.
    pub fn read(&self, offset: u16) -> (r: Option<u8>)
        ensures
            r == self@.read(offset),
    {
        let at = offset as usize;
        if offset <= 0x7FFF {
            match &self.cartridge {
                Some(cart) => cart.read_rom(at),
                None => None,
            }
        } else if offset <= 0x97FF {
            region_get(&self.chr_ram, at - CHR_RAM_START)
        } else if offset <= 0x9FFF {
            region_get(&self.bg_data, at - BG_MAP_DATA_1_START)
        } else if offset <= 0xBFFF {
            match &self.cartridge {
                Some(cart) => cart.mbc.read_ram(at - CARTRIDGE_RAM_START),
                None => None,
            }
        } else if offset <= 0xDFFF {
            region_get(&self.wram, at - WRAM_START)
        } else if offset <= 0xFDFF {
            region_get(&self.wram, at - ECHO_RAM_START)
        } else if offset <= 0xFE9F {
            region_get(&self.oam, at - OAM_START)
        } else if offset <= 0xFEFF {
            None
        } else if offset <= 0xFF7F {
            region_get(&self.hardware, at - HARDWARE_IO_START)
        } else if offset <= 0xFFFE {
            region_get(&self.hi_ram, at - HIGH_RAM_START)
        } else {
            Some(if self.ie { 1 } else { 0 })
        }
    }

    /// Writes a byte to an address. A write into ROM space goes to the
    /// controller of the cartridge; a write into the echo region goes to
    /// the work RAM that it mirrors; a write into the prohibited region is
    /// lost. `None` comes back when no region took the write.
    pub fn write(&mut self, offset: u16, data: u8) -> (r: Option<()>)
        ensures
            final(self)@ == old(self)@.write(offset, data),
            r is Some <==> old(self)@.accepts(offset),
            final(self)@.same_layout(old(self)@),
    {
        let at = offset as usize;
        if offset <= 0x7FFF {
            match &mut self.cartridge {
                Some(cart) => {
                    cart.mbc.write_rom(at, data);
                    Some(())
                },
                None => None,
            }
        } else if offset <= 0x97FF {
            region_set(&mut self.chr_ram, at - CHR_RAM_START, data)
        } else if offset <= 0x9FFF {
            region_set(&mut self.bg_data, at - BG_MAP_DATA_1_START, data)
        } else if offset <= 0xBFFF {
            match &mut self.cartridge {
                Some(cart) => {
                    match cart.mbc.write_ram(at - CARTRIDGE_RAM_START, data) {
                        Ok(_) => Some(()),
                        Err(_) => None,
                    }
                },
                None => None,
            }
        } else if offset <= 0xDFFF {
            region_set(&mut self.wram, at - WRAM_START, data)
        } else if offset <= 0xFDFF {
            region_set(&mut self.wram, at - ECHO_RAM_START, data)
        } else if offset <= 0xFE9F {
            region_set(&mut self.oam, at - OAM_START, data)
        } else if offset <= 0xFEFF {
            None
        } else if offset <= 0xFF7F {
            region_set(&mut self.hardware, at - HARDWARE_IO_START, data)
        } else if offset <= 0xFFFE {
            region_set(&mut self.hi_ram, at - HIGH_RAM_START, data)
        } else {
            self.ie = data != 0;
            Some(())
        }
    }

    /// Replaces the byte at an address by what `f` makes of it. Nothing
    /// happens when the byte cannot be read.
    pub fn alter<F: Fn(u8) -> u8>(&mut self, offset: u16, f: F) -> (r: Option<()>)
        requires
            old(self)@.read(offset) matches Some(b) ==> call_requires(f, (b,)),
        ensures
            old(self)@.read(offset) is None ==> r is None && final(self)@ == old(self)@,
            old(self)@.read(offset) matches Some(b) ==> exists|v: u8|
                call_ensures(f, (b,), v) && final(self)@ == old(self)@.write(offset, v),
            r is Some <==> old(self)@.read(offset) is Some && old(self)@.accepts(offset),
    {
        match self.read(offset) {
            Some(data) => {
                let v = f(data);
                self.write(offset, v)
            },
            None => None,
        }
    }
}

/// No write changes a byte of the ROM of the cartridge, nor the size of a
/// region.
pub proof fn law_write_keeps_the_rom(console: ConsoleView, addr: u16, data: u8)
    ensures
        console.write(addr, data).rom() == console.rom(),
        console.write(addr, data).same_layout(console),
        console.wf() ==> console.write(addr, data).wf(),
{
}

/// What is written through either window of the work RAM is read back
/// through the other: 0xE000-0xFDFF mirrors 0xC000-0xDDFF.
pub proof fn law_echo_round_trip(console: ConsoleView, d: u16, b: u8)
    requires
        console.wf(),
        d <= 0x1DFF,
    ensures
        console.write((0xC000 + d) as u16, b).read((0xE000 + d) as u16) == Some(b),
        console.write((0xE000 + d) as u16, b).read((0xC000 + d) as u16) == Some(b),
        console.write((0xC000 + d) as u16, b) == console.write((0xE000 + d) as u16, b),
{
}

/// Every address belongs to one region: a write changes what is read at the
/// address written and at its mirror, and nowhere else in the memory that
/// the console has of its own.
pub proof fn law_write_is_local(console: ConsoleView, addr: u16, data: u8, other: u16)
    requires
        console.wf(),
        0x8000 <= addr,
        0x8000 <= other,
        !(0xA000 <= addr <= 0xBFFF),
        !(0xA000 <= other <= 0xBFFF),
        other != addr,
        !(0xC000 <= addr <= 0xDDFF && other == addr + 0x2000),
        !(0xE000 <= addr <= 0xFDFF && other == addr - 0x2000),
    ensures
        console.write(addr, data).read(other) == console.read(other),
        console.write(addr, data).wf(),
{
}

} // verus!
