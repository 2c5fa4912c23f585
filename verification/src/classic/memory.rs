//! Cartridge memory: the ROM, the battery-backed RAM and the memory bank
//! controllers that map both into the windows the CPU can address.

use vstd::prelude::*;
use crate::text::{hex_text, decimal_text, push_hex, push_decimal, push_text};

verus! {

/// Size of one ROM bank, and of each of the two ROM windows.
pub const ROM_BANK_SIZE: usize = 0x4000;

/// The byte at position `i` of `s`, if there is one.
pub open spec fn byte_at(s: Seq<u8>, i: int) -> Option<u8> {
    if 0 <= i < s.len() {
        Some(s[i])
    } else {
        None
    }
}

/// The bytes from `start` up to `end`, if `s` holds them all.
pub open spec fn bytes_between(s: Seq<u8>, start: int, end: int) -> Option<Seq<u8>> {
    if 0 <= start <= end <= s.len() {
        Some(s.subrange(start, end))
    } else {
        None
    }
}

/// `s` with the bytes from `start` on replaced by `data`.
pub open spec fn overwrite(s: Seq<u8>, start: int, data: Seq<u8>) -> Seq<u8> {
    s.subrange(0, start) + data + s.subrange(start + data.len(), s.len() as int)
}

/// What a write of one byte beyond the end of the RAM reports.
pub open spec fn byte_out_of_bounds_text(offset: nat) -> Seq<char> {
    "Could not write data at offset "@ + hex_text(offset, 4) + ": Out of bounds"@
}

/// What a write of several bytes that starts beyond the end of the RAM reports.
pub open spec fn start_out_of_bounds_text(start: nat) -> Seq<char> {
    "Could not write data to cartridge RAM at offset "@ + hex_text(start, 4) + ": Out of bounds"@
}

/// What a write of more bytes than the RAM has left reports.
pub open spec fn too_long_text(given: nat, room: nat) -> Seq<char> {
    "Could not write data to cartridge RAM: source data are longer than target range ("@
        + decimal_text(given) + " > "@ + decimal_text(room) + ")"@
}

/// What a write to a RAM that is switched off reports.
pub open spec fn ram_disabled_text(offset: nat) -> Seq<char> {
    "Could not write data at offset "@ + hex_text(offset, 4) + ": RAM is disabled"@
}

/// Copies the bytes from `start` up to `end` out of a vector.
fn copy_range(v: &Vec<u8>, start: usize, end: usize) -> (r: Vec<u8>)
    requires
        start <= end <= v@.len(),
    ensures
        r@ == v@.subrange(start as int, end as int),
{
    let mut out: Vec<u8> = Vec::new();
    let mut i: usize = start;
    while i < end
        invariant
            start <= i <= end <= v@.len(),
            out@ == v@.subrange(start as int, i as int),
        decreases end - i,
    {
        out.push(v[i]);
        i = i + 1;
        assert(out@ =~= v@.subrange(start as int, i as int));
    }
    out
}

/// The ROM of a cartridge: bytes that can only be read.
pub struct ROM(Vec<u8>);

impl View for ROM {
    type V = Seq<u8>;

    closed spec fn view(&self) -> Seq<u8> {
        self.0@
    }
}

impl ROM {
    /// A ROM of the given bytes.
    pub fn new(contents: Vec<u8>) -> (r: ROM)
        ensures
            r@ == contents@,
    {
        ROM(contents)
    }

    /// The number of bytes.
    pub fn len(&self) -> (n: usize)
        ensures
            n == self@.len(),
    {
        self.0.len()
    }

    /// The byte at `offset`, if there is one.
    pub fn read_byte(&self, offset: usize) -> (r: Option<u8>)
        ensures
            r == byte_at(self@, offset as int),
    {
        if offset < self.0.len() {
            Some(self.0[offset])
        } else {
            None
        }
    }

    /// The bytes from `start` up to `end`, if they are all there.
    pub fn read_bytes(&self, start: usize, end: usize) -> (r: Option<Vec<u8>>)
        ensures
            r is Some == bytes_between(self@, start as int, end as int) is Some,
            r matches Some(v) ==> Some(v@) == bytes_between(self@, start as int, end as int),
    {
        if end > self.0.len() || start > end {
            None
        } else {
            Some(copy_range(&self.0, start, end))
        }
    }
}

/// The RAM of a cartridge.
pub struct RAM(Vec<u8>);

impl View for RAM {
    type V = Seq<u8>;

    closed spec fn view(&self) -> Seq<u8> {
        self.0@
    }
}

impl RAM {
    /// A RAM of `size` bytes, all zero.
    pub fn new(size: usize) -> (r: RAM)
        ensures
            r@.len() == size,
            forall|i: int| 0 <= i < size ==> r@[i] == 0,
    {
        RAM(vec![0u8; size])
    }

    /// The number of bytes.
    pub fn len(&self) -> (n: usize)
        ensures
            n == self@.len(),
    {
        self.0.len()
    }

    /// The byte at `offset`, if there is one.
    pub fn read_byte(&self, offset: usize) -> (r: Option<u8>)
        ensures
            r == byte_at(self@, offset as int),
    {
        if offset < self.0.len() {
            Some(self.0[offset])
        } else {
            None
        }
    }

    /// The bytes from `start` up to `end`, if they are all there.
    pub fn read_bytes(&self, start: usize, end: usize) -> (r: Option<Vec<u8>>)
        ensures
            r is Some == bytes_between(self@, start as int, end as int) is Some,
            r matches Some(v) ==> Some(v@) == bytes_between(self@, start as int, end as int),
    {
        if end > self.0.len() || start > end {
            None
        } else {
            Some(copy_range(&self.0, start, end))
        }
    }

    /// Writes one byte. Fails, and changes nothing, when `offset` is not
    /// inside the RAM.
    pub fn write_byte(&mut self, offset: usize, data: u8) -> (r: Result<usize, String>)
        ensures
            r is Ok <==> offset < old(self)@.len(),
            r matches Ok(n) ==> n == 1 && final(self)@ == old(self)@.update(offset as int, data),
            r matches Err(e) ==> final(self)@ == old(self)@ && e@ == byte_out_of_bounds_text(
                offset as nat,
            ),
    {
        if offset >= self.0.len() {
            Err(byte_out_of_bounds_error(offset))
        } else {
            self.0[offset] = data;
            Ok(1)
        }
    }

    /// Writes `data` from `start` on. Fails, and changes nothing, when
    /// `start` lies beyond the end or when `data` does not fit.
    pub fn write_bytes(&mut self, start: usize, data: &[u8]) -> (r: Result<usize, String>)
        ensures
            r is Ok <==> start + data@.len() <= old(self)@.len(),
            r matches Ok(n) ==> n == data@.len() && final(self)@ == overwrite(
                old(self)@,
                start as int,
                data@,
            ),
            r matches Err(e) ==> final(self)@ == old(self)@ && e@ == (if start > old(self)@.len() {
                start_out_of_bounds_text(start as nat)
            } else {
                too_long_text(data@.len(), (old(self)@.len() - start) as nat)
            }),
    {
        let len = self.0.len();
        if start > len {
            Err(start_out_of_bounds_error(start))
        } else if len - start < data.len() {
            Err(too_long_error(data.len(), len - start))
        } else {
            let n = data.len();
            let mut i: usize = 0;
            while i < n
                invariant
                    n == data@.len(),
                    start + n <= len,
                    len == self.0@.len(),
                    len == old(self)@.len(),
                    i <= n,
                    self.0@ == overwrite(old(self)@, start as int, data@.subrange(0, i as int)),
                decreases n - i,
            {
                self.0[start + i] = data[i];
                i = i + 1;
                assert(self.0@ =~= overwrite(old(self)@, start as int, data@.subrange(0, i as int)));
            }
            assert(data@.subrange(0, n as int) =~= data@);
            Ok(n)
        }
    }
}

/// How an MBC1 reads the two bits written to 0x4000-0x5FFF.
#[derive(Copy, Clone, Debug, PartialEq, Eq)]
pub enum MbcMode {
    RomSelect,
    RamSelect,
}

pub struct MBC1 {
    pub rom: ROM,
    pub ram: RAM,
    pub active_rom_bank: usize,
    pub active_ram_bank: usize,
    pub ram_enabled: bool,
    pub mode: MbcMode,
}

pub struct MBC2 {
    pub rom: ROM,
    pub ram: RAM,
    pub active_rom_bank: usize,
    pub active_ram_bank: usize,
    pub ram_enabled: bool,
}

pub struct MBC3 {
    pub rom: ROM,
    pub ram: RAM,
    pub active_rom_bank: usize,
    pub active_ram_bank: usize,
    pub ram_and_timer_enabled: bool,
    pub rtc_latch: bool,
}

pub struct MBC5 {
    pub rom: ROM,
    pub ram: RAM,
    pub active_rom_bank: usize,
    pub active_ram_bank: usize,
    pub ram_enabled: bool,
}

/// The memory bank controller of a cartridge. It shows the CPU one bank of
/// the ROM at a time and changes bank when the CPU writes into ROM space.
pub enum MBC {
    MBC1(MBC1),
    MBC2(MBC2),
    MBC3(MBC3),
    MBC5(MBC5),
    RomOnly(ROM),
}

/// Which controller a cartridge has.
pub enum MbcKind {
    Mbc1,
    Mbc2,
    Mbc3,
    Mbc5,
    RomOnly,
}

/// A memory bank controller as a plain value. A controller without RAM has
/// an empty `ram`; `mode` counts for an MBC1 only and `rtc_latch` for an MBC3
/// only.
pub struct MbcView {
    pub kind: MbcKind,
    pub rom: Seq<u8>,
    pub ram: Seq<u8>,
    pub rom_bank: usize,
    pub ram_bank: usize,
    pub ram_enabled: bool,
    pub mode: MbcMode,
    pub rtc_latch: bool,
}

/// The RAM switch after `data` is written to the enable register: zero
/// switches the RAM off, a low nibble of 0xA switches it on, anything else
/// leaves it.
pub open spec fn ram_switch(enabled: bool, data: u8) -> bool {
    if data == 0 {
        false
    } else if data & 0x0F == 0x0A {
        true
    } else {
        enabled
    }
}

/// The banks 0x00, 0x20, 0x40 and 0x60 of an MBC1 cannot be selected for the
/// upper window: the bank after each of them is read in its place.
pub open spec fn promoted(bank: usize) -> usize {
    if bank == 0 || bank == 0x20 || bank == 0x40 || bank == 0x60 {
        (bank + 1) as usize
    } else {
        bank
    }
}

impl MbcView {
    /// The bank that the upper ROM window shows.
    pub open spec fn window_bank(self) -> usize {
        match self.kind {
            MbcKind::Mbc1 => promoted(self.rom_bank),
            _ => self.rom_bank,
        }
    }

    /// Where in the ROM the byte at `offset` of ROM space lies.
    pub open spec fn rom_position(self, offset: int) -> int {
        match self.kind {
            MbcKind::RomOnly => offset,
            _ => if offset < 0x4000 {
                offset
            } else {
                self.window_bank() * 0x4000 + (offset - 0x4000)
            },
        }
    }

    /// What a read of ROM space at `offset` gives.
    pub open spec fn read_rom(self, offset: int) -> Option<u8> {
        byte_at(self.rom, self.rom_position(offset))
    }

    /// What a read of the bytes of ROM space from `start` up to `end` gives.
    pub open spec fn read_rom_slice(self, start: int, end: int) -> Option<Seq<u8>> {
        match self.kind {
            MbcKind::RomOnly => bytes_between(self.rom, start, end),
            _ => if start < 0x4000 {
                bytes_between(self.rom, start, end)
            } else {
                bytes_between(
                    self.rom,
                    self.window_bank() * 0x4000 + (start - 0x4000),
                    self.window_bank() * 0x4000 + (end - 0x4000),
                )
            },
        }
    }

    /// The controller after `data` is written to `offset` of ROM space.
    pub open spec fn write_rom(self, offset: int, data: u8) -> MbcView {
        match self.kind {
            MbcKind::Mbc1 => {
                if 0 <= offset <= 0x1FFF {
                    MbcView { ram_enabled: ram_switch(self.ram_enabled, data), ..self }
                } else if 0x2000 <= offset <= 0x3FFF {
                    MbcView {
                        rom_bank: ((data & 0x1F) as usize) | (self.rom_bank & 0x60),
                        ..self
                    }
                } else if 0x4000 <= offset <= 0x5FFF {
                    match self.mode {
                        MbcMode::RamSelect => MbcView { ram_bank: (data & 0x03) as usize, ..self },
                        MbcMode::RomSelect => MbcView {
                            rom_bank: (((data & 0x03) as usize) << 5) | (self.rom_bank & 0x1F),
                            ..self
                        },
                    }
                } else if 0x6000 <= offset <= 0x7FFF {
                    if data == 0 {
                        MbcView { mode: MbcMode::RomSelect, ..self }
                    } else if data == 1 {
                        MbcView { mode: MbcMode::RamSelect, ..self }
                    } else {
                        self
                    }
                } else {
                    self
                }
            },
            MbcKind::Mbc2 => {
                if 0 <= offset <= 0x3FFF {
                    if (offset as usize) & 0x0100 == 0 {
                        MbcView { ram_enabled: ram_switch(self.ram_enabled, data), ..self }
                    } else {
                        MbcView { rom_bank: (data & 0x0F) as usize, ..self }
                    }
                } else {
                    self
                }
            },
            MbcKind::Mbc3 => {
                if 0 <= offset <= 0x1FFF {
                    MbcView { ram_enabled: ram_switch(self.ram_enabled, data), ..self }
                } else if 0x2000 <= offset <= 0x3FFF {
                    MbcView {
                        rom_bank: if data & 0x7F == 0 {
                            1
                        } else {
                            (data & 0x7F) as usize
                        },
                        ..self
                    }
                } else if 0x4000 <= offset <= 0x5FFF {
                    if data <= 0x03 || (0x08 <= data && data <= 0x0C) {
                        MbcView { ram_bank: data as usize, ..self }
                    } else {
                        self
                    }
                } else if 0x6000 <= offset <= 0x7FFF {
                    if data == 0 {
                        MbcView { rtc_latch: false, ..self }
                    } else if data == 1 {
                        MbcView { rtc_latch: true, ..self }
                    } else {
                        self
                    }
                } else {
                    self
                }
            },
            MbcKind::Mbc5 => {
                if 0 <= offset <= 0x1FFF {
                    MbcView { ram_enabled: ram_switch(self.ram_enabled, data), ..self }
                } else if 0x2000 <= offset <= 0x2FFF {
                    MbcView { rom_bank: (data as usize) | (self.rom_bank & 0x0100), ..self }
                } else if 0x3000 <= offset <= 0x3FFF {
                    MbcView {
                        rom_bank: (((data & 0x01) as usize) << 8) | (self.rom_bank & 0x00FF),
                        ..self
                    }
                } else if 0x4000 <= offset <= 0x5FFF {
                    MbcView { ram_bank: (data & 0x0F) as usize, ..self }
                } else {
                    self
                }
            },
            MbcKind::RomOnly => self,
        }
    }

    /// Where in the RAM the window of 0x2000 bytes starts that the CPU sees,
    /// if it sees RAM. An MBC1 shows the bank selected while it is in
    /// RAM-select mode, and bank 0 else; an MBC2 has no banks; an MBC3 shows
    /// the bank selected if that is one of 0 to 3, and no RAM while a
    /// register of its clock is selected; an MBC5 shows the bank selected.
    pub open spec fn ram_base(self) -> Option<int> {
        match self.kind {
            MbcKind::Mbc1 => Some(
                match self.mode {
                    MbcMode::RamSelect => self.ram_bank * 0x2000,
                    MbcMode::RomSelect => 0,
                },
            ),
            MbcKind::Mbc2 => Some(0),
            MbcKind::Mbc3 => if self.ram_bank <= 3 {
                Some(self.ram_bank * 0x2000)
            } else {
                None
            },
            MbcKind::Mbc5 => Some(self.ram_bank * 0x2000),
            MbcKind::RomOnly => None,
        }
    }

    /// Where in the RAM the byte at `offset` of the window lies, if the
    /// window reaches that far and shows RAM.
    pub open spec fn ram_position(self, offset: int) -> Option<int> {
        match self.ram_base() {
            Some(base) => if 0 <= offset < 0x2000 {
                Some(base + offset)
            } else {
                None
            },
            None => None,
        }
    }

    /// What a read of the RAM window at `offset` gives.
    pub open spec fn read_ram(self, offset: int) -> Option<u8> {
        match self.ram_position(offset) {
            Some(at) => byte_at(self.ram, at),
            None => None,
        }
    }

    /// What a read of the bytes of the RAM window from `start` up to `end`
    /// gives.
    pub open spec fn read_ram_slice(self, start: int, end: int) -> Option<Seq<u8>> {
        match self.ram_base() {
            Some(base) => if 0 <= start <= end <= 0x2000 {
                bytes_between(self.ram, base + start, base + end)
            } else {
                None
            },
            None => None,
        }
    }

    /// Whether this controller has a RAM to write to.
    pub open spec fn has_ram(self) -> bool {
        !(self.kind is RomOnly)
    }

    /// Whether a write of one byte to `offset` of the RAM window goes
    /// through.
    pub open spec fn ram_writable(self, offset: int) -> bool {
        self.has_ram() && self.ram_enabled && (self.ram_position(offset) matches Some(at) && at
            < self.ram.len())
    }

    /// What the RAM keeps of a byte written to it. The RAM of an MBC2 is
    /// four bits wide: it keeps the low nibble.
    pub open spec fn stored(self, data: u8) -> u8 {
        if self.kind is Mbc2 {
            data & 0x0F
        } else {
            data
        }
    }

    /// The controller after a write of one byte to its RAM window. A write
    /// that does not go through changes nothing.
    pub open spec fn write_ram(self, offset: int, data: u8) -> MbcView {
        if self.ram_writable(offset) {
            MbcView {
                ram: self.ram.update(self.ram_position(offset)->0, self.stored(data)),
                ..self
            }
        } else {
            self
        }
    }

    /// How many bytes a write from `start` of the RAM window on can take:
    /// as many as the window and the RAM have left.
    pub open spec fn ram_room(self, start: int) -> int {
        match self.ram_base() {
            Some(base) => if 0 <= start <= 0x2000 && base + start <= self.ram.len() {
                if 0x2000 - start <= self.ram.len() - (base + start) {
                    0x2000 - start
                } else {
                    self.ram.len() - (base + start)
                }
            } else {
                -1
            },
            None => -1,
        }
    }

    /// Whether a write of `len` bytes from `start` of the RAM window on
    /// goes through.
    pub open spec fn ram_slice_writable(self, start: int, len: int) -> bool {
        self.has_ram() && self.ram_enabled && 0 <= len <= self.ram_room(start)
    }

    /// The controller after a write of several bytes to its RAM window.
    pub open spec fn write_ram_slice(self, start: int, data: Seq<u8>) -> MbcView {
        if self.ram_slice_writable(start, data.len() as int) {
            MbcView {
                ram: overwrite(
                    self.ram,
                    self.ram_base()->0 + start,
                    Seq::new(data.len(), |i: int| self.stored(data[i])),
                ),
                ..self
            }
        } else {
            self
        }
    }
}

impl View for MBC {
    type V = MbcView;

    open spec fn view(&self) -> MbcView {
        match self {
            MBC::MBC1(m) => MbcView {
                kind: MbcKind::Mbc1,
                rom: m.rom@,
                ram: m.ram@,
                rom_bank: m.active_rom_bank,
                ram_bank: m.active_ram_bank,
                ram_enabled: m.ram_enabled,
                mode: m.mode,
                rtc_latch: false,
            },
            MBC::MBC2(m) => MbcView {
                kind: MbcKind::Mbc2,
                rom: m.rom@,
                ram: m.ram@,
                rom_bank: m.active_rom_bank,
                ram_bank: m.active_ram_bank,
                ram_enabled: m.ram_enabled,
                mode: MbcMode::RomSelect,
                rtc_latch: false,
            },
            MBC::MBC3(m) => MbcView {
                kind: MbcKind::Mbc3,
                rom: m.rom@,
                ram: m.ram@,
                rom_bank: m.active_rom_bank,
                ram_bank: m.active_ram_bank,
                ram_enabled: m.ram_and_timer_enabled,
                mode: MbcMode::RomSelect,
                rtc_latch: m.rtc_latch,
            },
            MBC::MBC5(m) => MbcView {
                kind: MbcKind::Mbc5,
                rom: m.rom@,
                ram: m.ram@,
                rom_bank: m.active_rom_bank,
                ram_bank: m.active_ram_bank,
                ram_enabled: m.ram_enabled,
                mode: MbcMode::RomSelect,
                rtc_latch: false,
            },
            MBC::RomOnly(rom) => MbcView {
                kind: MbcKind::RomOnly,
                rom: rom@,
                ram: Seq::empty(),
                rom_bank: 0,
                ram_bank: 0,
                ram_enabled: false,
                mode: MbcMode::RomSelect,
                rtc_latch: false,
            },
        }
    }
}

/// The RAM switch after a write to the enable register.
fn switch_ram(enabled: bool, data: u8) -> (r: bool)
    ensures
        r == ram_switch(enabled, data),
{
    if data == 0 {
        false
    } else if data & 0x0F == 0x0A {
        true
    } else {
        enabled
    }
}

/// The bank that an MBC1 reads in place of `bank`.
fn promote(bank: usize) -> (r: usize)
    ensures
        r == promoted(bank),
{
    if bank == 0 || bank == 0x20 || bank == 0x40 || bank == 0x60 {
        bank + 1
    } else {
        bank
    }
}

/// The position `bank * 0x4000 + (offset - 0x4000)`, if a `usize` can hold it.
fn window_position(bank: usize, offset: usize) -> (r: Option<usize>)
    requires
        offset >= 0x4000,
    ensures
        r matches Some(p) ==> p == bank * 0x4000 + (offset - 0x4000),
        r is None ==> bank * 0x4000 + (offset - 0x4000) > usize::MAX,
{
    match bank.checked_mul(0x4000) {
        Some(base) => base.checked_add(offset - 0x4000),
        None => None,
    }
}

/// Reads one byte of ROM space through the window of `bank`.
fn read_through_window(rom: &ROM, offset: usize, bank: usize) -> (r: Option<u8>)
    ensures
        r == byte_at(
            rom@,
            if offset < 0x4000 {
                offset as int
            } else {
                bank * 0x4000 + (offset - 0x4000)
            },
        ),
{
    let _ = rom.len();
    if offset < 0x4000 {
        rom.read_byte(offset)
    } else {
        match window_position(bank, offset) {
            Some(p) => rom.read_byte(p),
            None => None,
        }
    }
}

/// Reads a run of bytes of ROM space through the window of `bank`.
fn read_slice_through_window(rom: &ROM, start: usize, end: usize, bank: usize) -> (r: Option<
    Vec<u8>,
>)
    ensures
        r is Some == (if start < 0x4000 {
            bytes_between(rom@, start as int, end as int)
        } else {
            bytes_between(
                rom@,
                bank * 0x4000 + (start - 0x4000),
                bank * 0x4000 + (end - 0x4000),
            )
        }) is Some,
        r matches Some(v) ==> Some(v@) == (if start < 0x4000 {
            bytes_between(rom@, start as int, end as int)
        } else {
            bytes_between(
                rom@,
                bank * 0x4000 + (start - 0x4000),
                bank * 0x4000 + (end - 0x4000),
            )
        }),
{
    let _ = rom.len();
    if start < 0x4000 {
        rom.read_bytes(start, end)
    } else if end < start {
        None
    } else {
        match window_position(bank, start) {
            Some(first) => match window_position(bank, end) {
                Some(last) => rom.read_bytes(first, last),
                None => None,
            },
            None => None,
        }
    }
}

/// The low nibble of each of the given bytes.
fn low_nibbles(data: &[u8]) -> (r: Vec<u8>)
    ensures
        r@ == Seq::new(data@.len(), |i: int| data@[i] & 0x0F),
{
    let mut out: Vec<u8> = Vec::new();
    let mut i: usize = 0;
    while i < data.len()
        invariant
            i <= data@.len(),
            out@ == Seq::new(i as nat, |k: int| data@[k] & 0x0F),
        decreases data@.len() - i,
    {
        out.push(data[i] & 0x0F);
        i = i + 1;
        assert(out@ =~= Seq::new(i as nat, |k: int| data@[k] & 0x0F));
    }
    out
}

/// Builds the message of a write of one byte beyond the RAM.
fn byte_out_of_bounds_error(offset: usize) -> (e: String)
    ensures
        e@ == byte_out_of_bounds_text(offset as nat),
{
    let mut e = String::new();
    push_text(&mut e, "Could not write data at offset ");
    push_hex(&mut e, offset, 4);
    push_text(&mut e, ": Out of bounds");
    assert(e@ =~= byte_out_of_bounds_text(offset as nat));
    e
}

/// Builds the message of a write of several bytes that starts beyond the
/// RAM.
fn start_out_of_bounds_error(start: usize) -> (e: String)
    ensures
        e@ == start_out_of_bounds_text(start as nat),
{
    let mut e = String::new();
    push_text(&mut e, "Could not write data to cartridge RAM at offset ");
    push_hex(&mut e, start, 4);
    push_text(&mut e, ": Out of bounds");
    assert(e@ =~= start_out_of_bounds_text(start as nat));
    e
}

/// Builds the message of a write of more bytes than there is room for.
fn too_long_error(given: usize, room: usize) -> (e: String)
    ensures
        e@ == too_long_text(given as nat, room as nat),
{
    let mut e = String::new();
    push_text(
        &mut e,
        "Could not write data to cartridge RAM: source data are longer than target range (",
    );
    push_decimal(&mut e, given);
    push_text(&mut e, " > ");
    push_decimal(&mut e, room);
    push_text(&mut e, ")");
    assert(e@ =~= too_long_text(given as nat, room as nat));
    e
}

/// Builds the message of a write to a RAM that is switched off.
fn ram_disabled_error(offset: usize) -> (e: String)
    ensures
        e@ == ram_disabled_text(offset as nat),
{
    let mut e = String::new();
    push_text(&mut e, "Could not write data at offset ");
    push_hex(&mut e, offset, 4);
    push_text(&mut e, ": RAM is disabled");
    assert(e@ =~= ram_disabled_text(offset as nat));
    e
}

impl MBC {
    /// Reads one byte of ROM space. Offsets below 0x4000 read bank 0;
    /// offsets from 0x4000 on read the active bank.
    pub fn read_rom(&self, offset: usize) -> (r: Option<u8>)
        ensures
            r == self@.read_rom(offset as int),
    {
        match self {
            MBC::MBC1(mbc) => read_through_window(&mbc.rom, offset, promote(mbc.active_rom_bank)),
            MBC::MBC2(mbc) => read_through_window(&mbc.rom, offset, mbc.active_rom_bank),
            MBC::MBC3(mbc) => read_through_window(&mbc.rom, offset, mbc.active_rom_bank),
            MBC::MBC5(mbc) => read_through_window(&mbc.rom, offset, mbc.active_rom_bank),
            MBC::RomOnly(rom) => rom.read_byte(offset),
        }
    }

    /// Reads the bytes of ROM space from `start` up to `end`.
    pub fn read_rom_slice(&self, start: usize, end: usize) -> (r: Option<Vec<u8>>)
        ensures
            r is Some == self@.read_rom_slice(start as int, end as int) is Some,
            r matches Some(v) ==> Some(v@) == self@.read_rom_slice(start as int, end as int),
    {
        match self {
            MBC::MBC1(mbc) => read_slice_through_window(
                &mbc.rom,
                start,
                end,
                promote(mbc.active_rom_bank),
            ),
            MBC::MBC2(mbc) => read_slice_through_window(&mbc.rom, start, end, mbc.active_rom_bank),
            MBC::MBC3(mbc) => read_slice_through_window(&mbc.rom, start, end, mbc.active_rom_bank),
            MBC::MBC5(mbc) => read_slice_through_window(&mbc.rom, start, end, mbc.active_rom_bank),
            MBC::RomOnly(rom) => rom.read_bytes(start, end),
        }
    }

    /// A write into ROM space. It writes nothing into the ROM: it sets the
    /// registers of the controller.
    pub fn write_rom(&mut self, offset: usize, data: u8)
        ensures
            final(self)@ == old(self)@.write_rom(offset as int, data),
            final(self)@.rom == old(self)@.rom,
            final(self)@.ram == old(self)@.ram,
    {
        match self {
            MBC::MBC1(mbc) => {
                if offset <= 0x1FFF {
                    mbc.ram_enabled = switch_ram(mbc.ram_enabled, data);
                } else if offset <= 0x3FFF {
                    mbc.active_rom_bank = ((data & 0x1F) as usize) | (mbc.active_rom_bank & 0x60);
                } else if offset <= 0x5FFF {
                    match mbc.mode {
                        MbcMode::RamSelect => {
                            mbc.active_ram_bank = (data & 0x03) as usize;
                        },
                        MbcMode::RomSelect => {
                            mbc.active_rom_bank = (((data & 0x03) as usize) << 5) | (
                            mbc.active_rom_bank & 0x1F);
                        },
                    }
                } else if offset <= 0x7FFF {
                    if data == 0 {
                        mbc.mode = MbcMode::RomSelect;
                    } else if data == 1 {
                        mbc.mode = MbcMode::RamSelect;
                    }
                }
            },
            MBC::MBC2(mbc) => {
                if offset <= 0x3FFF {
                    if offset & 0x0100 == 0 {
                        mbc.ram_enabled = switch_ram(mbc.ram_enabled, data);
                    } else {
                        mbc.active_rom_bank = (data & 0x0F) as usize;
                    }
                }
            },
            MBC::MBC3(mbc) => {
                if offset <= 0x1FFF {
                    mbc.ram_and_timer_enabled = switch_ram(mbc.ram_and_timer_enabled, data);
                } else if offset <= 0x3FFF {
                    if data & 0x7F == 0 {
                        mbc.active_rom_bank = 1;
                    } else {
                        mbc.active_rom_bank = (data & 0x7F) as usize;
                    }
                } else if offset <= 0x5FFF {
                    if data <= 0x03 || (0x08 <= data && data <= 0x0C) {
                        mbc.active_ram_bank = data as usize;
                    }
                } else if offset <= 0x7FFF {
                    if data == 0 {
                        mbc.rtc_latch = false;
                    } else if data == 1 {
                        mbc.rtc_latch = true;
                    }
                }
            },
            MBC::MBC5(mbc) => {
                if offset <= 0x1FFF {
                    mbc.ram_enabled = switch_ram(mbc.ram_enabled, data);
                } else if offset <= 0x2FFF {
                    mbc.active_rom_bank = (data as usize) | (mbc.active_rom_bank & 0x0100);
                } else if offset <= 0x3FFF {
                    mbc.active_rom_bank = (((data & 0x01) as usize) << 8) | (mbc.active_rom_bank
                        & 0x00FF);
                } else if offset <= 0x5FFF {
                    mbc.active_ram_bank = (data & 0x0F) as usize;
                }
            },
            MBC::RomOnly(_) => {},
        }
    }

    /// Whether the RAM is switched on.
    fn ram_enabled(&self) -> (r: bool)
        ensures
            r == self@.ram_enabled,
    {
        match self {
            MBC::MBC1(mbc) => mbc.ram_enabled,
            MBC::MBC2(mbc) => mbc.ram_enabled,
            MBC::MBC3(mbc) => mbc.ram_and_timer_enabled,
            MBC::MBC5(mbc) => mbc.ram_enabled,
            MBC::RomOnly(_) => false,
        }
    }

    /// The size of the RAM.
    fn ram_len(&self) -> (n: usize)
        ensures
            n == self@.ram.len(),
    {
        match self {
            MBC::MBC1(mbc) => mbc.ram.len(),
            MBC::MBC2(mbc) => mbc.ram.len(),
            MBC::MBC3(mbc) => mbc.ram.len(),
            MBC::MBC5(mbc) => mbc.ram.len(),
            MBC::RomOnly(_) => 0,
        }
    }

    /// Where in the RAM the window starts, if it shows RAM and the RAM
    /// reaches that far.
    fn window_start(&self) -> (r: Option<usize>)
        ensures
            r matches Some(base) ==> self@.ram_base() == Some(base as int) && base
                <= self@.ram.len(),
            r is None ==> (self@.ram_base() matches Some(base) ==> base > self@.ram.len()),
    {
        let len = self.ram_len();
        let bank = match self {
            MBC::MBC1(mbc) => match mbc.mode {
                MbcMode::RamSelect => mbc.active_ram_bank,
                MbcMode::RomSelect => 0,
            },
            MBC::MBC2(_) => 0,
            MBC::MBC3(mbc) => {
                if mbc.active_ram_bank > 3 {
                    return None;
                }
                mbc.active_ram_bank
            },
            MBC::MBC5(mbc) => mbc.active_ram_bank,
            MBC::RomOnly(_) => {
                return None;
            },
        };
        match bank.checked_mul(0x2000) {
            Some(base) => if base <= len {
                Some(base)
            } else {
                None
            },
            None => None,
        }
    }

    /// Reads one byte of the window of the cartridge RAM.
    pub fn read_ram(&self, offset: usize) -> (r: Option<u8>)
        ensures
            r == self@.read_ram(offset as int),
    {
        if offset >= 0x2000 {
            return None;
        }
        let len = self.ram_len();
        let at = match self.window_start() {
            Some(base) => if len - base > offset {
                base + offset
            } else {
                return None;
            },
            None => {
                return None;
            },
        };
        match self {
            MBC::MBC1(mbc) => mbc.ram.read_byte(at),
            MBC::MBC2(mbc) => mbc.ram.read_byte(at),
            MBC::MBC3(mbc) => mbc.ram.read_byte(at),
            MBC::MBC5(mbc) => mbc.ram.read_byte(at),
            MBC::RomOnly(_) => None,
        }
    }

    /// Reads the bytes of the window of the cartridge RAM from `start` up
    /// to `end`.
    pub fn read_ram_slice(&self, start: usize, end: usize) -> (r: Option<Vec<u8>>)
        ensures
            r is Some == self@.read_ram_slice(start as int, end as int) is Some,
            r matches Some(v) ==> Some(v@) == self@.read_ram_slice(start as int, end as int),
    {
        if start > end || end > 0x2000 {
            return None;
        }
        let len = self.ram_len();
        let base = match self.window_start() {
            Some(base) => if len - base >= end {
                base
            } else {
                return None;
            },
            None => {
                return None;
            },
        };
        match self {
            MBC::MBC1(mbc) => mbc.ram.read_bytes(base + start, base + end),
            MBC::MBC2(mbc) => mbc.ram.read_bytes(base + start, base + end),
            MBC::MBC3(mbc) => mbc.ram.read_bytes(base + start, base + end),
            MBC::MBC5(mbc) => mbc.ram.read_bytes(base + start, base + end),
            MBC::RomOnly(_) => None,
        }
    }

    /// Writes one byte into the window of the cartridge RAM. A cartridge
    /// without a controller has no RAM: nothing is written, which is
    /// reported as `Ok(0)`. Otherwise the write fails, and changes nothing,
    /// when the RAM is switched off or there is no RAM at `offset` of the
    /// window.
    pub fn write_ram(&mut self, offset: usize, data: u8) -> (r: Result<usize, String>)
        ensures
            final(self)@ == old(self)@.write_ram(offset as int, data),
            r is Ok <==> !old(self)@.has_ram() || old(self)@.ram_writable(offset as int),
            r matches Ok(n) ==> n == (if old(self)@.has_ram() { 1usize } else { 0usize }),
            r matches Err(e) ==> e@ == (if !old(self)@.ram_enabled {
                ram_disabled_text(offset as nat)
            } else {
                byte_out_of_bounds_text(offset as nat)
            }),
    {
        if let MBC::RomOnly(_) = self {
            return Ok(0);
        }
        if !self.ram_enabled() {
            return Err(ram_disabled_error(offset));
        }
        let len = self.ram_len();
        let at = match self.window_start() {
            Some(base) => if offset < 0x2000 && len - base > offset {
                base + offset
            } else {
                return Err(byte_out_of_bounds_error(offset));
            },
            None => {
                return Err(byte_out_of_bounds_error(offset));
            },
        };
        match self {
            MBC::MBC1(mbc) => mbc.ram.write_byte(at, data),
            MBC::MBC2(mbc) => mbc.ram.write_byte(at, data & 0x0F),
            MBC::MBC3(mbc) => mbc.ram.write_byte(at, data),
            MBC::MBC5(mbc) => mbc.ram.write_byte(at, data),
            MBC::RomOnly(_) => Ok(0),
        }
    }

    /// Writes several bytes into the window of the cartridge RAM, from
    /// `start` on. Fails, and changes nothing, when the RAM is switched off,
    /// when there is no RAM at `start` of the window, or when the window and
    /// the RAM have fewer bytes left than are given.
    pub fn write_ram_slice(&mut self, start: usize, data: &[u8]) -> (r: Result<usize, String>)
        ensures
            final(self)@ == old(self)@.write_ram_slice(start as int, data@),
            r is Ok <==> !old(self)@.has_ram() || old(self)@.ram_slice_writable(
                start as int,
                data@.len() as int,
            ),
            r matches Ok(n) ==> n == (if old(self)@.has_ram() { data@.len() } else { 0 }),
            r matches Err(e) ==> e@ == (if !old(self)@.ram_enabled {
                ram_disabled_text(start as nat)
            } else if old(self)@.ram_room(start as int) < 0 {
                start_out_of_bounds_text(start as nat)
            } else {
                too_long_text(data@.len(), old(self)@.ram_room(start as int) as nat)
            }),
    {
        if let MBC::RomOnly(_) = self {
            return Ok(0);
        }
        if !self.ram_enabled() {
            return Err(ram_disabled_error(start));
        }
        let len = self.ram_len();
        let base = match self.window_start() {
            Some(base) => if start <= 0x2000 && len - base >= start {
                base
            } else {
                return Err(start_out_of_bounds_error(start));
            },
            None => {
                return Err(start_out_of_bounds_error(start));
            },
        };
        let room = if 0x2000 - start <= len - (base + start) {
            0x2000 - start
        } else {
            len - (base + start)
        };
        if data.len() > room {
            return Err(too_long_error(data.len(), room));
        }
        match self {
            MBC::MBC1(mbc) => {
                assert(data@ =~= Seq::new(data@.len(), |i: int| old(self)@.stored(data@[i])));
                mbc.ram.write_bytes(base + start, data)
            },
            MBC::MBC2(mbc) => {
                let nibbles = low_nibbles(data);
                assert(nibbles@ =~= Seq::new(data@.len(), |i: int| old(self)@.stored(data@[i])));
                mbc.ram.write_bytes(base + start, nibbles.as_slice())
            },
            MBC::MBC3(mbc) => {
                assert(data@ =~= Seq::new(data@.len(), |i: int| old(self)@.stored(data@[i])));
                mbc.ram.write_bytes(base + start, data)
            },
            MBC::MBC5(mbc) => {
                assert(data@ =~= Seq::new(data@.len(), |i: int| old(self)@.stored(data@[i])));
                mbc.ram.write_bytes(base + start, data)
            },
            MBC::RomOnly(_) => Ok(0),
        }
    }
}

/// The controller after a run of writes into ROM space, one after the other.
pub open spec fn after_rom_writes(m: MbcView, writes: Seq<(int, u8)>) -> MbcView
    decreases writes.len(),
{
    if writes.len() == 0 {
        m
    } else {
        after_rom_writes(m, writes.drop_last()).write_rom(writes.last().0, writes.last().1)
    }
}

/// A write into ROM space never changes a byte of the ROM, nor of the RAM,
/// nor the kind of the controller.
pub proof fn law_rom_write_leaves_the_rom(m: MbcView, offset: int, data: u8)
    ensures
        m.write_rom(offset, data).rom == m.rom,
        m.write_rom(offset, data).ram == m.ram,
        m.write_rom(offset, data).kind == m.kind,
{
}

/// However many writes go into ROM space, the ROM is byte for byte what it
/// was before the first of them.
pub proof fn law_rom_writes_leave_the_rom(m: MbcView, writes: Seq<(int, u8)>)
    ensures
        after_rom_writes(m, writes).rom == m.rom,
        after_rom_writes(m, writes).ram == m.ram,
        after_rom_writes(m, writes).kind == m.kind,
    decreases writes.len(),
{
    if writes.len() > 0 {
        law_rom_writes_leave_the_rom(m, writes.drop_last());
        law_rom_write_leaves_the_rom(
            after_rom_writes(m, writes.drop_last()),
            writes.last().0,
            writes.last().1,
        );
    }
}

/// A write into the RAM of the cartridge never changes a byte of the ROM.
pub proof fn law_ram_write_leaves_the_rom(m: MbcView, offset: int, data: u8)
    ensures
        m.write_ram(offset, data).rom == m.rom,
        m.write_ram(offset, data).kind == m.kind,
        m.write_ram(offset, data).ram.len() == m.ram.len(),
{
}

/// The upper window of an MBC1 never shows bank 0x00, 0x20, 0x40 or 0x60:
/// where one of them is selected, the bank after it is read. A read at
/// 0x4000 or above goes to `bank * 0x4000 + (offset - 0x4000)` of the ROM.
pub proof fn law_mbc1_promotes_banks(m: MbcView, offset: int)
    requires
        m.kind is Mbc1,
        0x4000 <= offset,
    ensures
        m.window_bank() != 0x00,
        m.window_bank() != 0x20,
        m.window_bank() != 0x40,
        m.window_bank() != 0x60,
        m.rom_bank == 0x00 || m.rom_bank == 0x20 || m.rom_bank == 0x40 || m.rom_bank == 0x60
            ==> m.window_bank() == m.rom_bank + 1,
        m.read_rom(offset) == byte_at(m.rom, m.window_bank() * 0x4000 + (offset - 0x4000)),
{
}

} // verus!
