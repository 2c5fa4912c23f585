//! A cartridge: what its header says of it, and the memory bank controller
//! through which its ROM and RAM are read.

use vstd::prelude::*;
use super::memory::{MBC, MBC1, MBC2, MBC3, MBC5, MbcKind, MbcMode, MbcView, ROM, RAM, byte_at};
use super::utils::wrap8;
use crate::text::{hex_text, decimal_text, push_hex, push_decimal, push_text};

verus! {

/// Where the logo starts in the ROM.
pub const LOGO_START: usize = 0x0104;

/// Where the title starts in the ROM, which is where the logo ends.
pub const TITLE_START: usize = 0x0134;

/// Where the title ends in the ROM.
pub const TITLE_END: usize = 0x0143;

/// Where the header checksum lies in the ROM, which is where the bytes that
/// it sums up end.
pub const HEADER_CHECKSUM_AT: usize = 0x014D;

/// The size of the RAM that an MBC2 has built in.
pub const MBC2_RAM_SIZE: usize = 512;

/// Everything a cartridge can have.
#[derive(Copy, Clone, Debug, PartialEq, Eq)]
pub enum CartridgeFeature {
    Unknown,
    ROM,
    RAM,
    MBC1,
    MBC2,
    MBC3,
    MBC5,
    MBC6,
    MBC7,
    MMM01,
    Battery,
    Timer,
    Rumble,
    Sensor,
    PocketCamera,
    BandaiTama5,
    HuC1,
    HuC3,
}

/// A cartridge and what its header says of it.
pub struct Cartridge {
    pub title: String,
    pub mbc: MBC,
    pub features: Vec<CartridgeFeature>,
    pub rom_size: usize,
    pub rom_banks: usize,
    pub ram_size: usize,
    pub ram_banks: usize,
    pub locale: String,
    pub header_checksum: u8,
    pub global_checksum: u16,
}

/// A cartridge as a plain value.
pub struct CartridgeView {
    pub title: Seq<char>,
    pub mbc: MbcView,
    pub features: Seq<CartridgeFeature>,
    pub rom_size: usize,
    pub rom_banks: usize,
    pub ram_size: usize,
    pub ram_banks: usize,
    pub locale: Seq<char>,
    pub header_checksum: u8,
    pub global_checksum: u16,
}

impl View for Cartridge {
    type V = CartridgeView;

    open spec fn view(&self) -> CartridgeView {
        CartridgeView {
            title: self.title@,
            mbc: self.mbc@,
            features: self.features@,
            rom_size: self.rom_size,
            rom_banks: self.rom_banks,
            ram_size: self.ram_size,
            ram_banks: self.ram_banks,
            locale: self.locale@,
            header_checksum: self.header_checksum,
            global_checksum: self.global_checksum,
        }
    }
}

/// The 48 bytes of the logo that every cartridge carries at 0x0104.
pub open spec fn logo() -> Seq<u8> {
    seq![
        0xCEu8, 0xED, 0x66, 0x66, 0xCC, 0x0D, 0x00, 0x0B,
        0x03, 0x73, 0x00, 0x83, 0x00, 0x0C, 0x00, 0x0D,
        0x00, 0x08, 0x11, 0x1F, 0x88, 0x89, 0x00, 0x0E,
        0xDC, 0xCC, 0x6E, 0xE6, 0xDD, 0xDD, 0xD9, 0x99,
        0xBB, 0xBB, 0x67, 0x63, 0x6E, 0x0E, 0xEC, 0xCC,
        0xDD, 0xDC, 0x99, 0x9F, 0xBB, 0xB9, 0x33, 0x3E,
    ]
}

/// The title: the bytes at 0x0134 up to `upto` that are in the ROM and are
/// not zero, in their order, each as a character.
pub open spec fn title_upto(rom: Seq<u8>, upto: int) -> Seq<char>
    decreases upto,
{
    if upto <= 0x0134 {
        Seq::empty()
    } else {
        let before = title_upto(rom, upto - 1);
        match byte_at(rom, upto - 1) {
            Some(b) => if b != 0 {
                before.push(b as char)
            } else {
                before
            },
            None => before,
        }
    }
}

/// The title that the header gives.
pub open spec fn title_of(rom: Seq<u8>) -> Seq<char> {
    title_upto(rom, 0x0143)
}

/// The features that the byte at 0x0147 stands for.
pub open spec fn features_of(code: Option<u8>) -> Seq<CartridgeFeature> {
    match code {
        Some(0x00) => seq![CartridgeFeature::ROM],
        Some(0x01) => seq![CartridgeFeature::MBC1],
        Some(0x02) => seq![CartridgeFeature::MBC1, CartridgeFeature::RAM],
        Some(0x03) => seq![CartridgeFeature::MBC1, CartridgeFeature::RAM, CartridgeFeature::Battery],
        Some(0x05) => seq![CartridgeFeature::MBC2],
        Some(0x06) => seq![CartridgeFeature::MBC2, CartridgeFeature::Battery],
        Some(0x08) => seq![CartridgeFeature::ROM, CartridgeFeature::RAM],
        Some(0x09) => seq![CartridgeFeature::ROM, CartridgeFeature::RAM, CartridgeFeature::Battery],
        Some(0x0B) => seq![CartridgeFeature::MMM01],
        Some(0x0C) => seq![CartridgeFeature::MMM01, CartridgeFeature::RAM],
        Some(0x0D) => seq![
            CartridgeFeature::MMM01,
            CartridgeFeature::RAM,
            CartridgeFeature::Battery,
        ],
        Some(0x0F) => seq![
            CartridgeFeature::MBC3,
            CartridgeFeature::Battery,
            CartridgeFeature::Timer,
        ],
        Some(0x10) => seq![
            CartridgeFeature::MBC3,
            CartridgeFeature::Battery,
            CartridgeFeature::Timer,
            CartridgeFeature::RAM,
        ],
        Some(0x11) => seq![CartridgeFeature::MBC3],
        Some(0x12) => seq![CartridgeFeature::MBC3, CartridgeFeature::RAM],
        Some(0x13) => seq![CartridgeFeature::MBC3, CartridgeFeature::RAM, CartridgeFeature::Battery],
        Some(0x19) => seq![CartridgeFeature::MBC5],
        Some(0x1A) => seq![CartridgeFeature::MBC5, CartridgeFeature::RAM],
        Some(0x1B) => seq![CartridgeFeature::MBC5, CartridgeFeature::RAM, CartridgeFeature::Battery],
        Some(0x1C) => seq![CartridgeFeature::MBC5, CartridgeFeature::Rumble],
        Some(0x1D) => seq![CartridgeFeature::MBC5, CartridgeFeature::Rumble, CartridgeFeature::RAM],
        Some(0x1E) => seq![
            CartridgeFeature::MBC5,
            CartridgeFeature::Rumble,
            CartridgeFeature::RAM,
            CartridgeFeature::Battery,
        ],
        Some(0x20) => seq![CartridgeFeature::MBC6],
        Some(0x22) => seq![
            CartridgeFeature::MBC7,
            CartridgeFeature::Sensor,
            CartridgeFeature::Rumble,
            CartridgeFeature::RAM,
            CartridgeFeature::Battery,
        ],
        Some(0xFC) => seq![CartridgeFeature::PocketCamera],
        Some(0xFD) => seq![CartridgeFeature::BandaiTama5],
        Some(0xFE) => seq![CartridgeFeature::HuC3],
        Some(0xFF) => seq![CartridgeFeature::HuC1, CartridgeFeature::RAM, CartridgeFeature::Battery],
        _ => seq![CartridgeFeature::Unknown],
    }
}

/// The controller that the byte at 0x0147 stands for: the one that is
/// among its features, if any.
pub open spec fn controller_of(code: Option<u8>) -> MbcKind {
    match code {
        Some(c) => if 0x01 <= c <= 0x03 {
            MbcKind::Mbc1
        } else if 0x05 <= c <= 0x06 {
            MbcKind::Mbc2
        } else if 0x0F <= c <= 0x13 {
            MbcKind::Mbc3
        } else if 0x19 <= c <= 0x1E {
            MbcKind::Mbc5
        } else {
            MbcKind::RomOnly
        },
        None => MbcKind::RomOnly,
    }
}

/// The size of the ROM in bytes and in banks that the byte at 0x0148 stands
/// for.
pub open spec fn rom_size_of(code: Option<u8>) -> (usize, usize) {
    match code {
        Some(c) => if c == 0x00 {
            (0x8000, 1)
        } else if 0x01 <= c <= 0x08 {
            (0x8000usize << c, 2usize << c)
        } else if c == 0x52 {
            (0x12_0000, 72)
        } else if c == 0x53 {
            (0x14_0000, 80)
        } else if c == 0x54 {
            (0x18_0000, 96)
        } else {
            (0, 0)
        },
        None => (0, 0),
    }
}

/// The size of the RAM in bytes and in banks that the byte at 0x0149 stands
/// for.
pub open spec fn ram_size_of(code: Option<u8>) -> (usize, usize) {
    match code {
        Some(0x01) => (0x800, 1),
        Some(0x02) => (0x2000, 1),
        Some(0x03) => (0x8000, 4),
        Some(0x04) => (0x2_0000, 16),
        Some(0x05) => (0x1_0000, 8),
        _ => (0, 0),
    }
}

/// The market that the byte at 0x014A stands for.
pub open spec fn locale_of(code: Option<u8>) -> Seq<char> {
    match code {
        Some(0) => "Japanese"@,
        Some(1) => "Non-Japanese"@,
        _ => "Unknown"@,
    }
}

/// A byte of the header, or zero where the ROM ends before it.
pub open spec fn byte_or_zero(rom: Seq<u8>, i: int) -> u8 {
    match byte_at(rom, i) {
        Some(b) => b,
        None => 0,
    }
}

/// The controller of a cartridge fresh from its image: ROM bank 1 and RAM
/// bank 0 in the windows, the RAM all zero and switched off.
pub open spec fn fresh_controller(rom: Seq<u8>) -> MbcView {
    let kind = controller_of(byte_at(rom, 0x0147));
    match kind {
        MbcKind::RomOnly => MbcView {
            kind,
            rom,
            ram: Seq::empty(),
            rom_bank: 0,
            ram_bank: 0,
            ram_enabled: false,
            mode: MbcMode::RomSelect,
            rtc_latch: false,
        },
        _ => MbcView {
            kind,
            rom,
            ram: Seq::new(
                if kind is Mbc2 {
                    512nat
                } else {
                    ram_size_of(byte_at(rom, 0x0149)).0 as nat
                },
                |i: int| 0u8,
            ),
            rom_bank: 1,
            ram_bank: 0,
            ram_enabled: false,
            mode: MbcMode::RomSelect,
            rtc_latch: false,
        },
    }
}

/// The cartridge that an image makes.
pub open spec fn parsed(rom: Seq<u8>) -> CartridgeView {
    CartridgeView {
        title: title_of(rom),
        mbc: fresh_controller(rom),
        features: features_of(byte_at(rom, 0x0147)),
        rom_size: rom_size_of(byte_at(rom, 0x0148)).0,
        rom_banks: rom_size_of(byte_at(rom, 0x0148)).1,
        ram_size: ram_size_of(byte_at(rom, 0x0149)).0,
        ram_banks: ram_size_of(byte_at(rom, 0x0149)).1,
        locale: locale_of(byte_at(rom, 0x014A)),
        header_checksum: byte_or_zero(rom, 0x014D),
        global_checksum: ((byte_or_zero(rom, 0x014E) as u16) << 8) | (byte_or_zero(rom, 0x014F) as u16),
    }
}

/// The checksum of the first `n` of the given bytes: starting from zero,
/// each byte is subtracted and then one more, modulo 256.
pub open spec fn checksum_upto(bytes: Seq<u8>, n: int) -> u8
    decreases n,
{
    if n <= 0 {
        0
    } else {
        wrap8(checksum_upto(bytes, n - 1) - bytes[n - 1] - 1)
    }
}

/// The checksum of the header bytes.
pub open spec fn checksum_of(bytes: Seq<u8>) -> u8 {
    checksum_upto(bytes, bytes.len() as int)
}

/// One line of the report on the logo: the offset of a byte that differs,
/// the byte that belongs there and the byte that is there.
pub open spec fn mismatch_line(i: int, expected: u8, actual: u8) -> Seq<char> {
    "At offset 0x"@ + hex_text((0x0104 + i) as nat, 4) + ": Expected 0x"@ + hex_text(
        expected as nat,
        2,
    ) + "; found 0x"@ + hex_text(actual as nat, 2) + "\n"@
}

/// The lines of the report for the first `n` bytes of the logo.
pub open spec fn mismatch_lines(found: Seq<u8>, n: int) -> Seq<char>
    decreases n,
{
    if n <= 0 {
        Seq::empty()
    } else if found[n - 1] != logo()[n - 1] {
        mismatch_lines(found, n - 1) + mismatch_line(n - 1, logo()[n - 1], found[n - 1])
    } else {
        mismatch_lines(found, n - 1)
    }
}

/// How many of the first `n` bytes differ from the logo.
pub open spec fn mismatch_count(found: Seq<u8>, n: int) -> nat
    decreases n,
{
    if n <= 0 {
        0
    } else if found[n - 1] != logo()[n - 1] {
        mismatch_count(found, n - 1) + 1
    } else {
        mismatch_count(found, n - 1)
    }
}

/// The heading of the report on the logo.
pub open spec fn logo_heading() -> Seq<char> {
    "Error validating Nintendo graphic: The following bytes are incorrect:\n"@
}

/// What is reported when the ROM ends before the logo does.
pub open spec fn logo_missing_text() -> Seq<char> {
    "Error validating Nintendo graphic: Could not read the bytes from 0x0104 to 0x0133"@
}

/// What is reported when the ROM ends before the header does.
pub open spec fn header_missing_text() -> Seq<char> {
    "Invalid header checksum: Could not read the bytes from 0x0134 to 0x014C"@
}

/// What is reported when the header checksum is not the sum of the header.
pub open spec fn checksum_text(expected: u8, actual: u8) -> Seq<char> {
    "Invalid header checksum: Expected "@ + decimal_text(expected as nat) + "; actual sum is "@
        + decimal_text(actual as nat)
}

/// Why a header is not valid, if it is not, given the bytes read at
/// 0x0104-0x0133, the bytes read at 0x0134-0x014C, and the header checksum.
/// The logo is looked at first: every byte of it that differs is reported.
/// The header checksum is looked at only when the logo is right.
pub open spec fn fault_in(found: Option<Seq<u8>>, header: Option<Seq<u8>>, expected: u8) -> Option<
    Seq<char>,
> {
    match found {
        None => Some(logo_missing_text()),
        Some(found) => if mismatch_count(found, 48) > 0 {
            Some(logo_heading() + mismatch_lines(found, 48))
        } else {
            match header {
                None => Some(header_missing_text()),
                Some(header) => if checksum_of(header) != expected {
                    Some(checksum_text(expected, checksum_of(header)))
                } else {
                    None
                },
            }
        },
    }
}

impl CartridgeView {
    /// Why the cartridge is not valid, if it is not.
    pub open spec fn fault(self) -> Option<Seq<char>> {
        fault_in(
            self.mbc.read_rom_slice(0x0104, 0x0134),
            self.mbc.read_rom_slice(0x0134, 0x014D),
            self.header_checksum,
        )
    }
}

/// A cartridge is free of faults exactly when its ROM holds the logo at
/// 0x0104 and the checksum of the bytes from 0x0134 to 0x014C is the header
/// checksum.
pub proof fn law_valid_means_logo_and_checksum(c: CartridgeView)
    ensures
        c.fault() is None <==> (c.mbc.read_rom_slice(0x0104, 0x0134) == Some(logo()) && (
        c.mbc.read_rom_slice(0x0134, 0x014D) matches Some(header) && checksum_of(header)
            == c.header_checksum)),
{
    match c.mbc.read_rom_slice(0x0104, 0x0134) {
        None => {},
        Some(found) => {
            lemma_mismatch_count(found, 48);
            if mismatch_count(found, 48) == 0 {
                assert(found =~= logo());
            }
        },
    }
}

/// No byte is counted exactly when the bytes are those of the logo.
proof fn lemma_mismatch_count(found: Seq<u8>, n: int)
    requires
        0 <= n <= 48,
    ensures
        mismatch_count(found, n) == 0 <==> (forall|i: int| 0 <= i < n ==> found[i] == logo()[i]),
    decreases n,
{
    if n > 0 {
        lemma_mismatch_count(found, n - 1);
    }
}

/// The logo.
pub fn logo_bytes() -> (r: [u8; 48])
    ensures
        r@ == logo(),
{
    let r: [u8; 48] = [
        0xCE, 0xED, 0x66, 0x66, 0xCC, 0x0D, 0x00, 0x0B,
        0x03, 0x73, 0x00, 0x83, 0x00, 0x0C, 0x00, 0x0D,
        0x00, 0x08, 0x11, 0x1F, 0x88, 0x89, 0x00, 0x0E,
        0xDC, 0xCC, 0x6E, 0xE6, 0xDD, 0xDD, 0xD9, 0x99,
        0xBB, 0xBB, 0x67, 0x63, 0x6E, 0x0E, 0xEC, 0xCC,
        0xDD, 0xDC, 0x99, 0x9F, 0xBB, 0xB9, 0x33, 0x3E,
    ];
    assert(r@ =~= logo());
    r
}

/// The byte at `i`, if the image holds one.
pub fn image_byte(contents: &Vec<u8>, i: usize) -> (r: Option<u8>)
    ensures
        r == byte_at(contents@, i as int),
{
    if i < contents.len() {
        Some(contents[i])
    } else {
        None
    }
}

/// Reads the title out of an image.
pub fn read_title(contents: &Vec<u8>) -> (t: String)
    ensures
        t@ == title_of(contents@),
{
    let mut t = String::new();
    let mut i: usize = 0x0134;
    while i < 0x0143
        invariant
            0x0134 <= i <= 0x0143,
            t@ == title_upto(contents@, i as int),
        decreases 0x0143 - i,
    {
        match image_byte(contents, i) {
            Some(b) => {
                if b != 0 {
                    t.push(b as char);
                }
            },
            None => {},
        }
        i = i + 1;
    }
    t
}

/// The features for a feature code.
pub fn read_features(code: Option<u8>) -> (v: Vec<CartridgeFeature>)
    ensures
        v@ == features_of(code),
{
    let v = match code {
        Some(0x00) => vec![CartridgeFeature::ROM],
        Some(0x01) => vec![CartridgeFeature::MBC1],
        Some(0x02) => vec![CartridgeFeature::MBC1, CartridgeFeature::RAM],
        Some(0x03) => vec![CartridgeFeature::MBC1, CartridgeFeature::RAM, CartridgeFeature::Battery],
        Some(0x05) => vec![CartridgeFeature::MBC2],
        Some(0x06) => vec![CartridgeFeature::MBC2, CartridgeFeature::Battery],
        Some(0x08) => vec![CartridgeFeature::ROM, CartridgeFeature::RAM],
        Some(0x09) => vec![CartridgeFeature::ROM, CartridgeFeature::RAM, CartridgeFeature::Battery],
        Some(0x0B) => vec![CartridgeFeature::MMM01],
        Some(0x0C) => vec![CartridgeFeature::MMM01, CartridgeFeature::RAM],
        Some(0x0D) => vec![
            CartridgeFeature::MMM01,
            CartridgeFeature::RAM,
            CartridgeFeature::Battery,
        ],
        Some(0x0F) => vec![
            CartridgeFeature::MBC3,
            CartridgeFeature::Battery,
            CartridgeFeature::Timer,
        ],
        Some(0x10) => vec![
            CartridgeFeature::MBC3,
            CartridgeFeature::Battery,
            CartridgeFeature::Timer,
            CartridgeFeature::RAM,
        ],
        Some(0x11) => vec![CartridgeFeature::MBC3],
        Some(0x12) => vec![CartridgeFeature::MBC3, CartridgeFeature::RAM],
        Some(0x13) => vec![CartridgeFeature::MBC3, CartridgeFeature::RAM, CartridgeFeature::Battery],
        Some(0x19) => vec![CartridgeFeature::MBC5],
        Some(0x1A) => vec![CartridgeFeature::MBC5, CartridgeFeature::RAM],
        Some(0x1B) => vec![CartridgeFeature::MBC5, CartridgeFeature::RAM, CartridgeFeature::Battery],
        Some(0x1C) => vec![CartridgeFeature::MBC5, CartridgeFeature::Rumble],
        Some(0x1D) => vec![CartridgeFeature::MBC5, CartridgeFeature::Rumble, CartridgeFeature::RAM],
        Some(0x1E) => vec![
            CartridgeFeature::MBC5,
            CartridgeFeature::Rumble,
            CartridgeFeature::RAM,
            CartridgeFeature::Battery,
        ],
        Some(0x20) => vec![CartridgeFeature::MBC6],
        Some(0x22) => vec![
            CartridgeFeature::MBC7,
            CartridgeFeature::Sensor,
            CartridgeFeature::Rumble,
            CartridgeFeature::RAM,
            CartridgeFeature::Battery,
        ],
        Some(0xFC) => vec![CartridgeFeature::PocketCamera],
        Some(0xFD) => vec![CartridgeFeature::BandaiTama5],
        Some(0xFE) => vec![CartridgeFeature::HuC3],
        Some(0xFF) => vec![CartridgeFeature::HuC1, CartridgeFeature::RAM, CartridgeFeature::Battery],
        _ => vec![CartridgeFeature::Unknown],
    };
    assert(v@ =~= features_of(code));
    v
}

/// The controller for a feature code.
fn read_controller(code: Option<u8>) -> (k: MbcKind)
    ensures
        k == controller_of(code),
{
    match code {
        Some(c) => {
            if 0x01 <= c && c <= 0x03 {
                MbcKind::Mbc1
            } else if 0x05 <= c && c <= 0x06 {
                MbcKind::Mbc2
            } else if 0x0F <= c && c <= 0x13 {
                MbcKind::Mbc3
            } else if 0x19 <= c && c <= 0x1E {
                MbcKind::Mbc5
            } else {
                MbcKind::RomOnly
            }
        },
        None => MbcKind::RomOnly,
    }
}

/// The ROM size for a size code.
pub fn read_rom_size(code: Option<u8>) -> (r: (usize, usize))
    ensures
        r == rom_size_of(code),
{
    match code {
        Some(c) => {
            if c == 0x00 {
                (0x8000, 1)
            } else if 0x01 <= c && c <= 0x08 {
                (0x8000usize << c, 2usize << c)
            } else if c == 0x52 {
                (0x12_0000, 72)
            } else if c == 0x53 {
                (0x14_0000, 80)
            } else if c == 0x54 {
                (0x18_0000, 96)
            } else {
                (0, 0)
            }
        },
        None => (0, 0),
    }
}

/// The RAM size for a size code.
pub fn read_ram_size(code: Option<u8>) -> (r: (usize, usize))
    ensures
        r == ram_size_of(code),
{
    match code {
        Some(0x01) => (0x800, 1),
        Some(0x02) => (0x2000, 1),
        Some(0x03) => (0x8000, 4),
        Some(0x04) => (0x2_0000, 16),
        Some(0x05) => (0x1_0000, 8),
        _ => (0, 0),
    }
}

/// The market for a destination code.
pub fn read_locale(code: Option<u8>) -> (s: String)
    ensures
        s@ == locale_of(code),
{
    match code {
        Some(0) => String::from_str("Japanese"),
        Some(1) => String::from_str("Non-Japanese"),
        _ => String::from_str("Unknown"),
    }
}

/// A byte of the image, or zero where the image ends before it.
pub fn image_byte_or_zero(contents: &Vec<u8>, i: usize) -> (r: u8)
    ensures
        r == byte_or_zero(contents@, i as int),
{
    match image_byte(contents, i) {
        Some(b) => b,
        None => 0,
    }
}

/// The checksum of the given header bytes.
pub fn header_sum(bytes: &Vec<u8>) -> (sum: u8)
    ensures
        sum == checksum_of(bytes@),
{
    let mut sum: u8 = 0;
    let mut i: usize = 0;
    while i < bytes.len()
        invariant
            i <= bytes@.len(),
            sum == checksum_upto(bytes@, i as int),
        decreases bytes@.len() - i,
    {
        sum = sum.wrapping_sub(bytes[i]).wrapping_sub(1);
        i = i + 1;
    }
    sum
}

/// Checks the logo and the header checksum, given the bytes read at
/// 0x0104-0x0133 and at 0x0134-0x014C.
pub fn check_header(found: Option<Vec<u8>>, header: Option<Vec<u8>>, expected: u8) -> (r: Result<
    (),
    String,
>)
    requires
        found matches Some(f) ==> f@.len() == 48,
    ensures
        r is Ok <==> fault_in(
            match found {
                Some(f) => Some(f@),
                None => None,
            },
            match header {
                Some(h) => Some(h@),
                None => None,
            },
            expected,
        ) is None,
        r matches Err(e) ==> Some(e@) == fault_in(
            match found {
                Some(f) => Some(f@),
                None => None,
            },
            match header {
                Some(h) => Some(h@),
                None => None,
            },
            expected,
        ),
{
    let found = match found {
        Some(found) => found,
        None => {
            return Err(
                String::from_str(
                    "Error validating Nintendo graphic: Could not read the bytes from 0x0104 to 0x0133",
                ),
            );
        },
    };
    let expected_logo = logo_bytes();
    let mut report = String::from_str(
        "Error validating Nintendo graphic: The following bytes are incorrect:\n",
    );
    let mut count: usize = 0;
    let mut i: usize = 0;
    while i < 48
        invariant
            i <= 48,
            found@.len() == 48,
            expected_logo@ == logo(),
            count == mismatch_count(found@, i as int),
            count <= i,
            report@ == logo_heading() + mismatch_lines(found@, i as int),
        decreases 48 - i,
    {
        if found[i] != expected_logo[i] {
            let ghost before = report@;
            push_text(&mut report, "At offset 0x");
            push_hex(&mut report, LOGO_START + i, 4);
            push_text(&mut report, ": Expected 0x");
            push_hex(&mut report, expected_logo[i] as usize, 2);
            push_text(&mut report, "; found 0x");
            push_hex(&mut report, found[i] as usize, 2);
            push_text(&mut report, "\n");
            assert(report@ =~= before + mismatch_line(
                i as int,
                expected_logo@[i as int],
                found@[i as int],
            ));
            count = count + 1;
        }
        i = i + 1;
        assert(report@ =~= logo_heading() + mismatch_lines(found@, i as int));
    }
    if count > 0 {
        return Err(report);
    }
    let header = match header {
        Some(header) => header,
        None => {
            return Err(
                String::from_str(
                    "Invalid header checksum: Could not read the bytes from 0x0134 to 0x014C",
                ),
            );
        },
    };
    let checksum = header_sum(&header);
    if checksum != expected {
        let mut e = String::from_str("Invalid header checksum: Expected ");
        push_decimal(&mut e, expected as usize);
        push_text(&mut e, "; actual sum is ");
        push_decimal(&mut e, checksum as usize);
        assert(e@ =~= checksum_text(expected, checksum));
        return Err(e);
    }
    Ok(())
}

impl Cartridge {
    /// Reads a cartridge out of its image. No image is refused: where the
    /// image ends before a field of the header, the field reads as unknown
    /// or zero.
    pub fn from_bytes(contents: Vec<u8>) -> (cartridge: Cartridge)
        ensures
            cartridge@ == parsed(contents@),
    {
        let title = read_title(&contents);
        let feature_code = image_byte(&contents, 0x0147);
        let features = read_features(feature_code);
        let (rom_size, rom_banks) = read_rom_size(image_byte(&contents, 0x0148));
        let (ram_size, ram_banks) = read_ram_size(image_byte(&contents, 0x0149));
        let locale = read_locale(image_byte(&contents, 0x014A));
        let header_checksum = image_byte_or_zero(&contents, 0x014D);
        let upper = image_byte_or_zero(&contents, 0x014E);
        let lower = image_byte_or_zero(&contents, 0x014F);
        let global_checksum = ((upper as u16) << 8) | (lower as u16);
        let ghost image = contents@;
        let mbc = match read_controller(feature_code) {
            MbcKind::Mbc1 => {
                let ram = RAM::new(ram_size);
                assert(ram@ =~= Seq::new(ram_size as nat, |i: int| 0u8));
                MBC::MBC1(
                    MBC1 {
                        rom: ROM::new(contents),
                        ram,
                        active_rom_bank: 1,
                        active_ram_bank: 0,
                        ram_enabled: false,
                        mode: MbcMode::RomSelect,
                    },
                )
            },
            MbcKind::Mbc2 => {
                let ram = RAM::new(MBC2_RAM_SIZE);
                assert(ram@ =~= Seq::new(512nat, |i: int| 0u8));
                MBC::MBC2(
                    MBC2 {
                        rom: ROM::new(contents),
                        ram,
                        active_rom_bank: 1,
                        active_ram_bank: 0,
                        ram_enabled: false,
                    },
                )
            },
            MbcKind::Mbc3 => {
                let ram = RAM::new(ram_size);
                assert(ram@ =~= Seq::new(ram_size as nat, |i: int| 0u8));
                MBC::MBC3(
                    MBC3 {
                        rom: ROM::new(contents),
                        ram,
                        active_rom_bank: 1,
                        active_ram_bank: 0,
                        ram_and_timer_enabled: false,
                        rtc_latch: false,
                    },
                )
            },
            MbcKind::Mbc5 => {
                let ram = RAM::new(ram_size);
                assert(ram@ =~= Seq::new(ram_size as nat, |i: int| 0u8));
                MBC::MBC5(
                    MBC5 {
                        rom: ROM::new(contents),
                        ram,
                        active_rom_bank: 1,
                        active_ram_bank: 0,
                        ram_enabled: false,
                    },
                )
            },
            MbcKind::RomOnly => MBC::RomOnly(ROM::new(contents)),
        };
        assert(mbc@ == fresh_controller(image));
        Cartridge {
            title,
            mbc,
            features,
            rom_size,
            rom_banks,
            ram_size,
            ram_banks,
            locale,
            header_checksum,
            global_checksum,
        }
    }

    /// Checks the two things that the console checks before it runs a
    /// cartridge: the logo at 0x0104 and the header checksum. The reason
    /// comes back when one of them is wrong.
    pub fn validate(&self) -> (r: Result<(), String>)
        ensures
            r is Ok <==> self@.fault() is None,
            r matches Err(e) ==> Some(e@) == self@.fault(),
    {
        check_header(
            self.mbc.read_rom_slice(LOGO_START, TITLE_START),
            self.mbc.read_rom_slice(TITLE_START, HEADER_CHECKSUM_AT),
            self.header_checksum,
        )
    }

    /// Whether `validate` finds nothing wrong.
    pub fn is_valid(&self) -> (r: bool)
        ensures
            r == (self@.fault() is None),
    {
        self.validate().is_ok()
    }

    /// Reads one byte of ROM space through the controller.
    pub fn read_rom(&self, offset: usize) -> (r: Option<u8>)
        ensures
            r == self@.mbc.read_rom(offset as int),
    {
        self.mbc.read_rom(offset)
    }
}

} // verus!
