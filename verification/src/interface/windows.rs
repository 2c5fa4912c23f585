//! What the header of a ROM says, as the lines of text that a window shows.

use vstd::prelude::*;
use crate::emu::emulator::{ROM, join, joined};
use crate::text::{decimal_text, hex_text, push_decimal, push_hex};

verus! {

/// What the header of a ROM says, each field as text.
#[derive(Debug)]
pub struct RomMetaDataModel {
    pub title: String,
    pub version: String,
    pub licensee: String,
    pub cart_type: String,
    pub gbs: String,
    pub header_checksum: String,
    pub global_checksum: String,
}

impl RomMetaDataModel {
    /// The fields of a ROM as text: the version in base 10, the features
    /// with plus signs between them, and the checksums in base 16 behind
    /// `0x`.
    pub fn create(rom: &ROM) -> (m: RomMetaDataModel)
        ensures
            m.title@ == rom.title@,
            m.version@ == decimal_text(rom.version_no as nat),
            m.licensee@ == rom.licensee@,
            m.cart_type@ == joined(rom.cart_type@),
            m.gbs@ == (if rom.gbs_compatible { "Available"@ } else { "Unavailable"@ }),
            m.header_checksum@ == "0x"@ + hex_text(rom.header_checksum as nat, 2),
            m.global_checksum@ == "0x"@ + hex_text(rom.global_checksum as nat, 4),
    {
        let mut version = String::new();
        push_decimal(&mut version, rom.version_no as usize);
        assert(version@ =~= decimal_text(rom.version_no as nat));
        let mut header_checksum = String::from_str("0x");
        push_hex(&mut header_checksum, rom.header_checksum as usize, 2);
        let mut global_checksum = String::from_str("0x");
        push_hex(&mut global_checksum, rom.global_checksum as usize, 4);
        RomMetaDataModel {
            title: rom.title.clone(),
            version,
            licensee: rom.licensee.clone(),
            cart_type: join(&rom.cart_type),
            gbs: String::from_str(if rom.gbs_compatible { "Available" } else { "Unavailable" }),
            header_checksum,
            global_checksum,
        }
    }
}

} // verus!
