use gbars::classic::cartridge::{Cartridge, CartridgeFeature};
use gbars::classic::memory::{MBC, ROM};

const LOGO: [u8; 48] = [
    0xCE, 0xED, 0x66, 0x66, 0xCC, 0x0D, 0x00, 0x0B, 0x03, 0x73, 0x00, 0x83, 0x00, 0x0C, 0x00, 0x0D,
    0x00, 0x08, 0x11, 0x1F, 0x88, 0x89, 0x00, 0x0E, 0xDC, 0xCC, 0x6E, 0xE6, 0xDD, 0xDD, 0xD9, 0x99,
    0xBB, 0xBB, 0x67, 0x63, 0x6E, 0x0E, 0xEC, 0xCC, 0xDD, 0xDC, 0x99, 0x9F, 0xBB, 0xB9, 0x33, 0x3E,
];

/// An image of 1 MiB with the header of the game that the tests name.
fn pokeblue() -> Vec<u8> {
    let mut image = vec![0u8; 1_048_576];
    image[0x104..0x134].copy_from_slice(&LOGO);
    image[0x134..0x134 + 12].copy_from_slice(b"POKEMON BLUE");
    image[0x147] = 0x13;
    image[0x148] = 0x05;
    image[0x149] = 0x03;
    image[0x14A] = 0x01;
    let mut sum = 0u8;
    for i in 0x134..0x14D {
        sum = sum.wrapping_sub(image[i]).wrapping_sub(1);
    }
    image[0x14D] = sum;
    image[0x14E] = 0x9D;
    image[0x14F] = 0x0A;
    image
}

/// The cartridge of the image that a file of the given name would hold.
fn load(path_to_rom: &str) -> Result<Cartridge, String> {
    match path_to_rom {
        "src/test_roms/pokeblue.gbc" => Ok(Cartridge::from_bytes(pokeblue())),
        _ => Err(format!("Could not open file {}", path_to_rom)),
    }
}

#[test]
fn cartridge_loads_and_parses_header_correctly() {
    let cartridge = load("src/test_roms/pokeblue.gbc").unwrap();

    assert_eq!(cartridge.title, "POKEMON BLUE");
    assert_eq!(cartridge.rom_size, 1_048_576);
}

#[test]
fn mod_cartridge_loads_and_parses_header_correctly() {
    let cartridge = load("src/test_roms/pokeblue.gbc").unwrap();

    assert_eq!(cartridge.title, "POKEMON BLUE");
    assert_eq!(cartridge.rom_size, 1_048_576);
}

#[test]
fn cartridge_is_valid() {
    let cartridge = load("src/test_roms/pokeblue.gbc").unwrap();

    cartridge.validate().unwrap();

    assert!(cartridge.is_valid());
}

#[test]
fn mod_cartridge_is_valid() {
    let cartridge = load("src/test_roms/pokeblue.gbc").unwrap();

    cartridge.validate().unwrap();

    assert!(cartridge.is_valid());
}

#[test]
fn header_fields_are_read() {
    let cartridge = Cartridge::from_bytes(pokeblue());
    assert_eq!(
        cartridge.features,
        vec![CartridgeFeature::MBC3, CartridgeFeature::RAM, CartridgeFeature::Battery]
    );
    assert_eq!(cartridge.rom_banks, 64);
    assert_eq!(cartridge.ram_size, 0x8000);
    assert_eq!(cartridge.ram_banks, 4);
    assert_eq!(cartridge.locale, "Non-Japanese");
    assert_eq!(cartridge.global_checksum, 0x9D0A);
    assert!(matches!(cartridge.mbc, MBC::MBC3(_)));
}

#[test]
fn title_skips_zero_bytes() {
    let mut image = pokeblue();
    image[0x134..0x143].copy_from_slice(b"AB\0CD\0\0\0\0\0\0\0\0\0E");
    let cartridge = Cartridge::from_bytes(image);
    assert_eq!(cartridge.title, "ABCDE");
}

#[test]
fn short_image_reads_as_unknown() {
    let cartridge = Cartridge::from_bytes(vec![0x3E, 0x02]);
    assert_eq!(cartridge.title, "");
    assert_eq!(cartridge.features, vec![CartridgeFeature::Unknown]);
    assert_eq!(cartridge.rom_size, 0);
    assert_eq!(cartridge.rom_banks, 0);
    assert_eq!(cartridge.ram_size, 0);
    assert_eq!(cartridge.locale, "Unknown");
    assert_eq!(cartridge.header_checksum, 0);
    assert_eq!(cartridge.global_checksum, 0);
    assert!(matches!(cartridge.mbc, MBC::RomOnly(_)));
    assert_eq!(
        cartridge.validate(),
        Err(String::from(
            "Error validating Nintendo graphic: Could not read the bytes from 0x0104 to 0x0133"
        ))
    );
    assert!(!cartridge.is_valid());
}

#[test]
fn rom_size_codes() {
    let mut image = pokeblue();
    image[0x148] = 0x00;
    let c = Cartridge::from_bytes(image.clone());
    assert_eq!((c.rom_size, c.rom_banks), (0x8000, 1));
    image[0x148] = 0x01;
    let c = Cartridge::from_bytes(image.clone());
    assert_eq!((c.rom_size, c.rom_banks), (0x10000, 4));
    image[0x148] = 0x08;
    let c = Cartridge::from_bytes(image.clone());
    assert_eq!((c.rom_size, c.rom_banks), (0x80_0000, 512));
    image[0x148] = 0x52;
    let c = Cartridge::from_bytes(image.clone());
    assert_eq!((c.rom_size, c.rom_banks), (0x12_0000, 72));
    image[0x148] = 0x53;
    let c = Cartridge::from_bytes(image.clone());
    assert_eq!((c.rom_size, c.rom_banks), (0x14_0000, 80));
    image[0x148] = 0x54;
    let c = Cartridge::from_bytes(image.clone());
    assert_eq!((c.rom_size, c.rom_banks), (0x18_0000, 96));
    image[0x148] = 0x09;
    let c = Cartridge::from_bytes(image);
    assert_eq!((c.rom_size, c.rom_banks), (0, 0));
}

#[test]
fn ram_size_codes() {
    let expected = [(0, 0), (0x800, 1), (0x2000, 1), (0x8000, 4), (0x20000, 16), (0x10000, 8), (0, 0)];
    for (code, want) in expected.iter().enumerate() {
        let mut image = pokeblue();
        image[0x149] = code as u8;
        let c = Cartridge::from_bytes(image);
        assert_eq!((c.ram_size, c.ram_banks), *want);
    }
}

#[test]
fn wrong_logo_is_reported_byte_by_byte() {
    let mut image = pokeblue();
    image[0x104] = 0x00;
    image[0x133] = 0xFF;
    let cartridge = Cartridge::from_bytes(image);
    assert_eq!(
        cartridge.validate(),
        Err(String::from(
            "Error validating Nintendo graphic: The following bytes are incorrect:\n\
             At offset 0x0104: Expected 0xCE; found 0x00\n\
             At offset 0x0133: Expected 0x3E; found 0xFF\n"
        ))
    );
    assert!(!cartridge.is_valid());
}

#[test]
fn wrong_checksum_is_reported() {
    let image = pokeblue();
    let right = image[0x14D];
    let mut cartridge = Cartridge::from_bytes(image);
    cartridge.header_checksum = right.wrapping_add(1);
    assert_eq!(
        cartridge.validate(),
        Err(format!(
            "Invalid header checksum: Expected {}; actual sum is {}",
            right.wrapping_add(1),
            right
        ))
    );
}

#[test]
fn checksum_of_zero_header_counts_the_bytes() {
    let header = vec![0u8; 25];
    assert_eq!(gbars::classic::cartridge::header_sum(&header), 231);
    assert_eq!(gbars::classic::cartridge::header_sum(&vec![1u8, 2, 3]), 247);
    assert_eq!(gbars::classic::cartridge::header_sum(&vec![]), 0);
}

#[test]
fn header_too_short_for_checksum() {
    let mut image = pokeblue();
    image.truncate(0x140);
    let cartridge = Cartridge {
        title: String::new(),
        mbc: MBC::RomOnly(ROM::new(image)),
        features: vec![],
        rom_size: 0,
        rom_banks: 0,
        ram_size: 0,
        ram_banks: 0,
        locale: String::new(),
        header_checksum: 0,
        global_checksum: 0,
    };
    assert_eq!(
        cartridge.validate(),
        Err(String::from("Invalid header checksum: Could not read the bytes from 0x0134 to 0x014C"))
    );
}

#[test]
fn a_fresh_cartridge_shows_its_first_ram_bank() {
    let mut cartridge = Cartridge::from_bytes(pokeblue());
    match &cartridge.mbc {
        MBC::MBC3(m) => {
            assert_eq!(m.active_rom_bank, 1);
            assert_eq!(m.active_ram_bank, 0);
            assert!(!m.ram_and_timer_enabled);
            assert_eq!(m.ram.len(), 0x8000);
        },
        _ => unreachable!(),
    }
    assert_eq!(cartridge.mbc.read_ram(0x1FFF), Some(0));
    cartridge.mbc.write_rom(0x0000, 0x0A);
    assert_eq!(cartridge.mbc.write_ram(0x0000, 0x42), Ok(1));
    cartridge.mbc.write_rom(0x4000, 0x01);
    assert_eq!(cartridge.mbc.read_ram(0x0000), Some(0));
    cartridge.mbc.write_rom(0x4000, 0x00);
    assert_eq!(cartridge.mbc.read_ram(0x0000), Some(0x42));
}
