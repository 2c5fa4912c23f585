use gbars::classic::console::Console;
use gbars::classic::cartridge::Cartridge;
use gbars::classic::instruction::{Arg, Instruction};
use gbars::classic::memory::{MbcMode, MBC, MBC1, MBC2, MBC3, MBC5, RAM, ROM};
use gbars::text::{push_decimal, push_hex, push_text};

/// A ROM of `banks` banks in which every byte of bank `n` is `n`, but for
/// byte 0 of each bank, which is `0xB0 + n`.
fn banked_rom(banks: usize) -> Vec<u8> {
    let mut rom = vec![0u8; banks * 0x4000];
    for bank in 0..banks {
        for i in 0..0x4000 {
            rom[bank * 0x4000 + i] = bank as u8;
        }
        rom[bank * 0x4000] = 0xB0u8.wrapping_add(bank as u8);
    }
    rom
}

fn mbc1(banks: usize) -> MBC {
    MBC::MBC1(MBC1 {
        rom: ROM::new(banked_rom(banks)),
        ram: RAM::new(0x2000),
        active_rom_bank: 1,
        active_ram_bank: 0,
        ram_enabled: false,
        mode: MbcMode::RomSelect,
    })
}

fn rom_bank(mbc: &MBC) -> usize {
    match mbc {
        MBC::MBC1(m) => m.active_rom_bank,
        MBC::MBC2(m) => m.active_rom_bank,
        MBC::MBC3(m) => m.active_rom_bank,
        MBC::MBC5(m) => m.active_rom_bank,
        MBC::RomOnly(_) => 0,
    }
}

fn ram_bank(mbc: &MBC) -> usize {
    match mbc {
        MBC::MBC1(m) => m.active_ram_bank,
        MBC::MBC2(m) => m.active_ram_bank,
        MBC::MBC3(m) => m.active_ram_bank,
        MBC::MBC5(m) => m.active_ram_bank,
        MBC::RomOnly(_) => 0,
    }
}

fn ram_on(mbc: &MBC) -> bool {
    match mbc {
        MBC::MBC1(m) => m.ram_enabled,
        MBC::MBC2(m) => m.ram_enabled,
        MBC::MBC3(m) => m.ram_and_timer_enabled,
        MBC::MBC5(m) => m.ram_enabled,
        MBC::RomOnly(_) => false,
    }
}

#[test]
fn rom_reads() {
    let rom = ROM::new(vec![1, 2, 3, 4]);
    assert_eq!(rom.len(), 4);
    assert_eq!(rom.read_byte(0), Some(1));
    assert_eq!(rom.read_byte(3), Some(4));
    assert_eq!(rom.read_byte(4), None);
    assert_eq!(rom.read_bytes(1, 3), Some(vec![2, 3]));
    assert_eq!(rom.read_bytes(0, 4), Some(vec![1, 2, 3, 4]));
    assert_eq!(rom.read_bytes(2, 2), Some(vec![]));
    assert_eq!(rom.read_bytes(3, 2), None);
    assert_eq!(rom.read_bytes(0, 5), None);
}

#[test]
fn ram_reads_and_writes() {
    let mut ram = RAM::new(4);
    assert_eq!(ram.len(), 4);
    assert_eq!(ram.read_bytes(0, 4), Some(vec![0, 0, 0, 0]));
    assert_eq!(ram.write_byte(2, 0xAB), Ok(1));
    assert_eq!(ram.read_byte(2), Some(0xAB));
    assert_eq!(ram.read_byte(4), None);
    assert_eq!(
        ram.write_byte(4, 1),
        Err(String::from("Could not write data at offset 0004: Out of bounds"))
    );
    assert_eq!(
        ram.write_byte(0x1ABCD, 1),
        Err(String::from("Could not write data at offset 1ABCD: Out of bounds"))
    );
    assert_eq!(ram.write_bytes(1, &[7, 8, 9]), Ok(3));
    assert_eq!(ram.read_bytes(0, 4), Some(vec![0, 7, 8, 9]));
    assert_eq!(ram.write_bytes(4, &[]), Ok(0));
    assert_eq!(
        ram.write_bytes(5, &[1]),
        Err(String::from("Could not write data to cartridge RAM at offset 0005: Out of bounds"))
    );
    assert_eq!(
        ram.write_bytes(2, &[1, 2, 3]),
        Err(String::from(
            "Could not write data to cartridge RAM: source data are longer than target range (3 > 2)"
        ))
    );
    assert_eq!(ram.read_bytes(0, 4), Some(vec![0, 7, 8, 9]));
    assert_eq!(ram.read_bytes(3, 1), None);
}

#[test]
fn mbc1_bank_promotion() {
    let mut mbc = mbc1(4);
    mbc.write_rom(0x2000, 0x00);
    assert_eq!(rom_bank(&mbc), 0);
    assert_eq!(mbc.read_rom(0x4000), Some(0xB1));
    assert_eq!(mbc.read_rom(0x4001), Some(0x01));
    assert_eq!(mbc.read_rom(0x0000), Some(0xB0));
    assert_eq!(mbc.read_rom(0x3FFF), Some(0x00));
}

#[test]
fn mbc1_promotes_every_forbidden_bank() {
    let mut mbc = mbc1(0x62);
    // bits 5-6
    for (upper, bank) in [(1u8, 0x21u8), (2, 0x41), (3, 0x61)] {
        mbc.write_rom(0x2000, 0x00);
        mbc.write_rom(0x4000, upper);
        assert_eq!(rom_bank(&mbc), (upper as usize) << 5);
        assert_eq!(mbc.read_rom(0x4001), Some(bank));
        assert_eq!(mbc.read_rom(0x4000), Some(0xB0u8.wrapping_add(bank)));
    }
}

#[test]
fn mbc1_selects_banks() {
    let mut mbc = mbc1(0x40);
    mbc.write_rom(0x2000, 0x03);
    assert_eq!(rom_bank(&mbc), 3);
    assert_eq!(mbc.read_rom(0x4000), Some(0xB3));
    assert_eq!(mbc.read_rom(0x7FFF), Some(0x03));
    assert_eq!(mbc.read_rom(0x8000), Some(0xB4));
    mbc.write_rom(0x3FFF, 0xFF);
    assert_eq!(rom_bank(&mbc), 0x1F);
    mbc.write_rom(0x4000, 0x01);
    assert_eq!(rom_bank(&mbc), 0x3F);
    assert_eq!(mbc.read_rom(0x4005), Some(0x3F));
    mbc.write_rom(0x2000, 0x02);
    assert_eq!(rom_bank(&mbc), 0x22);
    // RAM-select mode: the two bits go to the RAM bank
    mbc.write_rom(0x6000, 0x01);
    mbc.write_rom(0x5FFF, 0x07);
    assert_eq!(ram_bank(&mbc), 3);
    assert_eq!(rom_bank(&mbc), 0x22);
    mbc.write_rom(0x6000, 0x02);
    mbc.write_rom(0x4000, 0x02);
    assert_eq!(ram_bank(&mbc), 2);
    mbc.write_rom(0x7FFF, 0x00);
    mbc.write_rom(0x4000, 0x00);
    assert_eq!(rom_bank(&mbc), 0x02);
    assert_eq!(ram_bank(&mbc), 2);
    // beyond ROM space nothing happens
    mbc.write_rom(0x8000, 0x1F);
    assert_eq!(rom_bank(&mbc), 0x02);
    // beyond the ROM nothing is read
    mbc.write_rom(0x2000, 0x1F);
    mbc.write_rom(0x4000, 0x03);
    assert_eq!(rom_bank(&mbc), 0x7F);
    assert_eq!(mbc.read_rom(0x4000), None);
}

#[test]
fn ram_enable_register() {
    let mut mbc = mbc1(2);
    assert!(!ram_on(&mbc));
    mbc.write_rom(0x0000, 0x0A);
    assert!(ram_on(&mbc));
    mbc.write_rom(0x1FFF, 0x05);
    assert!(ram_on(&mbc));
    mbc.write_rom(0x1000, 0x00);
    assert!(!ram_on(&mbc));
    mbc.write_rom(0x1000, 0xFA);
    assert!(ram_on(&mbc));
}

#[test]
fn rom_write_leaves_the_rom() {
    let image = banked_rom(4);
    let mut mbc = mbc1(4);
    for offset in (0..0x8000).step_by(0x101) {
        mbc.write_rom(offset, (offset & 0xFF) as u8);
    }
    match &mbc {
        MBC::MBC1(m) => assert_eq!(m.rom.read_bytes(0, image.len()), Some(image)),
        _ => unreachable!(),
    }
}

#[test]
fn cartridge_ram_writes() {
    let mut mbc = mbc1(2);
    assert_eq!(
        mbc.write_ram(0x0010, 0x55),
        Err(String::from("Could not write data at offset 0010: RAM is disabled"))
    );
    assert_eq!(mbc.read_ram(0x0010), Some(0x00));
    mbc.write_rom(0x0000, 0x0A);
    assert_eq!(mbc.write_ram(0x0010, 0x55), Ok(1));
    assert_eq!(mbc.read_ram(0x0010), Some(0x55));
    assert_eq!(
        mbc.write_ram(0x2000, 0x55),
        Err(String::from("Could not write data at offset 2000: Out of bounds"))
    );
    assert_eq!(mbc.read_ram(0x2000), None);
    assert_eq!(mbc.write_ram_slice(0x1FFE, &[1, 2]), Ok(2));
    assert_eq!(mbc.read_ram_slice(0x1FFE, 0x2000), Some(vec![1, 2]));
    assert_eq!(
        mbc.write_ram_slice(0x1FFF, &[1, 2]),
        Err(String::from(
            "Could not write data to cartridge RAM: source data are longer than target range (2 > 1)"
        ))
    );
    assert_eq!(
        mbc.write_ram_slice(0x2001, &[1]),
        Err(String::from("Could not write data to cartridge RAM at offset 2001: Out of bounds"))
    );
    mbc.write_rom(0x0000, 0x00);
    assert_eq!(
        mbc.write_ram_slice(0, &[1]),
        Err(String::from("Could not write data at offset 0000: RAM is disabled"))
    );
    assert_eq!(mbc.read_ram_slice(0, 0x2001), None);
}

#[test]
fn rom_only_has_no_ram_and_no_registers() {
    let mut mbc = MBC::RomOnly(ROM::new(banked_rom(3)));
    mbc.write_rom(0x2000, 0x02);
    assert_eq!(mbc.read_rom(0x4000), Some(0xB1));
    assert_eq!(mbc.read_rom(0x8000), Some(0xB2));
    assert_eq!(mbc.read_rom(0xC000), None);
    assert_eq!(mbc.read_rom_slice(0x3FFF, 0x4002), Some(vec![0x00, 0xB1, 0x01]));
    assert_eq!(mbc.read_ram(0), None);
    assert_eq!(mbc.read_ram_slice(0, 1), None);
    assert_eq!(mbc.read_ram_slice(0, 0), None);
    assert_eq!(mbc.write_ram(0, 1), Ok(0));
    assert_eq!(mbc.write_ram_slice(0, &[1, 2]), Ok(0));
}

#[test]
fn rom_slices_go_through_the_window() {
    let mut mbc = mbc1(4);
    mbc.write_rom(0x2000, 0x02);
    assert_eq!(mbc.read_rom_slice(0x0000, 0x0003), Some(vec![0xB0, 0x00, 0x00]));
    assert_eq!(mbc.read_rom_slice(0x4000, 0x4003), Some(vec![0xB2, 0x02, 0x02]));
    assert_eq!(mbc.read_rom_slice(0x4003, 0x4000), None);
    mbc.write_rom(0x2000, 0x00);
    assert_eq!(mbc.read_rom_slice(0x4000, 0x4002), Some(vec![0xB1, 0x01]));
    mbc.write_rom(0x2000, 0x04);
    assert_eq!(mbc.read_rom_slice(0x4000, 0x4002), None);
}

#[test]
fn mbc2_decodes_bit_eight() {
    let mut mbc = MBC::MBC2(MBC2 {
        rom: ROM::new(banked_rom(16)),
        ram: RAM::new(512),
        active_rom_bank: 1,
        active_ram_bank: 0,
        ram_enabled: false,
    });
    mbc.write_rom(0x0000, 0x0A);
    assert!(ram_on(&mbc));
    assert_eq!(rom_bank(&mbc), 1);
    mbc.write_rom(0x0100, 0x3C);
    assert_eq!(rom_bank(&mbc), 0x0C);
    assert!(ram_on(&mbc));
    assert_eq!(mbc.read_rom(0x4000), Some(0xBC));
    mbc.write_rom(0x2100, 0x05);
    assert_eq!(rom_bank(&mbc), 0x05);
    mbc.write_rom(0x3EFF, 0x00);
    assert!(!ram_on(&mbc));
    mbc.write_rom(0x4100, 0x07);
    assert_eq!(rom_bank(&mbc), 0x05);
    // the RAM is four bits wide
    mbc.write_rom(0x0000, 0x0A);
    assert_eq!(mbc.write_ram(0x01FF, 0xAB), Ok(1));
    assert_eq!(mbc.read_ram(0x01FF), Some(0x0B));
    assert_eq!(mbc.write_ram_slice(0, &[0x12, 0xF4]), Ok(2));
    assert_eq!(mbc.read_ram_slice(0, 2), Some(vec![0x02, 0x04]));
    assert!(mbc.write_ram(0x0200, 0x01).is_err());
}

#[test]
fn mbc3_registers() {
    let mut mbc = MBC::MBC3(MBC3 {
        rom: ROM::new(banked_rom(0x80)),
        ram: RAM::new(0x2000),
        active_rom_bank: 1,
        active_ram_bank: 0,
        ram_and_timer_enabled: false,
        rtc_latch: false,
    });
    mbc.write_rom(0x0000, 0x0A);
    assert!(ram_on(&mbc));
    mbc.write_rom(0x2000, 0x80);
    assert_eq!(rom_bank(&mbc), 1);
    mbc.write_rom(0x2000, 0xFF);
    assert_eq!(rom_bank(&mbc), 0x7F);
    assert_eq!(mbc.read_rom(0x4001), Some(0x7F));
    mbc.write_rom(0x2000, 0x20);
    assert_eq!(rom_bank(&mbc), 0x20);
    assert_eq!(mbc.read_rom(0x4001), Some(0x20));
    mbc.write_rom(0x4000, 0x03);
    assert_eq!(ram_bank(&mbc), 3);
    mbc.write_rom(0x4000, 0x04);
    assert_eq!(ram_bank(&mbc), 3);
    mbc.write_rom(0x4000, 0x08);
    assert_eq!(ram_bank(&mbc), 8);
    mbc.write_rom(0x4000, 0x0C);
    assert_eq!(ram_bank(&mbc), 0x0C);
    mbc.write_rom(0x4000, 0x0D);
    assert_eq!(ram_bank(&mbc), 0x0C);
    mbc.write_rom(0x6000, 0x01);
    assert!(matches!(&mbc, MBC::MBC3(m) if m.rtc_latch));
    mbc.write_rom(0x6000, 0x02);
    assert!(matches!(&mbc, MBC::MBC3(m) if m.rtc_latch));
    mbc.write_rom(0x7FFF, 0x00);
    assert!(matches!(&mbc, MBC::MBC3(m) if !m.rtc_latch));
}

#[test]
fn mbc5_registers() {
    let mut mbc = MBC::MBC5(MBC5 {
        rom: ROM::new(banked_rom(4)),
        ram: RAM::new(0x2000),
        active_rom_bank: 1,
        active_ram_bank: 0,
        ram_enabled: false,
    });
    mbc.write_rom(0x1FFF, 0x0A);
    assert!(ram_on(&mbc));
    mbc.write_rom(0x2000, 0x00);
    assert_eq!(rom_bank(&mbc), 0);
    assert_eq!(mbc.read_rom(0x4000), Some(0xB0));
    mbc.write_rom(0x2FFF, 0xAB);
    assert_eq!(rom_bank(&mbc), 0xAB);
    mbc.write_rom(0x3000, 0xFF);
    assert_eq!(rom_bank(&mbc), 0x1AB);
    mbc.write_rom(0x2000, 0x02);
    assert_eq!(rom_bank(&mbc), 0x102);
    mbc.write_rom(0x3FFF, 0xFE);
    assert_eq!(rom_bank(&mbc), 0x002);
    assert_eq!(mbc.read_rom(0x4000), Some(0xB2));
    mbc.write_rom(0x4000, 0xFF);
    assert_eq!(ram_bank(&mbc), 0x0F);
    mbc.write_rom(0x6000, 0x01);
    assert_eq!((rom_bank(&mbc), ram_bank(&mbc)), (0x002, 0x0F));
}

#[test]
fn huge_bank_reads_nothing() {
    let mbc = MBC::MBC5(MBC5 {
        rom: ROM::new(banked_rom(2)),
        ram: RAM::new(0),
        active_rom_bank: usize::MAX,
        active_ram_bank: 0,
        ram_enabled: false,
    });
    assert_eq!(mbc.read_rom(0x4000), None);
    assert_eq!(mbc.read_rom(0x0000), Some(0xB0));
    assert_eq!(mbc.read_rom_slice(0x4000, 0x4001), None);
}

fn console_with(mbc: MBC) -> Console {
    Console::start(Some(Cartridge {
        title: String::new(),
        mbc,
        features: vec![],
        rom_size: 0,
        rom_banks: 0,
        ram_size: 0,
        ram_banks: 0,
        locale: String::new(),
        header_checksum: 0,
        global_checksum: 0,
    }))
}

#[test]
fn every_region_takes_its_addresses() {
    let mut console = console_with(mbc1(4));
    assert_eq!(console.chr_ram.len(), 0x1800);
    assert_eq!(console.bg_data.len(), 0x0800);
    assert_eq!(console.wram.len(), 0x2000);
    assert_eq!(console.oam.len(), 0x00A0);
    assert_eq!(console.hardware.len(), 0x0080);
    assert_eq!(console.hi_ram.len(), 0x007F);
    for (addr, byte) in [
        (0x8000u16, 1u8),
        (0x97FF, 2),
        (0x9800, 3),
        (0x9FFF, 4),
        (0xC000, 5),
        (0xDFFF, 6),
        (0xFE00, 7),
        (0xFE9F, 8),
        (0xFF00, 9),
        (0xFF7F, 10),
        (0xFF80, 11),
        (0xFFFE, 12),
    ] {
        assert_eq!(console.read(addr), Some(0));
        assert_eq!(console.write(addr, byte), Some(()));
        assert_eq!(console.read(addr), Some(byte));
    }
    assert_eq!(console.chr_ram[0], 1);
    assert_eq!(console.chr_ram[0x17FF], 2);
    assert_eq!(console.bg_data[0], 3);
    assert_eq!(console.bg_data[0x7FF], 4);
    assert_eq!(console.wram[0], 5);
    assert_eq!(console.wram[0x1FFF], 6);
    assert_eq!(console.oam[0], 7);
    assert_eq!(console.oam[0x9F], 8);
    assert_eq!(console.hardware[0], 9);
    assert_eq!(console.hardware[0x7F], 10);
    assert_eq!(console.hi_ram[0], 11);
    assert_eq!(console.hi_ram[0x7E], 12);
}

#[test]
fn echo_mirrors_work_ram() {
    let mut console = Console::start(None);
    for d in [0x0000u16, 0x0001, 0x1234, 0x1DFF] {
        assert_eq!(console.write(0xC000 + d, 0xA0 | (d as u8 & 0x0F)), Some(()));
        assert_eq!(console.read(0xE000 + d), Some(0xA0 | (d as u8 & 0x0F)));
        assert_eq!(console.write(0xE000 + d, 0x50 | (d as u8 & 0x0F)), Some(()));
        assert_eq!(console.read(0xC000 + d), Some(0x50 | (d as u8 & 0x0F)));
    }
    // the last 0x200 bytes of work RAM have no mirror
    assert_eq!(console.write(0xDE00, 0x77), Some(()));
    assert_eq!(console.read(0xFE00), Some(0x00));
}

#[test]
fn prohibited_region_is_absent() {
    let mut console = Console::start(None);
    for addr in [0xFEA0u16, 0xFEC3, 0xFEFF] {
        assert_eq!(console.read(addr), None);
        assert_eq!(console.write(addr, 0x12), None);
        assert_eq!(console.read(addr), None);
    }
}

#[test]
fn interrupt_enable_is_one_bit() {
    let mut console = Console::start(None);
    assert_eq!(console.read(0xFFFF), Some(0));
    assert_eq!(console.write(0xFFFF, 0x1F), Some(()));
    assert!(console.ie);
    assert_eq!(console.read(0xFFFF), Some(1));
    assert_eq!(console.write(0xFFFF, 0x00), Some(()));
    assert_eq!(console.read(0xFFFF), Some(0));
}

#[test]
fn no_cartridge_no_rom() {
    let mut console = Console::start(None);
    assert_eq!(console.read(0x0000), None);
    assert_eq!(console.read(0x7FFF), None);
    assert_eq!(console.read(0xA000), None);
    assert_eq!(console.write(0x2000, 1), None);
    assert_eq!(console.write(0xA000, 1), None);
}

#[test]
fn rom_space_writes_reach_the_controller() {
    let mut console = console_with(mbc1(4));
    assert_eq!(console.read(0x4000), Some(0xB1));
    assert_eq!(console.write(0x2000, 0x02), Some(()));
    assert_eq!(console.read(0x4000), Some(0xB2));
    assert_eq!(console.read(0x0000), Some(0xB0));
    assert_eq!(console.write(0x2000, 0x00), Some(()));
    assert_eq!(console.read(0x4000), Some(0xB1));
    // cartridge RAM
    assert_eq!(console.write(0xA000, 0x99), None);
    assert_eq!(console.read(0xA000), Some(0x00));
    assert_eq!(console.write(0x0000, 0x0A), Some(()));
    assert_eq!(console.write(0xA000, 0x99), Some(()));
    assert_eq!(console.read(0xA000), Some(0x99));
    assert_eq!(console.write(0xBFFF, 0x98), Some(()));
    assert_eq!(console.read(0xBFFF), Some(0x98));
}

#[test]
fn alter_rewrites_a_byte() {
    let mut console = Console::start(None);
    console.write(0xC010, 0x0F);
    assert_eq!(console.alter(0xC010, |b: u8| b.wrapping_add(1)), Some(()));
    assert_eq!(console.read(0xC010), Some(0x10));
    assert_eq!(console.alter(0xFEA0, |b: u8| b.wrapping_add(1)), None);
    assert_eq!(console.alter(0x0000, |b: u8| b), None);
    assert_eq!(console.alter(0xFFFF, |_b: u8| 0x80), Some(()));
    assert_eq!(console.read(0xFFFF), Some(1));
}

#[test]
fn instruction_table() {
    let nop = Instruction::from_opcode(0x00);
    assert_eq!((nop.opcode, nop.prefixed, nop.mnemonic.as_str()), (0x00, false, "nop"));
    assert_eq!(nop.arg, Arg::Nothing);
    assert_eq!(nop.cycles, (4, 4));
    let ld = Instruction::from_opcode(0x01);
    assert_eq!(ld.mnemonic, "ld BC, <d16>");
    assert_eq!(ld.arg, Arg::Data16(0));
    assert_eq!(ld.cycles, (12, 12));
    let jr = Instruction::from_opcode(0x28);
    assert_eq!(jr.mnemonic, "jr z, <r8>");
    assert_eq!(jr.arg, Arg::Offset8(0));
    assert_eq!(jr.cycles, (8, 12));
    let call = Instruction::from_opcode(0xC4);
    assert_eq!(call.arg, Arg::Addr16(0));
    assert_eq!(call.cycles, (12, 24));
    let ret = Instruction::from_opcode(0xC8);
    assert_eq!(ret.cycles, (8, 20));
    let ldh = Instruction::from_opcode(0xE0);
    assert_eq!(ldh.arg, Arg::Addr8(0));
    assert_eq!(ldh.cycles, (12, 12));
    let add = Instruction::from_opcode(0xC6);
    assert_eq!(add.arg, Arg::Data8(0));
    assert_eq!(add.mnemonic, "add A, <d8>");
    let last = Instruction::from_opcode(0xFF);
    assert_eq!(last.mnemonic, "rst $38");
    assert_eq!(last.cycles, (16, 16));
    let copy = last.clone();
    assert_eq!((copy.opcode, copy.mnemonic, copy.arg, copy.cycles), (0xFF, last.mnemonic, last.arg, last.cycles));
}

#[test]
fn conditional_instructions_cost_more_when_taken() {
    for opcode in 0u8..=255 {
        let i = Instruction::from_opcode(opcode);
        assert_eq!(i.opcode, opcode);
        assert!(!i.prefixed);
        let conditional = matches!(
            opcode,
            0x20 | 0x28 | 0x30 | 0x38 | 0xC0 | 0xC8 | 0xD0 | 0xD8 | 0xC2 | 0xCA | 0xD2 | 0xDA | 0xC4
                | 0xCC | 0xD4 | 0xDC
        );
        if conditional {
            assert!(i.cycles.1 > i.cycles.0);
        } else {
            assert_eq!(i.cycles.0, i.cycles.1);
        }
    }
}

#[test]
fn undefined_opcodes_have_the_sentinel() {
    for opcode in [0xD3u8, 0xDB, 0xDD, 0xE3, 0xE4, 0xEB, 0xEC, 0xED, 0xF4, 0xFC, 0xFD] {
        let i = Instruction::from_opcode(opcode);
        assert_eq!(i.opcode, opcode);
        assert_eq!(i.mnemonic, "");
        assert_eq!(i.arg, Arg::Nothing);
        assert_eq!(i.cycles, (0, 0));
    }
    let none = Instruction::none(0x42);
    assert_eq!((none.opcode, none.prefixed, none.cycles), (0x42, false, (0, 0)));
}

#[test]
fn prefixed_instructions_cost_eight() {
    let i = Instruction::prefixed(0x37, "swap A");
    assert_eq!((i.opcode, i.prefixed, i.mnemonic.as_str()), (0x37, true, "swap A"));
    assert_eq!(i.arg, Arg::Nothing);
    assert_eq!(i.cycles, (8, 8));
    assert_eq!(Arg::d8(), Arg::Data8(0));
    assert_eq!(Arg::d16(), Arg::Data16(0));
    assert_eq!(Arg::a8(), Arg::Addr8(0));
    assert_eq!(Arg::a16(), Arg::Addr16(0));
    assert_eq!(Arg::r8(), Arg::Offset8(0));
}

#[test]
fn numbers_as_text() {
    let mut s = String::from("x");
    push_hex(&mut s, 0x104, 4);
    assert_eq!(s, format!("x{:04X}", 0x104));
    push_hex(&mut s, 0xABCDE, 4);
    assert_eq!(s, "x0104ABCDE");
    let mut s = String::new();
    push_hex(&mut s, 0, 2);
    push_hex(&mut s, 0, 0);
    push_hex(&mut s, 0xF, 1);
    push_hex(&mut s, usize::MAX, 3);
    assert_eq!(s, format!("000F{:X}", usize::MAX));
    let mut s = String::new();
    push_decimal(&mut s, 0);
    push_text(&mut s, ",");
    push_decimal(&mut s, 9);
    push_text(&mut s, ",");
    push_decimal(&mut s, 10);
    push_text(&mut s, ",");
    push_decimal(&mut s, 255);
    push_text(&mut s, ",");
    push_decimal(&mut s, usize::MAX);
    assert_eq!(s, format!("0,9,10,255,{}", usize::MAX));
}

#[test]
fn mbc1_shows_the_ram_bank_selected_in_ram_mode() {
    let mut mbc = MBC::MBC1(MBC1 {
        rom: ROM::new(banked_rom(4)),
        ram: RAM::new(0x8000),
        active_rom_bank: 1,
        active_ram_bank: 0,
        ram_enabled: false,
        mode: MbcMode::RomSelect,
    });
    mbc.write_rom(0x0000, 0x0A);
    assert_eq!(mbc.write_ram(0x0005, 0x11), Ok(1));
    mbc.write_rom(0x6000, 0x01);
    mbc.write_rom(0x4000, 0x02);
    assert_eq!(ram_bank(&mbc), 2);
    assert_eq!(mbc.read_ram(0x0005), Some(0x00));
    assert_eq!(mbc.write_ram(0x0005, 0x22), Ok(1));
    assert_eq!(mbc.read_ram(0x0005), Some(0x22));
    match &mbc {
        MBC::MBC1(m) => {
            assert_eq!(m.ram.read_byte(0x0005), Some(0x11));
            assert_eq!(m.ram.read_byte(0x4005), Some(0x22));
        },
        _ => unreachable!(),
    }
    assert_eq!(mbc.write_ram_slice(0x1FFE, &[7, 8]), Ok(2));
    assert_eq!(mbc.read_ram_slice(0x1FFE, 0x2000), Some(vec![7, 8]));
    assert_eq!(
        mbc.write_ram_slice(0x1FFE, &[7, 8, 9]),
        Err(String::from(
            "Could not write data to cartridge RAM: source data are longer than target range (3 > 2)"
        ))
    );
    // back in ROM-select mode the window shows bank 0 again
    mbc.write_rom(0x6000, 0x00);
    assert_eq!(ram_bank(&mbc), 2);
    assert_eq!(mbc.read_ram(0x0005), Some(0x11));
    assert_eq!(mbc.read_ram_slice(0x0004, 0x0007), Some(vec![0, 0x11, 0]));
}

#[test]
fn a_ram_bank_beyond_the_ram_shows_nothing() {
    let mut mbc = mbc1(2);
    mbc.write_rom(0x0000, 0x0A);
    mbc.write_rom(0x6000, 0x01);
    mbc.write_rom(0x4000, 0x01);
    // the RAM has one bank of 0x2000 bytes: bank 1 starts where it ends
    assert_eq!(mbc.read_ram(0x0000), None);
    assert_eq!(mbc.read_ram_slice(0, 0), Some(vec![]));
    assert_eq!(mbc.read_ram_slice(0, 1), None);
    assert_eq!(
        mbc.write_ram(0x0000, 1),
        Err(String::from("Could not write data at offset 0000: Out of bounds"))
    );
    assert_eq!(mbc.write_ram_slice(0, &[]), Ok(0));
    assert_eq!(
        mbc.write_ram_slice(0, &[1]),
        Err(String::from(
            "Could not write data to cartridge RAM: source data are longer than target range (1 > 0)"
        ))
    );
    mbc.write_rom(0x4000, 0x02);
    assert_eq!(mbc.read_ram_slice(0, 0), None);
    assert_eq!(
        mbc.write_ram_slice(0, &[]),
        Err(String::from("Could not write data to cartridge RAM at offset 0000: Out of bounds"))
    );
}

#[test]
fn mbc3_shows_ram_banks_and_no_ram_for_the_clock() {
    let mut mbc = MBC::MBC3(MBC3 {
        rom: ROM::new(banked_rom(2)),
        ram: RAM::new(0x8000),
        active_rom_bank: 1,
        active_ram_bank: 0,
        ram_and_timer_enabled: false,
        rtc_latch: false,
    });
    mbc.write_rom(0x0000, 0x0A);
    for bank in 0..4u8 {
        mbc.write_rom(0x4000, bank);
        assert_eq!(mbc.write_ram(0x0100, 0xA0 + bank), Ok(1));
    }
    for bank in 0..4u8 {
        mbc.write_rom(0x4000, bank);
        assert_eq!(mbc.read_ram(0x0100), Some(0xA0 + bank));
    }
    match &mbc {
        MBC::MBC3(m) => assert_eq!(m.ram.read_byte(0x6100), Some(0xA3)),
        _ => unreachable!(),
    }
    mbc.write_rom(0x4000, 0x08);
    assert_eq!(mbc.read_ram(0x0100), None);
    assert_eq!(mbc.read_ram_slice(0, 0), None);
    assert_eq!(
        mbc.write_ram(0x0100, 0x01),
        Err(String::from("Could not write data at offset 0100: Out of bounds"))
    );
    mbc.write_rom(0x4000, 0x03);
    assert_eq!(mbc.read_ram(0x0100), Some(0xA3));
}

#[test]
fn mbc5_shows_the_ram_bank_selected() {
    let mut mbc = MBC::MBC5(MBC5 {
        rom: ROM::new(banked_rom(2)),
        ram: RAM::new(0x20000),
        active_rom_bank: 1,
        active_ram_bank: 0,
        ram_enabled: false,
    });
    mbc.write_rom(0x0000, 0x0A);
    mbc.write_rom(0x4000, 0x0F);
    assert_eq!(mbc.write_ram(0x1FFF, 0x5A), Ok(1));
    assert_eq!(mbc.read_ram(0x1FFF), Some(0x5A));
    match &mbc {
        MBC::MBC5(m) => assert_eq!(m.ram.read_byte(0x1FFFF), Some(0x5A)),
        _ => unreachable!(),
    }
    mbc.write_rom(0x4000, 0x0E);
    assert_eq!(mbc.read_ram(0x1FFF), Some(0x00));
    assert_eq!(mbc.write_ram_slice(0x1FFF, &[0x33]), Ok(1));
    mbc.write_rom(0x4000, 0x0F);
    assert_eq!(mbc.read_ram_slice(0x1FFE, 0x2000), Some(vec![0x00, 0x5A]));
}
