use gbars::audio::pa_types::WaveDuty;
use gbars::emu::emulator::{
    exec, inspect, join, step, CartFeature, GameBoyType, Instruction, ROM,
};
use gbars::emu::input::GameBoyKeymap;
use gbars::emu::opcodes::{Command, Instruction as Kind};
use gbars::emu::registers::Registers;
use gbars::graphics::opengl::GlWindow;
use gbars::interface::windows::RomMetaDataModel;
use gbars::ips::{apply, parse};
use piston::input::Key;

fn flags(r: &mut Registers) -> (u8, u8, u8, u8) {
    (r.get_zero(), r.get_subtract(), r.get_half_carry(), r.get_carry())
}

#[test]
fn registers_start_at_0100() {
    let r = Registers::init();
    assert_eq!(
        r,
        Registers { a: 0, b: 0, c: 0, d: 0, e: 0, f: 0, h: 0, l: 0, sp: 0, pc: 0x100 }
    );
}

#[test]
fn accumulator_arithmetic() {
    let mut r = Registers::init();
    r.a = 0xFF;
    r.add(0x01);
    assert_eq!(r.a, 0x00);
    assert_eq!(flags(&mut r), (1, 0, 1, 1));
    r.addc(0x0F);
    assert_eq!(r.a, 0x10);
    assert_eq!(flags(&mut r), (0, 0, 1, 0));
    r.sub(0x11);
    assert_eq!(r.a, 0xFF);
    assert_eq!(flags(&mut r), (0, 1, 1, 1));
    r.subc(0xFE);
    assert_eq!(r.a, 0x00);
    assert_eq!(flags(&mut r), (1, 1, 0, 0));
    r.a = 0x5A;
    r.and(0x0F);
    assert_eq!(r.a, 0x0A);
    assert_eq!(flags(&mut r), (0, 0, 1, 0));
    r.or(0xF0);
    assert_eq!(r.a, 0xFA);
    assert_eq!(flags(&mut r), (0, 0, 0, 0));
    r.xor(0xFA);
    assert_eq!(r.a, 0x00);
    assert_eq!(flags(&mut r), (1, 0, 0, 0));
    r.comp(0x01);
    assert_eq!(r.a, 0x00);
    assert_eq!(flags(&mut r), (0, 1, 1, 1));
    r.a = 0x19;
    r.add(0x28);
    r.decimal_adjust();
    assert_eq!(r.a, 0x47);
    assert_eq!(flags(&mut r), (0, 0, 0, 0));
    assert!(Registers::half_carry_occurred(0x08, 0x08));
    assert!(!Registers::half_carry_occurred(0x07, 0x08));
    assert!(Registers::half_borrow_occurred(0x00, 0x01));
    assert!(!Registers::half_borrow_occurred(0x01, 0x01));
}

#[test]
fn pair_arithmetic() {
    let mut r = Registers::init();
    r.set_bc(0x0FFF);
    assert_eq!((r.b, r.c), (0x0F, 0xFF));
    r.set_flags(Some(1), Some(1), Some(0), Some(1));
    r.add_to_bc(0x0001);
    assert_eq!(r.get_bc(), 0x1000);
    assert_eq!(flags(&mut r), (1, 0, 1, 0));
    r.sub_from_bc(0x1001);
    assert_eq!(r.get_bc(), 0xFFFF);
    assert_eq!(flags(&mut r), (1, 0, 1, 0));
    r.set_de(0xFFFF);
    r.add_to_de(0x0001);
    assert_eq!(r.get_de(), 0x0000);
    assert_eq!(flags(&mut r), (1, 0, 1, 1));
    r.sub_from_de(1);
    assert_eq!(r.get_de(), 0xFFFF);
    r.set_hl(0x8000);
    r.add_to_hl(0x8000);
    assert_eq!(r.get_hl(), 0x0000);
    assert_eq!(flags(&mut r), (1, 0, 0, 1));
    r.sub_from_hl(0x0010);
    assert_eq!((r.h, r.l), (0xFF, 0xF0));
    r.set_af(0x12FF);
    assert_eq!((r.a, r.f), (0x12, 0xF0));
    assert_eq!(r.get_af(), 0x12F0);
    r.add_to_af(0x0110);
    assert_eq!(r.a, 0x14);
    assert_eq!(flags(&mut r), (0, 0, 0, 0));
    r.sub_from_af(0x0400);
    assert_eq!(r.get_af(), 0x1000);
    r.set_flags(None, Some(9), None, Some(0));
    assert_eq!(r.f, 0x40);
}

#[test]
fn register_dumps() {
    let mut r = Registers { a: 0x12, b: 0x34, c: 0x56, d: 0x78, e: 0x9A, f: 0xB0, h: 0xCD, l: 0xEF, sp: 0xFFFE, pc: 0x0100 };
    let bin = format!(
        "\
+--------------+--------------+\n\
|    15 - 8    |     7 - 0    |\n\
+---+----------+---+----------+\n\
| A | {:08b} | F | {:08b} |\n\
+---+----------+---+----------+\n\
| B | {:08b} | C | {:08b} |\n\
+---+----------+---+----------+\n\
| D | {:08b} | E | {:08b} |\n\
+---+----------+---+----------+\n\
| H | {:08b} | L | {:08b} |\n\
+---+----------+---+----------+\n\n\
+----+---------+--------------+\n\
| SP |    {:016b}    |\n\
+----+---------+--------------+\n\
| PC |    {:016b}    |\n\
+----+---------+--------------+",
        r.a, r.f, r.b, r.c, r.d, r.e, r.h, r.l, r.sp, r.pc
    );
    assert_eq!(r.dump_bin(), bin);
    let hex = format!(
        "\
+---------+---------+\n\
| 15 - 8  |  7 - 0  |\n\
+---+-----+---+-----+\n\
| A | ${:02X} | F | ${:02X} |\n\
+---+-----+---+-----+\n\
| B | ${:02X} | C | ${:02X} |\n\
+---+-----+---+-----+\n\
| D | ${:02X} | E | ${:02X} |\n\
+---+-----+---+-----+\n\
| H | ${:02X} | L | ${:02X} |\n\
+---+-----+---+-----+\n\n\
+----+--------------+\n\
| SP |    ${:04X}     |\n\
+----+--------------+\n\
| PC |    ${:04X}     |\n\
+----+--------------+",
        r.a, r.f, r.b, r.c, r.d, r.e, r.h, r.l, r.sp, r.pc
    );
    assert_eq!(r.dump_hex(), hex);
}

#[test]
fn commands() {
    let mut c = Command::new(0x01, "ld BC, <u16>", "Load a short into BC", 3, Kind::Load16BitRegister);
    assert_eq!((c.opcode, c.z80.as_str(), c.description.as_str(), c.bytes), (0x01, "ld BC, <u16>", "Load a short into BC", 3));
    assert_eq!(c.cmd, Kind::Load16BitRegister);
    let regs = Registers::init();
    let memory = [0x00, 0x01, 0x34, 0x12, 0x00];
    assert_eq!(c.exec(&regs, 1, &memory), vec![0x34, 0x12]);
    let mut nop = Command::new(0x00, "nop", "No operation", 1, Kind::Nop);
    assert_eq!(nop.exec(&regs, 4, &memory), Vec::<u8>::new());
    let mut odd = Command::new(0x00, "", "", 0, Kind::Bitwise);
    assert_eq!(odd.exec(&regs, 5, &memory), Vec::<u8>::new());
}

#[test]
fn instruction_table_with_descriptions() {
    let nop = Instruction::lookup(0x00).unwrap();
    assert_eq!(
        (nop.opcode, nop.mnemonic.as_str(), nop.description.as_str(), nop.size, nop.cycles),
        (0x00, "nop", "No operation", 1, 4)
    );
    let ld = Instruction::lookup(0x08).unwrap();
    assert_eq!(
        (ld.mnemonic.as_str(), ld.description.as_str(), ld.size, ld.cycles),
        ("ld (<u16>), SP", "Load the value of the stack pointer into memory", 3, 20)
    );
    let last = Instruction::lookup(0xFF).unwrap();
    assert_eq!((last.mnemonic.as_str(), last.size, last.cycles), ("rst $38", 1, 16));
    let mut listed = 0;
    for code in 0u8..=255 {
        match Instruction::lookup(code) {
            Some(i) => {
                assert_eq!(i.opcode, code);
                assert!(i.size >= 1 && i.size <= 3);
                listed += 1;
            }
            None => assert!(matches!(
                code,
                0xD3 | 0xDB | 0xDD | 0xE3 | 0xE4 | 0xEB | 0xEC | 0xED | 0xF4 | 0xFC | 0xFD
            )),
        }
    }
    assert_eq!(listed, 245);
    let made = Instruction::new(0x42, "x", "y", 2, 8);
    assert_eq!((made.opcode, made.mnemonic.as_str(), made.description.as_str(), made.size, made.cycles), (0x42, "x", "y", 2, 8));
}

const LOGO: [u8; 48] = [
    0xCE, 0xED, 0x66, 0x66, 0xCC, 0x0D, 0x00, 0x0B, 0x03, 0x73, 0x00, 0x83, 0x00, 0x0C, 0x00, 0x0D,
    0x00, 0x08, 0x11, 0x1F, 0x88, 0x89, 0x00, 0x0E, 0xDC, 0xCC, 0x6E, 0xE6, 0xDD, 0xDD, 0xD9, 0x99,
    0xBB, 0xBB, 0x67, 0x63, 0x6E, 0x0E, 0xEC, 0xCC, 0xDD, 0xDC, 0x99, 0x9F, 0xBB, 0xB9, 0x33, 0x3E,
];

fn image() -> Vec<u8> {
    let mut image = vec![0u8; 0x8000];
    image[0x104..0x134].copy_from_slice(&LOGO);
    image[0x134..0x134 + 10].copy_from_slice(b"SUPER GAME");
    image[0x143] = 0x80;
    image[0x144] = b'0';
    image[0x145] = b'1';
    image[0x146] = 0x03;
    image[0x147] = 0x10;
    image[0x14B] = 0x33;
    image[0x14C] = 0x02;
    image[0x14D] = 0xAB;
    image[0x14E] = 0x0B;
    image[0x14F] = 0xCD;
    image
}

#[test]
fn header_inspection() {
    let h = inspect(&image()).unwrap();
    assert_eq!(h.title, "SUPER GAME");
    assert_eq!(h.gbtype, GameBoyType::Color);
    assert!(h.gbs_compatible);
    let mut other = image();
    other[0x143] = 0x00;
    other[0x146] = 0x00;
    let h = inspect(&other).unwrap();
    assert_eq!(h.gbtype, GameBoyType::Classic);
    assert!(!h.gbs_compatible);
    other[0x143] = 0xC0;
    assert_eq!(inspect(&other).unwrap().gbtype, GameBoyType::Color);
    other[0x133] = 0x00;
    assert_eq!(inspect(&other).unwrap_err(), "Invalid ROM");
    assert_eq!(inspect(&vec![0u8; 0x146]).unwrap_err(), "Invalid ROM");
    assert_eq!(inspect(&image()[..0x147].to_vec()).unwrap().title, "SUPER GAME");
}

#[test]
fn rom_from_image() {
    let mut rom = ROM::from_bytes("roms/game.gb", image()).unwrap();
    assert_eq!(rom.path, "roms/game.gb");
    assert_eq!(rom.size, 0x8000);
    assert_eq!(rom.contents, image());
    assert_eq!(rom.title, "SUPER GAME");
    assert_eq!(rom.licensee, "Nintendo R&D1");
    assert_eq!(
        rom.cart_type,
        vec![CartFeature::MBC3, CartFeature::Timer, CartFeature::RAM, CartFeature::Battery]
    );
    assert_eq!(rom.version_no, 2);
    assert!(rom.gbs_compatible);
    assert_eq!(rom.header_checksum, 0xAB);
    assert_eq!(rom.global_checksum, 0x0BCD);
    assert_eq!(
        rom.info(),
        "Verbose ROM information on roms/game.gb\n\
         Title:\t\t\tSUPER GAME\n\
         Version:\t\t2\n\
         Licensee:\t\tNintendo R&D1\n\
         Cart Type:\t\tMBC3+Timer+RAM+Battery\n\
         GBS Features:\tAvailable\n\
         Checksum:\t\t0x0BCD"
    );
    let model = RomMetaDataModel::create(&rom);
    assert_eq!(model.title, "SUPER GAME");
    assert_eq!(model.version, "2");
    assert_eq!(model.licensee, "Nintendo R&D1");
    assert_eq!(model.cart_type, "MBC3+Timer+RAM+Battery");
    assert_eq!(model.gbs, "Available");
    assert_eq!(model.header_checksum, "0xAB");
    assert_eq!(model.global_checksum, "0x0BCD");
    assert!(ROM::from_bytes("x", vec![0; 0x14F]).is_none());
    assert!(ROM::from_bytes("x", vec![0; 0x150]).is_some());
}

#[test]
fn licensees() {
    let mut bytes = image();
    bytes[0x144] = b'A';
    bytes[0x145] = b'4';
    assert_eq!(ROM::from_bytes("", bytes.clone()).unwrap().licensee, "Konami (Yu-Gi-Oh!)");
    bytes[0x145] = b'5';
    assert_eq!(ROM::from_bytes("", bytes.clone()).unwrap().licensee, "Unknown");
    bytes[0x14B] = 0x01;
    assert_eq!(ROM::from_bytes("", bytes.clone()).unwrap().licensee, "Nintendo");
    bytes[0x14B] = 0x31;
    assert_eq!(ROM::from_bytes("", bytes.clone()).unwrap().licensee, "Nintendo");
    bytes[0x14B] = 0x8F;
    assert_eq!(ROM::from_bytes("", bytes.clone()).unwrap().licensee, "I'MAX");
    bytes[0x14B] = 0x00;
    bytes[0x146] = 0x00;
    bytes[0x147] = 0x77;
    let mut rom = ROM::from_bytes("", bytes.clone()).unwrap();
    assert_eq!(rom.licensee, "None");
    assert_eq!(rom.cart_type, vec![CartFeature::Unknown]);
    assert!(rom.info().contains("GBS Features:\tUnavailable"));
    bytes[0x14B] = 0xFF;
    assert_eq!(ROM::from_bytes("", bytes).unwrap().licensee, "Unknown");
}

#[test]
fn features_joined() {
    assert_eq!(join(&vec![]), "");
    assert_eq!(join(&vec![CartFeature::ROM]), "ROM");
    assert_eq!(
        join(&vec![CartFeature::HuC1, CartFeature::RAM, CartFeature::Battery]),
        "HuC1+RAM+Battery"
    );
    assert_eq!(CartFeature::PocketCamera.name(), "PocketCamera");
    assert_eq!(CartFeature::BandaiTama5.name(), format!("{:?}", CartFeature::BandaiTama5));
}

#[test]
fn rom_dump() {
    let mut bytes = image();
    bytes.truncate(0x150);
    let mut rom = ROM::from_bytes("", bytes.clone()).unwrap();
    let mut expected = String::new();
    for (i, b) in bytes.iter().enumerate() {
        if i % 16 == 0 {
            expected.push('\n');
            expected.push_str(&format!("0x{:08X} ", i));
        }
        if b.is_ascii_control() || b.is_ascii_whitespace() {
            expected.push_str(". ");
        } else {
            expected.push_str(&format!("{} ", *b as char));
        }
    }
    assert_eq!(rom.dump_text(), expected);
}

#[test]
fn a_few_instructions_on_plain_registers() {
    let mut cpu = Registers::init();
    let mut memory = vec![0u8; 0x10000];
    assert_eq!(exec(&mut cpu, &mut memory, 0x00), Some(1));
    cpu.b = 0x0F;
    assert_eq!(exec(&mut cpu, &mut memory, 0x04), Some(1));
    assert_eq!(cpu.b, 0x10);
    assert_eq!(flags(&mut cpu), (0, 0, 1, 0));
    assert_eq!(exec(&mut cpu, &mut memory, 0x05), Some(1));
    assert_eq!(cpu.b, 0x0F);
    assert_eq!(flags(&mut cpu), (0, 1, 1, 0));
    cpu.a = 0xFF;
    assert_eq!(exec(&mut cpu, &mut memory, 0x3C), Some(1));
    assert_eq!(cpu.a, 0x00);
    assert_eq!(flags(&mut cpu), (1, 0, 1, 0));
    assert_eq!(exec(&mut cpu, &mut memory, 0x3D), Some(1));
    assert_eq!(cpu.a, 0xFF);
    cpu.set_hl(0xC000);
    assert_eq!(exec(&mut cpu, &mut memory, 0x34), Some(1));
    assert_eq!(memory[0xC000], 1);
    assert_eq!(exec(&mut cpu, &mut memory, 0x35), Some(1));
    assert_eq!(exec(&mut cpu, &mut memory, 0x35), Some(1));
    assert_eq!(memory[0xC000], 0xFF);
    let f = cpu.f;
    cpu.set_bc(0xFFFF);
    assert_eq!(exec(&mut cpu, &mut memory, 0x03), Some(1));
    assert_eq!(cpu.get_bc(), 0x0000);
    assert_eq!(exec(&mut cpu, &mut memory, 0x0B), Some(1));
    assert_eq!(cpu.get_bc(), 0xFFFF);
    assert_eq!(exec(&mut cpu, &mut memory, 0x13), Some(1));
    assert_eq!(cpu.get_de(), 0x0001);
    assert_eq!(exec(&mut cpu, &mut memory, 0x1B), Some(1));
    assert_eq!(exec(&mut cpu, &mut memory, 0x23), Some(1));
    assert_eq!(cpu.get_hl(), 0xC001);
    assert_eq!(exec(&mut cpu, &mut memory, 0x2B), Some(1));
    assert_eq!(exec(&mut cpu, &mut memory, 0x33), Some(1));
    assert_eq!(cpu.sp, 1);
    assert_eq!(exec(&mut cpu, &mut memory, 0x3B), Some(1));
    assert_eq!(exec(&mut cpu, &mut memory, 0x3B), Some(1));
    assert_eq!(cpu.sp, 0xFFFF);
    assert_eq!(cpu.f, f);
    cpu.a = 0xF0;
    cpu.b = 0x20;
    assert_eq!(exec(&mut cpu, &mut memory, 0x80), Some(1));
    assert_eq!(cpu.a, 0x10);
    assert_eq!(flags(&mut cpu), (0, 0, 0, 1));
    let before = cpu;
    for code in [0x01u8, 0x06, 0x40, 0x44, 0x81, 0xC3, 0xD3, 0xFF] {
        assert_eq!(exec(&mut cpu, &mut memory, code), None);
    }
    assert_eq!(cpu, before);
}

#[test]
fn stepping_plain_registers() {
    let mut cpu = Registers::init();
    let mut memory = vec![0u8; 0x10000];
    memory[0x100] = 0x04;
    memory[0x101] = 0x0C;
    memory[0x102] = 0x01;
    assert_eq!(step(&mut cpu, &mut memory), Some(()));
    assert_eq!(step(&mut cpu, &mut memory), Some(()));
    assert_eq!((cpu.b, cpu.c, cpu.pc), (1, 1, 0x102));
    assert_eq!(step(&mut cpu, &mut memory), None);
    assert_eq!(cpu.pc, 0x102);
    cpu.pc = 0xFFFF;
    assert_eq!(step(&mut cpu, &mut memory), Some(()));
    assert_eq!(cpu.pc, 0x0000);
}

#[test]
fn keys_stand_for_buttons() {
    let mut keys = GameBoyKeymap::default();
    assert_eq!(keys.up, Key::Up.code());
    assert_eq!(keys.down, Key::Down.code());
    assert_eq!(keys.left, Key::Left.code());
    assert_eq!(keys.right, Key::Right.code());
    assert_eq!(keys.start, Key::Return.code());
    assert_eq!(keys.select, Key::RShift.code());
    assert_eq!(keys.b, Key::Z.code());
    assert_eq!(keys.a, Key::X.code());
    assert_eq!(keys.x, Key::S.code());
    assert_eq!(keys.y, Key::A.code());
    assert_eq!(keys.left_shoulder, Key::Q.code());
    assert_eq!(keys.right_shoulder, Key::W.code());
    assert_eq!(keys.handle_keypress(Key::Down.code() as u32), Some(0b0010_1000));
    assert_eq!(keys.handle_keypress(Key::Up.code() as u32), Some(0b0010_0100));
    assert_eq!(keys.handle_keypress(Key::Left.code() as u32), Some(0b0010_0010));
    assert_eq!(keys.handle_keypress(Key::Right.code() as u32), Some(0b0010_0001));
    assert_eq!(keys.handle_keypress(Key::Return.code() as u32), Some(0b0001_1000));
    assert_eq!(keys.handle_keypress(Key::RShift.code() as u32), Some(0b0001_0100));
    assert_eq!(keys.handle_keypress(Key::Z.code() as u32), Some(0b0001_0010));
    assert_eq!(keys.handle_keypress(Key::X.code() as u32), Some(0b0001_0001));
    assert_eq!(keys.handle_keypress(Key::S.code() as u32), None);
    assert_eq!(keys.handle_keypress(Key::Space.code() as u32), None);
    // a scancode that is no key reads as the unknown key, whose code is 0
    keys.a = 0;
    assert_eq!(keys.handle_keypress(0x1234_5678), Some(0b0001_0001));
    assert_eq!(keys.pressed(0x1234_5678), None);
    keys.up = keys.down;
    assert_eq!(keys.pressed(Key::Down.code()), Some(0b0010_1000));
}

#[test]
fn plain_types() {
    let w = GlWindow { title: String::from("GBARS"), width: 160, height: 144 };
    assert_eq!((w.title.as_str(), w.width, w.height), ("GBARS", 160, 144));
    assert_ne!(WaveDuty::Eighth, WaveDuty::Half);
    assert_eq!(WaveDuty::Quarter, WaveDuty::Quarter);
    assert_ne!(WaveDuty::ThreeQuarter, WaveDuty::Quarter);
}

fn patch_file(records: &[u8]) -> Vec<u8> {
    let mut f = b"PATCH".to_vec();
    f.extend_from_slice(records);
    f.extend_from_slice(b"EOF");
    f
}

#[test]
fn patches_are_read() {
    assert_eq!(parse(&patch_file(&[])), Some(vec![]));
    let file = patch_file(&[
        0x00, 0x01, 0x02, 0x00, 0x03, 0xAA, 0xBB, 0xCC, // three bytes at 0x000102
        0x12, 0x34, 0x56, 0x00, 0x00, 0x00, 0x04, 0x7F, // four times 0x7F at 0x123456
        0x00, 0x00, 0x00, 0x00, 0x01, 0x45, // one byte at 0
        0x00, 0x00, 0x01, 0x00, 0x00, 0x00, 0x00, 0x99, // no times 0x99 at 1
    ]);
    assert_eq!(
        parse(&file),
        Some(vec![
            (0x000102, vec![0xAA, 0xBB, 0xCC]),
            (0x123456, vec![0x7F; 4]),
            (0, vec![0x45]),
            (1, vec![]),
        ])
    );
    let mut long = vec![0xFF, 0xFF, 0xFF, 0x01, 0x00];
    long.extend(vec![0x5A; 256]);
    assert_eq!(parse(&patch_file(&long)), Some(vec![(0xFFFFFF, vec![0x5A; 256])]));
}

#[test]
fn broken_patch_files_are_refused() {
    assert_eq!(parse(&vec![]), None);
    assert_eq!(parse(&b"PATC".to_vec()), None);
    assert_eq!(parse(&b"PATCH".to_vec()), None);
    assert_eq!(parse(&b"PATCHEO".to_vec()), None);
    assert_eq!(parse(&b"PATCXEOF".to_vec()), None);
    assert_eq!(parse(&b"patchEOF".to_vec()), None);
    // a record without the end mark behind it
    assert_eq!(parse(&b"PATCH\x00\x00\x01\x00\x01\xAA".to_vec()), None);
    // a record cut short
    assert_eq!(parse(&b"PATCH\x00\x00\x01\x00\x02\xAAEOF".to_vec()), None);
    assert_eq!(parse(&b"PATCH\x00\x00\x01\x00".to_vec()), None);
    assert_eq!(parse(&b"PATCH\x00\x00\x01\x00\x00\x00\x04".to_vec()), None);
    // what follows the end mark is not read
    assert_eq!(parse(&b"PATCHEOFxyz".to_vec()), Some(vec![]));
}

#[test]
fn patches_are_applied() {
    let mut rom = vec![0u8, 1, 2, 3, 4, 5, 6, 7];
    let patches = vec![(2usize, vec![0xAA, 0xBB]), (7, vec![0xCC, 0xDD]), (12, vec![0xEE]), (3, vec![0x11])];
    assert_eq!(apply(&mut rom, &patches), 4);
    assert_eq!(rom, vec![0, 1, 0xAA, 0x11, 4, 5, 6, 0xCC, 0xDD, 0, 0, 0, 0xEE]);
    let mut rom = vec![9u8; 3];
    assert_eq!(apply(&mut rom, &vec![]), 0);
    assert_eq!(rom, vec![9, 9, 9]);
    assert_eq!(apply(&mut rom, &vec![(5, vec![])]), 1);
    assert_eq!(rom, vec![9, 9, 9, 0, 0]);
    let file = patch_file(&[0x00, 0x00, 0x01, 0x00, 0x00, 0x00, 0x03, 0x42]);
    let mut rom = vec![1u8, 2];
    assert_eq!(apply(&mut rom, &parse(&file).unwrap()), 1);
    assert_eq!(rom, vec![1, 0x42, 0x42, 0x42]);
}
