use gbars::classic_old::gb_types::mbc::{
    set_ram_bank, set_rom_bank, MBCMode, MemoryBankController, MBC1, MBC2, MBC5,
};
use gbars::classic_old::gb_types::{
    CPUStatus, CartFeature, Cartridge, Console, JoyPad, Memory, MonoPaletteData, MonoPalettes,
    MonoShade, MonoShadeColors, Register, ScreenBuffer, ScrollDirection, CPU,
};
use gbars::classic_old::utils::{make_vec, read_byte, vec_slice, write_byte};

fn flags(cpu: &CPU) -> (u8, u8, u8, u8) {
    (cpu.get_zero(), cpu.get_subtract(), cpu.get_half_carry(), cpu.get_carry())
}

#[test]
fn cpu_starts_as_the_boot_leaves_it() {
    let cpu = CPU::init();
    assert_eq!(
        (cpu.a, cpu.b, cpu.c, cpu.d, cpu.e, cpu.f, cpu.h, cpu.l),
        (0x01, 0x00, 0x13, 0x00, 0xD8, 0xB0, 0x01, 0x4D)
    );
    assert_eq!((cpu.sp, cpu.pc), (0xFFFE, 0x0100));
    assert_eq!(cpu.stack.len(), 0x10000);
    assert!(cpu.stack.iter().all(|s| *s == 0));
    assert_eq!(flags(&cpu), (1, 0, 1, 1));
}

#[test]
fn inc_of_bytes_sets_flags() {
    let mut cpu = CPU::init();
    cpu.a = 0x0F;
    cpu.inc(Register::A);
    assert_eq!(cpu.a, 0x10);
    assert_eq!(flags(&cpu), (0, 0, 1, 1));
    cpu.b = 0xFF;
    cpu.inc(Register::B);
    assert_eq!(cpu.b, 0x00);
    assert_eq!(flags(&cpu), (1, 0, 1, 1));
    cpu.set_flags(None, None, None, Some(0));
    cpu.l = 0x41;
    cpu.inc(Register::L);
    assert_eq!(cpu.l, 0x42);
    assert_eq!(flags(&cpu), (0, 0, 0, 0));
    let mut m = Memory::init();
    m.write_byte(0xC000, 0x7F);
    cpu.inc(Register::Address(&mut m, 0xC000));
    assert_eq!(m.read_byte(0xC000), 0x80);
    assert_eq!(flags(&cpu), (0, 0, 1, 0));
}

#[test]
fn inc_of_pairs_sets_no_flags() {
    let mut cpu = CPU::init();
    let f = cpu.f;
    cpu.set_bc(0x00FF);
    cpu.inc(Register::BC);
    assert_eq!(cpu.get_bc(), 0x0100);
    cpu.set_de(0xFFFF);
    cpu.inc(Register::DE);
    assert_eq!(cpu.get_de(), 0x0000);
    cpu.set_hl(0x1234);
    cpu.inc(Register::HL);
    assert_eq!(cpu.get_hl(), 0x1235);
    cpu.sp = 0xFFFF;
    cpu.inc(Register::SP);
    assert_eq!(cpu.sp, 0x0000);
    assert_eq!(cpu.f, f);
    let before = (cpu.a, cpu.f, cpu.pc);
    cpu.inc(Register::AF);
    cpu.inc(Register::F);
    cpu.inc(Register::PC);
    assert_eq!((cpu.a, cpu.f, cpu.pc), before);
}

#[test]
fn compare_sets_flags_only() {
    let mut cpu = CPU::init();
    cpu.a = 0x10;
    cpu.cmp(0x20);
    assert_eq!(cpu.a, 0x10);
    assert_eq!(flags(&cpu), (0, 1, 0, 1));
    cpu.cmp(0x10);
    assert_eq!(flags(&cpu), (1, 1, 0, 0));
    cpu.cmp(0x01);
    assert_eq!(flags(&cpu), (0, 1, 1, 0));
}

#[test]
fn loads_between_registers() {
    let mut cpu = CPU::init();
    cpu.load_8bit_literal(Register::B, 0x42);
    assert_eq!(cpu.b, 0x42);
    cpu.load_8bit_reg(Register::D, Register::B);
    assert_eq!(cpu.d, 0x42);
    cpu.load_8bit_reg(Register::A, Register::F);
    assert_eq!(cpu.a, 0xB0);
    cpu.load_8bit_literal(Register::H, 0xFF);
    cpu.load_8bit_reg(Register::F, Register::H);
    assert_eq!(cpu.f, 0xF0);
    cpu.load_16bit_literal(Register::HL, 0xBEEF);
    assert_eq!((cpu.h, cpu.l), (0xBE, 0xEF));
    cpu.load_16bit_reg(Register::SP, Register::HL);
    assert_eq!(cpu.sp, 0xBEEF);
    cpu.load_16bit_literal(Register::SP, 0x1234);
    cpu.load_16bit_reg(Register::BC, Register::SP);
    assert_eq!(cpu.get_bc(), 0x1234);
    cpu.load_16bit_literal(Register::DE, 0x12FF);
    cpu.load_16bit_reg(Register::AF, Register::DE);
    assert_eq!(cpu.get_af(), 0x12F0);
}

#[test]
fn push_then_pop_restores() {
    let mut cpu = CPU::init();
    cpu.set_hl(0x1234);
    cpu.push(Register::HL);
    assert_eq!(cpu.sp, 0xFFFC);
    assert_eq!(cpu.stack[0xFFFC], 0x1234);
    cpu.set_hl(0xBEEF);
    cpu.pop(Register::BC);
    assert_eq!((cpu.b, cpu.c), (0x12, 0x34));
    assert_eq!(cpu.sp, 0xFFFE);
    cpu.sp = 0x0001;
    cpu.set_af(0x55F0);
    cpu.push(Register::AF);
    assert_eq!(cpu.sp, 0xFFFF);
    cpu.pop(Register::DE);
    assert_eq!(cpu.get_de(), 0x55F0);
    assert_eq!(cpu.sp, 0x0001);
}

#[test]
fn shifts_and_rotations() {
    let mut cpu = CPU::init();
    cpu.b = 0x85;
    cpu.rlc(Register::B);
    assert_eq!(cpu.b, 0x0B);
    assert_eq!(flags(&cpu), (0, 0, 0, 1));
    cpu.c = 0x85;
    cpu.rrc(Register::C);
    assert_eq!(cpu.c, 0xC2);
    assert_eq!(flags(&cpu), (0, 0, 0, 1));
    cpu.d = 0x80;
    cpu.set_flags(None, None, None, Some(0));
    cpu.rl(Register::D);
    assert_eq!(cpu.d, 0x00);
    assert_eq!(flags(&cpu), (1, 0, 0, 1));
    cpu.e = 0x01;
    cpu.rr(Register::E);
    assert_eq!(cpu.e, 0x80);
    assert_eq!(flags(&cpu), (0, 0, 0, 1));
    cpu.h = 0xC1;
    cpu.sla(Register::H);
    assert_eq!(cpu.h, 0x82);
    assert_eq!(flags(&cpu), (0, 0, 0, 1));
    cpu.l = 0x81;
    cpu.sra(Register::L);
    assert_eq!(cpu.l, 0xC0);
    assert_eq!(flags(&cpu), (0, 0, 0, 1));
    cpu.a = 0xF0;
    cpu.swap(Register::A);
    assert_eq!(cpu.a, 0x0F);
    assert_eq!(flags(&cpu), (0, 0, 0, 0));
    let mut m = Memory::init();
    m.write_byte(0x8000, 0x01);
    cpu.srl(Register::Address(&mut m, 0x8000));
    assert_eq!(m.read_byte(0x8000), 0x00);
    assert_eq!(flags(&cpu), (1, 0, 0, 1));
    m.write_byte(0x8001, 0x3C);
    cpu.swap(Register::Address(&mut m, 0x8001));
    assert_eq!(m.read_byte(0x8001), 0xC3);
}

#[test]
fn bit_operations() {
    let mut cpu = CPU::init();
    cpu.a = 0x80;
    cpu.check_bit(7, Register::A);
    assert_eq!(flags(&cpu), (0, 0, 1, 1));
    cpu.check_bit(0, Register::A);
    assert_eq!(flags(&cpu), (1, 0, 1, 1));
    assert_eq!(cpu.a, 0x80);
    cpu.reset_bit(7, Register::A);
    assert_eq!(cpu.a, 0x00);
    cpu.set_bit(3, Register::A);
    assert_eq!(cpu.a, 0x08);
    assert_eq!(flags(&cpu), (1, 0, 1, 1));
    let mut m = Memory::init();
    cpu.set_bit(6, Register::Address(&mut m, 0x1234));
    assert_eq!(m.read_byte(0x1234), 0x40);
    cpu.check_bit(6, Register::Address(&mut m, 0x1234));
    assert_eq!(cpu.get_zero(), 0);
    cpu.reset_bit(6, Register::Address(&mut m, 0x1234));
    assert_eq!(m.read_byte(0x1234), 0x00);
    cpu.b = 0x05;
    assert_eq!(cpu.get_bit(Register::B, 0), 1);
    assert_eq!(cpu.get_zero(), 0);
    assert_eq!(cpu.get_bit(Register::B, 1), 0);
    assert_eq!(flags(&cpu), (1, 0, 1, 1));
    assert_eq!(cpu.get_bit(Register::B, 2), 1);
}

#[test]
fn pairs_flags_and_sixteen_bit_addition() {
    let mut cpu = CPU::init();
    cpu.set_af(0x1234);
    assert_eq!((cpu.a, cpu.f), (0x12, 0x30));
    cpu.set_bc(0x5678);
    assert_eq!(cpu.get_bc(), 0x5678);
    cpu.set_de(0x9ABC);
    assert_eq!((cpu.d, cpu.e), (0x9A, 0xBC));
    cpu.set_flags(Some(1), Some(1), Some(0), Some(0));
    assert_eq!(cpu.f, 0xC0);
    cpu.set_flags(None, Some(0), Some(7), None);
    assert_eq!(cpu.f, 0xA0);
    cpu.set_hl(0x0FFF);
    cpu.add_to_hl(0x0001);
    assert_eq!(cpu.get_hl(), 0x1000);
    assert_eq!(flags(&cpu), (1, 0, 1, 0));
    cpu.set_hl(0xFFFF);
    cpu.add_to_hl(0xFFFF);
    assert_eq!(cpu.get_hl(), 0xFFFE);
    assert_eq!(flags(&cpu), (1, 0, 1, 1));
    assert_eq!(CPU::half_carry_occurred(0x0F, 0x01), 1);
    assert_eq!(CPU::half_carry_occurred(0x10, 0x02), 0);
    assert_eq!(CPU::half_borrow_occurred(0x10, 0x01), 1);
    assert_eq!(CPU::half_borrow_occurred(0x1C, 0x0A), 0);
}

#[test]
fn cpu_executes_a_few_opcodes_alone() {
    let mut cpu = CPU::init();
    assert_eq!(cpu.exec(0x00), Some(CPUStatus::Continue));
    assert_eq!(cpu.pc, 0x0101);
    assert_eq!(cpu.exec(0x10), Some(CPUStatus::Stop));
    assert_eq!(cpu.exec(0x76), Some(CPUStatus::Halt));
    assert_eq!(cpu.pc, 0x0101);
    cpu.a = 0xFF;
    assert_eq!(cpu.exec(0x3C), Some(CPUStatus::Continue));
    assert_eq!(cpu.a, 0x00);
    assert_eq!(cpu.get_zero(), 1);
    assert_eq!(cpu.pc, 0x0102);
    for opcode in [0xC3u8, 0xCB, 0xF3, 0xFB] {
        assert_eq!(cpu.exec(opcode), Some(CPUStatus::Continue));
    }
    assert_eq!(cpu.pc, 0x0106);
    assert_eq!(cpu.exec(0x01), None);
    assert_eq!(cpu.pc, 0x0106);
    cpu.pc = 0xFFFF;
    assert_eq!(cpu.exec(0x00), Some(CPUStatus::Continue));
    assert_eq!(cpu.pc, 0x0000);
}

#[test]
fn memory_reads_and_writes() {
    let mut m = Memory::init();
    assert_eq!(m.len(), 0x10000);
    assert_eq!(m.get(0), Some(&0));
    assert_eq!(m.get(0xFFFF), Some(&0));
    assert_eq!(m.get(0x10000), None);
    m.write_byte(0xFFFF, 0x12);
    assert_eq!(m.read_byte(0xFFFF), 0x12);
    *m.get_mut(0x0010).unwrap() = 0x34;
    assert_eq!(m.read_byte(0x0010), 0x34);
    assert!(m.get_mut(0x10000).is_none());
    m.write_buf(0xFFFD, &[1, 2, 3]);
    assert_eq!(m.read_buf(0xFFFC, 0xFFFF), vec![0, 1, 2]);
    assert_eq!(m.read_byte(0xFFFF), 3);
    assert_eq!(m.read_buf(0x0010, 0x0010), vec![]);
    assert_eq!(m.read_buf(0x0011, 0x0010), vec![]);
    m.write_buf(0x0000, &[]);
    assert_eq!(m.read_byte(0x0000), 0);
}

#[test]
fn joypad_reads_the_register() {
    let mut m = Memory::init();
    let cases = [
        (0b0010_1000u8, JoyPad::Start),
        (0b0010_0100, JoyPad::Select),
        (0b0010_0010, JoyPad::B),
        (0b0010_0001, JoyPad::A),
        (0b0001_1000, JoyPad::Down),
        (0b0001_0100, JoyPad::Up),
        (0b0001_0010, JoyPad::Left),
        (0b0001_0001, JoyPad::Right),
        (0b0000_0000, JoyPad::Released),
        (0b0011_0001, JoyPad::Released),
        (0b1110_1000, JoyPad::Start),
    ];
    for (value, button) in cases {
        m.write_byte(0xFF00, value);
        assert_eq!(JoyPad::from(&m), button);
    }
}

#[test]
fn palettes_from_bytes() {
    assert_eq!(MonoShade::from(0), MonoShade::White);
    assert_eq!(MonoShade::from(1), MonoShade::LightGrey);
    assert_eq!(MonoShade::from(2), MonoShade::DarkGrey);
    assert_eq!(MonoShade::from(3), MonoShade::Black);
    assert_eq!(MonoShade::from(200), MonoShade::Black);
    assert_eq!(
        MonoPaletteData::from(0b11_10_01_00),
        MonoPaletteData(
            MonoShade::White,
            MonoShade::LightGrey,
            MonoShade::DarkGrey,
            MonoShade::Black
        )
    );
    assert_eq!(
        MonoPaletteData::from(0b00_01_11_10),
        MonoPaletteData(
            MonoShade::DarkGrey,
            MonoShade::Black,
            MonoShade::LightGrey,
            MonoShade::White
        )
    );
    let mut m = Memory::init();
    m.write_byte(0xFF47, 0xE4);
    m.write_byte(0xFF48, 0x1B);
    m.write_byte(0xFF49, 0xFF);
    let p = MonoPalettes::from(m);
    assert_eq!(p.background, MonoPaletteData::from(0xE4));
    assert_eq!(p.sprites, [MonoPaletteData::from(0x1B), MonoPaletteData::from(0xFF)]);
}

#[test]
fn shade_colors() {
    assert_eq!(
        MonoShadeColors::Greyscale.to_rgb(),
        vec![
            (255, 255, 255),
            (165, 165, 165),
            (82, 82, 82),
            (0, 0, 0),
            (255, 255, 255),
            (165, 165, 165),
            (82, 82, 82),
            (0, 0, 0),
            (255, 255, 255),
            (165, 165, 165),
            (82, 82, 82),
            (0, 0, 0),
        ]
    );
    assert_eq!(
        MonoShadeColors::DarkBrown.to_rgb(),
        vec![
            (255, 255, 255),
            (255, 173, 99),
            (131, 49, 0),
            (0, 0, 0),
            (255, 255, 255),
            (255, 173, 99),
            (131, 49, 0),
            (0, 0, 0),
            (255, 231, 197),
            (206, 156, 133),
            (132, 107, 41),
            (91, 49, 9),
        ]
    );
    assert_eq!(MonoShadeColors::Inverted.to_rgb()[0], (0, 0, 0));
    assert_eq!(MonoShadeColors::Inverted.to_rgb()[3], (255, 255, 255));
    assert_eq!(MonoShadeColors::Red.to_rgb()[5], (101, 164, 155));
    assert_eq!(MonoShadeColors::Blue.to_rgb()[6], (131, 49, 0));
    for set in [
        MonoShadeColors::Brown,
        MonoShadeColors::Red,
        MonoShadeColors::DarkBrown,
        MonoShadeColors::Pastel,
        MonoShadeColors::Orange,
        MonoShadeColors::Yellow,
        MonoShadeColors::Blue,
        MonoShadeColors::DarkBlue,
        MonoShadeColors::Greyscale,
        MonoShadeColors::Green,
        MonoShadeColors::DarkGreen,
        MonoShadeColors::Inverted,
    ] {
        assert_eq!(set.to_rgb().len(), 12);
    }
    let bg = [(1, 1, 1), (2, 2, 2), (3, 3, 3), (4, 4, 4)];
    let sp0 = [(5, 5, 5), (6, 6, 6), (7, 7, 7), (8, 8, 8)];
    let sp1 = [(9, 9, 9), (10, 10, 10), (11, 11, 11), (12, 12, 12)];
    let custom = MonoShadeColors::custom_from_rgb(&bg, &sp0, &sp1);
    let mut all = bg.to_vec();
    all.extend(sp0);
    all.extend(sp1);
    assert_eq!(custom.to_rgb(), all);
}

fn screen(pixels: Vec<u8>, scy: usize, scx: usize) -> ScreenBuffer {
    ScreenBuffer { pixels, scale: 3, scy, scx, ly: 0, lyc: 0, wy: 0, wx: 0 }
}

#[test]
fn screen_pixels() {
    let mut s = screen(vec![0; 256 * 256], 0, 0);
    assert_eq!(s.get_pixel(0, 0), Some(&0));
    s.set_pixel(3, 2, 7);
    assert_eq!(s.pixels[256 * 2 + 3], 7);
    assert_eq!(s.get_pixel(3, 2), Some(&7));
    assert_eq!(s.get_pixel(255, 255), Some(&0));
    assert_eq!(s.get_pixel(0, 256), None);
    assert_eq!(s.get_pixel(usize::MAX, 1), None);
    assert_eq!(s.get_pixel(1, usize::MAX), None);
    assert_eq!(s.scaled_dimension(), 768);
    assert_eq!(ScreenBuffer::DIMENSION, 256);
    assert_eq!(ScreenBuffer::VISIBLE_X, 160);
    assert_eq!(ScreenBuffer::VISIBLE_Y, 144);
}

#[test]
fn screen_visible_lines() {
    let mut pixels = vec![0u8; 256 * 256];
    for y in 0..256 {
        for x in 0..256 {
            pixels[256 * y + x] = ((x + y) % 4) as u8;
        }
    }
    let s = screen(pixels.clone(), 2, 5);
    let vis = s.get_visible();
    assert_eq!(vis.len(), 144 * 165);
    for line in 0..144 {
        for x in 0..165 {
            assert_eq!(vis[line * 165 + x], pixels[256 * (line + 2) + x]);
        }
    }
    let rgb = s.gl_rgb_pixels();
    assert_eq!(rgb.len(), 3 * vis.len());
    for (i, p) in vis.iter().enumerate() {
        let level = [255u8, 165, 82, 0][*p as usize];
        assert_eq!(&rgb[3 * i..3 * i + 3], &[level, level, level]);
    }
}

#[test]
fn screen_does_not_scroll_or_draw() {
    let mut s = screen(vec![1, 2, 3], 4, 5);
    s.scroll(ScrollDirection::Up, 1);
    s.scroll(ScrollDirection::Down, 2);
    s.scroll(ScrollDirection::Left, 3);
    s.scroll(ScrollDirection::Right, 4);
    s.draw_sprite(1, 1);
    s.get_tile(0, 0);
    assert_eq!((s.scy, s.scx), (4, 5));
    assert_eq!(s.pixels, vec![1, 2, 3]);
}

#[test]
fn screen_from_memory() {
    let mut m = Memory::init();
    m.write_byte(0xFF42, 1);
    m.write_byte(0xFF43, 2);
    m.write_byte(0xFF44, 3);
    m.write_byte(0xFF45, 4);
    m.write_byte(0xFF4A, 5);
    m.write_byte(0xFF4B, 6);
    let s = ScreenBuffer::from(&m);
    assert_eq!((s.scy, s.scx, s.ly, s.lyc, s.wy, s.wx), (1, 2, 3, 4, 5, 6));
    assert_eq!(s.scale, 1);
    assert!(s.pixels.is_empty());
}

const LOGO: [u8; 48] = [
    0xCE, 0xED, 0x66, 0x66, 0xCC, 0x0D, 0x00, 0x0B, 0x03, 0x73, 0x00, 0x83, 0x00, 0x0C, 0x00, 0x0D,
    0x00, 0x08, 0x11, 0x1F, 0x88, 0x89, 0x00, 0x0E, 0xDC, 0xCC, 0x6E, 0xE6, 0xDD, 0xDD, 0xD9, 0x99,
    0xBB, 0xBB, 0x67, 0x63, 0x6E, 0x0E, 0xEC, 0xCC, 0xDD, 0xDC, 0x99, 0x9F, 0xBB, 0xB9, 0x33, 0x3E,
];

fn image() -> Vec<u8> {
    let mut image = vec![0u8; 0x8000];
    image[0x104..0x134].copy_from_slice(&LOGO);
    image[0x134..0x134 + 6].copy_from_slice(b"TETRIS");
    image[0x147] = 0x03;
    image[0x148] = 0x00;
    image[0x149] = 0x02;
    image[0x14A] = 0x00;
    let mut sum = 0u8;
    for i in 0x134..0x14D {
        sum = sum.wrapping_sub(image[i]).wrapping_sub(1);
    }
    image[0x14D] = sum;
    image[0x14E] = 0x12;
    image[0x14F] = 0x34;
    image
}

#[test]
fn cartridge_from_image() {
    let c = Cartridge::from_bytes(image());
    assert_eq!(c.title, "TETRIS");
    assert_eq!(c.features, vec![CartFeature::MBC1, CartFeature::RAM, CartFeature::Battery]);
    assert_eq!((c.rom_size, c.rom_banks), (0x8000, 1));
    assert_eq!((c.ram_size, c.ram_banks), (0x2000, 1));
    assert_eq!(c.locale, "Japanese");
    assert_eq!(c.global_checksum, 0x1234);
    assert_eq!(c.contents, image());
    assert_eq!(c.validate(), Ok(()));
}

#[test]
fn cartridge_with_a_wrong_header() {
    let mut bytes = image();
    bytes[0x105] ^= 0xFF;
    let c = Cartridge::from_bytes(bytes);
    assert_eq!(
        c.validate(),
        Err(String::from(
            "Error validating Nintendo graphic: The following bytes are incorrect:\n\
             At offset 0x0105: Expected 0xED; found 0x12\n"
        ))
    );
    let mut bytes = image();
    bytes[0x14D] = bytes[0x14D].wrapping_add(3);
    let expected = bytes[0x14D];
    let c = Cartridge::from_bytes(bytes);
    assert_eq!(
        c.validate(),
        Err(format!(
            "Invalid header checksum: Expected {}; actual sum is {}",
            expected,
            expected.wrapping_sub(3)
        ))
    );
    let c = Cartridge::from_bytes(vec![0; 0x120]);
    assert_eq!(
        c.validate(),
        Err(String::from(
            "Error validating Nintendo graphic: Could not read the bytes from 0x0104 to 0x0133"
        ))
    );
}

#[test]
fn cartridge_dump() {
    let mut c = Cartridge::from_bytes(vec![]);
    c.contents = (0u8..18).map(|i| 0x30 + i).collect();
    c.contents[3] = b' ';
    c.contents[4] = 0x7F;
    c.contents[5] = 0x00;
    c.contents[6] = 0xE9;
    let mut chars = String::new();
    let mut hex = String::new();
    for (i, b) in c.contents.iter().enumerate() {
        if i % 16 == 0 {
            chars.push('\n');
            chars.push_str(&format!("0x{:08X} ", i));
            hex.push('\n');
            hex.push_str(&format!("0x{:08X} ", i));
        }
        if b.is_ascii_control() || b.is_ascii_whitespace() {
            chars.push_str(". ");
        } else {
            chars.push_str(&format!("{} ", *b as char));
        }
        hex.push_str(&format!("{:02X} ", b));
    }
    assert_eq!(c.dump_text(true), chars);
    assert_eq!(c.dump_text(false), hex);
    assert!(chars.starts_with("\n0x00000000 0 1 2 . . . \u{e9} 7 "));
    assert!(hex.contains("\n0x00000010 40 41 "));
}

fn console_with(program: &[u8]) -> Console {
    let mut c = Cartridge::from_bytes(vec![]);
    c.contents = program.to_vec();
    let mut console = Console::new(Some(c));
    console.cpu.pc = 0;
    console
}

#[test]
fn console_runs_a_program() {
    let mut console = console_with(&[
        0x01, 0x34, 0x12, // ld BC, $1234
        0x06, 0x0F, // ld B, $0F
        0x21, 0x00, 0xC0, // ld HL, $C000
        0x3C, // inc A
        0x44, // ld B, H
        0x4D, // ld C, L
        0xC5, // push BC
        0x50, // ld D, B
        0xEA, 0x10, 0xC0, // ld ($C010), A
        0xC1, // pop BC
        0xFE, 0x02, // cp $02
        0x20, 0x02, // jr nz, +2
        0x00, 0x00, // (skipped when the jump is taken)
        0xE0, 0x80, // ldh ($80), A
        0xF0, 0x80, // ldh A, ($80)
        0xCB, 0x37, // swap A
        0x3B, // dec SP
        0xC3, 0x22, 0x00, // jp $0022
        0x00, // (skipped)
        0x76, // halt
    ]);
    let mut status = CPUStatus::Continue;
    let mut steps = 0;
    while status == CPUStatus::Continue {
        status = console.exec().unwrap();
        steps += 1;
        assert!(steps < 100);
    }
    assert_eq!(status, CPUStatus::Halt);
    assert_eq!(console.cpu.pc, 0x0022);
    assert_eq!(console.cpu.get_bc(), 0xC000);
    assert_eq!(console.cpu.d, 0xC0);
    assert_eq!(console.cpu.a, 0x20);
    assert_eq!(console.ram.read_byte(0xC010), 0x02);
    assert_eq!(console.ram.read_byte(0xFF80), 0x02);
    assert_eq!(console.cpu.sp, 0xFFFD);
    assert_eq!(console.cpu.stack[0xFFFC], 0xC000);
}

#[test]
fn console_step_reports_what_it_cannot_do() {
    let mut console = console_with(&[0x00, 0x02]);
    assert_eq!(console.step(), Ok(()));
    assert_eq!(console.cpu.pc, 1);
    assert_eq!(console.step(), Err(String::from("UNKNOWN OPCODE: 02")));
    assert_eq!(console.cpu.pc, 1);
    console.cpu.pc = 2;
    assert_eq!(console.step(), Err(String::from("No instruction to read at 0002")));
    let mut console = console_with(&[0x01, 0x34]);
    assert_eq!(console.exec(), Err(String::from("No instruction to read at 0000")));
    // without a cartridge every byte of code is zero: nop
    let mut console = Console::new(None);
    assert_eq!(console.cpu.pc, 0x0100);
    assert_eq!(console.exec(), Ok(CPUStatus::Continue));
    assert_eq!(console.cpu.pc, 0x0101);
    console.cpu.pc = 0xFFFF;
    assert_eq!(console.exec(), Ok(CPUStatus::Continue));
    assert_eq!(console.cpu.pc, 0x0000);
}

#[test]
fn console_more_opcodes() {
    let mut console = console_with(&[
        0x21, 0x05, 0xC0, // ld HL, $C005
        0xCB, 0xFE, // set 7, (HL)
        0x7E, // ld A, (HL)
        0xCB, 0x7F, // bit 7, A
        0xF5, // push AF
        0xF3, // di
        0xFB, // ei
        0x51, // ld D, C
        0x61, // ld H, C
        0x78, // ld A, B
        0x7F, // ld A, A
        0xE9, // jp (HL)
        0x10, // stop
    ]);
    console.ram.write_byte(0xFFFF, 1);
    for _ in 0..5 {
        console.step().unwrap();
    }
    assert_eq!(console.ram.read_byte(0xC005), 0x80);
    assert_eq!(console.cpu.a, 0x80);
    assert_eq!(console.cpu.get_zero(), 0);
    assert_eq!(console.cpu.get_half_carry(), 1);
    assert_eq!(console.cpu.stack[0xFFFC], console.cpu.get_af());
    console.step().unwrap();
    assert_eq!(console.ram.read_byte(0xFFFF), 0);
    for _ in 0..5 {
        console.step().unwrap();
    }
    assert_eq!(console.cpu.d, 0x13);
    assert_eq!(console.cpu.h, 0x13);
    assert_eq!(console.cpu.a, 0x00);
    console.cpu.set_hl(0x0010);
    console.step().unwrap();
    assert_eq!(console.cpu.pc, 0x0010);
    assert_eq!(console.exec(), Ok(CPUStatus::Stop));
    assert_eq!(console.cpu.pc, 0x0010);
}

#[test]
fn bank_controllers() {
    let bank: &'static [u8; 0x4000] = Box::leak(Box::new([0u8; 0x4000]));
    let enabled: &'static [bool; 4] = Box::leak(Box::new([false; 4]));
    let mut one = MemoryBankController::MBC1(MBC1 {
        rom_bank_0: bank,
        rom_banks: vec![bank],
        ram_banks: vec![],
        ram_enabled: false,
        current_rom_bank: 1,
        current_ram_bank: 0,
        mode: MBCMode::ROM,
    });
    set_rom_bank(&mut one, 0x0123);
    set_ram_bank(&mut one, 3);
    assert!(matches!(&one, MemoryBankController::MBC1(m) if m.current_rom_bank == 0x23 && m.current_ram_bank == 3));
    let mut two = MemoryBankController::MBC2(MBC2 {
        rom_bank_0: bank,
        rom_banks: vec![],
        ram_enabled: enabled,
        current_rom_bank: 1,
        ram: Memory::init(),
    });
    set_rom_bank(&mut two, 0x0F);
    set_ram_bank(&mut two, 3);
    assert!(matches!(&two, MemoryBankController::MBC2(m) if m.current_rom_bank == 0x0F));
    let mut five = MemoryBankController::MBC5(MBC5 {
        rom_bank_0: bank,
        rom_banks: vec![],
        ram_banks: vec![],
        ram_enabled: true,
        current_rom_bank: 1,
        current_ram_bank: 0,
    });
    set_rom_bank(&mut five, 0x01FF);
    set_ram_bank(&mut five, 0x0F);
    assert!(matches!(&five, MemoryBankController::MBC5(m) if m.current_rom_bank == 0x01FF && m.current_ram_bank == 0x0F));
    let mut none = MemoryBankController::Absent;
    set_rom_bank(&mut none, 1);
    set_ram_bank(&mut none, 1);
    assert!(matches!(none, MemoryBankController::Absent));
}

#[test]
fn vector_helpers() {
    assert_eq!(make_vec(0), Vec::<u8>::new());
    assert_eq!(make_vec(5), vec![0, 0, 0, 0, 0]);
    let v = vec![String::from("a"), String::from("b"), String::from("c")];
    assert_eq!(vec_slice(&v, 1, 3), vec![String::from("b"), String::from("c")]);
    assert_eq!(vec_slice(&v, 2, 2), Vec::<String>::new());
    let mut console = console_with(&[1, 2, 3]);
    assert_eq!(read_byte(&console, 2), 3);
    write_byte(&mut console, 1, 0x77);
    assert_eq!(read_byte(&console, 1), 0x77);
    let mut empty = Console::new(None);
    assert_eq!(read_byte(&empty, 0x1234), 0);
    write_byte(&mut empty, 0x1234, 1);
    assert_eq!(read_byte(&empty, 0x1234), 0);
}
