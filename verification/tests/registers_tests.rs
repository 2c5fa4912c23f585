use gbars::classic::registers::{Accumulator, Reg16, Reg8, Register, Registers};
use gbars::classic::utils::{
    add_i8_to_u16, add_i8_to_u8, wrapping_dec_16, wrapping_dec_8, wrapping_inc_16, wrapping_inc_8,
};

fn flags(r: &Registers) -> (bool, bool, bool, bool) {
    (r.zero(), r.neg(), r.half_carry(), r.carry())
}

#[test]
fn init_is_all_zero() {
    let r = Registers::init();
    assert_eq!(
        (r.a.0, r.f.0, r.b.0, r.c.0, r.d.0, r.e.0, r.h.0, r.l.0, r.sp, r.pc),
        (0, 0, 0, 0, 0, 0, 0, 0, 0, 0)
    );
}

#[test]
fn pairs_alias_their_bytes() {
    let mut r = Registers::init();
    r.set_bc(0x1234);
    assert_eq!((r.b.0, r.c.0), (0x12, 0x34));
    assert_eq!(r.get_bc(), 0x1234);
    r.set_de(0x5678);
    assert_eq!((r.d.0, r.e.0), (0x56, 0x78));
    assert_eq!(r.get_de(), 0x5678);
    r.set_hl(0x9ABC);
    assert_eq!((r.h.0, r.l.0), (0x9A, 0xBC));
    assert_eq!(r.get_hl(), 0x9ABC);
    r.set_af(0xDEF0);
    assert_eq!((r.a.0, r.f.0), (0xDE, 0xF0));
    assert_eq!(r.get_af(), 0xDEF0);
    r.d = Reg8(0xAB);
    r.e = Reg8(0xCD);
    assert_eq!(r.get_de(), 0xABCD);
}

#[test]
fn set_af_drops_the_low_nibble() {
    let mut r = Registers::init();
    r.set_af(0x12FF);
    assert_eq!(r.a.0, 0x12);
    assert_eq!(r.f.0, 0xF0);
    assert_eq!(r.get_af(), 0x12F0);
}

#[test]
fn set_after_get_changes_nothing() {
    let mut r = Registers::init();
    r.set_bc(0x0102);
    r.set_de(0x0304);
    r.set_hl(0x0506);
    r.set_af(0x07A0);
    let before = r;
    let v = r.get_bc();
    r.set_bc(v);
    let v = r.get_de();
    r.set_de(v);
    let v = r.get_hl();
    r.set_hl(v);
    let v = r.get_af();
    r.set_af(v);
    assert_eq!(r, before);
}

#[test]
fn inc_then_dec_is_the_identity() {
    let mut r = Registers::init();
    r.set_bc(0xFFFF);
    r.set_de(0x00FF);
    r.set_hl(0x0000);
    r.set_flags(Some(true), Some(false), Some(true), Some(false));
    let before = r;
    r.inc_bc();
    assert_eq!(r.get_bc(), 0x0000);
    r.dec_bc();
    r.inc_de();
    assert_eq!(r.get_de(), 0x0100);
    r.dec_de();
    r.dec_hl();
    assert_eq!(r.get_hl(), 0xFFFF);
    r.inc_hl();
    assert_eq!(r, before);
}

#[test]
fn do_pair_applies_the_function() {
    let mut r = Registers::init();
    r.set_bc(0x0010);
    r.do_bc(|v: u16| v.wrapping_mul(3));
    assert_eq!(r.get_bc(), 0x0030);
    r.do_de(|v: u16| v.wrapping_sub(1));
    assert_eq!(r.get_de(), 0xFFFF);
    r.do_hl(|_v: u16| 0x4242);
    assert_eq!(r.get_hl(), 0x4242);
}

#[test]
fn add_sets_flags() {
    let mut r = Registers::init();
    r.a = Reg8(0xFF);
    r.add(0x01);
    assert_eq!(r.a.0, 0x00);
    assert_eq!(flags(&r), (true, false, true, true));
    r.a = Reg8(0x0F);
    r.add(0x01);
    assert_eq!(r.a.0, 0x10);
    assert_eq!(flags(&r), (false, false, true, false));
    r.a = Reg8(0x80);
    r.add(0x80);
    assert_eq!(r.a.0, 0x00);
    assert_eq!(flags(&r), (true, false, false, true));
    r.a = Reg8(0x12);
    r.add(0x34);
    assert_eq!(r.a.0, 0x46);
    assert_eq!(flags(&r), (false, false, false, false));
    assert_eq!(r.f.0, 0x00);
}

#[test]
fn adc_adds_the_carry() {
    let mut r = Registers::init();
    r.a = Reg8(0xFE);
    r.set_flags(None, None, None, Some(true));
    r.adc(0x01);
    assert_eq!(r.a.0, 0x00);
    assert_eq!(flags(&r), (true, false, true, true));
    r.a = Reg8(0x00);
    r.adc(0xFF);
    assert_eq!(r.a.0, 0x00);
    assert_eq!(flags(&r), (true, false, true, true));
    r.a = Reg8(0x0E);
    r.set_flags(None, None, None, Some(false));
    r.adc(0x01);
    assert_eq!(r.a.0, 0x0F);
    assert_eq!(flags(&r), (false, false, false, false));
}

#[test]
fn sub_sets_flags() {
    let mut r = Registers::init();
    r.a = Reg8(0x00);
    r.sub(0x01);
    assert_eq!(r.a.0, 0xFF);
    assert_eq!(flags(&r), (false, true, true, true));
    r.a = Reg8(0x10);
    r.sub(0x01);
    assert_eq!(r.a.0, 0x0F);
    assert_eq!(flags(&r), (false, true, true, false));
    r.a = Reg8(0x42);
    r.sub(0x42);
    assert_eq!(r.a.0, 0x00);
    assert_eq!(flags(&r), (true, true, false, false));
}

#[test]
fn sbc_subtracts_the_carry() {
    let mut r = Registers::init();
    r.a = Reg8(0x00);
    r.set_flags(None, None, None, Some(true));
    r.sbc(0xFF);
    assert_eq!(r.a.0, 0x00);
    assert_eq!(flags(&r), (true, true, true, true));
    r.a = Reg8(0x10);
    r.set_flags(None, None, None, Some(true));
    r.sbc(0x00);
    assert_eq!(r.a.0, 0x0F);
    assert_eq!(flags(&r), (false, true, true, false));
}

#[test]
fn logic_sets_flags() {
    let mut r = Registers::init();
    r.a = Reg8(0xF0);
    r.and(0x0F);
    assert_eq!(r.a.0, 0x00);
    assert_eq!(flags(&r), (true, false, true, false));
    r.a = Reg8(0xF0);
    r.or(0x0F);
    assert_eq!(r.a.0, 0xFF);
    assert_eq!(flags(&r), (false, false, false, false));
    r.xor(0xFF);
    assert_eq!(r.a.0, 0x00);
    assert_eq!(flags(&r), (true, false, false, false));
}

#[test]
fn cp_keeps_the_accumulator() {
    let mut r = Registers::init();
    r.a = Reg8(0x10);
    r.cp(0x20);
    assert_eq!(r.a.0, 0x10);
    assert_eq!(flags(&r), (false, true, false, true));
    r.cp(0x10);
    assert_eq!(flags(&r), (true, true, false, false));
    r.cp(0x01);
    assert_eq!(flags(&r), (false, true, true, false));
}

#[test]
fn add_hl_keeps_zero_and_sets_carries() {
    let mut r = Registers::init();
    r.set_flags(Some(true), Some(true), Some(false), Some(false));
    r.set_hl(0x0FFF);
    r.add_hl(0x0001);
    assert_eq!(r.get_hl(), 0x1000);
    assert_eq!(flags(&r), (true, false, true, false));
    r.set_hl(0xFFFF);
    r.add_hl(0x0001);
    assert_eq!(r.get_hl(), 0x0000);
    assert_eq!(flags(&r), (true, false, true, true));
    r.set_flags(Some(false), None, None, None);
    r.set_hl(0x8000);
    r.add_hl(0x8000);
    assert_eq!(flags(&r), (false, false, false, true));
}

#[test]
fn daa_after_addition() {
    let mut r = Registers::init();
    // 0x15 + 0x27 = 0x3C, 15 + 27 = 42
    r.a = Reg8(0x15);
    r.add(0x27);
    r.daa();
    assert_eq!(r.a.0, 0x42);
    assert_eq!(flags(&r), (false, false, false, false));
    // 0x99 + 0x01 = 0x9A, 99 + 1 = 100
    r.a = Reg8(0x99);
    r.add(0x01);
    r.daa();
    assert_eq!(r.a.0, 0x00);
    assert_eq!(flags(&r), (true, false, false, true));
    // 0x90 + 0x90 = 0x20 with carry, 90 + 90 = 180
    r.a = Reg8(0x90);
    r.add(0x90);
    r.daa();
    assert_eq!(r.a.0, 0x80);
    assert_eq!(flags(&r), (false, false, false, true));
}

#[test]
fn daa_after_subtraction() {
    let mut r = Registers::init();
    // 0x42 - 0x15 = 0x2D, 42 - 15 = 27
    r.a = Reg8(0x42);
    r.sub(0x15);
    r.daa();
    assert_eq!(r.a.0, 0x27);
    assert_eq!(flags(&r), (false, true, false, false));
    // 0x10 - 0x20 = 0xF0 with borrow, 10 - 20 = -10 = 90 - 100
    r.a = Reg8(0x10);
    r.sub(0x20);
    r.daa();
    assert_eq!(r.a.0, 0x90);
    assert_eq!(flags(&r), (false, true, false, true));
}

#[test]
fn cpl_inverts() {
    let mut r = Registers::init();
    r.a = Reg8(0x35);
    r.set_flags(Some(true), Some(false), Some(false), Some(true));
    r.cpl();
    assert_eq!(r.a.0, 0xCA);
    assert_eq!(flags(&r), (true, true, true, true));
}

#[test]
fn accumulator_rotations() {
    let mut r = Registers::init();
    r.a = Reg8(0x85);
    r.rlca();
    assert_eq!(r.a.0, 0x0B);
    assert_eq!(flags(&r), (false, false, false, true));
    r.a = Reg8(0x01);
    r.rrca();
    assert_eq!(r.a.0, 0x80);
    assert_eq!(flags(&r), (false, false, false, true));
    r.a = Reg8(0x80);
    r.set_flags(None, None, None, Some(false));
    r.rla();
    assert_eq!(r.a.0, 0x00);
    assert_eq!(flags(&r), (false, false, false, true));
    r.rla();
    assert_eq!(r.a.0, 0x01);
    assert_eq!(flags(&r), (false, false, false, false));
    r.a = Reg8(0x01);
    r.rra();
    assert_eq!(r.a.0, 0x00);
    assert_eq!(flags(&r), (false, false, false, true));
    r.rra();
    assert_eq!(r.a.0, 0x80);
    assert_eq!(flags(&r), (false, false, false, false));
}

#[test]
fn set_flags_keeps_what_is_not_given() {
    let mut r = Registers::init();
    r.set_flags(Some(true), Some(false), Some(true), Some(false));
    assert_eq!(r.f.0, 0xA0);
    r.set_flags(None, Some(true), None, Some(true));
    assert_eq!(r.f.0, 0xF0);
    r.set_flags(Some(false), None, Some(false), None);
    assert_eq!(r.f.0, 0x50);
    r.set_flags(None, None, None, None);
    assert_eq!(r.f.0, 0x50);
    assert_eq!(r.carry_bit(), 1);
    r.f = Reg8(0x0F);
    r.set_flags(None, None, None, None);
    assert_eq!(r.f.0, 0x00);
}

#[test]
fn half_carry_and_half_borrow() {
    assert!(Registers::half_carry_occurred(0x0F, 0x01));
    assert!(Registers::half_carry_occurred(0x0D, 0x07));
    assert!(!Registers::half_carry_occurred(0x10, 0x02));
    assert!(!Registers::half_carry_occurred(0xF0, 0xF0));
    assert!(Registers::half_borrow_occurred(0x10, 0x01));
    assert!(Registers::half_borrow_occurred(0x16, 0x0A));
    assert!(!Registers::half_borrow_occurred(0x1C, 0x0A));
    assert!(!Registers::half_borrow_occurred(0x0F, 0x0F));
}

#[test]
fn reg8_bits() {
    let mut r = Reg8(0);
    r.load(0xA5);
    assert_eq!(r.0, 0xA5);
    assert_eq!(r.bit(0), 1);
    assert_eq!(r.bit(1), 0);
    assert_eq!(r.bit(7), 1);
    r.reset(0);
    assert_eq!(r.0, 0xA4);
    r.set(1);
    assert_eq!(r.0, 0xA6);
    r.swap();
    assert_eq!(r.0, 0x6A);
    r.rot_left();
    assert_eq!(r.0, 0xD4);
    r.rot_left();
    assert_eq!(r.0, 0xA9);
    r.rot_right();
    r.rot_right();
    assert_eq!(r.0, 0x6A);
}

#[test]
fn registers_load() {
    let mut a = Accumulator(1);
    Register::load(&mut a, 0x77);
    assert_eq!(a.0, 0x77);
    let mut r = Reg16(0);
    Register::load(&mut r, 0xBEEF);
    assert_eq!(r.0, 0xBEEF);
    let mut b = Reg8(0);
    Register::load(&mut b, 0x12);
    assert_eq!(b.0, 0x12);
}

#[test]
fn wrapping_helpers() {
    assert_eq!(wrapping_inc_8(0xFF), 0x00);
    assert_eq!(wrapping_inc_8(0x7F), 0x80);
    assert_eq!(wrapping_dec_8(0x00), 0xFF);
    assert_eq!(wrapping_inc_16(0xFFFF), 0x0000);
    assert_eq!(wrapping_dec_16(0x0000), 0xFFFF);
    assert_eq!(add_i8_to_u8(0x10, -0x20), 0xF0);
    assert_eq!(add_i8_to_u8(0xF0, 0x20), 0x10);
    assert_eq!(add_i8_to_u8(0x00, -128), 0x80);
    assert_eq!(add_i8_to_u16(0x0000, -1), 0xFFFF);
    assert_eq!(add_i8_to_u16(0xFFFF, 1), 0x0000);
    assert_eq!(add_i8_to_u16(0x1000, -128), 0x0F80);
    assert_eq!(add_i8_to_u16(0x1000, 127), 0x107F);
}
