use gbars::classic::cartridge::Cartridge;
use gbars::classic::console::Console;
use gbars::classic::cpu::{Cpu, CpuState, DataRead, OpRead};
use gbars::classic::instruction::{Arg, Instruction};
use gbars::classic::memory::{MBC, ROM};

fn cartridge_with(program: &[u8]) -> Cartridge {
    Cartridge {
        title: "".to_string(),
        mbc: MBC::RomOnly(ROM::new(program.to_vec())),
        features: vec![],
        rom_size: 0,
        rom_banks: 0,
        ram_size: 0,
        ram_banks: 0,
        locale: "".to_string(),
        header_checksum: 0,
        global_checksum: 0,
    }
}

/// Runs a program from address 0 until the program counter has left it.
fn run(program: &[u8]) -> (Cpu, Console) {
    let mut cpu = Cpu::init();
    let mut console = Console::start(Some(cartridge_with(program)));
    let mut steps = 0;
    while (cpu.registers.pc as usize) < program.len() || cpu.state == CpuState::Exec {
        cpu.step(&mut console).unwrap();
        steps += 1;
        assert!(steps < 100_000);
    }
    (cpu, console)
}

/// Executes one whole instruction.
fn one(cpu: &mut Cpu, console: &mut Console) {
    cpu.step(console).unwrap();
    while cpu.state != CpuState::OpRead(OpRead::General) {
        cpu.step(console).unwrap();
    }
}

#[test]
fn test_multiplication() {
    // This is a program that just multiplies 2 by 4
    let program = vec![
        0x3E, 0x02, // ld A, $02
        0x4F, // ld C, A
        0x06, 0x04, // ld B, $04
        0x05, // dec B
        // loop:
        0x81, // add C
        0x05, // dec B
        0xC2, 0x06, 0x00, // jp nz, loop
    ];

    let cartridge = Cartridge {
        title: "".to_string(),
        mbc: MBC::RomOnly(ROM::new(program.clone())),
        features: vec![],
        rom_size: 0,
        rom_banks: 0,
        ram_size: 0,
        ram_banks: 0,
        locale: "".to_string(),
        header_checksum: 0,
        global_checksum: 0,
    };

    let mut cpu = Cpu::init();

    let mut console = Console::start(Some(cartridge));

    while (cpu.registers.pc as usize) < program.len() || cpu.state == CpuState::Exec {
        cpu.step(&mut console).unwrap();
    }

    assert_eq!(cpu.registers.a.0, 8);
}

#[test]
fn test_division() {
    // This is a program that divides 8 by 2
    let program = vec![
        0x3E, 0x08, // ld A, $08
        0x06, 0x02, // ld B, $02
        0x0E, 0x00, // ld C, $00
        // loop:
        0x0C, // inc C
        0x90, // sub B
        0xC2, 0x06, 0x00, // jp nz, loop
        0x79, // ld A, C
    ];
    let (cpu, _) = run(&program);
    assert_eq!(cpu.registers.a.0, 4);
}

#[test]
fn stack_integrity() {
    let program = vec![
        0x31, 0xF0, 0xDF, // ld SP, $DFF0
        0x21, 0x34, 0x12, // ld HL, $1234
        0xE5, // push HL
        0x21, 0xEF, 0xBE, // ld HL, $BEEF
        0xC1, // pop BC
    ];
    let (cpu, console) = run(&program);
    assert_eq!(cpu.registers.b.0, 0x12);
    assert_eq!(cpu.registers.c.0, 0x34);
    assert_eq!(cpu.registers.h.0, 0xBE);
    assert_eq!(cpu.registers.l.0, 0xEF);
    assert_eq!(cpu.registers.sp, 0xDFF0);
    // the high byte lies just below the old stack pointer, the low byte below it
    assert_eq!(console.read(0xDFEF), Some(0x12));
    assert_eq!(console.read(0xDFEE), Some(0x34));
}

#[test]
fn push_stack_then_pop_stack() {
    let mut cpu = Cpu::init();
    let mut console = Console::start(None);
    cpu.registers.sp = 0xFFFE;
    cpu.push_stack(&mut console, 0xABCD);
    assert_eq!(cpu.registers.sp, 0xFFFC);
    assert_eq!(console.read(0xFFFD), Some(0xAB));
    assert_eq!(console.read(0xFFFC), Some(0xCD));
    assert_eq!(cpu.pop_stack(&console), 0xABCD);
    assert_eq!(cpu.registers.sp, 0xFFFE);
}

#[test]
fn add_immediate_carries() {
    // ld A, $FF; add A, $01
    let (cpu, _) = run(&[0x3E, 0xFF, 0xC6, 0x01]);
    assert_eq!(cpu.registers.a.0, 0x00);
    assert!(cpu.registers.zero());
    assert!(cpu.registers.half_carry());
    assert!(cpu.registers.carry());
    assert!(!cpu.registers.neg());
    assert_eq!(cpu.registers.f.0, 0xB0);
}

#[test]
fn sub_immediate_borrows() {
    // ld A, $00; sub A, $01
    let (cpu, _) = run(&[0x3E, 0x00, 0xD6, 0x01]);
    assert_eq!(cpu.registers.a.0, 0xFF);
    assert!(!cpu.registers.zero());
    assert!(cpu.registers.neg());
    assert!(cpu.registers.half_carry());
    assert!(cpu.registers.carry());
    assert_eq!(cpu.registers.f.0, 0x70);
}

#[test]
fn inc_sets_half_carry() {
    // ld B, $0F; inc B
    let (cpu, _) = run(&[0x06, 0x0F, 0x04]);
    assert_eq!(cpu.registers.b.0, 0x10);
    assert!(cpu.registers.half_carry());
    assert!(!cpu.registers.zero());
    assert!(!cpu.registers.neg());
}

#[test]
fn dec_sets_half_borrow() {
    // ld B, $10; dec B
    let (cpu, _) = run(&[0x06, 0x10, 0x05]);
    assert_eq!(cpu.registers.b.0, 0x0F);
    assert!(cpu.registers.half_carry());
    assert!(!cpu.registers.zero());
    assert!(cpu.registers.neg());
}

#[test]
fn inc_keeps_carry() {
    // scf; ld B, $FF; inc B
    let (cpu, _) = run(&[0x37, 0x06, 0xFF, 0x04]);
    assert_eq!(cpu.registers.b.0, 0x00);
    assert!(cpu.registers.zero());
    assert!(cpu.registers.half_carry());
    assert!(cpu.registers.carry());
}

#[test]
fn conditional_jr_costs_twelve_taken_and_eight_not() {
    // xor A (sets Z); jr z, +0
    let mut cpu = Cpu::init();
    let mut console = Console::start(Some(cartridge_with(&[0xAF, 0x28, 0x00, 0x00])));
    one(&mut cpu, &mut console);
    assert!(cpu.registers.zero());
    one(&mut cpu, &mut console);
    assert_eq!(cpu.last_cycles, 12);

    // or A, $01 (clears Z); jr z, +0
    let mut cpu = Cpu::init();
    let mut console = Console::start(Some(cartridge_with(&[0xF6, 0x01, 0x28, 0x00, 0x00])));
    one(&mut cpu, &mut console);
    assert!(!cpu.registers.zero());
    one(&mut cpu, &mut console);
    assert_eq!(cpu.last_cycles, 8);
}

#[test]
fn jr_moves_the_program_counter_both_ways() {
    // jr +2; (skipped: ld A, $11); ld B, $22
    let (cpu, _) = run(&[0x18, 0x02, 0x3E, 0x11, 0x06, 0x22]);
    assert_eq!(cpu.registers.a.0, 0);
    assert_eq!(cpu.registers.b.0, 0x22);

    // inc A; cp $03; jr nz, -5
    let (cpu, _) = run(&[0x3C, 0xFE, 0x03, 0x20, 0xFB]);
    assert_eq!(cpu.registers.a.0, 3);
}

#[test]
fn states_follow_the_argument() {
    let mut cpu = Cpu::init();
    let mut console =
        Console::start(Some(cartridge_with(&[0x00, 0x0E, 0x39, 0xC3, 0x0B, 0x00, 0xCB, 0x37])));
    assert_eq!(cpu.state, CpuState::OpRead(OpRead::General));
    // nop
    cpu.step(&mut console).unwrap();
    assert_eq!(cpu.state, CpuState::Exec);
    assert_eq!(cpu.registers.pc, 1);
    cpu.step(&mut console).unwrap();
    assert_eq!(cpu.state, CpuState::OpRead(OpRead::General));
    assert_eq!(cpu.registers.pc, 1);
    assert_eq!(cpu.last_cycles, 4);
    // ld C, $39
    cpu.step(&mut console).unwrap();
    assert_eq!(cpu.state, CpuState::DataRead(DataRead::Byte));
    cpu.step(&mut console).unwrap();
    assert_eq!(cpu.state, CpuState::Exec);
    assert_eq!(cpu.instruction.arg, Arg::Data8(0x39));
    cpu.step(&mut console).unwrap();
    assert_eq!(cpu.registers.c.0, 0x39);
    // jp $000B
    cpu.step(&mut console).unwrap();
    assert_eq!(cpu.state, CpuState::DataRead(DataRead::ShortLo));
    cpu.step(&mut console).unwrap();
    assert_eq!(cpu.state, CpuState::DataRead(DataRead::ShortHi));
    cpu.step(&mut console).unwrap();
    assert_eq!(cpu.state, CpuState::Exec);
    assert_eq!(cpu.instruction.arg, Arg::Addr16(0x000B));
    cpu.step(&mut console).unwrap();
    assert_eq!(cpu.registers.pc, 0x000B);
    assert_eq!(cpu.last_cycles, 16);
    // prefix
    cpu.registers.pc = 6;
    cpu.step(&mut console).unwrap();
    assert_eq!(cpu.state, CpuState::OpRead(OpRead::PrefixCB));
    cpu.step(&mut console).unwrap();
    assert_eq!(cpu.state, CpuState::Exec);
    assert!(cpu.instruction.prefixed);
    assert_eq!(cpu.instruction.opcode, 0x37);
    cpu.step(&mut console).unwrap();
    assert_eq!(cpu.last_cycles, 8);
}

#[test]
fn undefined_opcode_is_fatal() {
    for opcode in [0xD3u8, 0xDB, 0xDD, 0xE3, 0xE4, 0xEB, 0xEC, 0xED, 0xF4, 0xFC, 0xFD] {
        let mut cpu = Cpu::init();
        let mut console = Console::start(Some(cartridge_with(&[opcode])));
        cpu.step(&mut console).unwrap();
        assert_eq!(cpu.state, CpuState::Exec);
        assert_eq!(cpu.step(&mut console), Err(format!("Undefined opcode 0x{:02X}", opcode)));
        assert_eq!(cpu.state, CpuState::Exec);
        assert_eq!(cpu.registers.pc, 1);
    }
}

#[test]
fn argument_of_the_wrong_kind_is_fatal() {
    let mut cpu = Cpu::init();
    let mut console = Console::start(None);
    cpu.state = CpuState::DataRead(DataRead::Byte);
    assert_eq!(cpu.step(&mut console), Err(String::from("Wrong argument for opcode 0x00")));
    cpu.instruction = Instruction::new(0x3E, "ld A, <d8>", Arg::Data16(0), 8, 8);
    cpu.state = CpuState::Exec;
    assert_eq!(cpu.step(&mut console), Err(String::from("Wrong argument for opcode 0x3E")));
}

#[test]
fn reading_nothing_reads_ff() {
    // no cartridge: the opcode read at 0 is 0xFF, rst $38
    let mut cpu = Cpu::init();
    let mut console = Console::start(None);
    cpu.registers.sp = 0xD000;
    one(&mut cpu, &mut console);
    assert_eq!(cpu.instruction.opcode, 0xFF);
    assert_eq!(cpu.registers.pc, 0x0038);
    assert_eq!(cpu.registers.sp, 0xCFFE);
    assert_eq!(console.read(0xCFFF), Some(0x00));
    assert_eq!(console.read(0xCFFE), Some(0x01));
}

#[test]
fn interrupt_latches_last_one_instruction() {
    // di; nop; ei; nop; nop
    let mut cpu = Cpu::init();
    let mut console = Console::start(Some(cartridge_with(&[0xF3, 0x00, 0xFB, 0x00, 0x00])));
    one(&mut cpu, &mut console);
    assert!(cpu.disable_interrupts);
    one(&mut cpu, &mut console);
    assert!(!cpu.disable_interrupts);
    one(&mut cpu, &mut console);
    assert!(cpu.enable_interrupts);
    assert!(!cpu.disable_interrupts);
    one(&mut cpu, &mut console);
    assert!(!cpu.enable_interrupts);
}

#[test]
fn call_and_return() {
    let program = vec![
        0x31, 0x00, 0xE0, // ld SP, $E000
        0xCD, 0x08, 0x00, // call $0008
        0x18, 0x03, // jr +3 (to the end)
        0x3E, 0x42, // ld A, $42
        0xC9, // ret
    ];
    let (cpu, console) = run(&program);
    assert_eq!(cpu.registers.a.0, 0x42);
    assert_eq!(cpu.registers.sp, 0xE000);
    assert_eq!(cpu.registers.pc, 11);
    assert_eq!(console.read(0xDFFF), Some(0x00));
    assert_eq!(console.read(0xDFFE), Some(0x06));
}

#[test]
fn conditional_call_and_return_cycles() {
    // ld SP, $E000; xor A; call nz, $0000 (not taken); call z, $000B; ... ; ret z
    let program =
        vec![0x31, 0x00, 0xE0, 0xAF, 0xC4, 0x00, 0x00, 0xCC, 0x0B, 0x00, 0x00, 0xC0, 0xC8];
    let mut cpu = Cpu::init();
    let mut console = Console::start(Some(cartridge_with(&program)));
    one(&mut cpu, &mut console);
    one(&mut cpu, &mut console);
    one(&mut cpu, &mut console);
    assert_eq!(cpu.last_cycles, 12);
    assert_eq!(cpu.registers.sp, 0xE000);
    one(&mut cpu, &mut console);
    assert_eq!(cpu.last_cycles, 24);
    assert_eq!(cpu.registers.pc, 0x000B);
    assert_eq!(cpu.registers.sp, 0xDFFE);
    one(&mut cpu, &mut console);
    assert_eq!(cpu.last_cycles, 8);
    assert_eq!(cpu.registers.pc, 0x000C);
    one(&mut cpu, &mut console);
    assert_eq!(cpu.last_cycles, 20);
    assert_eq!(cpu.registers.pc, 0x000A);
    assert_eq!(cpu.registers.sp, 0xE000);
}

#[test]
fn loads_through_hl() {
    let program = vec![
        0x21, 0x00, 0xC0, // ld HL, $C000
        0x36, 0x5A, // ld (HL), $5A
        0x34, // inc (HL)
        0x46, // ld B, (HL)
        0x3E, 0x77, // ld A, $77
        0x22, // ld (HL+), A
        0x32, // ld (HL-), A
        0x2A, // ld A, (HL+)
    ];
    let (cpu, console) = run(&program);
    assert_eq!(cpu.registers.b.0, 0x5B);
    assert_eq!(console.read(0xC000), Some(0x77));
    assert_eq!(console.read(0xC001), Some(0x77));
    assert_eq!(cpu.registers.a.0, 0x77);
    assert_eq!(cpu.registers.get_hl(), 0xC001);
}

#[test]
fn high_page_loads() {
    let program = vec![
        0x3E, 0x12, // ld A, $12
        0xE0, 0x80, // ldh ($80), A
        0x0E, 0x81, // ld C, $81
        0x3E, 0x34, // ld A, $34
        0xE2, // ld (C), A
        0xF0, 0x81, // ldh A, ($81)
        0x47, // ld B, A
        0x0E, 0x80, // ld C, $80
        0xF2, // ld A, (C)
        0xEA, 0x00, 0xC1, // ld ($C100), A
        0x3E, 0x00, // ld A, $00
        0xFA, 0x00, 0xC1, // ld A, ($C100)
    ];
    let (cpu, console) = run(&program);
    assert_eq!(console.read(0xFF80), Some(0x12));
    assert_eq!(console.read(0xFF81), Some(0x34));
    assert_eq!(cpu.registers.b.0, 0x34);
    assert_eq!(console.read(0xC100), Some(0x12));
    assert_eq!(cpu.registers.a.0, 0x12);
}

#[test]
fn stack_pointer_loads() {
    let program = vec![
        0x31, 0x34, 0x12, // ld SP, $1234
        0x08, 0x00, 0xC0, // ld ($C000), SP
        0xF8, 0xFE, // ld HL, SP - 2
        0xE8, 0x10, // add SP, $10
        0x21, 0x00, 0xD0, // ld HL, $D000
        0xF9, // ld SP, HL
    ];
    let mut cpu = Cpu::init();
    let mut console = Console::start(Some(cartridge_with(&program)));
    one(&mut cpu, &mut console);
    one(&mut cpu, &mut console);
    assert_eq!(console.read(0xC000), Some(0x34));
    assert_eq!(console.read(0xC001), Some(0x12));
    one(&mut cpu, &mut console);
    assert_eq!(cpu.registers.get_hl(), 0x1232);
    one(&mut cpu, &mut console);
    assert_eq!(cpu.registers.sp, 0x1244);
    one(&mut cpu, &mut console);
    one(&mut cpu, &mut console);
    assert_eq!(cpu.registers.sp, 0xD000);
}

#[test]
fn sixteen_bit_arithmetic() {
    let program = vec![
        0x21, 0xFF, 0x0F, // ld HL, $0FFF
        0x01, 0x01, 0x00, // ld BC, $0001
        0x09, // add HL, BC
        0x03, // inc BC
        0x1B, // dec DE
    ];
    let (cpu, _) = run(&program);
    assert_eq!(cpu.registers.get_hl(), 0x1000);
    assert!(cpu.registers.half_carry());
    assert!(!cpu.registers.carry());
    assert!(!cpu.registers.neg());
    assert_eq!(cpu.registers.get_bc(), 0x0002);
    assert_eq!(cpu.registers.get_de(), 0xFFFF);
}

#[test]
fn prefixed_operations() {
    // ld B, $85; rlc B
    let (cpu, _) = run(&[0x06, 0x85, 0xCB, 0x00]);
    assert_eq!(cpu.registers.b.0, 0x0B);
    assert!(cpu.registers.carry());
    // ld B, $85; rrc B
    let (cpu, _) = run(&[0x06, 0x85, 0xCB, 0x08]);
    assert_eq!(cpu.registers.b.0, 0xC2);
    assert!(cpu.registers.carry());
    // ld B, $85; rl B (carry clear)
    let (cpu, _) = run(&[0x06, 0x85, 0xCB, 0x10]);
    assert_eq!(cpu.registers.b.0, 0x0A);
    assert!(cpu.registers.carry());
    // scf; ld B, $84; rr B
    let (cpu, _) = run(&[0x37, 0x06, 0x84, 0xCB, 0x18]);
    assert_eq!(cpu.registers.b.0, 0xC2);
    assert!(!cpu.registers.carry());
    // ld B, $85; sla B
    let (cpu, _) = run(&[0x06, 0x85, 0xCB, 0x20]);
    assert_eq!(cpu.registers.b.0, 0x0A);
    assert!(cpu.registers.carry());
    // ld B, $85; sra B
    let (cpu, _) = run(&[0x06, 0x85, 0xCB, 0x28]);
    assert_eq!(cpu.registers.b.0, 0xC2);
    assert!(cpu.registers.carry());
    // ld B, $85; swap B
    let (cpu, _) = run(&[0x06, 0x85, 0xCB, 0x30]);
    assert_eq!(cpu.registers.b.0, 0x58);
    assert!(!cpu.registers.carry());
    // ld B, $85; srl B
    let (cpu, _) = run(&[0x06, 0x85, 0xCB, 0x38]);
    assert_eq!(cpu.registers.b.0, 0x42);
    assert!(cpu.registers.carry());
    // ld B, $01; srl B: zero and carry
    let (cpu, _) = run(&[0x06, 0x01, 0xCB, 0x38]);
    assert_eq!(cpu.registers.b.0, 0x00);
    assert!(cpu.registers.zero());
    assert!(cpu.registers.carry());
}

#[test]
fn bit_res_set() {
    // scf; ld A, $80; bit 7, A
    let (cpu, _) = run(&[0x37, 0x3E, 0x80, 0xCB, 0x7F]);
    assert_eq!(cpu.registers.a.0, 0x80);
    assert!(!cpu.registers.zero());
    assert!(cpu.registers.half_carry());
    assert!(!cpu.registers.neg());
    assert!(cpu.registers.carry());
    // ld A, $80; bit 0, A
    let (cpu, _) = run(&[0x3E, 0x80, 0xCB, 0x47]);
    assert_eq!(cpu.registers.a.0, 0x80);
    assert!(cpu.registers.zero());
    // ld A, $FF; res 3, A
    let (cpu, _) = run(&[0x3E, 0xFF, 0xCB, 0x9F]);
    assert_eq!(cpu.registers.a.0, 0xF7);
    assert_eq!(cpu.registers.f.0, 0x00);
    // ld HL, $C000; set 6, (HL)
    let (_, console) = run(&[0x21, 0x00, 0xC0, 0xCB, 0xF6]);
    assert_eq!(console.read(0xC000), Some(0x40));
}

#[test]
fn eight_rotations_come_back() {
    for opcode in [0x00u8, 0x08] {
        let mut program = vec![0x06, 0xA7];
        for _ in 0..8 {
            program.push(0xCB);
            program.push(opcode);
        }
        let (cpu, _) = run(&program);
        assert_eq!(cpu.registers.b.0, 0xA7);
    }
    // swap twice
    let (cpu, _) = run(&[0x06, 0xA7, 0xCB, 0x30, 0xCB, 0x30]);
    assert_eq!(cpu.registers.b.0, 0xA7);
    // rl nine times brings byte and carry back
    let mut program = vec![0x37, 0x06, 0xA7];
    for _ in 0..9 {
        program.push(0xCB);
        program.push(0x10);
    }
    let (cpu, _) = run(&program);
    assert_eq!(cpu.registers.b.0, 0xA7);
    assert!(cpu.registers.carry());
    // sla eight times leaves nothing
    let mut program = vec![0x06, 0xA7];
    for _ in 0..8 {
        program.push(0xCB);
        program.push(0x20);
    }
    let (cpu, _) = run(&program);
    assert_eq!(cpu.registers.b.0, 0x00);
}

#[test]
fn pop_af_keeps_the_low_nibble_clear() {
    let program = vec![
        0x31, 0x00, 0xE0, // ld SP, $E000
        0x01, 0xFF, 0x12, // ld BC, $12FF
        0xC5, // push BC
        0xF1, // pop AF
    ];
    let (cpu, _) = run(&program);
    assert_eq!(cpu.registers.a.0, 0x12);
    assert_eq!(cpu.registers.f.0, 0xF0);
    assert_eq!(cpu.registers.f.0 & 0x0F, 0);
}

#[test]
fn halt_and_stop_do_nothing() {
    let (cpu, _) = run(&[0x3E, 0x07, 0x76, 0x10, 0x00]);
    assert_eq!(cpu.registers.a.0, 0x07);
    assert_eq!(cpu.registers.pc, 5);
}

#[test]
fn rst_calls_the_low_page() {
    let program = vec![0x31, 0x00, 0xE0, 0xEF];
    let mut cpu = Cpu::init();
    let mut console = Console::start(Some(cartridge_with(&program)));
    one(&mut cpu, &mut console);
    one(&mut cpu, &mut console);
    assert_eq!(cpu.registers.pc, 0x0028);
    assert_eq!(cpu.registers.sp, 0xDFFE);
    assert_eq!(console.read(0xDFFE), Some(0x04));
    assert_eq!(cpu.last_cycles, 16);
}

#[test]
fn jp_hl_and_reti() {
    let program = vec![
        0x31, 0x00, 0xE0, // ld SP, $E000
        0x21, 0x08, 0x00, // ld HL, $0008
        0xE9, // jp (HL)
        0x00, // (skipped)
        0x01, 0x0E, 0x00, // ld BC, $000E
        0xC5, // push BC
        0xD9, // reti
        0x00, // (skipped)
        0x3E, 0x01, // ld A, $01
    ];
    let mut cpu = Cpu::init();
    let mut console = Console::start(Some(cartridge_with(&program)));
    for _ in 0..3 {
        one(&mut cpu, &mut console);
    }
    assert_eq!(cpu.registers.pc, 0x0008);
    assert_eq!(cpu.last_cycles, 4);
    for _ in 0..3 {
        one(&mut cpu, &mut console);
    }
    assert_eq!(cpu.registers.pc, 0x000E);
    assert!(cpu.enable_interrupts);
    one(&mut cpu, &mut console);
    assert!(!cpu.enable_interrupts);
    assert_eq!(cpu.registers.a.0, 1);
}
