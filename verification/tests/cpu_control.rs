#![allow(non_snake_case)]

use nes_core::opcodes as opcode;
use nes_core::{Memory, ReadWrite, CPU, CPUData, CPUState};
use nes_core::cpu::{FLAG_B, FLAG_C, FLAG_D, FLAG_I, FLAG_N, FLAG_V, FLAG_Z};

fn run_ctl(cpu: &mut CPU, data: &mut CPUData, iters: usize) {
    for _ in 0..iters {
        cpu.tick(data);

        data.clock.tick();

        match data.pins.rw {
            ReadWrite::R => data.pins.data = data.mem.data[data.pins.address as usize],
            ReadWrite::W => data.mem.data[data.pins.address as usize] = data.pins.data,
        }
    }
}

fn setup_ctl(mem_size: u32) -> (CPU, CPUData) {
    let mut data = CPUData { mem: Memory::new(mem_size), ..Default::default() };
    let mut cpu = CPU::default();
    cpu.reset();
    cpu.state = CPUState::Fetch;
    cpu.pc = 0x0000;
    (cpu, data)
}

/// Run whole instructions: step until the CPU reports the instruction
/// boundary again, and say how many CPU cycles it took.
fn run_one_instruction(cpu: &mut CPU, data: &mut CPUData) -> u32 {
    let mut cycles: u32 = 0;
    loop {
        run_ctl(cpu, data, 2);
        cycles += 1;
        if cpu.is_complete() {
            return cycles;
        }
        assert!(cycles < 32);
    }
}

#[test]
fn BRK() {
    let (mut cpu, mut data) = setup_ctl(0xFFFF);
    data.mem.data[0x0000] = opcode::BRK;
    data.mem.data[0xFFFE] = 0x07;
    data.mem.data[0xFFFF] = 0xD0;

    run_ctl(&mut cpu, &mut data, 18);

    assert_eq!(cpu.pc, 0xD007);
    assert_eq!(data.mem.data[0x1FF], 0x00);
    assert_eq!(data.mem.data[0x1FE], 0x01);
    assert_eq!(data.mem.data[0x1FD], FLAG_B);
}

#[test]
fn RTI() {
    let (mut cpu, mut data) = setup_ctl(0xFFFF);
    cpu.sp = 0xFC;
    data.mem.data[0x0000] = opcode::RTI;
    data.mem.data[0x01FF] = 0xD0;
    data.mem.data[0x01FE] = 0x07;
    data.mem.data[0x01FD] = FLAG_Z | FLAG_C;

    run_ctl(&mut cpu, &mut data, 16);

    assert_eq!(cpu.pc, 0xD007);
    assert!(cpu.ps & FLAG_Z != 0);
    assert!(cpu.ps & FLAG_C != 0);
}

#[test]
fn CPY_IM() {
    let (mut cpu, mut data) = setup_ctl(0xFFFF);
    cpu.y = 0xD0;
    data.mem.data[0x0000] = opcode::CPY_IM;
    data.mem.data[0x0001] = 0x07;

    run_ctl(&mut cpu, &mut data, 8);

    assert!(cpu.ps & FLAG_C != 0);
    assert!(cpu.ps & FLAG_N != 0);
    assert!(cpu.ps & FLAG_Z == 0);
    assert_eq!(cpu.pc, 0x0002);
}

#[test]
fn CPY_ZP() {
    let (mut cpu, mut data) = setup_ctl(0xFFFF);
    cpu.y = 0xD0;
    data.mem.data[0x0000] = opcode::CPY_ZP;
    data.mem.data[0x0001] = 0x12;
    data.mem.data[0x0012] = 0x07;

    run_ctl(&mut cpu, &mut data, 10);

    assert!(cpu.ps & FLAG_C != 0);
    assert!(cpu.ps & FLAG_N != 0);
    assert!(cpu.ps & FLAG_Z == 0);
    assert_eq!(cpu.pc, 0x0002);
}

#[test]
fn CPY_ABS() {
    let (mut cpu, mut data) = setup_ctl(0xFFFF);
    cpu.y = 0xD0;
    data.mem.data[0x0000] = opcode::CPY_ABS;
    data.mem.data[0x0001] = 0x09;
    data.mem.data[0x0002] = 0xD0;
    data.mem.data[0xD009] = 0x07;

    run_ctl(&mut cpu, &mut data, 12);

    assert!(cpu.ps & FLAG_C != 0);
    assert!(cpu.ps & FLAG_N != 0);
    assert!(cpu.ps & FLAG_Z == 0);
    assert_eq!(cpu.pc, 0x0003);
}

#[test]
fn CPY_EQ() {
    let (mut cpu, mut data) = setup_ctl(0xFFFF);
    cpu.y = 0xD0;
    data.mem.data[0x0000] = opcode::CPY_IM;
    data.mem.data[0x0001] = 0xD0;

    run_ctl(&mut cpu, &mut data, 8);

    assert!(cpu.ps & FLAG_C != 0);
    assert!(cpu.ps & FLAG_N == 0);
    assert!(cpu.ps & FLAG_Z != 0);
    assert_eq!(cpu.pc, 0x0002);
}

#[test]
fn CLC() {
    let (mut cpu, mut data) = setup_ctl(0xFFFF);
    cpu.ps = FLAG_C;
    data.mem.data[0x0000] = opcode::CLC;

    run_ctl(&mut cpu, &mut data, 8);

    assert!(cpu.ps & FLAG_C == 0);
    assert_eq!(cpu.pc, 0x0001);
}

#[test]
fn CLD() {
    let (mut cpu, mut data) = setup_ctl(0xFFFF);
    cpu.ps = FLAG_D;
    data.mem.data[0x0000] = opcode::CLD;

    run_ctl(&mut cpu, &mut data, 8);

    assert!(cpu.ps & FLAG_D == 0);
    assert_eq!(cpu.pc, 0x0001);
}

#[test]
fn SEC() {
    let (mut cpu, mut data) = setup_ctl(0xFFFF);
    data.mem.data[0x0000] = opcode::SEC;

    run_ctl(&mut cpu, &mut data, 8);

    assert!(cpu.ps & FLAG_C != 0);
    assert_eq!(cpu.pc, 0x0001);
}

#[test]
fn INX() {
    let (mut cpu, mut data) = setup_ctl(0xFFFF);
    cpu.x = 0xAB;
    data.mem.data[0x0000] = opcode::INX;

    run_ctl(&mut cpu, &mut data, 8);

    assert_eq!(cpu.x, 0xAC);
    assert_eq!(cpu.pc, 0x0001);
}

#[test]
fn PHA() {
    let (mut cpu, mut data) = setup_ctl(0xFFFF);
    cpu.a = 0xAB;
    data.mem.data[0x0000] = opcode::PHA;

    run_ctl(&mut cpu, &mut data, 10);

    assert_eq!(cpu.sp, 0xFE);
    assert_eq!(data.mem.data[0x01FF], 0xAB);
    assert_eq!(cpu.pc, 0x0001);
}

#[test]
fn TSX() {
    let (mut cpu, mut data) = setup_ctl(0xFFFF);
    cpu.sp = 0xAB;
    cpu.x = 0x00;
    data.mem.data[0x0000] = opcode::TSX;

    run_ctl(&mut cpu, &mut data, 8);

    assert_eq!(cpu.x, 0xAB);
    assert_eq!(cpu.pc, 0x0001);
}

#[test]
fn TXS() {
    let (mut cpu, mut data) = setup_ctl(0xFFFF);
    cpu.x = 0xAB;
    cpu.sp = 0x00;
    data.mem.data[0x0000] = opcode::TXS;

    run_ctl(&mut cpu, &mut data, 8);

    assert_eq!(cpu.sp, 0xAB);
    assert_eq!(cpu.pc, 0x0001);
}

#[test]
fn TYA() {
    let (mut cpu, mut data) = setup_ctl(0xFFFF);
    cpu.y = 0xAB;
    cpu.a = 0x00;
    data.mem.data[0x0000] = opcode::TYA;

    run_ctl(&mut cpu, &mut data, 8);

    assert_eq!(cpu.a, 0xAB);
    assert_eq!(cpu.pc, 0x0001);
}

#[test]
fn beq_taken_across_page_takes_four_cycles() {
    let (mut cpu, mut data) = setup_ctl(0xFFFF);
    cpu.pc = 0x00FD;
    cpu.ps = FLAG_Z;
    data.mem.data[0x00FD] = opcode::BEQ;
    data.mem.data[0x00FE] = 0x7F;

    let cycles = run_one_instruction(&mut cpu, &mut data);

    assert_eq!(cpu.pc, 0x017E);
    assert_eq!(cycles, 4 + 2);
}

#[test]
fn branch_not_taken_takes_two_cycles() {
    let (mut cpu, mut data) = setup_ctl(0xFFFF);
    data.mem.data[0x0000] = opcode::BEQ;
    data.mem.data[0x0001] = 0x10;

    let cycles = run_one_instruction(&mut cpu, &mut data);

    assert_eq!(cpu.pc, 0x0002);
    assert_eq!(cycles, 2 + 2);
}

#[test]
fn branch_taken_same_page_takes_three_cycles() {
    let (mut cpu, mut data) = setup_ctl(0xFFFF);
    data.mem.data[0x0000] = opcode::BNE;
    data.mem.data[0x0001] = 0x10;

    let cycles = run_one_instruction(&mut cpu, &mut data);

    assert_eq!(cpu.pc, 0x0012);
    assert_eq!(cycles, 3 + 2);
}

#[test]
fn jmp_indirect_page_wrap_quirk() {
    let (mut cpu, mut data) = setup_ctl(0xFFFF);
    data.mem.data[0x0000] = opcode::JMP_IND;
    data.mem.data[0x0001] = 0xFF;
    data.mem.data[0x0002] = 0x02;
    data.mem.data[0x02FF] = 0x07;
    data.mem.data[0x0200] = 0xD0;

    run_one_instruction(&mut cpu, &mut data);

    assert_eq!(cpu.pc, 0xD007);
}

#[test]
fn jmp_absolute_loads_target() {
    let (mut cpu, mut data) = setup_ctl(0xFFFF);
    data.mem.data[0x0000] = opcode::JMP_ABS;
    data.mem.data[0x0001] = 0x34;
    data.mem.data[0x0002] = 0x12;

    run_one_instruction(&mut cpu, &mut data);

    assert_eq!(cpu.pc, 0x1234);
}

#[test]
fn jsr_then_rts_returns_past_the_call() {
    let (mut cpu, mut data) = setup_ctl(0xFFFF);
    cpu.pc = 0x0400;
    data.mem.data[0x0400] = opcode::JSR;
    data.mem.data[0x0401] = 0x00;
    data.mem.data[0x0402] = 0x20;
    data.mem.data[0x2000] = opcode::RTS;

    run_one_instruction(&mut cpu, &mut data);
    assert_eq!(cpu.pc, 0x2000);
    run_one_instruction(&mut cpu, &mut data);

    assert_eq!(cpu.pc, 0x0403);
    assert_eq!(cpu.sp, 0xFF);
}

#[test]
fn pha_pla_round_trip_restores_accumulator() {
    let (mut cpu, mut data) = setup_ctl(0xFFFF);
    cpu.a = 0x5A;
    data.mem.data[0x0000] = opcode::PHA;
    data.mem.data[0x0001] = opcode::PLA;

    run_one_instruction(&mut cpu, &mut data);
    cpu.a = 0x00;
    run_one_instruction(&mut cpu, &mut data);

    assert_eq!(cpu.a, 0x5A);
    assert_eq!(cpu.sp, 0xFF);
    assert!(cpu.ps & FLAG_Z == 0);
    assert!(cpu.ps & FLAG_N == 0);
}

#[test]
fn php_plp_round_trip_restores_status() {
    let (mut cpu, mut data) = setup_ctl(0xFFFF);
    cpu.ps = FLAG_C | FLAG_V | FLAG_D;
    data.mem.data[0x0000] = opcode::PHP;
    data.mem.data[0x0001] = opcode::PLP;

    run_one_instruction(&mut cpu, &mut data);
    cpu.ps = 0x00;
    run_one_instruction(&mut cpu, &mut data);

    assert_eq!(cpu.ps, FLAG_C | FLAG_V | FLAG_D);
    assert_eq!(cpu.sp, 0xFF);
}

#[test]
fn stack_eight_deep_round_trip_reverses_bytes() {
    let (mut cpu, mut data) = setup_ctl(0xFFFF);
    let pushed: [u8; 8] = [1, 2, 3, 4, 5, 6, 7, 8];
    for k in 0..8usize {
        data.mem.data[3 * k] = opcode::LDA_IM;
        data.mem.data[3 * k + 1] = pushed[k];
        data.mem.data[3 * k + 2] = opcode::PHA;
    }
    for k in 0..8usize {
        data.mem.data[24 + k] = opcode::PLA;
    }

    for _ in 0..16 {
        run_one_instruction(&mut cpu, &mut data);
    }
    assert_eq!(cpu.sp, 0xFF - 8);
    let mut pulled: Vec<u8> = Vec::new();
    for _ in 0..8 {
        run_one_instruction(&mut cpu, &mut data);
        pulled.push(cpu.a);
    }

    assert_eq!(cpu.sp, 0xFF);
    let mut reversed = pushed;
    reversed.reverse();
    assert_eq!(&pulled[..], &reversed[..]);
}

#[test]
fn irq_suppressed_while_interrupt_disable_set() {
    let (mut cpu, mut data) = setup_ctl(0xFFFF);
    cpu.ps = FLAG_I;
    cpu.irq_request();
    data.mem.data[0x0000] = opcode::NOP;

    run_one_instruction(&mut cpu, &mut data);

    assert_eq!(cpu.pc, 0x0001);
    assert!(cpu.irq_pending);
}

#[test]
fn irq_taken_when_interrupt_disable_clear() {
    let (mut cpu, mut data) = setup_ctl(0xFFFF);
    cpu.pc = 0x0300;
    cpu.irq_request();
    data.mem.data[0xFFFE] = 0x07;
    data.mem.data[0xFFFF] = 0xD0;

    run_one_instruction(&mut cpu, &mut data);

    assert_eq!(cpu.pc, 0xD007);
    assert!(cpu.ps & FLAG_I != 0);
    assert_eq!(data.mem.data[0x01FF], 0x03);
    assert_eq!(data.mem.data[0x01FE], 0x00);
}

#[test]
fn nmi_taken_even_with_interrupt_disable_set() {
    let (mut cpu, mut data) = setup_ctl(0xFFFF);
    cpu.pc = 0x0300;
    cpu.ps = FLAG_I;
    cpu.nmi_request();
    data.mem.data[0xFFFA] = 0x34;
    data.mem.data[0xFFFB] = 0x12;

    run_one_instruction(&mut cpu, &mut data);

    assert_eq!(cpu.pc, 0x1234);
    assert!(!cpu.nmi_pending);
}

#[test]
fn unofficial_opcode_behaves_as_two_cycle_nop_and_counts() {
    let (mut cpu, mut data) = setup_ctl(0xFFFF);
    data.mem.data[0x0000] = 0x02;

    let cycles = run_one_instruction(&mut cpu, &mut data);

    assert_eq!(cycles, 2 + 2);
    assert_eq!(cpu.pc, 0x0001);
    assert_eq!(cpu.invalid_ops, 1);
}

#[test]
fn reset_sequence_loads_vector_in_seven_cycles() {
    let mut data = CPUData { mem: Memory::new(0xFFFF), ..Default::default() };
    let mut cpu = CPU::default();
    cpu.reset();
    data.mem.data[0xFFFC] = 0x07;
    data.mem.data[0xFFFD] = 0xD0;

    let mut cycles: u32 = 0;
    loop {
        run_ctl(&mut cpu, &mut data, 2);
        cycles += 1;
        if cpu.is_complete() {
            break;
        }
        assert!(cycles < 16);
    }

    assert_eq!(cpu.pc, 0xD007);
    assert_eq!(cpu.sp, 0xFF);
    assert_eq!(cycles, 7);
}

#[test]
fn transfers_and_counts_update_flags() {
    let (mut cpu, mut data) = setup_ctl(0xFFFF);
    cpu.a = 0x80;
    data.mem.data[0x0000] = opcode::TAX;
    data.mem.data[0x0001] = opcode::DEX;
    data.mem.data[0x0002] = opcode::DEY;

    run_one_instruction(&mut cpu, &mut data);
    assert_eq!(cpu.x, 0x80);
    assert!(cpu.ps & FLAG_N != 0);

    run_one_instruction(&mut cpu, &mut data);
    assert_eq!(cpu.x, 0x7F);
    assert!(cpu.ps & FLAG_N == 0);

    run_one_instruction(&mut cpu, &mut data);
    assert_eq!(cpu.y, 0xFF);
    assert!(cpu.ps & FLAG_N != 0);
}

#[test]
fn sei_cli_sed_clv_touch_only_their_flags() {
    let (mut cpu, mut data) = setup_ctl(0xFFFF);
    cpu.ps = FLAG_V;
    data.mem.data[0x0000] = opcode::SEI;
    data.mem.data[0x0001] = opcode::SED;
    data.mem.data[0x0002] = opcode::CLV;
    data.mem.data[0x0003] = opcode::CLI;

    run_one_instruction(&mut cpu, &mut data);
    assert!(cpu.ps & FLAG_I != 0);
    run_one_instruction(&mut cpu, &mut data);
    assert!(cpu.ps & FLAG_D != 0);
    run_one_instruction(&mut cpu, &mut data);
    assert!(cpu.ps & FLAG_V == 0);
    run_one_instruction(&mut cpu, &mut data);
    assert!(cpu.ps & FLAG_I == 0);
    assert!(cpu.ps & FLAG_D != 0);
}

#[test]
fn read_cycle_counts_match_the_published_table() {
    // (program bytes, x, y, cycles) for one read instruction per mode.
    let cases: Vec<(Vec<u8>, u8, u8, u32)> = vec![
        (vec![opcode::LDA_IM, 0x01], 0, 0, 2),
        (vec![opcode::LDA_ZP, 0x10], 0, 0, 3),
        (vec![opcode::LDA_ZPX, 0x10], 5, 0, 4),
        (vec![opcode::LDA_ABS, 0x34, 0x12], 0, 0, 4),
        (vec![opcode::LDA_ABX, 0x34, 0x12], 5, 0, 4),
        (vec![opcode::LDA_ABX, 0xFF, 0x12], 5, 0, 5),
        (vec![opcode::LDA_ABY, 0x34, 0x12], 0, 5, 4),
        (vec![opcode::LDA_ABY, 0xFF, 0x12], 0, 5, 5),
        (vec![opcode::LDA_INX, 0x20], 4, 0, 6),
        (vec![opcode::LDA_INY, 0x20], 0, 4, 5),
        (vec![opcode::LDA_INY, 0x20], 0, 0xFF, 6),
    ];
    for (program, x, y, want) in cases {
        let (mut cpu, mut data) = setup_ctl(0xFFFF);
        cpu.x = x;
        cpu.y = y;
        for (i, b) in program.iter().enumerate() {
            data.mem.data[i] = *b;
        }
        data.mem.data[0x0020] = 0x40;
        data.mem.data[0x0021] = 0x02;

        let cycles = run_one_instruction(&mut cpu, &mut data);

        assert_eq!(cycles, want + 2);
    }
}

#[test]
fn store_and_rmw_cycle_counts_match_the_published_table() {
    let cases: Vec<(Vec<u8>, u8, u32)> = vec![
        (vec![opcode::STA_ZP, 0x10], 0, 3),
        (vec![opcode::STA_ZPX, 0x10], 5, 4),
        (vec![opcode::STA_ABS, 0x34, 0x12], 0, 4),
        (vec![opcode::STA_ABX, 0xFF, 0x12], 5, 5),
        (vec![opcode::ASL_AC], 0, 2),
        (vec![opcode::ASL_ZP, 0x10], 0, 5),
        (vec![opcode::ASL_ZPX, 0x10], 5, 6),
        (vec![opcode::ASL_ABS, 0x34, 0x12], 0, 6),
        (vec![opcode::ASL_ABX, 0x34, 0x12], 5, 7),
        (vec![opcode::PHA], 0, 3),
        (vec![opcode::PLA], 0, 4),
        (vec![opcode::JSR, 0x00, 0x20], 0, 6),
        (vec![opcode::JMP_ABS, 0x00, 0x20], 0, 3),
        (vec![opcode::JMP_IND, 0x40, 0x02], 0, 5),
        (vec![opcode::NOP], 0, 2),
        (vec![opcode::BRK], 0, 7),
    ];
    for (program, x, want) in cases {
        let (mut cpu, mut data) = setup_ctl(0xFFFF);
        cpu.x = x;
        for (i, b) in program.iter().enumerate() {
            data.mem.data[i] = *b;
        }

        let cycles = run_one_instruction(&mut cpu, &mut data);

        assert_eq!(cycles, want + 2);
    }
}
