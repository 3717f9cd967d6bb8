#![allow(non_snake_case)]

use nes_core::opcodes as opcode;
use nes_core::{Memory, ReadWrite, CPU, CPUData, CPUState};
use nes_core::cpu::{FLAG_C, FLAG_N, FLAG_Z};

fn run_shift(cpu: &mut CPU, data: &mut CPUData, iters: usize) {
    for _ in 0..iters {
        cpu.tick(data);

        data.clock.tick();

        match data.pins.rw {
            ReadWrite::R => data.pins.data = data.mem.data[data.pins.address as usize],
            ReadWrite::W => data.mem.data[data.pins.address as usize] = data.pins.data,
        }
    }
}

fn setup_shift(mem_size: u32) -> (CPU, CPUData) {
    let mut data = CPUData { mem: Memory::new(mem_size), ..Default::default() };
    let mut cpu = CPU::default();
    cpu.reset();
    cpu.state = CPUState::Fetch;
    cpu.pc = 0x0000;
    (cpu, data)
}

#[test]
fn ASL_A() {
    let (mut cpu, mut data) = setup_shift(0xFFFF);
    cpu.a = 0x12;
    data.mem.data[0x0000] = opcode::ASL_AC;

    run_shift(&mut cpu, &mut data, 8);

    assert_eq!(cpu.a, 0x24);
    assert_eq!(cpu.ps, 0);
    assert_eq!(cpu.pc, 0x0001);
}

#[test]
fn ASL_ZP() {
    let (mut cpu, mut data) = setup_shift(0xFFFF);
    data.mem.data[0x0000] = opcode::ASL_ZP;
    data.mem.data[0x0001] = 0xAB;
    data.mem.data[0x00AB] = 0x12;

    run_shift(&mut cpu, &mut data, 14);

    assert_eq!(data.mem.data[0x00AB], 0x24);
    assert_eq!(cpu.ps, 0);
    assert_eq!(cpu.pc, 0x0002);
}

#[test]
fn ASL_ZPX() {
    let (mut cpu, mut data) = setup_shift(0xFFFF);
    cpu.x = 0x5;
    data.mem.data[0x0000] = opcode::ASL_ZPX;
    data.mem.data[0x0001] = 0xAB;
    data.mem.data[0x00B0] = 0x12;

    run_shift(&mut cpu, &mut data, 14);

    assert_eq!(data.mem.data[0x00B0], 0x24);
    assert_eq!(cpu.ps, 0);
    assert_eq!(cpu.pc, 0x0002);
}

#[test]
fn asl_INC_ABS() {
    let (mut cpu, mut data) = setup_shift(0xFFFF);
    data.mem.data[0x0000] = opcode::ASL_ABS;
    data.mem.data[0x0001] = 0x07;
    data.mem.data[0x0002] = 0xD0;
    data.mem.data[0xD007] = 0x12;

    run_shift(&mut cpu, &mut data, 16);

    assert_eq!(data.mem.data[0xD007], 0x24);
    assert_eq!(cpu.ps, 0);
    assert_eq!(cpu.pc, 0x0003);
}

#[test]
fn asl_INC_ABX() {
    let (mut cpu, mut data) = setup_shift(0xFFFF);
    cpu.x = 0x09;
    data.mem.data[0x0000] = opcode::ASL_ABX;
    data.mem.data[0x0001] = 0x07;
    data.mem.data[0x0002] = 0xD0;
    data.mem.data[0xD010] = 0x12;

    run_shift(&mut cpu, &mut data, 18);

    assert_eq!(data.mem.data[0xD010], 0x24);
    assert_eq!(cpu.ps, 0);
    assert_eq!(cpu.pc, 0x0003);
}

#[test]
fn ROR_A() {
    let (mut cpu, mut data) = setup_shift(0xFFFF);
    cpu.a = 0x12;
    cpu.ps = FLAG_C;
    data.mem.data[0x0000] = opcode::ROR_AC;

    run_shift(&mut cpu, &mut data, 8);

    assert_eq!(cpu.a, 0x89);
    assert!(cpu.ps & FLAG_N != 0);
    assert_eq!(cpu.pc, 0x0001);
}

#[test]
fn ROR_ZP() {
    let (mut cpu, mut data) = setup_shift(0xFFFF);
    cpu.ps = FLAG_C;
    data.mem.data[0x0000] = opcode::ROR_ZP;
    data.mem.data[0x0001] = 0xAB;
    data.mem.data[0x00AB] = 0x12;

    run_shift(&mut cpu, &mut data, 14);

    assert_eq!(data.mem.data[0x00AB], 0x89);
    assert!(cpu.ps & FLAG_N != 0);
    assert_eq!(cpu.pc, 0x0002);
}

#[test]
fn ROR_ZPX() {
    let (mut cpu, mut data) = setup_shift(0xFFFF);
    cpu.x = 0x5;
    cpu.ps = FLAG_C;
    data.mem.data[0x0000] = opcode::ROR_ZPX;
    data.mem.data[0x0001] = 0xAB;
    data.mem.data[0x00B0] = 0x12;

    run_shift(&mut cpu, &mut data, 14);

    assert_eq!(data.mem.data[0x00B0], 0x89);
    assert!(cpu.ps & FLAG_N != 0);
    assert_eq!(cpu.pc, 0x0002);
}

#[test]
fn ror_INC_ABS() {
    let (mut cpu, mut data) = setup_shift(0xFFFF);
    cpu.ps = FLAG_C;
    data.mem.data[0x0000] = opcode::ROR_ABS;
    data.mem.data[0x0001] = 0x07;
    data.mem.data[0x0002] = 0xD0;
    data.mem.data[0xD007] = 0x12;

    run_shift(&mut cpu, &mut data, 16);

    assert_eq!(data.mem.data[0xD007], 0x89);
    assert!(cpu.ps & FLAG_N != 0);
    assert_eq!(cpu.pc, 0x0003);
}

#[test]
fn ror_INC_ABX() {
    let (mut cpu, mut data) = setup_shift(0xFFFF);
    cpu.x = 0x09;
    cpu.ps = FLAG_C;
    data.mem.data[0x0000] = opcode::ROR_ABX;
    data.mem.data[0x0001] = 0x07;
    data.mem.data[0x0002] = 0xD0;
    data.mem.data[0xD010] = 0x12;

    run_shift(&mut cpu, &mut data, 18);

    assert_eq!(data.mem.data[0xD010], 0x89);
    assert!(cpu.ps & FLAG_N != 0);
    assert_eq!(cpu.pc, 0x0003);
}

#[test]
fn lsr_accumulator_takes_carry() {
    let (mut cpu, mut data) = setup_shift(0xFFFF);
    cpu.a = 0x03;
    data.mem.data[0x0000] = opcode::LSR_AC;

    run_shift(&mut cpu, &mut data, 8);

    assert_eq!(cpu.a, 0x01);
    assert!(cpu.ps & FLAG_C != 0);
    assert!(cpu.ps & FLAG_N == 0);
}

#[test]
fn rol_accumulator_carries_in_and_out() {
    let (mut cpu, mut data) = setup_shift(0xFFFF);
    cpu.a = 0x81;
    cpu.ps = FLAG_C;
    data.mem.data[0x0000] = opcode::ROL_AC;

    run_shift(&mut cpu, &mut data, 8);

    assert_eq!(cpu.a, 0x03);
    assert!(cpu.ps & FLAG_C != 0);
}

#[test]
fn inc_zero_page_wraps_to_zero() {
    let (mut cpu, mut data) = setup_shift(0xFFFF);
    data.mem.data[0x0000] = opcode::INC_ZP;
    data.mem.data[0x0001] = 0x40;
    data.mem.data[0x0040] = 0xFF;

    run_shift(&mut cpu, &mut data, 14);

    assert_eq!(data.mem.data[0x0040], 0x00);
    assert!(cpu.ps & FLAG_Z != 0);
}

#[test]
fn dec_zero_page_sets_negative() {
    let (mut cpu, mut data) = setup_shift(0xFFFF);
    data.mem.data[0x0000] = opcode::DEC_ZP;
    data.mem.data[0x0001] = 0x40;
    data.mem.data[0x0040] = 0x00;

    run_shift(&mut cpu, &mut data, 14);

    assert_eq!(data.mem.data[0x0040], 0xFF);
    assert!(cpu.ps & FLAG_N != 0);
}

#[test]
fn rmw_bus_trace_has_dummy_write_of_original_byte() {
    let (mut cpu, mut data) = setup_shift(0xFFFF);
    data.mem.data[0x0000] = opcode::INC_ZP;
    data.mem.data[0x0001] = 0x40;
    data.mem.data[0x0040] = 0x05;

    let mut writes: Vec<(u16, u8)> = Vec::new();
    for step in 0..7usize {
        run_shift(&mut cpu, &mut data, 2);
        let is_write = matches!(data.pins.rw, ReadWrite::W);
        if is_write && (writes.is_empty() || writes[writes.len() - 1] != (data.pins.address, data.pins.data)) {
            writes.push((data.pins.address, data.pins.data));
        }
        let _ = step;
    }

    assert_eq!(&writes[..], &[(0x0040, 0x05), (0x0040, 0x06)][..]);
    assert_eq!(data.mem.data[0x0040], 0x06);
}
