#![allow(non_snake_case)]

use nes_core::opcodes as opcode;
use nes_core::{Memory, ReadWrite, CPU, CPUData, CPUState};
use nes_core::cpu::{FLAG_C, FLAG_D, FLAG_N, FLAG_V, FLAG_Z};

fn run_arith(cpu: &mut CPU, data: &mut CPUData, iters: usize) {
    for _ in 0..iters {
        cpu.tick(data);

        data.clock.tick();

        match data.pins.rw {
            ReadWrite::R => data.pins.data = data.mem.data[data.pins.address as usize],
            ReadWrite::W => data.mem.data[data.pins.address as usize] = data.pins.data,
        }
    }
}

fn setup_arith(mem_size: u32) -> (CPU, CPUData) {
    let mut data = CPUData { mem: Memory::new(mem_size), ..Default::default() };
    let mut cpu = CPU::default();
    cpu.reset();
    cpu.state = CPUState::Fetch;
    cpu.pc = 0x0000;
    (cpu, data)
}

#[test]
fn ADC_IM() {
    let (mut cpu, mut data) = setup_arith(0xFFFF);
    cpu.a = 0xD0;
    data.mem.data[0x0000] = opcode::ADC_IM;
    data.mem.data[0x0001] = 0x07;

    run_arith(&mut cpu, &mut data, 8);

    assert_eq!(cpu.a, 0xD7);
    assert!(cpu.ps & FLAG_N != 0);
    assert_eq!(cpu.pc, 0x0002);
}

#[test]
fn ADC_ZP() {
    let (mut cpu, mut data) = setup_arith(0xFFFF);
    cpu.a = 0xD0;
    data.mem.data[0x0000] = opcode::ADC_ZP;
    data.mem.data[0x0001] = 0x12;
    data.mem.data[0x0012] = 0x07;

    run_arith(&mut cpu, &mut data, 10);

    assert_eq!(cpu.a, 0xD7);
    assert_eq!(cpu.pc, 0x0002);
}

#[test]
fn ADC_ZPX() {
    let (mut cpu, mut data) = setup_arith(0xFFFF);
    cpu.a = 0xD0;
    cpu.x = 0x05;
    data.mem.data[0x0000] = opcode::ADC_ZPX;
    data.mem.data[0x0001] = 0x12;
    data.mem.data[0x0017] = 0x07;

    run_arith(&mut cpu, &mut data, 12);

    assert_eq!(cpu.a, 0xD7);
    assert!(cpu.ps & FLAG_N != 0);
    assert_eq!(cpu.pc, 0x0002);
}

#[test]
fn ADC_ABS() {
    let (mut cpu, mut data) = setup_arith(0xFFFF);
    cpu.a = 0xD0;
    data.mem.data[0x0000] = opcode::ADC_ABS;
    data.mem.data[0x0001] = 0x09;
    data.mem.data[0x0002] = 0xD0;
    data.mem.data[0xD009] = 0x07;

    run_arith(&mut cpu, &mut data, 12);

    assert_eq!(cpu.a, 0xD7);
    assert!(cpu.ps & FLAG_N != 0);
    assert_eq!(cpu.pc, 0x0003);
}

#[test]
fn ADC_ABX() {
    let (mut cpu, mut data) = setup_arith(0xFFFF);
    cpu.a = 0xD0;
    cpu.x = 0x05;
    data.mem.data[0x0000] = opcode::ADC_ABX;
    data.mem.data[0x0001] = 0x09;
    data.mem.data[0x0002] = 0xD0;
    data.mem.data[0xD00E] = 0x07;

    run_arith(&mut cpu, &mut data, 12);

    assert_eq!(cpu.a, 0xD7);
    assert!(cpu.ps & FLAG_N != 0);
    assert_eq!(cpu.pc, 0x0003);
}

#[test]
fn ADC_ABX_page() {
    let (mut cpu, mut data) = setup_arith(0xFFFF);
    cpu.x = 0xF7;
    cpu.a = 0xD0;
    data.mem.data[0x0000] = opcode::ADC_ABX;
    data.mem.data[0x0001] = 0x09;
    data.mem.data[0x0002] = 0xD0;
    data.mem.data[0xD100] = 0x07;

    run_arith(&mut cpu, &mut data, 14);

    assert_eq!(cpu.a, 0xD7);
    assert!(cpu.ps & FLAG_N != 0);
    assert_eq!(cpu.pc, 0x0003);
}

#[test]
fn ADC_ABY() {
    let (mut cpu, mut data) = setup_arith(0xFFFF);
    cpu.y = 0x05;
    cpu.a = 0xD0;
    data.mem.data[0x0000] = opcode::ADC_ABY;
    data.mem.data[0x0001] = 0x09;
    data.mem.data[0x0002] = 0xD0;
    data.mem.data[0xD00E] = 0x07;

    run_arith(&mut cpu, &mut data, 12);

    assert_eq!(cpu.a, 0xD7);
    assert!(cpu.ps & FLAG_N != 0);
    assert_eq!(cpu.pc, 0x0003);
}

#[test]
fn ADC_ABY_page() {
    let (mut cpu, mut data) = setup_arith(0xFFFF);
    cpu.y = 0xF7;
    cpu.a = 0xD0;
    data.mem.data[0x0000] = opcode::ADC_ABY;
    data.mem.data[0x0001] = 0x09;
    data.mem.data[0x0002] = 0xD0;
    data.mem.data[0xD100] = 0x07;

    run_arith(&mut cpu, &mut data, 14);

    assert_eq!(cpu.a, 0xD7);
    assert!(cpu.ps & FLAG_N != 0);
    assert_eq!(cpu.pc, 0x0003);
}

#[test]
fn ADC_INX() {
    let (mut cpu, mut data) = setup_arith(0xFFFF);
    cpu.x = 0x05;
    cpu.a = 0xD0;
    data.mem.data[0x0000] = opcode::ADC_INX;
    data.mem.data[0x0001] = 0xCD;
    data.mem.data[0x00D2] = 0x09;
    data.mem.data[0x00D3] = 0xD0;
    data.mem.data[0xD009] = 0x07;

    run_arith(&mut cpu, &mut data, 16);

    assert_eq!(cpu.a, 0xD7);
    assert!(cpu.ps & FLAG_N != 0);
    assert_eq!(cpu.pc, 0x0002);
}

#[test]
fn ADC_INY() {
    let (mut cpu, mut data) = setup_arith(0xFFFF);
    cpu.y = 0x05;
    cpu.a = 0xD0;
    data.mem.data[0x0000] = opcode::ADC_INY;
    data.mem.data[0x0001] = 0xCD;
    data.mem.data[0x00CD] = 0x09;
    data.mem.data[0x00CE] = 0xD0;
    data.mem.data[0xD00E] = 0x07;

    run_arith(&mut cpu, &mut data, 14);

    assert_eq!(cpu.a, 0xD7);
    assert!(cpu.ps & FLAG_N != 0);
    assert_eq!(cpu.pc, 0x0002);
}

#[test]
fn ADC_INY_page() {
    let (mut cpu, mut data) = setup_arith(0xFFFF);
    cpu.y = 0xF7;
    cpu.a = 0xD0;
    data.mem.data[0x0000] = opcode::ADC_INY;
    data.mem.data[0x0001] = 0xCD;
    data.mem.data[0x00CD] = 0x09;
    data.mem.data[0x00CE] = 0xD0;
    data.mem.data[0xD100] = 0x07;

    run_arith(&mut cpu, &mut data, 16);

    assert_eq!(cpu.a, 0xD7);
    assert!(cpu.ps & FLAG_N != 0);
    assert_eq!(cpu.pc, 0x0002);
}

#[test]
fn ADC_NO_FLAGS() {
    let (mut cpu, mut data) = setup_arith(0xFFFF);
    cpu.a = 0x01;
    data.mem.data[0x0000] = opcode::ADC_IM;
    data.mem.data[0x0001] = 0x05;

    run_arith(&mut cpu, &mut data, 8);

    assert_eq!(cpu.a, 0x06);
    assert_eq!(cpu.ps, 0x00);
    assert_eq!(cpu.pc, 0x0002);
}

#[test]
fn ADC_CARRY_AND_ZERO() {
    let (mut cpu, mut data) = setup_arith(0xFFFF);
    cpu.a = 0xFF;
    data.mem.data[0x0000] = opcode::ADC_IM;
    data.mem.data[0x0001] = 0x01;

    run_arith(&mut cpu, &mut data, 8);

    assert_eq!(cpu.a, 0x00);
    assert!(cpu.ps & FLAG_Z != 0);
    assert!(cpu.ps & FLAG_C != 0);
    assert!(cpu.ps & FLAG_N == 0);
    assert!(cpu.ps & FLAG_V == 0);
    assert_eq!(cpu.pc, 0x0002);
}

#[test]
fn ADC_OF_AND_NEG() {
    let (mut cpu, mut data) = setup_arith(0xFFFF);
    cpu.a = 0x7F;
    data.mem.data[0x0000] = opcode::ADC_IM;
    data.mem.data[0x0001] = 0x01;

    run_arith(&mut cpu, &mut data, 8);

    assert_eq!(cpu.a, 0x80);
    assert!(cpu.ps & FLAG_Z == 0);
    assert!(cpu.ps & FLAG_C == 0);
    assert!(cpu.ps & FLAG_N != 0);
    assert!(cpu.ps & FLAG_V != 0);
    assert_eq!(cpu.pc, 0x0002);
}

#[test]
fn sbc_immediate_no_borrow() {
    let (mut cpu, mut data) = setup_arith(0xFFFF);
    cpu.a = 0xD0;
    cpu.ps = FLAG_C;
    data.mem.data[0x0000] = opcode::SBC_IM;
    data.mem.data[0x0001] = 0x07;

    run_arith(&mut cpu, &mut data, 8);

    assert_eq!(cpu.a, 0xC9);
    assert!(cpu.ps & FLAG_N != 0);
    assert!(cpu.ps & FLAG_V == 0);
    assert!(cpu.ps & FLAG_C != 0);
    assert_eq!(cpu.pc, 0x0002);
}

#[test]
fn cmp_immediate_sets_carry_and_negative() {
    let (mut cpu, mut data) = setup_arith(0xFFFF);
    cpu.a = 0xD0;
    data.mem.data[0x0000] = opcode::CMP_IM;
    data.mem.data[0x0001] = 0x07;

    run_arith(&mut cpu, &mut data, 8);

    assert!(cpu.ps & FLAG_C != 0);
    assert!(cpu.ps & FLAG_N != 0);
    assert!(cpu.ps & FLAG_Z == 0);
    assert_eq!(cpu.a, 0xD0);
    assert_eq!(cpu.pc, 0x0002);
}

#[test]
fn cpx_immediate_equal_sets_zero() {
    let (mut cpu, mut data) = setup_arith(0xFFFF);
    cpu.x = 0x44;
    data.mem.data[0x0000] = opcode::CPX_IM;
    data.mem.data[0x0001] = 0x44;

    run_arith(&mut cpu, &mut data, 8);

    assert!(cpu.ps & FLAG_C != 0);
    assert!(cpu.ps & FLAG_Z != 0);
    assert!(cpu.ps & FLAG_N == 0);
}

#[test]
fn cmp_borrow_wraps_without_panic() {
    let (mut cpu, mut data) = setup_arith(0xFFFF);
    cpu.a = 0x00;
    data.mem.data[0x0000] = opcode::CMP_IM;
    data.mem.data[0x0001] = 0x01;

    run_arith(&mut cpu, &mut data, 8);

    assert!(cpu.ps & FLAG_C == 0);
    assert!(cpu.ps & FLAG_N != 0);
    assert!(cpu.ps & FLAG_Z == 0);
}
