#![allow(non_snake_case)]

use nes_core::opcodes as opcode;
use nes_core::{Memory, ReadWrite, CPU, CPUData, CPUState};
use nes_core::cpu::{FLAG_C, FLAG_D, FLAG_N, FLAG_V, FLAG_Z};

fn run_logic(cpu: &mut CPU, data: &mut CPUData, iters: usize) {
    for _ in 0..iters {
        cpu.tick(data);

        data.clock.tick();

        match data.pins.rw {
            ReadWrite::R => data.pins.data = data.mem.data[data.pins.address as usize],
            ReadWrite::W => data.mem.data[data.pins.address as usize] = data.pins.data,
        }
    }
}

fn setup_logic(mem_size: u32) -> (CPU, CPUData) {
    let mut data = CPUData { mem: Memory::new(mem_size), ..Default::default() };
    let mut cpu = CPU::default();
    cpu.reset();
    cpu.state = CPUState::Fetch;
    cpu.pc = 0x0000;
    (cpu, data)
}

#[test]
fn AND_IM() {
    let (mut cpu, mut data) = setup_logic(0xFFFF);
    cpu.a = 0xAB;
    data.mem.data[0x0000] = opcode::AND_IM;
    data.mem.data[0x0001] = 0xCD;

    run_logic(&mut cpu, &mut data, 8);

    assert_eq!(cpu.a, 0x89);
    assert_eq!(cpu.pc, 0x0002);
}

#[test]
fn AND_ZP() {
    let (mut cpu, mut data) = setup_logic(0xFFFF);
    cpu.a = 0xAB;
    data.mem.data[0x0000] = opcode::AND_ZP;
    data.mem.data[0x0001] = 0x12;
    data.mem.data[0x0012] = 0xCD;

    run_logic(&mut cpu, &mut data, 10);

    assert_eq!(cpu.a, 0x89);
    assert_eq!(cpu.pc, 0x0002);
}

#[test]
fn AND_ZPX() {
    let (mut cpu, mut data) = setup_logic(0xFFFF);
    cpu.a = 0xAB;
    cpu.x = 0x05;
    data.mem.data[0x0000] = opcode::AND_ZPX;
    data.mem.data[0x0001] = 0x12;
    data.mem.data[0x0017] = 0xCD;

    run_logic(&mut cpu, &mut data, 12);

    assert_eq!(cpu.a, 0x89);
    assert_eq!(cpu.pc, 0x0002);
}

#[test]
fn AND_ABS() {
    let (mut cpu, mut data) = setup_logic(0xFFFF);
    cpu.a = 0xAB;
    data.mem.data[0x0000] = opcode::AND_ABS;
    data.mem.data[0x0001] = 0x09;
    data.mem.data[0x0002] = 0xD0;
    data.mem.data[0xD009] = 0xCD;

    run_logic(&mut cpu, &mut data, 12);

    assert_eq!(cpu.a, 0x89);
    assert_eq!(cpu.pc, 0x0003);
}

#[test]
fn AND_ABX() {
    let (mut cpu, mut data) = setup_logic(0xFFFF);
    cpu.a = 0xAB;
    cpu.x = 0x05;
    data.mem.data[0x0000] = opcode::AND_ABX;
    data.mem.data[0x0001] = 0x09;
    data.mem.data[0x0002] = 0xD0;
    data.mem.data[0xD00E] = 0xCD;

    run_logic(&mut cpu, &mut data, 12);

    assert_eq!(cpu.a, 0x89);
    assert_eq!(cpu.pc, 0x0003);
}

#[test]
fn AND_ABX_page() {
    let (mut cpu, mut data) = setup_logic(0xFFFF);
    cpu.x = 0xF7;
    cpu.a = 0xAB;
    data.mem.data[0x0000] = opcode::AND_ABX;
    data.mem.data[0x0001] = 0x09;
    data.mem.data[0x0002] = 0xD0;
    data.mem.data[0xD100] = 0xCD;

    run_logic(&mut cpu, &mut data, 14);

    assert_eq!(cpu.a, 0x89);
    assert_eq!(cpu.pc, 0x0003);
}

#[test]
fn AND_ABY() {
    let (mut cpu, mut data) = setup_logic(0xFFFF);
    cpu.y = 0x05;
    cpu.a = 0xAB;
    data.mem.data[0x0000] = opcode::AND_ABY;
    data.mem.data[0x0001] = 0x09;
    data.mem.data[0x0002] = 0xD0;
    data.mem.data[0xD00E] = 0xCD;

    run_logic(&mut cpu, &mut data, 12);

    assert_eq!(cpu.a, 0x89);
    assert_eq!(cpu.pc, 0x0003);
}

#[test]
fn AND_ABY_page() {
    let (mut cpu, mut data) = setup_logic(0xFFFF);
    cpu.y = 0xF7;
    cpu.a = 0xAB;
    data.mem.data[0x0000] = opcode::AND_ABY;
    data.mem.data[0x0001] = 0x09;
    data.mem.data[0x0002] = 0xD0;
    data.mem.data[0xD100] = 0xCD;

    run_logic(&mut cpu, &mut data, 14);

    assert_eq!(cpu.a, 0x89);
    assert_eq!(cpu.pc, 0x0003);
}

#[test]
fn AND_INX() {
    let (mut cpu, mut data) = setup_logic(0xFFFF);
    cpu.x = 0x05;
    cpu.a = 0xAB;
    data.mem.data[0x0000] = opcode::AND_INX;
    data.mem.data[0x0001] = 0xCD;
    data.mem.data[0x00D2] = 0x09;
    data.mem.data[0x00D3] = 0xD0;
    data.mem.data[0xD009] = 0xCD;

    run_logic(&mut cpu, &mut data, 16);

    assert_eq!(cpu.a, 0x89);
    assert_eq!(cpu.pc, 0x0002);
}

#[test]
fn AND_INY() {
    let (mut cpu, mut data) = setup_logic(0xFFFF);
    cpu.y = 0x05;
    cpu.a = 0xAB;
    data.mem.data[0x0000] = opcode::AND_INY;
    data.mem.data[0x0001] = 0xCD;
    data.mem.data[0x00CD] = 0x09;
    data.mem.data[0x00CE] = 0xD0;
    data.mem.data[0xD00E] = 0xCD;

    run_logic(&mut cpu, &mut data, 14);

    assert_eq!(cpu.a, 0x89);
    assert_eq!(cpu.pc, 0x0002);
}

#[test]
fn AND_INY_page() {
    let (mut cpu, mut data) = setup_logic(0xFFFF);
    cpu.y = 0xF7;
    cpu.a = 0xAB;
    data.mem.data[0x0000] = opcode::AND_INY;
    data.mem.data[0x0001] = 0xCD;
    data.mem.data[0x00CD] = 0x09;
    data.mem.data[0x00CE] = 0xD0;
    data.mem.data[0xD100] = 0xCD;

    run_logic(&mut cpu, &mut data, 16);

    assert_eq!(cpu.a, 0x89);
    assert_eq!(cpu.pc, 0x0002);
}

#[test]
fn EOR_IM() {
    let (mut cpu, mut data) = setup_logic(0xFFFF);
    cpu.a = 0xAB;
    data.mem.data[0x0000] = opcode::EOR_IM;
    data.mem.data[0x0001] = 0xCD;

    run_logic(&mut cpu, &mut data, 8);

    assert_eq!(cpu.a, 0x66);
    assert_eq!(cpu.pc, 0x0002);
}

#[test]
fn EOR_ZP() {
    let (mut cpu, mut data) = setup_logic(0xFFFF);
    cpu.a = 0xAB;
    data.mem.data[0x0000] = opcode::EOR_ZP;
    data.mem.data[0x0001] = 0x12;
    data.mem.data[0x0012] = 0xCD;

    run_logic(&mut cpu, &mut data, 10);

    assert_eq!(cpu.a, 0x66);
    assert_eq!(cpu.pc, 0x0002);
}

#[test]
fn EOR_ZPX() {
    let (mut cpu, mut data) = setup_logic(0xFFFF);
    cpu.a = 0xAB;
    cpu.x = 0x05;
    data.mem.data[0x0000] = opcode::EOR_ZPX;
    data.mem.data[0x0001] = 0x12;
    data.mem.data[0x0017] = 0xCD;

    run_logic(&mut cpu, &mut data, 12);

    assert_eq!(cpu.a, 0x66);
    assert_eq!(cpu.pc, 0x0002);
}

#[test]
fn EOR_ABS() {
    let (mut cpu, mut data) = setup_logic(0xFFFF);
    cpu.a = 0xAB;
    data.mem.data[0x0000] = opcode::EOR_ABS;
    data.mem.data[0x0001] = 0x09;
    data.mem.data[0x0002] = 0xD0;
    data.mem.data[0xD009] = 0xCD;

    run_logic(&mut cpu, &mut data, 12);

    assert_eq!(cpu.a, 0x66);
    assert_eq!(cpu.pc, 0x0003);
}

#[test]
fn EOR_ABX() {
    let (mut cpu, mut data) = setup_logic(0xFFFF);
    cpu.a = 0xAB;
    cpu.x = 0x05;
    data.mem.data[0x0000] = opcode::EOR_ABX;
    data.mem.data[0x0001] = 0x09;
    data.mem.data[0x0002] = 0xD0;
    data.mem.data[0xD00E] = 0xCD;

    run_logic(&mut cpu, &mut data, 12);

    assert_eq!(cpu.a, 0x66);
    assert_eq!(cpu.pc, 0x0003);
}

#[test]
fn EOR_ABX_page() {
    let (mut cpu, mut data) = setup_logic(0xFFFF);
    cpu.x = 0xF7;
    cpu.a = 0xAB;
    data.mem.data[0x0000] = opcode::EOR_ABX;
    data.mem.data[0x0001] = 0x09;
    data.mem.data[0x0002] = 0xD0;
    data.mem.data[0xD100] = 0xCD;

    run_logic(&mut cpu, &mut data, 14);

    assert_eq!(cpu.a, 0x66);
    assert_eq!(cpu.pc, 0x0003);
}

#[test]
fn EOR_ABY() {
    let (mut cpu, mut data) = setup_logic(0xFFFF);
    cpu.y = 0x05;
    cpu.a = 0xAB;
    data.mem.data[0x0000] = opcode::EOR_ABY;
    data.mem.data[0x0001] = 0x09;
    data.mem.data[0x0002] = 0xD0;
    data.mem.data[0xD00E] = 0xCD;

    run_logic(&mut cpu, &mut data, 12);

    assert_eq!(cpu.a, 0x66);
    assert_eq!(cpu.pc, 0x0003);
}

#[test]
fn EOR_ABY_page() {
    let (mut cpu, mut data) = setup_logic(0xFFFF);
    cpu.y = 0xF7;
    cpu.a = 0xAB;
    data.mem.data[0x0000] = opcode::EOR_ABY;
    data.mem.data[0x0001] = 0x09;
    data.mem.data[0x0002] = 0xD0;
    data.mem.data[0xD100] = 0xCD;

    run_logic(&mut cpu, &mut data, 14);

    assert_eq!(cpu.a, 0x66);
    assert_eq!(cpu.pc, 0x0003);
}

#[test]
fn EOR_INX() {
    let (mut cpu, mut data) = setup_logic(0xFFFF);
    cpu.x = 0x05;
    cpu.a = 0xAB;
    data.mem.data[0x0000] = opcode::EOR_INX;
    data.mem.data[0x0001] = 0xCD;
    data.mem.data[0x00D2] = 0x09;
    data.mem.data[0x00D3] = 0xD0;
    data.mem.data[0xD009] = 0xCD;

    run_logic(&mut cpu, &mut data, 16);

    assert_eq!(cpu.a, 0x66);
    assert_eq!(cpu.pc, 0x0002);
}

#[test]
fn EOR_INY() {
    let (mut cpu, mut data) = setup_logic(0xFFFF);
    cpu.y = 0x05;
    cpu.a = 0xAB;
    data.mem.data[0x0000] = opcode::EOR_INY;
    data.mem.data[0x0001] = 0xCD;
    data.mem.data[0x00CD] = 0x09;
    data.mem.data[0x00CE] = 0xD0;
    data.mem.data[0xD00E] = 0xCD;

    run_logic(&mut cpu, &mut data, 14);

    assert_eq!(cpu.a, 0x66);
    assert_eq!(cpu.pc, 0x0002);
}

#[test]
fn EOR_INY_page() {
    let (mut cpu, mut data) = setup_logic(0xFFFF);
    cpu.y = 0xF7;
    cpu.a = 0xAB;
    data.mem.data[0x0000] = opcode::EOR_INY;
    data.mem.data[0x0001] = 0xCD;
    data.mem.data[0x00CD] = 0x09;
    data.mem.data[0x00CE] = 0xD0;
    data.mem.data[0xD100] = 0xCD;

    run_logic(&mut cpu, &mut data, 16);

    assert_eq!(cpu.a, 0x66);
    assert_eq!(cpu.pc, 0x0002);
}

#[test]
fn BIT_ZP() {
    let (mut cpu, mut data) = setup_logic(0xFFFF);
    cpu.a = 0xFF;
    data.mem.data[0x0000] = opcode::BIT_ZP;
    data.mem.data[0x0001] = 0xAB;
    data.mem.data[0x00AB] = 0xC0;

    run_logic(&mut cpu, &mut data, 10);

    assert!(cpu.ps & FLAG_V != 0);
    assert!(cpu.ps & FLAG_N != 0);
    assert!(cpu.ps & FLAG_Z == 0);
    assert_eq!(cpu.a, 0xFF);
    assert_eq!(cpu.pc, 0x0002);
}

#[test]
fn BIT_ZP_zero() {
    let (mut cpu, mut data) = setup_logic(0xFFFF);
    cpu.a = 0xFF;
    data.mem.data[0x0000] = opcode::BIT_ZP;
    data.mem.data[0x0001] = 0xAB;
    data.mem.data[0x00AB] = 0x00;

    run_logic(&mut cpu, &mut data, 10);

    assert!(cpu.ps & FLAG_V == 0);
    assert!(cpu.ps & FLAG_N == 0);
    assert!(cpu.ps & FLAG_Z != 0);
    assert_eq!(cpu.pc, 0x0002);
}

#[test]
fn BIT_ABS() {
    let (mut cpu, mut data) = setup_logic(0xFFFF);
    cpu.a = 0xFF;
    data.mem.data[0x0000] = opcode::BIT_ABS;
    data.mem.data[0x0001] = 0x07;
    data.mem.data[0x0002] = 0xD0;
    data.mem.data[0xD007] = 0xC0;

    run_logic(&mut cpu, &mut data, 12);

    assert!(cpu.ps & FLAG_V != 0);
    assert!(cpu.ps & FLAG_N != 0);
    assert!(cpu.ps & FLAG_Z == 0);
    assert_eq!(cpu.a, 0xFF);
    assert_eq!(cpu.pc, 0x0003);
}

#[test]
fn BIT_ABS_zero() {
    let (mut cpu, mut data) = setup_logic(0xFFFF);
    cpu.a = 0xFF;
    data.mem.data[0x0000] = opcode::BIT_ABS;
    data.mem.data[0x0001] = 0x07;
    data.mem.data[0x0002] = 0xD0;
    data.mem.data[0xD007] = 0x00;

    run_logic(&mut cpu, &mut data, 12);

    assert!(cpu.ps & FLAG_V == 0);
    assert!(cpu.ps & FLAG_N == 0);
    assert!(cpu.ps & FLAG_Z != 0);
    assert_eq!(cpu.a, 0xFF);
    assert_eq!(cpu.pc, 0x0003);
}

#[test]
fn ora_immediate() {
    let (mut cpu, mut data) = setup_logic(0xFFFF);
    cpu.a = 0x0A;
    data.mem.data[0x0000] = opcode::ORA_IM;
    data.mem.data[0x0001] = 0xA0;

    run_logic(&mut cpu, &mut data, 8);

    assert_eq!(cpu.a, 0xAA);
    assert!(cpu.ps & FLAG_N != 0);
    assert_eq!(cpu.pc, 0x0002);
}

#[test]
fn lda_immediate_sets_zero() {
    let (mut cpu, mut data) = setup_logic(0xFFFF);
    cpu.a = 0x55;
    data.mem.data[0x0000] = opcode::LDA_IM;
    data.mem.data[0x0001] = 0x00;

    run_logic(&mut cpu, &mut data, 8);

    assert_eq!(cpu.a, 0x00);
    assert!(cpu.ps & FLAG_Z != 0);
    assert_eq!(cpu.pc, 0x0002);
}

#[test]
fn ldx_ldy_immediate() {
    let (mut cpu, mut data) = setup_logic(0xFFFF);
    data.mem.data[0x0000] = opcode::LDX_IM;
    data.mem.data[0x0001] = 0x80;
    data.mem.data[0x0002] = opcode::LDY_IM;
    data.mem.data[0x0003] = 0x07;

    run_logic(&mut cpu, &mut data, 16);

    assert_eq!(cpu.x, 0x80);
    assert_eq!(cpu.y, 0x07);
    assert!(cpu.ps & FLAG_N == 0);
    assert_eq!(cpu.pc, 0x0004);
}
