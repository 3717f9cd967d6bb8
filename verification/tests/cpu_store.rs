#![allow(non_snake_case)]

use nes_core::opcodes as opcode;
use nes_core::{Memory, ReadWrite, CPU, CPUData, CPUState};
use nes_core::cpu::{FLAG_C, FLAG_N, FLAG_Z};

fn run_store(cpu: &mut CPU, data: &mut CPUData, iters: usize) {
    for _ in 0..iters {
        cpu.tick(data);

        data.clock.tick();

        match data.pins.rw {
            ReadWrite::R => data.pins.data = data.mem.data[data.pins.address as usize],
            ReadWrite::W => data.mem.data[data.pins.address as usize] = data.pins.data,
        }
    }
}

fn setup_store(mem_size: u32) -> (CPU, CPUData) {
    let mut data = CPUData { mem: Memory::new(mem_size), ..Default::default() };
    let mut cpu = CPU::default();
    cpu.reset();
    cpu.state = CPUState::Fetch;
    cpu.pc = 0x0000;
    (cpu, data)
}

#[test]
fn STA_ZP() {
    let (mut cpu, mut data) = setup_store(0xFFFF);
    cpu.a = 0xAB;
    data.mem.data[0x0000] = opcode::STA_ZP;
    data.mem.data[0x0001] = 0xCD;

    run_store(&mut cpu, &mut data, 10);

    assert_eq!(data.mem.data[0x00CD], 0xAB);
    assert_eq!(cpu.pc, 0x0002);
}

#[test]
fn STA_ZPX() {
    let (mut cpu, mut data) = setup_store(0xFFFF);
    cpu.a = 0xAB;
    cpu.x = 0x3;
    data.mem.data[0x0000] = opcode::STA_ZPX;
    data.mem.data[0x0001] = 0xCD;

    run_store(&mut cpu, &mut data, 11);

    assert_eq!(data.mem.data[0x00D0], 0xAB);
    assert_eq!(cpu.pc, 0x0002);
}

#[test]
fn STA_ABS() {
    let (mut cpu, mut data) = setup_store(0xFFFF);
    cpu.a = 0xAB;
    data.mem.data[0x0000] = opcode::STA_ABS;
    data.mem.data[0x0001] = 0x09;
    data.mem.data[0x0002] = 0xD0;

    run_store(&mut cpu, &mut data, 11);

    assert_eq!(data.mem.data[0xD009], 0xAB);
    assert_eq!(cpu.pc, 0x0003);
}

#[test]
fn STA_ABX() {
    let (mut cpu, mut data) = setup_store(0xFFFF);
    cpu.a = 0xAB;
    cpu.x = 0x5;
    data.mem.data[0x0000] = opcode::STA_ABX;
    data.mem.data[0x0001] = 0x09;
    data.mem.data[0x0002] = 0xD0;

    run_store(&mut cpu, &mut data, 13);

    assert_eq!(data.mem.data[0xD00E], 0xAB);
    assert_eq!(cpu.pc, 0x0003);
}

#[test]
fn STA_ABY() {
    let (mut cpu, mut data) = setup_store(0xFFFF);
    cpu.a = 0xAB;
    cpu.y = 0x5;
    data.mem.data[0x0000] = opcode::STA_ABY;
    data.mem.data[0x0001] = 0x09;
    data.mem.data[0x0002] = 0xD0;

    run_store(&mut cpu, &mut data, 13);

    assert_eq!(data.mem.data[0xD00E], 0xAB);
    assert_eq!(cpu.pc, 0x0003);
}

#[test]
fn STA_INX() {
    let (mut cpu, mut data) = setup_store(0xFFFF);
    cpu.a = 0xAB;
    cpu.x = 0x05;
    data.mem.data[0x0000] = opcode::STA_INX;
    data.mem.data[0x0001] = 0xCD;
    data.mem.data[0x00D2] = 0x09;
    data.mem.data[0x00D3] = 0xD0;
    data.mem.data[0xD009] = 0x00;

    run_store(&mut cpu, &mut data, 16);

    assert_eq!(data.mem.data[0xD009], 0xAB);
    assert_eq!(cpu.pc, 0x0002);
}

#[test]
fn STA_INY() {
    let (mut cpu, mut data) = setup_store(0xFFFF);
    cpu.a = 0xAB;
    cpu.y = 0xF7;
    data.mem.data[0x0000] = opcode::STA_INY;
    data.mem.data[0x0001] = 0xCD;
    data.mem.data[0x00CD] = 0x09;
    data.mem.data[0x00CE] = 0xD0;
    data.mem.data[0xD100] = 0x00;

    run_store(&mut cpu, &mut data, 16);

    assert_eq!(data.mem.data[0xD100], 0xAB);
    assert_eq!(cpu.pc, 0x0002);
}

#[test]
fn stx_zero_page() {
    let (mut cpu, mut data) = setup_store(0xFFFF);
    cpu.x = 0x5A;
    data.mem.data[0x0000] = opcode::STX_ZP;
    data.mem.data[0x0001] = 0x21;

    run_store(&mut cpu, &mut data, 10);

    assert_eq!(data.mem.data[0x0021], 0x5A);
    assert_eq!(cpu.pc, 0x0002);
}

#[test]
fn sty_absolute() {
    let (mut cpu, mut data) = setup_store(0xFFFF);
    cpu.y = 0xA5;
    data.mem.data[0x0000] = opcode::STY_ABS;
    data.mem.data[0x0001] = 0x34;
    data.mem.data[0x0002] = 0x12;

    run_store(&mut cpu, &mut data, 11);

    assert_eq!(data.mem.data[0x1234], 0xA5);
    assert_eq!(cpu.pc, 0x0003);
}
