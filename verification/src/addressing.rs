//! The per-cycle micro-operations that the instruction skeletons are built
//! from. Each one performs one cycle's worth of work on the processor and
//! its pins and realises exactly the specification function of the same
//! name in [`crate::cpu::model`].

use vstd::prelude::*;

use crate::cpu::model::{
    s_add_x_to_data, s_add_y_to_addr_check_of, s_add_y_to_addr_ignore_of, s_add_y_to_data,
    s_boundary_check_get_addr, s_create_address_add_offset, s_create_address_from_data,
    s_create_address_from_data_save_addr, s_get_byte_from_data, s_get_byte_from_data_save_addr,
    s_get_byte_from_data_store, s_get_byte_from_temp16, s_get_byte_from_temp16_addr,
    s_get_byte_from_temp8, s_get_byte_from_temp8_save_addr, s_get_current_byte,
    s_get_current_byte_tempb, s_get_next_byte_add_1_temp8, s_get_next_byte_add_1_var,
    s_get_second_byte_from_temp16, s_get_second_current_byte,
    s_get_second_current_byte_add_reg_tempb, s_get_second_current_byte_add_x,
    s_set_temp16_msb_from_data, s_store_reg, s_store_temp8_in_temp16, s_store_zero_page_reg,
    s_store_zero_page_temp_reg,
};
use crate::cpu::{CPUData, ReadWrite, CPU};

verus! {

/// Read the byte at the program counter and step past it.
pub fn get_current_byte(cpu: &mut CPU, data: &mut CPUData)
    ensures
        *final(cpu) == s_get_current_byte(*old(cpu), old(data).pins).0,
        final(data).pins == s_get_current_byte(*old(cpu), old(data).pins).1,
        *final(data) == (CPUData { pins: final(data).pins, ..*old(data) }),
{
    data.pins.address = cpu.pc;
    data.pins.rw = ReadWrite::R;
    cpu.pc = cpu.pc.wrapping_add(1);
}

/// As [`get_current_byte`], clearing the page-cross latch first.
pub fn get_current_byte_tempb(cpu: &mut CPU, data: &mut CPUData)
    ensures
        *final(cpu) == s_get_current_byte_tempb(*old(cpu), old(data).pins).0,
        final(data).pins == s_get_current_byte_tempb(*old(cpu), old(data).pins).1,
        *final(data) == (CPUData { pins: final(data).pins, ..*old(data) }),
{
    cpu.tempb = false;
    get_current_byte(cpu, data);
}

/// Bank the low operand byte and read the one after it.
pub fn get_second_current_byte(cpu: &mut CPU, data: &mut CPUData)
    ensures
        *final(cpu) == s_get_second_current_byte(*old(cpu), old(data).pins).0,
        final(data).pins == s_get_second_current_byte(*old(cpu), old(data).pins).1,
        *final(data) == (CPUData { pins: final(data).pins, ..*old(data) }),
{
    cpu.temp16 = data.pins.data as u16;
    data.pins.address = cpu.pc;
    data.pins.rw = ReadWrite::R;
    cpu.pc = cpu.pc.wrapping_add(1);
}

/// Add an index register to the low operand byte, remembering in the
/// page-cross latch whether the sum carried, and read the high byte.
pub fn get_second_current_byte_add_reg_tempb(cpu: &mut CPU, data: &mut CPUData, reg: u8)
    ensures
        *final(cpu) == s_get_second_current_byte_add_reg_tempb(
            *old(cpu),
            old(data).pins,
            reg,
        ).0,
        final(data).pins == s_get_second_current_byte_add_reg_tempb(
            *old(cpu),
            old(data).pins,
            reg,
        ).1,
        *final(data) == (CPUData { pins: final(data).pins, ..*old(data) }),
{
    cpu.tempb = data.pins.data as u16 + reg as u16 > 255;
    cpu.temp16 = data.pins.data.wrapping_add(reg) as u16;
    data.pins.address = cpu.pc;
    data.pins.rw = ReadWrite::R;
    cpu.pc = cpu.pc.wrapping_add(1);
}

/// Add X to a zero-page pointer and read there.
pub fn get_second_current_byte_add_x(cpu: &mut CPU, data: &mut CPUData)
    ensures
        *final(cpu) == s_get_second_current_byte_add_x(*old(cpu), old(data).pins).0,
        final(data).pins == s_get_second_current_byte_add_x(*old(cpu), old(data).pins).1,
        *final(data) == (CPUData { pins: final(data).pins, ..*old(data) }),
{
    cpu.temp8 = data.pins.data.wrapping_add(cpu.x);
    data.pins.address = cpu.temp8 as u16;
    data.pins.rw = ReadWrite::R;
}

/// After an indexed low byte: if the page was crossed, spend this cycle
/// fixing the high byte; otherwise read at the assembled address.
pub fn boundary_check_get_addr(cpu: &mut CPU, data: &mut CPUData)
    ensures
        *final(cpu) == s_boundary_check_get_addr(*old(cpu), old(data).pins).0,
        final(data).pins == s_boundary_check_get_addr(*old(cpu), old(data).pins).1,
        *final(data) == (CPUData { pins: final(data).pins, ..*old(data) }),
{
    if cpu.tempb {
        cpu.temp8 = data.pins.data.wrapping_add(1);
    } else {
        let addr = cpu.temp16 | ((data.pins.data as u16) << 8);
        data.pins.address = addr;
    }

    data.pins.rw = ReadWrite::R;
}

/// Bank the zero-page address and read there.
pub fn get_byte_from_data_save_addr(cpu: &mut CPU, data: &mut CPUData)
    ensures
        *final(cpu) == s_get_byte_from_data_save_addr(*old(cpu), old(data).pins).0,
        final(data).pins == s_get_byte_from_data_save_addr(*old(cpu), old(data).pins).1,
        *final(data) == (CPUData { pins: final(data).pins, ..*old(data) }),
{
    cpu.temp16 = data.pins.data as u16;
    get_byte_from_data(cpu, data);
}

/// Assemble a pointer, read its first byte, and bank the next address.
pub fn get_byte_from_temp16(cpu: &mut CPU, data: &mut CPUData)
    ensures
        *final(cpu) == s_get_byte_from_temp16(*old(cpu), old(data).pins).0,
        final(data).pins == s_get_byte_from_temp16(*old(cpu), old(data).pins).1,
        *final(data) == (CPUData { pins: final(data).pins, ..*old(data) }),
{
    create_address_from_data_save_addr(cpu, data);
    cpu.temp16 = cpu.temp16.wrapping_add(1);
    data.pins.rw = ReadWrite::R;
}

/// Read at the banked address and bank the byte just read.
pub fn get_second_byte_from_temp16(cpu: &mut CPU, data: &mut CPUData)
    ensures
        *final(cpu) == s_get_second_byte_from_temp16(*old(cpu), old(data).pins).0,
        final(data).pins == s_get_second_byte_from_temp16(*old(cpu), old(data).pins).1,
        *final(data) == (CPUData { pins: final(data).pins, ..*old(data) }),
{
    data.pins.address = cpu.temp16;
    data.pins.rw = ReadWrite::R;
    cpu.temp16 = data.pins.data as u16;
}

/// Read at the zero-page address on the data pins.
pub fn get_byte_from_data(cpu: &mut CPU, data: &mut CPUData)
    ensures
        *final(cpu) == s_get_byte_from_data(*old(cpu), old(data).pins).0,
        final(data).pins == s_get_byte_from_data(*old(cpu), old(data).pins).1,
        *final(data) == (CPUData { pins: final(data).pins, ..*old(data) }),
{
    data.pins.address = data.pins.data as u16;
    data.pins.rw = ReadWrite::R;
}

/// Add X to the byte on the data pins, into the scratch byte.
pub fn add_x_to_data(cpu: &mut CPU, data: &mut CPUData)
    ensures
        *final(cpu) == s_add_x_to_data(*old(cpu), old(data).pins).0,
        final(data).pins == s_add_x_to_data(*old(cpu), old(data).pins).1,
        *final(data) == (CPUData { pins: final(data).pins, ..*old(data) }),
{
    cpu.temp8 = data.pins.data.wrapping_add(cpu.x);
}

/// Add Y to the byte on the data pins, into the scratch byte.
pub fn add_y_to_data(cpu: &mut CPU, data: &mut CPUData)
    ensures
        *final(cpu) == s_add_y_to_data(*old(cpu), old(data).pins).0,
        final(data).pins == s_add_y_to_data(*old(cpu), old(data).pins).1,
        *final(data) == (CPUData { pins: final(data).pins, ..*old(data) }),
{
    cpu.temp8 = data.pins.data.wrapping_add(cpu.y);
}

/// Bank the scratch byte as an address and read there.
pub fn get_byte_from_temp8_save_addr(cpu: &mut CPU, data: &mut CPUData)
    ensures
        *final(cpu) == s_get_byte_from_temp8_save_addr(*old(cpu), old(data).pins).0,
        final(data).pins == s_get_byte_from_temp8_save_addr(*old(cpu), old(data).pins).1,
        *final(data) == (CPUData { pins: final(data).pins, ..*old(data) }),
{
    cpu.temp16 = cpu.temp8 as u16;
    get_byte_from_temp8(cpu, data);
}

/// Read at the zero-page address held in the scratch byte.
pub fn get_byte_from_temp8(cpu: &mut CPU, data: &mut CPUData)
    ensures
        *final(cpu) == s_get_byte_from_temp8(*old(cpu), old(data).pins).0,
        final(data).pins == s_get_byte_from_temp8(*old(cpu), old(data).pins).1,
        *final(data) == (CPUData { pins: final(data).pins, ..*old(data) }),
{
    data.pins.address = cpu.temp8 as u16;
    data.pins.rw = ReadWrite::R;
}

/// Assemble a sixteen-bit address from the banked low byte and the high
/// byte on the data pins.
pub fn create_address_from_data(cpu: &mut CPU, data: &mut CPUData)
    ensures
        *final(cpu) == s_create_address_from_data(*old(cpu), old(data).pins).0,
        final(data).pins == s_create_address_from_data(*old(cpu), old(data).pins).1,
        *final(data) == (CPUData { pins: final(data).pins, ..*old(data) }),
{
    let addr: u16 = cpu.temp16 | ((data.pins.data as u16) << 8);
    data.pins.address = addr;
}

/// As [`create_address_from_data`], also banking the assembled address.
pub fn create_address_from_data_save_addr(cpu: &mut CPU, data: &mut CPUData)
    ensures
        *final(cpu) == s_create_address_from_data_save_addr(*old(cpu), old(data).pins).0,
        final(data).pins == s_create_address_from_data_save_addr(*old(cpu), old(data).pins).1,
        *final(data) == (CPUData { pins: final(data).pins, ..*old(data) }),
{
    create_address_from_data(cpu, data);
    cpu.temp16 = data.pins.address;
}

/// Bank the byte just read, step the zero-page pointer, and read there.
pub fn get_next_byte_add_1_temp8(cpu: &mut CPU, data: &mut CPUData)
    ensures
        *final(cpu) == s_get_next_byte_add_1_temp8(*old(cpu), old(data).pins).0,
        final(data).pins == s_get_next_byte_add_1_temp8(*old(cpu), old(data).pins).1,
        *final(data) == (CPUData { pins: final(data).pins, ..*old(data) }),
{
    cpu.temp16 = data.pins.data as u16;
    cpu.temp8 = cpu.temp8.wrapping_add(1);
    data.pins.address = cpu.temp8 as u16;
    data.pins.rw = ReadWrite::R;
}

/// Bank the byte just read and read the next zero-page cell, without
/// disturbing the scratch byte.
pub fn get_next_byte_add_1_var(cpu: &mut CPU, data: &mut CPUData)
    ensures
        *final(cpu) == s_get_next_byte_add_1_var(*old(cpu), old(data).pins).0,
        final(data).pins == s_get_next_byte_add_1_var(*old(cpu), old(data).pins).1,
        *final(data) == (CPUData { pins: final(data).pins, ..*old(data) }),
{
    cpu.temp16 = data.pins.data as u16;
    let addr = cpu.temp8.wrapping_add(1);
    data.pins.address = addr as u16;
    data.pins.rw = ReadWrite::R;
}

/// Fold the byte on the data pins into the high half of the banked address.
pub fn set_temp16_msb_from_data(cpu: &mut CPU, data: &mut CPUData)
    ensures
        *final(cpu) == s_set_temp16_msb_from_data(*old(cpu), old(data).pins).0,
        final(data).pins == s_set_temp16_msb_from_data(*old(cpu), old(data).pins).1,
        *final(data) == (CPUData { pins: final(data).pins, ..*old(data) }),
{
    cpu.temp16 = cpu.temp16 | ((data.pins.data as u16) << 8);
}

/// Read at the banked sixteen-bit address.
pub fn get_byte_from_temp16_addr(cpu: &mut CPU, data: &mut CPUData)
    ensures
        *final(cpu) == s_get_byte_from_temp16_addr(*old(cpu), old(data).pins).0,
        final(data).pins == s_get_byte_from_temp16_addr(*old(cpu), old(data).pins).1,
        *final(data) == (CPUData { pins: final(data).pins, ..*old(data) }),
{
    data.pins.address = cpu.temp16;
    data.pins.rw = ReadWrite::R;
}

/// Read at the zero-page address on the data pins and keep that address in
/// the scratch byte.
pub fn get_byte_from_data_store(cpu: &mut CPU, data: &mut CPUData)
    ensures
        *final(cpu) == s_get_byte_from_data_store(*old(cpu), old(data).pins).0,
        final(data).pins == s_get_byte_from_data_store(*old(cpu), old(data).pins).1,
        *final(data) == (CPUData { pins: final(data).pins, ..*old(data) }),
{
    get_byte_from_data(cpu, data);
    cpu.temp8 = data.pins.data;
}

/// Complete the pointer, add Y to it, note in the page-cross latch whether
/// the high byte grew, and read at the sum.
pub fn add_y_to_addr_check_of(cpu: &mut CPU, data: &mut CPUData)
    ensures
        *final(cpu) == s_add_y_to_addr_check_of(*old(cpu), old(data).pins).0,
        final(data).pins == s_add_y_to_addr_check_of(*old(cpu), old(data).pins).1,
        *final(data) == (CPUData { pins: final(data).pins, ..*old(data) }),
{
    let old_hi = data.pins.data;
    cpu.temp16 = cpu.temp16 | ((data.pins.data as u16) << 8);
    cpu.temp16 = cpu.temp16.wrapping_add(cpu.y as u16);

    cpu.tempb = (#[verifier::truncate] ((cpu.temp16 >> 8) as u8)) > old_hi;

    data.pins.address = cpu.temp16;
    data.pins.rw = ReadWrite::R;
}

/// Complete the pointer and add Y to it, without the page check.
pub fn add_y_to_addr_ignore_of(cpu: &mut CPU, data: &mut CPUData)
    ensures
        *final(cpu) == s_add_y_to_addr_ignore_of(*old(cpu), old(data).pins).0,
        final(data).pins == s_add_y_to_addr_ignore_of(*old(cpu), old(data).pins).1,
        *final(data) == (CPUData { pins: final(data).pins, ..*old(data) }),
{
    cpu.temp16 = cpu.temp16 | ((data.pins.data as u16) << 8);
    cpu.temp16 = cpu.temp16.wrapping_add(cpu.y as u16);
}

fn store_zero_page_register(cpu: &mut CPU, data: &mut CPUData, reg: u8)
    ensures
        *final(cpu) == s_store_zero_page_reg(*old(cpu), old(data).pins, reg).0,
        final(data).pins == s_store_zero_page_reg(*old(cpu), old(data).pins, reg).1,
        *final(data) == (CPUData { pins: final(data).pins, ..*old(data) }),
{
    data.pins.address = data.pins.data as u16;
    data.pins.data = reg;
    data.pins.rw = ReadWrite::W;
}

/// Write A at the zero-page address on the data pins.
pub fn store_zero_page_a(cpu: &mut CPU, data: &mut CPUData)
    ensures
        *final(cpu) == s_store_zero_page_reg(*old(cpu), old(data).pins, old(cpu).a).0,
        final(data).pins == s_store_zero_page_reg(*old(cpu), old(data).pins, old(cpu).a).1,
        *final(data) == (CPUData { pins: final(data).pins, ..*old(data) }),
{
    let reg = cpu.a;
    store_zero_page_register(cpu, data, reg);
}

/// Write X at the zero-page address on the data pins.
pub fn store_zero_page_x(cpu: &mut CPU, data: &mut CPUData)
    ensures
        *final(cpu) == s_store_zero_page_reg(*old(cpu), old(data).pins, old(cpu).x).0,
        final(data).pins == s_store_zero_page_reg(*old(cpu), old(data).pins, old(cpu).x).1,
        *final(data) == (CPUData { pins: final(data).pins, ..*old(data) }),
{
    let reg = cpu.x;
    store_zero_page_register(cpu, data, reg);
}

/// Write Y at the zero-page address on the data pins.
pub fn store_zero_page_y(cpu: &mut CPU, data: &mut CPUData)
    ensures
        *final(cpu) == s_store_zero_page_reg(*old(cpu), old(data).pins, old(cpu).y).0,
        final(data).pins == s_store_zero_page_reg(*old(cpu), old(data).pins, old(cpu).y).1,
        *final(data) == (CPUData { pins: final(data).pins, ..*old(data) }),
{
    let reg = cpu.y;
    store_zero_page_register(cpu, data, reg);
}

/// Write the scratch byte at the banked address.
pub fn store_temp_8_in_temp16(cpu: &mut CPU, data: &mut CPUData)
    ensures
        *final(cpu) == s_store_temp8_in_temp16(*old(cpu), old(data).pins).0,
        final(data).pins == s_store_temp8_in_temp16(*old(cpu), old(data).pins).1,
        *final(data) == (CPUData { pins: final(data).pins, ..*old(data) }),
{
    data.pins.address = cpu.temp16;
    data.pins.data = cpu.temp8;
    data.pins.rw = ReadWrite::W;
}

fn store_register(cpu: &mut CPU, data: &mut CPUData, reg: u8)
    ensures
        *final(cpu) == s_store_reg(*old(cpu), old(data).pins, reg).0,
        final(data).pins == s_store_reg(*old(cpu), old(data).pins, reg).1,
        *final(data) == (CPUData { pins: final(data).pins, ..*old(data) }),
{
    data.pins.address = cpu.temp16;
    data.pins.data = reg;
    data.pins.rw = ReadWrite::W;
}

/// Write A at the banked address.
pub fn store_a(cpu: &mut CPU, data: &mut CPUData)
    ensures
        *final(cpu) == s_store_reg(*old(cpu), old(data).pins, old(cpu).a).0,
        final(data).pins == s_store_reg(*old(cpu), old(data).pins, old(cpu).a).1,
        *final(data) == (CPUData { pins: final(data).pins, ..*old(data) }),
{
    let reg = cpu.a;
    store_register(cpu, data, reg);
}

/// Write X at the banked address.
pub fn store_x(cpu: &mut CPU, data: &mut CPUData)
    ensures
        *final(cpu) == s_store_reg(*old(cpu), old(data).pins, old(cpu).x).0,
        final(data).pins == s_store_reg(*old(cpu), old(data).pins, old(cpu).x).1,
        *final(data) == (CPUData { pins: final(data).pins, ..*old(data) }),
{
    let reg = cpu.x;
    store_register(cpu, data, reg);
}

/// Write Y at the banked address.
pub fn store_y(cpu: &mut CPU, data: &mut CPUData)
    ensures
        *final(cpu) == s_store_reg(*old(cpu), old(data).pins, old(cpu).y).0,
        final(data).pins == s_store_reg(*old(cpu), old(data).pins, old(cpu).y).1,
        *final(data) == (CPUData { pins: final(data).pins, ..*old(data) }),
{
    let reg = cpu.y;
    store_register(cpu, data, reg);
}

fn store_zero_page_temp_register(cpu: &mut CPU, data: &mut CPUData, reg: u8)
    ensures
        *final(cpu) == s_store_zero_page_temp_reg(*old(cpu), old(data).pins, reg).0,
        final(data).pins == s_store_zero_page_temp_reg(*old(cpu), old(data).pins, reg).1,
        *final(data) == (CPUData { pins: final(data).pins, ..*old(data) }),
{
    data.pins.address = cpu.temp8 as u16;
    data.pins.data = reg;
    data.pins.rw = ReadWrite::W;
}

/// Write A at the indexed zero-page address in the scratch byte.
pub fn store_zero_page_temp_a(cpu: &mut CPU, data: &mut CPUData)
    ensures
        *final(cpu) == s_store_zero_page_temp_reg(*old(cpu), old(data).pins, old(cpu).a).0,
        final(data).pins == s_store_zero_page_temp_reg(*old(cpu), old(data).pins, old(cpu).a).1,
        *final(data) == (CPUData { pins: final(data).pins, ..*old(data) }),
{
    let reg = cpu.a;
    store_zero_page_temp_register(cpu, data, reg);
}

/// Write X at the indexed zero-page address in the scratch byte.
pub fn store_zero_page_temp_x(cpu: &mut CPU, data: &mut CPUData)
    ensures
        *final(cpu) == s_store_zero_page_temp_reg(*old(cpu), old(data).pins, old(cpu).x).0,
        final(data).pins == s_store_zero_page_temp_reg(*old(cpu), old(data).pins, old(cpu).x).1,
        *final(data) == (CPUData { pins: final(data).pins, ..*old(data) }),
{
    let reg = cpu.x;
    store_zero_page_temp_register(cpu, data, reg);
}

/// Write Y at the indexed zero-page address in the scratch byte.
pub fn store_zero_page_temp_y(cpu: &mut CPU, data: &mut CPUData)
    ensures
        *final(cpu) == s_store_zero_page_temp_reg(*old(cpu), old(data).pins, old(cpu).y).0,
        final(data).pins == s_store_zero_page_temp_reg(*old(cpu), old(data).pins, old(cpu).y).1,
        *final(data) == (CPUData { pins: final(data).pins, ..*old(data) }),
{
    let reg = cpu.y;
    store_zero_page_temp_register(cpu, data, reg);
}

fn create_address_add_offset(cpu: &mut CPU, data: &mut CPUData, reg: u8)
    ensures
        *final(cpu) == s_create_address_add_offset(*old(cpu), old(data).pins, reg).0,
        final(data).pins == s_create_address_add_offset(*old(cpu), old(data).pins, reg).1,
        *final(data) == (CPUData { pins: final(data).pins, ..*old(data) }),
{
    let addr: u16 = cpu.temp16 | ((data.pins.data as u16) << 8);
    cpu.temp16 = addr.wrapping_add(reg as u16);
}

/// Assemble the absolute address and add X to it.
pub fn create_address_add_x(cpu: &mut CPU, data: &mut CPUData)
    ensures
        *final(cpu) == s_create_address_add_offset(*old(cpu), old(data).pins, old(cpu).x).0,
        final(data).pins == s_create_address_add_offset(*old(cpu), old(data).pins, old(cpu).x).1,
        *final(data) == (CPUData { pins: final(data).pins, ..*old(data) }),
{
    let reg = cpu.x;
    create_address_add_offset(cpu, data, reg);
}

/// Assemble the absolute address and add Y to it.
pub fn create_address_add_y(cpu: &mut CPU, data: &mut CPUData)
    ensures
        *final(cpu) == s_create_address_add_offset(*old(cpu), old(data).pins, old(cpu).y).0,
        final(data).pins == s_create_address_add_offset(*old(cpu), old(data).pins, old(cpu).y).1,
        *final(data) == (CPUData { pins: final(data).pins, ..*old(data) }),
{
    let reg = cpu.y;
    create_address_add_offset(cpu, data, reg);
}

} // verus!
