//! The processor's transition relation, written out as specification
//! functions. [`s_tick`](s_tick) maps the machine state and the pin record
//! to their values one clock later; [`CPU::tick`](crate::cpu::CPU::tick)
//! promises to realise exactly this function. Everything proved about
//! multi-cycle behaviour (stack round trips, subroutine return addresses,
//! branch targets, interrupt gating, cycle counts) is proved over these
//! functions.

use vstd::prelude::*;

use crate::bits::{wadd16, wadd8, wsub16, wsub8};
use crate::counter::{counter_next, Counter};
use crate::cpu::{
    AddressingMode, BranchOp, CPUPins, CPUState, ImpliedOp, Instr, ReadOp, ReadWrite, RmwOp,
    StoreOp, CPU, FLAG_B, FLAG_C, FLAG_D, FLAG_I, FLAG_N, FLAG_V, FLAG_Z,
};

verus! {

// ---------------------------------------------------------------------------
// Flags
// ---------------------------------------------------------------------------

/// The status byte with one flag bit forced to `on`.
pub open spec fn flag_set(p: u8, mask: u8, on: bool) -> u8 {
    if on {
        p | mask
    } else {
        p & !mask
    }
}

/// Whether a flag bit is set in a status byte.
pub open spec fn flag_on(p: u8, mask: u8) -> bool {
    p & mask != 0
}

/// Z and N updated from a result byte: Z when the byte is zero, N from its
/// top bit.
pub open spec fn set_zn(p: u8, v: u8) -> u8 {
    flag_set(flag_set(p, FLAG_Z, v == 0), FLAG_N, (v & 0x80) != 0)
}

/// The stack lives in page one: the true address of stack slot `sp`.
pub open spec fn stack_addr(sp: u8) -> u16 {
    0x0100u16 | (sp as u16)
}

// ---------------------------------------------------------------------------
// The arithmetic/logic core
// ---------------------------------------------------------------------------

/// The carry flag as a 0/1 summand.
pub open spec fn carry_in(p: u8) -> u16 {
    if flag_on(p, FLAG_C) {
        1u16
    } else {
        0u16
    }
}

/// The nine-bit sum `A + M + C`.
pub open spec fn adc_sum(a: u8, m: u8, p: u8) -> u16 {
    (a + m + carry_in(p)) as u16
}

/// Add with carry: the accumulator takes the low byte of the nine-bit sum;
/// C is its carry-out, Z and N describe the result, and V is the signed
/// overflow computed by the sign identity
/// `(~(A ^ M) & (A ^ R)) & 0x80 != 0`.
pub open spec fn s_add_with_carry(c: CPU, m: u8) -> CPU {
    let sum = adc_sum(c.a, m, c.ps);
    let r = (sum % 256) as u8;
    let p1 = flag_set(c.ps, FLAG_C, sum > 255);
    let p2 = flag_set(p1, FLAG_Z, r == 0);
    let p3 = flag_set(p2, FLAG_N, (r & 0x80) != 0);
    let p4 = flag_set(p3, FLAG_V, ((!(c.a ^ m)) & (c.a ^ r)) & 0x80 != 0);
    CPU { a: r, ps: p4, temp16: sum, ..c }
}

/// Subtract with carry, by the identity `SBC(M) = ADC(M ^ 0xFF)`; this core
/// omits decimal mode.
pub open spec fn s_sub_with_carry(c: CPU, m: u8) -> CPU {
    s_add_with_carry(c, m ^ 0xFF)
}

/// Compare a register against an operand: C when the register is at least
/// the operand, Z and N from the wrapped difference.
pub open spec fn s_compare(c: CPU, r: u8, m: u8) -> CPU {
    let t = wsub16(r as u16, m as u16);
    let p1 = flag_set(c.ps, FLAG_C, r >= m);
    let p2 = flag_set(p1, FLAG_Z, (t & 0xFF) == 0);
    let p3 = flag_set(p2, FLAG_N, (t & 0x80) != 0);
    CPU { temp16: t, ps: p3, ..c }
}

/// The BIT test: Z, V and N taken from `A & M`.
pub open spec fn s_bit_test(c: CPU, m: u8) -> CPU {
    let r = c.a & m;
    let p1 = flag_set(c.ps, FLAG_Z, r == 0);
    let p2 = flag_set(p1, FLAG_V, (r & 0x40) != 0);
    let p3 = flag_set(p2, FLAG_N, (r & 0x80) != 0);
    CPU { ps: p3, ..c }
}

/// A read instruction folding its operand byte into the registers.
pub open spec fn s_apply_read_op(op: ReadOp, c: CPU, m: u8) -> CPU {
    match op {
        ReadOp::Lda => CPU { a: m, ps: set_zn(c.ps, m), ..c },
        ReadOp::Ldx => CPU { x: m, ps: set_zn(c.ps, m), ..c },
        ReadOp::Ldy => CPU { y: m, ps: set_zn(c.ps, m), ..c },
        ReadOp::Adc => s_add_with_carry(c, m),
        ReadOp::Sbc => s_sub_with_carry(c, m),
        ReadOp::And => { let r = c.a & m; CPU { a: r, ps: set_zn(c.ps, r), ..c } },
        ReadOp::Eor => { let r = c.a ^ m; CPU { a: r, ps: set_zn(c.ps, r), ..c } },
        ReadOp::Ora => { let r = c.a | m; CPU { a: r, ps: set_zn(c.ps, r), ..c } },
        ReadOp::Cmp => s_compare(c, c.a, m),
        ReadOp::Cpx => s_compare(c, c.x, m),
        ReadOp::Cpy => s_compare(c, c.y, m),
        ReadOp::Bit => s_bit_test(c, m),
    }
}

/// A read-modify-write operation on one byte, leaving the result in `temp8`.
/// The shifts settle their flags here; INC and DEC settle Z and N in the
/// closing cycle instead.
pub open spec fn s_apply_rmw_op(op: RmwOp, c: CPU, v: u8) -> CPU {
    match op {
        RmwOp::Asl => {
            let res = (v as u16) << 1;
            let p1 = flag_set(c.ps, FLAG_C, (res & 0xFF00) != 0);
            let p2 = flag_set(p1, FLAG_Z, (res & 0xFF) == 0);
            let p3 = flag_set(p2, FLAG_N, (res & 0x80) != 0);
            CPU { ps: p3, temp8: (res & 0xFF) as u8, ..c }
        },
        RmwOp::Lsr => {
            let r = v >> 1;
            let p1 = flag_set(c.ps, FLAG_C, (v & 0x01) != 0);
            let p2 = flag_set(p1, FLAG_Z, r == 0);
            let p3 = flag_set(p2, FLAG_N, (r & 0x80) != 0);
            CPU { ps: p3, temp8: r, ..c }
        },
        RmwOp::Rol => {
            let res = ((v as u16) << 1) | carry_in(c.ps);
            let p1 = flag_set(c.ps, FLAG_C, (res & 0xFF00) != 0);
            let p2 = flag_set(p1, FLAG_Z, (res & 0xFF) == 0);
            let p3 = flag_set(p2, FLAG_N, (res & 0x80) != 0);
            CPU { ps: p3, temp8: (res & 0xFF) as u8, ..c }
        },
        RmwOp::Ror => {
            let res = ((v >> 1) as u16) | (carry_in(c.ps) << 7);
            let p1 = flag_set(c.ps, FLAG_C, (v & 0x01) != 0);
            let p2 = flag_set(p1, FLAG_Z, (res & 0xFF) == 0);
            let p3 = flag_set(p2, FLAG_N, (res & 0x80) != 0);
            CPU { ps: p3, temp8: (res & 0xFF) as u8, ..c }
        },
        RmwOp::Inc => CPU { temp8: wadd8(v, 1), ..c },
        RmwOp::Dec => CPU { temp8: wsub8(v, 1), ..c },
    }
}

/// The accumulator form of a read-modify-write operation: the result lands
/// in A and the scratch byte is left alone.
pub open spec fn s_apply_rmw_to_a(op: RmwOp, c: CPU) -> CPU {
    let c2 = s_apply_rmw_op(op, c, c.a);
    CPU { a: c2.temp8, temp8: c.temp8, ..c2 }
}

/// The register a store instruction writes.
pub open spec fn store_value(op: StoreOp, c: CPU) -> u8 {
    match op {
        StoreOp::Sta => c.a,
        StoreOp::Stx => c.x,
        StoreOp::Sty => c.y,
    }
}

/// First cycle of a two-cycle implied instruction: move or count or touch a
/// flag.
pub open spec fn s_implied_first(op: ImpliedOp, c: CPU) -> CPU {
    match op {
        ImpliedOp::Tax => CPU { x: c.a, ..c },
        ImpliedOp::Tay => CPU { y: c.a, ..c },
        ImpliedOp::Txa => CPU { a: c.x, ..c },
        ImpliedOp::Tya => CPU { a: c.y, ..c },
        ImpliedOp::Tsx => CPU { x: c.sp, ..c },
        ImpliedOp::Txs => CPU { sp: c.x, ..c },
        ImpliedOp::Inx => CPU { x: wadd8(c.x, 1), ..c },
        ImpliedOp::Iny => CPU { y: wadd8(c.y, 1), ..c },
        ImpliedOp::Dex => CPU { x: wsub8(c.x, 1), ..c },
        ImpliedOp::Dey => CPU { y: wsub8(c.y, 1), ..c },
        ImpliedOp::Clc => CPU { ps: flag_set(c.ps, FLAG_C, false), ..c },
        ImpliedOp::Cld => CPU { ps: flag_set(c.ps, FLAG_D, false), ..c },
        ImpliedOp::Cli => CPU { ps: flag_set(c.ps, FLAG_I, false), ..c },
        ImpliedOp::Clv => CPU { ps: flag_set(c.ps, FLAG_V, false), ..c },
        ImpliedOp::Sec => CPU { ps: flag_set(c.ps, FLAG_C, true), ..c },
        ImpliedOp::Sed => CPU { ps: flag_set(c.ps, FLAG_D, true), ..c },
        ImpliedOp::Sei => CPU { ps: flag_set(c.ps, FLAG_I, true), ..c },
        ImpliedOp::Nop => c,
    }
}

/// Second cycle of an implied instruction: the transfers and counts settle
/// Z and N from their destination register.
pub open spec fn s_implied_second(op: ImpliedOp, c: CPU) -> CPU {
    match op {
        ImpliedOp::Tax => CPU { ps: set_zn(c.ps, c.x), ..c },
        ImpliedOp::Tay => CPU { ps: set_zn(c.ps, c.y), ..c },
        ImpliedOp::Txa => CPU { ps: set_zn(c.ps, c.a), ..c },
        ImpliedOp::Tya => CPU { ps: set_zn(c.ps, c.a), ..c },
        ImpliedOp::Tsx => CPU { ps: set_zn(c.ps, c.x), ..c },
        ImpliedOp::Inx => CPU { ps: set_zn(c.ps, c.x), ..c },
        ImpliedOp::Iny => CPU { ps: set_zn(c.ps, c.y), ..c },
        ImpliedOp::Dex => CPU { ps: set_zn(c.ps, c.x), ..c },
        ImpliedOp::Dey => CPU { ps: set_zn(c.ps, c.y), ..c },
        _ => c,
    }
}

/// Whether a branch is taken under the given status byte.
pub open spec fn branch_taken(op: BranchOp, p: u8) -> bool {
    match op {
        BranchOp::Bcc => !flag_on(p, FLAG_C),
        BranchOp::Bcs => flag_on(p, FLAG_C),
        BranchOp::Beq => flag_on(p, FLAG_Z),
        BranchOp::Bmi => flag_on(p, FLAG_N),
        BranchOp::Bne => !flag_on(p, FLAG_Z),
        BranchOp::Bpl => !flag_on(p, FLAG_N),
        BranchOp::Bvc => !flag_on(p, FLAG_V),
        BranchOp::Bvs => flag_on(p, FLAG_V),
    }
}

/// A taken branch lands at the incremented program counter plus the
/// sign-extended offset byte, modulo 2^16.
pub open spec fn s_branch_target(pc: u16, off: u8) -> u16 {
    if off < 0x80 {
        wadd16(pc, off as u16)
    } else {
        wsub16(pc, (0x100 - off) as u16)
    }
}

// ---------------------------------------------------------------------------
// Per-cycle micro-operations
// ---------------------------------------------------------------------------

/// End the instruction: back to `Fetch` with the counter parked at -1.
pub open spec fn s_finish(c: CPU) -> CPU {
    CPU { state: CPUState::Fetch, counter: Counter { value: -1i8 }, ..c }
}

pub open spec fn s_get_current_byte(c: CPU, p: CPUPins) -> (CPU, CPUPins) {
    (
        CPU { pc: wadd16(c.pc, 1), ..c },
        CPUPins { address: c.pc, rw: ReadWrite::R, ..p },
    )
}

pub open spec fn s_get_current_byte_tempb(c: CPU, p: CPUPins) -> (CPU, CPUPins) {
    s_get_current_byte(CPU { tempb: false, ..c }, p)
}

pub open spec fn s_get_second_current_byte(c: CPU, p: CPUPins) -> (CPU, CPUPins) {
    (
        CPU { temp16: p.data as u16, pc: wadd16(c.pc, 1), ..c },
        CPUPins { address: c.pc, rw: ReadWrite::R, ..p },
    )
}

pub open spec fn s_get_second_current_byte_add_reg_tempb(c: CPU, p: CPUPins, reg: u8) -> (
    CPU,
    CPUPins,
) {
    (
        CPU {
            tempb: p.data + reg > 255,
            temp16: wadd8(p.data, reg) as u16,
            pc: wadd16(c.pc, 1),
            ..c
        },
        CPUPins { address: c.pc, rw: ReadWrite::R, ..p },
    )
}

pub open spec fn s_get_second_current_byte_add_x(c: CPU, p: CPUPins) -> (CPU, CPUPins) {
    (
        CPU { temp8: wadd8(p.data, c.x), ..c },
        CPUPins { address: wadd8(p.data, c.x) as u16, rw: ReadWrite::R, ..p },
    )
}

pub open spec fn s_boundary_check_get_addr(c: CPU, p: CPUPins) -> (CPU, CPUPins) {
    if c.tempb {
        (CPU { temp8: wadd8(p.data, 1), ..c }, CPUPins { rw: ReadWrite::R, ..p })
    } else {
        (
            c,
            CPUPins {
                address: c.temp16 | ((p.data as u16) << 8),
                rw: ReadWrite::R,
                ..p
            },
        )
    }
}

pub open spec fn s_get_byte_from_data(c: CPU, p: CPUPins) -> (CPU, CPUPins) {
    (c, CPUPins { address: p.data as u16, rw: ReadWrite::R, ..p })
}

pub open spec fn s_get_byte_from_data_save_addr(c: CPU, p: CPUPins) -> (CPU, CPUPins) {
    (
        CPU { temp16: p.data as u16, ..c },
        CPUPins { address: p.data as u16, rw: ReadWrite::R, ..p },
    )
}

pub open spec fn s_get_byte_from_temp8(c: CPU, p: CPUPins) -> (CPU, CPUPins) {
    (c, CPUPins { address: c.temp8 as u16, rw: ReadWrite::R, ..p })
}

pub open spec fn s_get_byte_from_temp8_save_addr(c: CPU, p: CPUPins) -> (CPU, CPUPins) {
    (
        CPU { temp16: c.temp8 as u16, ..c },
        CPUPins { address: c.temp8 as u16, rw: ReadWrite::R, ..p },
    )
}

pub open spec fn s_add_x_to_data(c: CPU, p: CPUPins) -> (CPU, CPUPins) {
    (CPU { temp8: wadd8(p.data, c.x), ..c }, p)
}

pub open spec fn s_add_y_to_data(c: CPU, p: CPUPins) -> (CPU, CPUPins) {
    (CPU { temp8: wadd8(p.data, c.y), ..c }, p)
}

pub open spec fn s_create_address_from_data(c: CPU, p: CPUPins) -> (CPU, CPUPins) {
    (c, CPUPins { address: c.temp16 | ((p.data as u16) << 8), ..p })
}

pub open spec fn s_create_address_from_data_save_addr(c: CPU, p: CPUPins) -> (CPU, CPUPins) {
    (
        CPU { temp16: c.temp16 | ((p.data as u16) << 8), ..c },
        CPUPins { address: c.temp16 | ((p.data as u16) << 8), ..p },
    )
}

pub open spec fn s_get_byte_from_temp16(c: CPU, p: CPUPins) -> (CPU, CPUPins) {
    let addr = c.temp16 | ((p.data as u16) << 8);
    (
        CPU { temp16: wadd16(addr, 1), ..c },
        CPUPins { address: addr, rw: ReadWrite::R, ..p },
    )
}

pub open spec fn s_get_second_byte_from_temp16(c: CPU, p: CPUPins) -> (CPU, CPUPins) {
    (
        CPU { temp16: p.data as u16, ..c },
        CPUPins { address: c.temp16, rw: ReadWrite::R, ..p },
    )
}

pub open spec fn s_get_next_byte_add_1_temp8(c: CPU, p: CPUPins) -> (CPU, CPUPins) {
    (
        CPU { temp16: p.data as u16, temp8: wadd8(c.temp8, 1), ..c },
        CPUPins { address: wadd8(c.temp8, 1) as u16, rw: ReadWrite::R, ..p },
    )
}

pub open spec fn s_get_next_byte_add_1_var(c: CPU, p: CPUPins) -> (CPU, CPUPins) {
    (
        CPU { temp16: p.data as u16, ..c },
        CPUPins { address: wadd8(c.temp8, 1) as u16, rw: ReadWrite::R, ..p },
    )
}

pub open spec fn s_set_temp16_msb_from_data(c: CPU, p: CPUPins) -> (CPU, CPUPins) {
    (CPU { temp16: c.temp16 | ((p.data as u16) << 8), ..c }, p)
}

pub open spec fn s_get_byte_from_temp16_addr(c: CPU, p: CPUPins) -> (CPU, CPUPins) {
    (c, CPUPins { address: c.temp16, rw: ReadWrite::R, ..p })
}

pub open spec fn s_get_byte_from_data_store(c: CPU, p: CPUPins) -> (CPU, CPUPins) {
    (
        CPU { temp8: p.data, ..c },
        CPUPins { address: p.data as u16, rw: ReadWrite::R, ..p },
    )
}

pub open spec fn s_add_y_to_addr_check_of(c: CPU, p: CPUPins) -> (CPU, CPUPins) {
    let t = wadd16(c.temp16 | ((p.data as u16) << 8), c.y as u16);
    (
        CPU { temp16: t, tempb: ((t >> 8) as u8) > p.data, ..c },
        CPUPins { address: t, rw: ReadWrite::R, ..p },
    )
}

pub open spec fn s_add_y_to_addr_ignore_of(c: CPU, p: CPUPins) -> (CPU, CPUPins) {
    (CPU { temp16: wadd16(c.temp16 | ((p.data as u16) << 8), c.y as u16), ..c }, p)
}

pub open spec fn s_store_zero_page_reg(c: CPU, p: CPUPins, reg: u8) -> (CPU, CPUPins) {
    (c, CPUPins { address: p.data as u16, data: reg, rw: ReadWrite::W })
}

pub open spec fn s_store_temp8_in_temp16(c: CPU, p: CPUPins) -> (CPU, CPUPins) {
    (c, CPUPins { address: c.temp16, data: c.temp8, rw: ReadWrite::W })
}

pub open spec fn s_store_reg(c: CPU, p: CPUPins, reg: u8) -> (CPU, CPUPins) {
    (c, CPUPins { address: c.temp16, data: reg, rw: ReadWrite::W })
}

pub open spec fn s_store_zero_page_temp_reg(c: CPU, p: CPUPins, reg: u8) -> (CPU, CPUPins) {
    (c, CPUPins { address: c.temp8 as u16, data: reg, rw: ReadWrite::W })
}

pub open spec fn s_create_address_add_offset(c: CPU, p: CPUPins, reg: u8) -> (CPU, CPUPins) {
    (CPU { temp16: wadd16(c.temp16 | ((p.data as u16) << 8), reg as u16), ..c }, p)
}

// ---------------------------------------------------------------------------
// Instruction skeletons, one per shape
// ---------------------------------------------------------------------------

/// Closing cycle of a read instruction: fold the byte on the data pins into
/// the registers and finish.
pub open spec fn s_read_final(op: ReadOp, c: CPU, p: CPUPins) -> (CPU, CPUPins) {
    (s_finish(s_apply_read_op(op, c, p.data)), p)
}

/// A read instruction, cycle by cycle.
pub open spec fn s_read_instr(op: ReadOp, mode: AddressingMode, c: CPU, p: CPUPins) -> (
    CPU,
    CPUPins,
) {
    match mode {
        AddressingMode::Immediate => {
            if c.counter.value == 0 {
                s_get_current_byte(c, p)
            } else {
                s_read_final(op, c, p)
            }
        },
        AddressingMode::ZeroPage => {
            if c.counter.value == 0 {
                s_get_current_byte(c, p)
            } else if c.counter.value == 1 {
                s_get_byte_from_data(c, p)
            } else {
                s_read_final(op, c, p)
            }
        },
        AddressingMode::ZeroPageX => {
            if c.counter.value == 0 {
                s_get_current_byte(c, p)
            } else if c.counter.value == 1 {
                s_add_x_to_data(c, p)
            } else if c.counter.value == 2 {
                s_get_byte_from_temp8(c, p)
            } else {
                s_read_final(op, c, p)
            }
        },
        AddressingMode::ZeroPageY => {
            if c.counter.value == 0 {
                s_get_current_byte(c, p)
            } else if c.counter.value == 1 {
                s_add_y_to_data(c, p)
            } else if c.counter.value == 2 {
                s_get_byte_from_temp8(c, p)
            } else {
                s_read_final(op, c, p)
            }
        },
        AddressingMode::Absolute => {
            if c.counter.value == 0 {
                s_get_current_byte(c, p)
            } else if c.counter.value == 1 {
                s_get_second_current_byte(c, p)
            } else if c.counter.value == 2 {
                let (c2, p2) = s_create_address_from_data(c, p);
                (c2, CPUPins { rw: ReadWrite::R, ..p2 })
            } else {
                s_read_final(op, c, p)
            }
        },
        AddressingMode::AbsoluteX => s_read_absolute_indexed(op, c, p, c.x),
        AddressingMode::AbsoluteY => s_read_absolute_indexed(op, c, p, c.y),
        AddressingMode::IndexedIndirect => {
            if c.counter.value == 0 {
                s_get_current_byte(c, p)
            } else if c.counter.value == 1 {
                s_get_second_current_byte_add_x(c, p)
            } else if c.counter.value == 2 {
                s_get_next_byte_add_1_temp8(c, p)
            } else if c.counter.value == 3 {
                s_set_temp16_msb_from_data(c, p)
            } else if c.counter.value == 4 {
                s_get_byte_from_temp16_addr(c, p)
            } else {
                s_read_final(op, c, p)
            }
        },
        AddressingMode::IndirectIndexed => {
            if c.counter.value == 0 {
                s_get_current_byte_tempb(c, p)
            } else if c.counter.value == 1 {
                s_get_byte_from_data_store(c, p)
            } else if c.counter.value == 2 {
                s_get_next_byte_add_1_var(c, p)
            } else if c.counter.value == 3 {
                s_add_y_to_addr_check_of(c, p)
            } else if c.counter.value == 4 {
                if !c.tempb {
                    let (c2, p2) = s_read_final(op, c, p);
                    (CPU { temp8: p2.data, ..c2 }, p2)
                } else {
                    (CPU { temp8: p.data, ..c }, p)
                }
            } else {
                s_read_final(op, c, p)
            }
        },
        _ => (s_finish(c), p),
    }
}

/// The absolute-indexed read path shared by absolute-X and absolute-Y: one
/// cycle shorter when the indexed low byte does not carry into the high
/// byte, one penalty cycle when it does.
pub open spec fn s_read_absolute_indexed(op: ReadOp, c: CPU, p: CPUPins, reg: u8) -> (
    CPU,
    CPUPins,
) {
    if c.counter.value == 0 {
        s_get_current_byte_tempb(c, p)
    } else if c.counter.value == 1 {
        s_get_second_current_byte_add_reg_tempb(c, p, reg)
    } else if c.counter.value == 2 {
        s_boundary_check_get_addr(c, p)
    } else if c.counter.value == 3 {
        if c.tempb {
            (
                c,
                CPUPins {
                    address: c.temp16 | ((c.temp8 as u16) << 8),
                    rw: ReadWrite::R,
                    ..p
                },
            )
        } else {
            s_read_final(op, c, p)
        }
    } else {
        s_read_final(op, c, p)
    }
}

/// A store instruction, cycle by cycle.
pub open spec fn s_store_instr(op: StoreOp, mode: AddressingMode, c: CPU, p: CPUPins) -> (
    CPU,
    CPUPins,
) {
    match mode {
        AddressingMode::ZeroPage => {
            if c.counter.value == 0 {
                s_get_current_byte(c, p)
            } else if c.counter.value == 1 {
                s_store_zero_page_reg(c, p, store_value(op, c))
            } else {
                (s_finish(c), p)
            }
        },
        AddressingMode::ZeroPageX => {
            if c.counter.value == 0 {
                s_get_current_byte(c, p)
            } else if c.counter.value == 1 {
                s_add_x_to_data(c, p)
            } else if c.counter.value == 2 {
                s_store_zero_page_temp_reg(c, p, store_value(op, c))
            } else {
                (s_finish(c), p)
            }
        },
        AddressingMode::ZeroPageY => {
            if c.counter.value == 0 {
                s_get_current_byte(c, p)
            } else if c.counter.value == 1 {
                s_add_y_to_data(c, p)
            } else if c.counter.value == 2 {
                s_store_zero_page_temp_reg(c, p, store_value(op, c))
            } else {
                (s_finish(c), p)
            }
        },
        AddressingMode::Absolute => {
            if c.counter.value == 0 {
                s_get_current_byte(c, p)
            } else if c.counter.value == 1 {
                s_get_second_current_byte(c, p)
            } else if c.counter.value == 2 {
                (
                    c,
                    CPUPins {
                        address: c.temp16 | ((p.data as u16) << 8),
                        data: store_value(op, c),
                        rw: ReadWrite::W,
                    },
                )
            } else {
                (s_finish(c), p)
            }
        },
        AddressingMode::AbsoluteX => s_store_absolute_indexed(op, c, p, c.x),
        AddressingMode::AbsoluteY => s_store_absolute_indexed(op, c, p, c.y),
        AddressingMode::IndexedIndirect => {
            if c.counter.value == 0 {
                s_get_current_byte(c, p)
            } else if c.counter.value == 1 {
                s_get_second_current_byte_add_x(c, p)
            } else if c.counter.value == 2 {
                s_get_next_byte_add_1_temp8(c, p)
            } else if c.counter.value == 3 {
                s_set_temp16_msb_from_data(c, p)
            } else if c.counter.value == 4 {
                s_store_reg(c, p, store_value(op, c))
            } else {
                (s_finish(c), p)
            }
        },
        AddressingMode::IndirectIndexed => {
            if c.counter.value == 0 {
                s_get_current_byte(c, p)
            } else if c.counter.value == 1 {
                s_get_byte_from_data_store(c, p)
            } else if c.counter.value == 2 {
                s_get_next_byte_add_1_var(c, p)
            } else if c.counter.value == 3 {
                s_add_y_to_addr_ignore_of(c, p)
            } else if c.counter.value == 4 {
                s_store_reg(c, p, store_value(op, c))
            } else {
                (s_finish(c), p)
            }
        },
        _ => (s_finish(c), p),
    }
}

/// A store through an absolute indexed address: always five cycles, never a
/// page penalty.
pub open spec fn s_store_absolute_indexed(op: StoreOp, c: CPU, p: CPUPins, reg: u8) -> (
    CPU,
    CPUPins,
) {
    if c.counter.value == 0 {
        s_get_current_byte(c, p)
    } else if c.counter.value == 1 {
        s_get_second_current_byte(c, p)
    } else if c.counter.value == 2 {
        s_create_address_add_offset(c, p, reg)
    } else if c.counter.value == 3 {
        (
            c,
            CPUPins { address: c.temp16, data: store_value(op, c), rw: ReadWrite::W },
        )
    } else {
        (s_finish(c), p)
    }
}

/// Closing cycle of a read-modify-write instruction: INC and DEC settle Z
/// and N from the written byte, the shifts already did.
pub open spec fn s_rmw_end_cpu(op: RmwOp, c: CPU) -> CPU {
    match op {
        RmwOp::Inc | RmwOp::Dec => s_finish(CPU { ps: set_zn(c.ps, c.temp8), ..c }),
        _ => s_finish(c),
    }
}

/// As [`s_rmw_end_cpu`], paired with the untouched pins.
pub open spec fn s_rmw_end(op: RmwOp, c: CPU, p: CPUPins) -> (CPU, CPUPins) {
    (s_rmw_end_cpu(op, c), p)
}

/// A read-modify-write instruction, cycle by cycle: the read of the
/// operand, a dummy write of the original byte during the compute cycle,
/// then the final write of the result.
pub open spec fn s_rmw_instr(op: RmwOp, mode: AddressingMode, c: CPU, p: CPUPins) -> (
    CPU,
    CPUPins,
) {
    match mode {
        AddressingMode::Accumulator => {
            if c.counter.value == 0 {
                (s_apply_rmw_to_a(op, c), p)
            } else {
                (s_finish(c), p)
            }
        },
        AddressingMode::ZeroPage => {
            if c.counter.value == 0 {
                s_get_current_byte(c, p)
            } else if c.counter.value == 1 {
                s_get_byte_from_data_save_addr(c, p)
            } else if c.counter.value == 2 {
                (s_apply_rmw_op(op, c, p.data), CPUPins { rw: ReadWrite::W, ..p })
            } else if c.counter.value == 3 {
                s_store_temp8_in_temp16(c, p)
            } else {
                s_rmw_end(op, c, p)
            }
        },
        AddressingMode::ZeroPageX => {
            if c.counter.value == 0 {
                s_get_current_byte(c, p)
            } else if c.counter.value == 1 {
                s_add_x_to_data(c, p)
            } else if c.counter.value == 2 {
                s_get_byte_from_temp8_save_addr(c, p)
            } else if c.counter.value == 3 {
                (s_apply_rmw_op(op, c, p.data), CPUPins { rw: ReadWrite::W, ..p })
            } else if c.counter.value == 4 {
                s_store_temp8_in_temp16(c, p)
            } else {
                s_rmw_end(op, c, p)
            }
        },
        AddressingMode::Absolute => {
            if c.counter.value == 0 {
                s_get_current_byte(c, p)
            } else if c.counter.value == 1 {
                s_get_second_current_byte(c, p)
            } else if c.counter.value == 2 {
                let (c2, p2) = s_create_address_from_data_save_addr(c, p);
                (c2, CPUPins { rw: ReadWrite::R, ..p2 })
            } else if c.counter.value == 3 {
                (s_apply_rmw_op(op, c, p.data), CPUPins { rw: ReadWrite::W, ..p })
            } else if c.counter.value == 4 {
                s_store_temp8_in_temp16(c, p)
            } else {
                s_rmw_end(op, c, p)
            }
        },
        AddressingMode::AbsoluteX => {
            if c.counter.value == 0 {
                s_get_current_byte(c, p)
            } else if c.counter.value == 1 {
                s_get_second_current_byte(c, p)
            } else if c.counter.value == 2 {
                let (c2, _) = s_create_address_add_offset(c, p, c.x);
                (c2, CPUPins { address: c2.temp16, rw: ReadWrite::R, ..p })
            } else if c.counter.value == 3 {
                (s_apply_rmw_op(op, c, p.data), CPUPins { rw: ReadWrite::W, ..p })
            } else if c.counter.value == 4 {
                s_store_temp8_in_temp16(c, p)
            } else if c.counter.value == 5 {
                (c, p)
            } else {
                s_rmw_end(op, c, p)
            }
        },
        _ => (s_finish(c), p),
    }
}

/// An implied instruction, cycle by cycle.
pub open spec fn s_implied_instr(op: ImpliedOp, c: CPU, p: CPUPins) -> (CPU, CPUPins) {
    if c.counter.value == 0 {
        (s_implied_first(op, c), p)
    } else {
        (s_finish(s_implied_second(op, c)), p)
    }
}

/// A conditional branch, cycle by cycle: two cycles when not taken, one
/// more when taken, and another when the target sits on a different page
/// than the incremented program counter.
pub open spec fn s_branch_instr(op: BranchOp, c: CPU, p: CPUPins) -> (CPU, CPUPins) {
    if c.counter.value == 0 {
        (c, p)
    } else if c.counter.value == 1 {
        if !branch_taken(op, c.ps) {
            (s_finish(CPU { pc: wadd16(c.pc, 1), ..c }), p)
        } else {
            s_get_current_byte(c, p)
        }
    } else if c.counter.value == 2 {
        let t = s_branch_target(c.pc, p.data);
        if (c.pc & 0xFF00) == (t & 0xFF00) {
            (s_finish(CPU { pc: t, ..c }), p)
        } else {
            (CPU { pc: t, ..c }, p)
        }
    } else {
        (s_finish(c), p)
    }
}

/// PHA and PHP: write the byte at the stack slot, then step the pointer.
pub open spec fn s_push_instr(c: CPU, p: CPUPins, v: u8) -> (CPU, CPUPins) {
    if c.counter.value == 0 {
        (c, CPUPins { address: stack_addr(c.sp), data: v, rw: ReadWrite::W })
    } else if c.counter.value == 1 {
        (CPU { sp: wsub8(c.sp, 1), ..c }, p)
    } else {
        (s_finish(c), p)
    }
}

/// PLA, cycle by cycle.
pub open spec fn s_pla_instr(c: CPU, p: CPUPins) -> (CPU, CPUPins) {
    if c.counter.value == 0 {
        (CPU { sp: wadd8(c.sp, 1), ..c }, p)
    } else if c.counter.value == 1 {
        (c, CPUPins { address: stack_addr(c.sp), rw: ReadWrite::R, ..p })
    } else if c.counter.value == 2 {
        (CPU { a: p.data, ..c }, p)
    } else {
        (s_finish(CPU { ps: set_zn(c.ps, c.a), ..c }), p)
    }
}

/// PLP, cycle by cycle.
pub open spec fn s_plp_instr(c: CPU, p: CPUPins) -> (CPU, CPUPins) {
    if c.counter.value == 0 {
        (CPU { sp: wadd8(c.sp, 1), ..c }, p)
    } else if c.counter.value == 1 {
        (c, CPUPins { address: stack_addr(c.sp), rw: ReadWrite::R, ..p })
    } else if c.counter.value == 2 {
        (CPU { ps: p.data, ..c }, p)
    } else {
        (s_finish(c), p)
    }
}

/// JMP with an absolute operand.
pub open spec fn s_jmp_abs_instr(c: CPU, p: CPUPins) -> (CPU, CPUPins) {
    if c.counter.value == 0 {
        s_get_current_byte(c, p)
    } else if c.counter.value == 1 {
        s_get_second_current_byte(c, p)
    } else {
        let addr = c.temp16 | ((p.data as u16) << 8);
        (
            s_finish(CPU { temp16: addr, pc: addr, ..c }),
            CPUPins { address: addr, ..p },
        )
    }
}

/// JMP through a pointer, with the hardware's page-wrap quirk: when the
/// pointer's low byte is 0xFF, the high byte of the target is fetched from
/// offset 0x00 of the same page.
pub open spec fn s_jmp_ind_instr(c: CPU, p: CPUPins) -> (CPU, CPUPins) {
    if c.counter.value == 0 {
        s_get_current_byte(c, p)
    } else if c.counter.value == 1 {
        s_get_second_current_byte(c, p)
    } else if c.counter.value == 2 {
        let ptr = c.temp16 | ((p.data as u16) << 8);
        (
            CPU { temp16: ptr, ..c },
            CPUPins { address: ptr, rw: ReadWrite::R, ..p },
        )
    } else if c.counter.value == 3 {
        let hi_addr = (c.temp16 & 0xFF00) | (wadd16(c.temp16, 1) & 0x00FF);
        (
            CPU { temp16: p.data as u16, ..c },
            CPUPins { address: hi_addr, rw: ReadWrite::R, ..p },
        )
    } else {
        let t = c.temp16 | ((p.data as u16) << 8);
        (
            s_finish(CPU { temp16: t, pc: t, ..c }),
            CPUPins { address: t, ..p },
        )
    }
}

/// JSR: read the target, push the decremented program counter high byte
/// then low byte, and jump.
pub open spec fn s_jsr_instr(c: CPU, p: CPUPins) -> (CPU, CPUPins) {
    if c.counter.value == 0 {
        s_get_current_byte(c, p)
    } else if c.counter.value == 1 {
        s_get_second_current_byte(c, p)
    } else if c.counter.value == 2 {
        let t = c.temp16 | ((p.data as u16) << 8);
        let pc2 = wsub16(c.pc, 1);
        (
            CPU { temp16: t, pc: pc2, sp: wsub8(c.sp, 1), ..c },
            CPUPins { address: stack_addr(c.sp), data: (pc2 >> 8) as u8, rw: ReadWrite::W },
        )
    } else if c.counter.value == 3 {
        (
            CPU { sp: wsub8(c.sp, 1), ..c },
            CPUPins { address: stack_addr(c.sp), data: (c.pc & 0xFF) as u8, rw: ReadWrite::W },
        )
    } else if c.counter.value == 4 {
        (c, p)
    } else {
        (s_finish(CPU { pc: c.temp16, ..c }), p)
    }
}

/// RTS: pull the return address low byte then high byte and resume one past
/// it.
pub open spec fn s_rts_instr(c: CPU, p: CPUPins) -> (CPU, CPUPins) {
    if c.counter.value == 0 {
        (CPU { sp: wadd8(c.sp, 1), ..c }, p)
    } else if c.counter.value == 1 {
        (c, CPUPins { address: stack_addr(c.sp), rw: ReadWrite::R, ..p })
    } else if c.counter.value == 2 {
        (CPU { temp16: p.data as u16, sp: wadd8(c.sp, 1), ..c }, p)
    } else if c.counter.value == 3 {
        (c, CPUPins { address: stack_addr(c.sp), rw: ReadWrite::R, ..p })
    } else if c.counter.value == 4 {
        let t = c.temp16 | ((p.data as u16) << 8);
        (
            CPU { temp16: t, pc: wadd16(t, 1), ..c },
            CPUPins { address: t, ..p },
        )
    } else {
        (s_finish(c), p)
    }
}

/// RTI: pull the status byte, then the program counter low and high bytes.
pub open spec fn s_rti_instr(c: CPU, p: CPUPins) -> (CPU, CPUPins) {
    if c.counter.value == 0 {
        (CPU { sp: wadd8(c.sp, 1), ..c }, p)
    } else if c.counter.value == 1 {
        (c, CPUPins { address: stack_addr(c.sp), rw: ReadWrite::R, ..p })
    } else if c.counter.value == 2 {
        (CPU { sp: wadd8(c.sp, 1), temp8: p.data, ..c }, p)
    } else if c.counter.value == 3 {
        (
            CPU { ps: c.temp8, ..c },
            CPUPins { address: stack_addr(c.sp), rw: ReadWrite::R, ..p },
        )
    } else if c.counter.value == 4 {
        (
            CPU { pc: p.data as u16, sp: wadd8(c.sp, 1), ..c },
            CPUPins { address: stack_addr(wadd8(c.sp, 1)), rw: ReadWrite::R, ..p },
        )
    } else {
        (s_finish(CPU { pc: c.pc | ((p.data as u16) << 8), ..c }), p)
    }
}

/// The seven-cycle interrupt entry, shared by BRK and the two hardware
/// interrupts: push the program counter and the status byte, read the
/// vector, set the interrupt-disable flag. BRK marks the pushed status byte
/// with the B flag and uses the IRQ vector; a non-maskable interrupt uses
/// 0xFFFA instead of 0xFFFE.
pub open spec fn s_int_seq(c: CPU, p: CPUPins, nmi: bool, brk: bool) -> (CPU, CPUPins) {
    let vec_lo: u16 = if nmi { 0xFFFAu16 } else { 0xFFFEu16 };
    if c.counter.value == 0 {
        (
            CPU { sp: wsub8(c.sp, 1), ..c },
            CPUPins { address: stack_addr(c.sp), data: (c.pc >> 8) as u8, rw: ReadWrite::W },
        )
    } else if c.counter.value == 1 {
        (
            CPU { sp: wsub8(c.sp, 1), ..c },
            CPUPins { address: stack_addr(c.sp), data: (c.pc & 0xFF) as u8, rw: ReadWrite::W },
        )
    } else if c.counter.value == 2 {
        (
            CPU { sp: wsub8(c.sp, 1), ..c },
            CPUPins {
                address: stack_addr(c.sp),
                data: if brk { c.ps | FLAG_B } else { c.ps },
                rw: ReadWrite::W,
            },
        )
    } else if c.counter.value == 3 {
        (c, CPUPins { address: vec_lo, rw: ReadWrite::R, ..p })
    } else if c.counter.value == 4 {
        (
            CPU { temp16: p.data as u16, ..c },
            CPUPins {
                address: if nmi { 0xFFFBu16 } else { 0xFFFFu16 },
                rw: ReadWrite::R,
                ..p
            },
        )
    } else if c.counter.value == 5 {
        (
            CPU {
                pc: c.temp16 | ((p.data as u16) << 8),
                ps: c.ps | FLAG_I,
                ..c
            },
            p,
        )
    } else {
        (s_finish(c), p)
    }
}

/// An opcode outside the official set behaves as a two-cycle NOP and bumps
/// the diagnostic counter once.
pub open spec fn s_invalid_instr(c: CPU, p: CPUPins) -> (CPU, CPUPins) {
    if c.counter.value == 0 {
        (
            CPU {
                invalid_ops: if c.invalid_ops < 0xFFFF_FFFF_FFFF_FFFF {
                    (c.invalid_ops + 1) as u64
                } else {
                    c.invalid_ops
                },
                ..c
            },
            p,
        )
    } else {
        (s_finish(c), p)
    }
}

/// The seven-cycle reset sequence: read the reset vector into the program
/// counter, idle through the remaining cycles, and finish.
pub open spec fn s_reset_step(c: CPU, p: CPUPins) -> (CPU, CPUPins) {
    if c.counter.value == 0 {
        (c, CPUPins { address: 0xFFFC, rw: ReadWrite::R, ..p })
    } else if c.counter.value == 1 {
        (
            CPU { pc: p.data as u16, ..c },
            CPUPins { address: 0xFFFD, rw: ReadWrite::R, ..p },
        )
    } else if c.counter.value == 2 {
        (CPU { pc: c.pc | ((p.data as u16) << 8), ..c }, p)
    } else if c.counter.value <= 5 {
        (c, p)
    } else {
        (s_finish(c), p)
    }
}

/// What [`CPU::reset`](crate::cpu::CPU::reset) does to the registers.
pub open spec fn s_reset_registers(c: CPU) -> CPU {
    CPU {
        sp: 0xFF,
        ps: 0,
        a: 0,
        x: 0,
        y: 0,
        state: CPUState::Reset,
        counter: Counter { value: 0 },
        nmi_pending: false,
        irq_pending: false,
        take_nmi: false,
        ..c
    }
}

// ---------------------------------------------------------------------------
// Dispatch
// ---------------------------------------------------------------------------

/// One cycle of the instruction currently latched in `opcode`.
pub open spec fn s_execute(c: CPU, p: CPUPins) -> (CPU, CPUPins) {
    match s_decode(c.opcode) {
        Some(i) => match i {
            Instr::Read(op, mode) => s_read_instr(op, mode, c, p),
            Instr::Store(op, mode) => s_store_instr(op, mode, c, p),
            Instr::Rmw(op, mode) => s_rmw_instr(op, mode, c, p),
            Instr::Implied(op) => s_implied_instr(op, c, p),
            Instr::Branch(op) => s_branch_instr(op, c, p),
            Instr::Pha => s_push_instr(c, p, c.a),
            Instr::Php => s_push_instr(c, p, c.ps),
            Instr::Pla => s_pla_instr(c, p),
            Instr::Plp => s_plp_instr(c, p),
            Instr::JmpAbs => s_jmp_abs_instr(c, p),
            Instr::JmpInd => s_jmp_ind_instr(c, p),
            Instr::Jsr => s_jsr_instr(c, p),
            Instr::Rts => s_rts_instr(c, p),
            Instr::Rti => s_rti_instr(c, p),
            Instr::Brk => s_int_seq(c, p, false, true),
        },
        None => s_invalid_instr(c, p),
    }
}

/// The two fetch cycles: read at the program counter, then latch the byte
/// as the opcode and move to `Execute`.
pub open spec fn s_fetch(c: CPU, p: CPUPins) -> (CPU, CPUPins) {
    if c.counter.value == 0 {
        (
            CPU { pc: wadd16(c.pc, 1), ..c },
            CPUPins { address: c.pc, rw: ReadWrite::R, ..p },
        )
    } else {
        (
            CPU {
                opcode: p.data,
                state: CPUState::Execute,
                counter: Counter { value: -1i8 },
                ..c
            },
            p,
        )
    }
}

/// Whether an interrupt is taken at this fetch boundary: a pending
/// non-maskable interrupt always is, a maskable one only while the
/// interrupt-disable flag is clear.
pub open spec fn interrupt_due(c: CPU) -> bool {
    c.nmi_pending || (c.irq_pending && !flag_on(c.ps, FLAG_I))
}

/// The machine one clock later: the pair of the new processor state and the
/// new pins. The cycle counter advances in every state but `Halted`.
pub open spec fn s_tick(c: CPU, p: CPUPins) -> (CPU, CPUPins) {
    match c.state {
        CPUState::Halted => (c, p),
        CPUState::Fetch => {
            let (c2, p2) = if c.counter.value == 0 && interrupt_due(c) {
                let c1 = CPU {
                    take_nmi: c.nmi_pending,
                    nmi_pending: false,
                    irq_pending: if c.nmi_pending { c.irq_pending } else { false },
                    state: CPUState::Interrupt,
                    ..c
                };
                s_int_seq(c1, p, c1.take_nmi, false)
            } else {
                s_fetch(c, p)
            };
            (CPU { counter: counter_next(c2.counter), ..c2 }, p2)
        },
        CPUState::Execute => {
            let (c2, p2) = s_execute(c, p);
            (CPU { counter: counter_next(c2.counter), ..c2 }, p2)
        },
        CPUState::Interrupt => {
            let (c2, p2) = s_int_seq(c, p, c.take_nmi, false);
            (CPU { counter: counter_next(c2.counter), ..c2 }, p2)
        },
        CPUState::Reset => {
            let (c2, p2) = s_reset_step(c, p);
            (CPU { counter: counter_next(c2.counter), ..c2 }, p2)
        },
    }
}

// ---------------------------------------------------------------------------
// Decode
// ---------------------------------------------------------------------------

/// The official instruction set: each encoding maps to its operation and
/// addressing mode; everything else is `None`.
pub open spec fn s_decode(op: u8) -> Option<Instr> {
    if op == 0xA9 { Some(Instr::Read(ReadOp::Lda, AddressingMode::Immediate)) }
    else if op == 0xA5 { Some(Instr::Read(ReadOp::Lda, AddressingMode::ZeroPage)) }
    else if op == 0xB5 { Some(Instr::Read(ReadOp::Lda, AddressingMode::ZeroPageX)) }
    else if op == 0xAD { Some(Instr::Read(ReadOp::Lda, AddressingMode::Absolute)) }
    else if op == 0xBD { Some(Instr::Read(ReadOp::Lda, AddressingMode::AbsoluteX)) }
    else if op == 0xB9 { Some(Instr::Read(ReadOp::Lda, AddressingMode::AbsoluteY)) }
    else if op == 0xA1 { Some(Instr::Read(ReadOp::Lda, AddressingMode::IndexedIndirect)) }
    else if op == 0xB1 { Some(Instr::Read(ReadOp::Lda, AddressingMode::IndirectIndexed)) }
    else if op == 0xA2 { Some(Instr::Read(ReadOp::Ldx, AddressingMode::Immediate)) }
    else if op == 0xA6 { Some(Instr::Read(ReadOp::Ldx, AddressingMode::ZeroPage)) }
    else if op == 0xB6 { Some(Instr::Read(ReadOp::Ldx, AddressingMode::ZeroPageY)) }
    else if op == 0xAE { Some(Instr::Read(ReadOp::Ldx, AddressingMode::Absolute)) }
    else if op == 0xBE { Some(Instr::Read(ReadOp::Ldx, AddressingMode::AbsoluteY)) }
    else if op == 0xA0 { Some(Instr::Read(ReadOp::Ldy, AddressingMode::Immediate)) }
    else if op == 0xA4 { Some(Instr::Read(ReadOp::Ldy, AddressingMode::ZeroPage)) }
    else if op == 0xB4 { Some(Instr::Read(ReadOp::Ldy, AddressingMode::ZeroPageX)) }
    else if op == 0xAC { Some(Instr::Read(ReadOp::Ldy, AddressingMode::Absolute)) }
    else if op == 0xBC { Some(Instr::Read(ReadOp::Ldy, AddressingMode::AbsoluteX)) }
    else if op == 0x69 { Some(Instr::Read(ReadOp::Adc, AddressingMode::Immediate)) }
    else if op == 0x65 { Some(Instr::Read(ReadOp::Adc, AddressingMode::ZeroPage)) }
    else if op == 0x75 { Some(Instr::Read(ReadOp::Adc, AddressingMode::ZeroPageX)) }
    else if op == 0x6D { Some(Instr::Read(ReadOp::Adc, AddressingMode::Absolute)) }
    else if op == 0x7D { Some(Instr::Read(ReadOp::Adc, AddressingMode::AbsoluteX)) }
    else if op == 0x79 { Some(Instr::Read(ReadOp::Adc, AddressingMode::AbsoluteY)) }
    else if op == 0x61 { Some(Instr::Read(ReadOp::Adc, AddressingMode::IndexedIndirect)) }
    else if op == 0x71 { Some(Instr::Read(ReadOp::Adc, AddressingMode::IndirectIndexed)) }
    else if op == 0xE9 { Some(Instr::Read(ReadOp::Sbc, AddressingMode::Immediate)) }
    else if op == 0xE5 { Some(Instr::Read(ReadOp::Sbc, AddressingMode::ZeroPage)) }
    else if op == 0xF5 { Some(Instr::Read(ReadOp::Sbc, AddressingMode::ZeroPageX)) }
    else if op == 0xED { Some(Instr::Read(ReadOp::Sbc, AddressingMode::Absolute)) }
    else if op == 0xFD { Some(Instr::Read(ReadOp::Sbc, AddressingMode::AbsoluteX)) }
    else if op == 0xF9 { Some(Instr::Read(ReadOp::Sbc, AddressingMode::AbsoluteY)) }
    else if op == 0xE1 { Some(Instr::Read(ReadOp::Sbc, AddressingMode::IndexedIndirect)) }
    else if op == 0xF1 { Some(Instr::Read(ReadOp::Sbc, AddressingMode::IndirectIndexed)) }
    else if op == 0x29 { Some(Instr::Read(ReadOp::And, AddressingMode::Immediate)) }
    else if op == 0x25 { Some(Instr::Read(ReadOp::And, AddressingMode::ZeroPage)) }
    else if op == 0x35 { Some(Instr::Read(ReadOp::And, AddressingMode::ZeroPageX)) }
    else if op == 0x2D { Some(Instr::Read(ReadOp::And, AddressingMode::Absolute)) }
    else if op == 0x3D { Some(Instr::Read(ReadOp::And, AddressingMode::AbsoluteX)) }
    else if op == 0x39 { Some(Instr::Read(ReadOp::And, AddressingMode::AbsoluteY)) }
    else if op == 0x21 { Some(Instr::Read(ReadOp::And, AddressingMode::IndexedIndirect)) }
    else if op == 0x31 { Some(Instr::Read(ReadOp::And, AddressingMode::IndirectIndexed)) }
    else if op == 0x49 { Some(Instr::Read(ReadOp::Eor, AddressingMode::Immediate)) }
    else if op == 0x45 { Some(Instr::Read(ReadOp::Eor, AddressingMode::ZeroPage)) }
    else if op == 0x55 { Some(Instr::Read(ReadOp::Eor, AddressingMode::ZeroPageX)) }
    else if op == 0x4D { Some(Instr::Read(ReadOp::Eor, AddressingMode::Absolute)) }
    else if op == 0x5D { Some(Instr::Read(ReadOp::Eor, AddressingMode::AbsoluteX)) }
    else if op == 0x59 { Some(Instr::Read(ReadOp::Eor, AddressingMode::AbsoluteY)) }
    else if op == 0x41 { Some(Instr::Read(ReadOp::Eor, AddressingMode::IndexedIndirect)) }
    else if op == 0x51 { Some(Instr::Read(ReadOp::Eor, AddressingMode::IndirectIndexed)) }
    else if op == 0x09 { Some(Instr::Read(ReadOp::Ora, AddressingMode::Immediate)) }
    else if op == 0x05 { Some(Instr::Read(ReadOp::Ora, AddressingMode::ZeroPage)) }
    else if op == 0x15 { Some(Instr::Read(ReadOp::Ora, AddressingMode::ZeroPageX)) }
    else if op == 0x0D { Some(Instr::Read(ReadOp::Ora, AddressingMode::Absolute)) }
    else if op == 0x1D { Some(Instr::Read(ReadOp::Ora, AddressingMode::AbsoluteX)) }
    else if op == 0x19 { Some(Instr::Read(ReadOp::Ora, AddressingMode::AbsoluteY)) }
    else if op == 0x01 { Some(Instr::Read(ReadOp::Ora, AddressingMode::IndexedIndirect)) }
    else if op == 0x11 { Some(Instr::Read(ReadOp::Ora, AddressingMode::IndirectIndexed)) }
    else if op == 0xC9 { Some(Instr::Read(ReadOp::Cmp, AddressingMode::Immediate)) }
    else if op == 0xC5 { Some(Instr::Read(ReadOp::Cmp, AddressingMode::ZeroPage)) }
    else if op == 0xD5 { Some(Instr::Read(ReadOp::Cmp, AddressingMode::ZeroPageX)) }
    else if op == 0xCD { Some(Instr::Read(ReadOp::Cmp, AddressingMode::Absolute)) }
    else if op == 0xDD { Some(Instr::Read(ReadOp::Cmp, AddressingMode::AbsoluteX)) }
    else if op == 0xD9 { Some(Instr::Read(ReadOp::Cmp, AddressingMode::AbsoluteY)) }
    else if op == 0xC1 { Some(Instr::Read(ReadOp::Cmp, AddressingMode::IndexedIndirect)) }
    else if op == 0xD1 { Some(Instr::Read(ReadOp::Cmp, AddressingMode::IndirectIndexed)) }
    else if op == 0xE0 { Some(Instr::Read(ReadOp::Cpx, AddressingMode::Immediate)) }
    else if op == 0xE4 { Some(Instr::Read(ReadOp::Cpx, AddressingMode::ZeroPage)) }
    else if op == 0xEC { Some(Instr::Read(ReadOp::Cpx, AddressingMode::Absolute)) }
    else if op == 0xC0 { Some(Instr::Read(ReadOp::Cpy, AddressingMode::Immediate)) }
    else if op == 0xC4 { Some(Instr::Read(ReadOp::Cpy, AddressingMode::ZeroPage)) }
    else if op == 0xCC { Some(Instr::Read(ReadOp::Cpy, AddressingMode::Absolute)) }
    else if op == 0x24 { Some(Instr::Read(ReadOp::Bit, AddressingMode::ZeroPage)) }
    else if op == 0x2C { Some(Instr::Read(ReadOp::Bit, AddressingMode::Absolute)) }
    else if op == 0x85 { Some(Instr::Store(StoreOp::Sta, AddressingMode::ZeroPage)) }
    else if op == 0x95 { Some(Instr::Store(StoreOp::Sta, AddressingMode::ZeroPageX)) }
    else if op == 0x8D { Some(Instr::Store(StoreOp::Sta, AddressingMode::Absolute)) }
    else if op == 0x9D { Some(Instr::Store(StoreOp::Sta, AddressingMode::AbsoluteX)) }
    else if op == 0x99 { Some(Instr::Store(StoreOp::Sta, AddressingMode::AbsoluteY)) }
    else if op == 0x81 { Some(Instr::Store(StoreOp::Sta, AddressingMode::IndexedIndirect)) }
    else if op == 0x91 { Some(Instr::Store(StoreOp::Sta, AddressingMode::IndirectIndexed)) }
    else if op == 0x86 { Some(Instr::Store(StoreOp::Stx, AddressingMode::ZeroPage)) }
    else if op == 0x96 { Some(Instr::Store(StoreOp::Stx, AddressingMode::ZeroPageY)) }
    else if op == 0x8E { Some(Instr::Store(StoreOp::Stx, AddressingMode::Absolute)) }
    else if op == 0x84 { Some(Instr::Store(StoreOp::Sty, AddressingMode::ZeroPage)) }
    else if op == 0x94 { Some(Instr::Store(StoreOp::Sty, AddressingMode::ZeroPageX)) }
    else if op == 0x8C { Some(Instr::Store(StoreOp::Sty, AddressingMode::Absolute)) }
    else if op == 0x0A { Some(Instr::Rmw(RmwOp::Asl, AddressingMode::Accumulator)) }
    else if op == 0x06 { Some(Instr::Rmw(RmwOp::Asl, AddressingMode::ZeroPage)) }
    else if op == 0x16 { Some(Instr::Rmw(RmwOp::Asl, AddressingMode::ZeroPageX)) }
    else if op == 0x0E { Some(Instr::Rmw(RmwOp::Asl, AddressingMode::Absolute)) }
    else if op == 0x1E { Some(Instr::Rmw(RmwOp::Asl, AddressingMode::AbsoluteX)) }
    else if op == 0x4A { Some(Instr::Rmw(RmwOp::Lsr, AddressingMode::Accumulator)) }
    else if op == 0x46 { Some(Instr::Rmw(RmwOp::Lsr, AddressingMode::ZeroPage)) }
    else if op == 0x56 { Some(Instr::Rmw(RmwOp::Lsr, AddressingMode::ZeroPageX)) }
    else if op == 0x4E { Some(Instr::Rmw(RmwOp::Lsr, AddressingMode::Absolute)) }
    else if op == 0x5E { Some(Instr::Rmw(RmwOp::Lsr, AddressingMode::AbsoluteX)) }
    else if op == 0x2A { Some(Instr::Rmw(RmwOp::Rol, AddressingMode::Accumulator)) }
    else if op == 0x26 { Some(Instr::Rmw(RmwOp::Rol, AddressingMode::ZeroPage)) }
    else if op == 0x36 { Some(Instr::Rmw(RmwOp::Rol, AddressingMode::ZeroPageX)) }
    else if op == 0x2E { Some(Instr::Rmw(RmwOp::Rol, AddressingMode::Absolute)) }
    else if op == 0x3E { Some(Instr::Rmw(RmwOp::Rol, AddressingMode::AbsoluteX)) }
    else if op == 0x6A { Some(Instr::Rmw(RmwOp::Ror, AddressingMode::Accumulator)) }
    else if op == 0x66 { Some(Instr::Rmw(RmwOp::Ror, AddressingMode::ZeroPage)) }
    else if op == 0x76 { Some(Instr::Rmw(RmwOp::Ror, AddressingMode::ZeroPageX)) }
    else if op == 0x6E { Some(Instr::Rmw(RmwOp::Ror, AddressingMode::Absolute)) }
    else if op == 0x7E { Some(Instr::Rmw(RmwOp::Ror, AddressingMode::AbsoluteX)) }
    else if op == 0xE6 { Some(Instr::Rmw(RmwOp::Inc, AddressingMode::ZeroPage)) }
    else if op == 0xF6 { Some(Instr::Rmw(RmwOp::Inc, AddressingMode::ZeroPageX)) }
    else if op == 0xEE { Some(Instr::Rmw(RmwOp::Inc, AddressingMode::Absolute)) }
    else if op == 0xFE { Some(Instr::Rmw(RmwOp::Inc, AddressingMode::AbsoluteX)) }
    else if op == 0xC6 { Some(Instr::Rmw(RmwOp::Dec, AddressingMode::ZeroPage)) }
    else if op == 0xD6 { Some(Instr::Rmw(RmwOp::Dec, AddressingMode::ZeroPageX)) }
    else if op == 0xCE { Some(Instr::Rmw(RmwOp::Dec, AddressingMode::Absolute)) }
    else if op == 0xDE { Some(Instr::Rmw(RmwOp::Dec, AddressingMode::AbsoluteX)) }
    else if op == 0xAA { Some(Instr::Implied(ImpliedOp::Tax)) }
    else if op == 0xA8 { Some(Instr::Implied(ImpliedOp::Tay)) }
    else if op == 0x8A { Some(Instr::Implied(ImpliedOp::Txa)) }
    else if op == 0x98 { Some(Instr::Implied(ImpliedOp::Tya)) }
    else if op == 0xBA { Some(Instr::Implied(ImpliedOp::Tsx)) }
    else if op == 0x9A { Some(Instr::Implied(ImpliedOp::Txs)) }
    else if op == 0xE8 { Some(Instr::Implied(ImpliedOp::Inx)) }
    else if op == 0xC8 { Some(Instr::Implied(ImpliedOp::Iny)) }
    else if op == 0xCA { Some(Instr::Implied(ImpliedOp::Dex)) }
    else if op == 0x88 { Some(Instr::Implied(ImpliedOp::Dey)) }
    else if op == 0x18 { Some(Instr::Implied(ImpliedOp::Clc)) }
    else if op == 0xD8 { Some(Instr::Implied(ImpliedOp::Cld)) }
    else if op == 0x58 { Some(Instr::Implied(ImpliedOp::Cli)) }
    else if op == 0xB8 { Some(Instr::Implied(ImpliedOp::Clv)) }
    else if op == 0x38 { Some(Instr::Implied(ImpliedOp::Sec)) }
    else if op == 0xF8 { Some(Instr::Implied(ImpliedOp::Sed)) }
    else if op == 0x78 { Some(Instr::Implied(ImpliedOp::Sei)) }
    else if op == 0xEA { Some(Instr::Implied(ImpliedOp::Nop)) }
    else if op == 0x90 { Some(Instr::Branch(BranchOp::Bcc)) }
    else if op == 0xB0 { Some(Instr::Branch(BranchOp::Bcs)) }
    else if op == 0xF0 { Some(Instr::Branch(BranchOp::Beq)) }
    else if op == 0x30 { Some(Instr::Branch(BranchOp::Bmi)) }
    else if op == 0xD0 { Some(Instr::Branch(BranchOp::Bne)) }
    else if op == 0x10 { Some(Instr::Branch(BranchOp::Bpl)) }
    else if op == 0x50 { Some(Instr::Branch(BranchOp::Bvc)) }
    else if op == 0x70 { Some(Instr::Branch(BranchOp::Bvs)) }
    else if op == 0x48 { Some(Instr::Pha) }
    else if op == 0x08 { Some(Instr::Php) }
    else if op == 0x68 { Some(Instr::Pla) }
    else if op == 0x28 { Some(Instr::Plp) }
    else if op == 0x4C { Some(Instr::JmpAbs) }
    else if op == 0x6C { Some(Instr::JmpInd) }
    else if op == 0x20 { Some(Instr::Jsr) }
    else if op == 0x60 { Some(Instr::Rts) }
    else if op == 0x40 { Some(Instr::Rti) }
    else if op == 0x00 { Some(Instr::Brk) }
    else { None }
}

} // verus!
