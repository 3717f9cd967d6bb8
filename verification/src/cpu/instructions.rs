//! The instruction executors: one per instruction shape, each dispatching
//! on the cycle counter and realising the specification function of the
//! same shape in [`crate::cpu::model`].

use vstd::prelude::*;

use crate::addressing;
use crate::cpu::model::{
    s_apply_read_op, s_apply_rmw_op, s_apply_rmw_to_a, s_branch_instr, s_decode, s_execute,
    s_implied_instr, s_int_seq, s_invalid_instr, s_jmp_abs_instr, s_jmp_ind_instr, s_jsr_instr,
    s_pla_instr, s_plp_instr, s_push_instr, s_read_absolute_indexed, s_read_final, s_read_instr,
    s_reset_step, s_rmw_instr, s_rti_instr, s_rts_instr, s_store_instr, set_zn,
};
use crate::cpu::{
    get_flag, set_flag, AddressingMode, BranchOp, CPUData, Instr, ImpliedOp, ReadOp, ReadWrite,
    RmwOp, StoreOp, CPU, FLAG_B, FLAG_C, FLAG_D, FLAG_I, FLAG_N, FLAG_V, FLAG_Z,
};

verus! {

/// Map an opcode byte to its operation and addressing mode; `None` for the
/// unofficial encodings.
pub fn decode(op: u8) -> (r: Option<Instr>)
    ensures
        r == s_decode(op),
{
    if op == 0xA9 { Some(Instr::Read(ReadOp::Lda, AddressingMode::Immediate)) }
    else if op == 0xA5 { Some(Instr::Read(ReadOp::Lda, AddressingMode::ZeroPage)) }
    else if op == 0xB5 { Some(Instr::Read(ReadOp::Lda, AddressingMode::ZeroPageX)) }
    else if op == 0xAD { Some(Instr::Read(ReadOp::Lda, AddressingMode::Absolute)) }
    else if op == 0xBD { Some(Instr::Read(ReadOp::Lda, AddressingMode::AbsoluteX)) }
    else if op == 0xB9 { Some(Instr::Read(ReadOp::Lda, AddressingMode::AbsoluteY)) }
    else if op == 0xA1 { Some(Instr::Read(ReadOp::Lda, AddressingMode::IndexedIndirect)) }
    else if op == 0xB1 { Some(Instr::Read(ReadOp::Lda, AddressingMode::IndirectIndexed)) }
    else if op == 0xA2 { Some(Instr::Read(ReadOp::Ldx, AddressingMode::Immediate)) }
    else if op == 0xA6 { Some(Instr::Read(ReadOp::Ldx, AddressingMode::ZeroPage)) }
    else if op == 0xB6 { Some(Instr::Read(ReadOp::Ldx, AddressingMode::ZeroPageY)) }
    else if op == 0xAE { Some(Instr::Read(ReadOp::Ldx, AddressingMode::Absolute)) }
    else if op == 0xBE { Some(Instr::Read(ReadOp::Ldx, AddressingMode::AbsoluteY)) }
    else if op == 0xA0 { Some(Instr::Read(ReadOp::Ldy, AddressingMode::Immediate)) }
    else if op == 0xA4 { Some(Instr::Read(ReadOp::Ldy, AddressingMode::ZeroPage)) }
    else if op == 0xB4 { Some(Instr::Read(ReadOp::Ldy, AddressingMode::ZeroPageX)) }
    else if op == 0xAC { Some(Instr::Read(ReadOp::Ldy, AddressingMode::Absolute)) }
    else if op == 0xBC { Some(Instr::Read(ReadOp::Ldy, AddressingMode::AbsoluteX)) }
    else if op == 0x69 { Some(Instr::Read(ReadOp::Adc, AddressingMode::Immediate)) }
    else if op == 0x65 { Some(Instr::Read(ReadOp::Adc, AddressingMode::ZeroPage)) }
    else if op == 0x75 { Some(Instr::Read(ReadOp::Adc, AddressingMode::ZeroPageX)) }
    else if op == 0x6D { Some(Instr::Read(ReadOp::Adc, AddressingMode::Absolute)) }
    else if op == 0x7D { Some(Instr::Read(ReadOp::Adc, AddressingMode::AbsoluteX)) }
    else if op == 0x79 { Some(Instr::Read(ReadOp::Adc, AddressingMode::AbsoluteY)) }
    else if op == 0x61 { Some(Instr::Read(ReadOp::Adc, AddressingMode::IndexedIndirect)) }
    else if op == 0x71 { Some(Instr::Read(ReadOp::Adc, AddressingMode::IndirectIndexed)) }
    else if op == 0xE9 { Some(Instr::Read(ReadOp::Sbc, AddressingMode::Immediate)) }
    else if op == 0xE5 { Some(Instr::Read(ReadOp::Sbc, AddressingMode::ZeroPage)) }
    else if op == 0xF5 { Some(Instr::Read(ReadOp::Sbc, AddressingMode::ZeroPageX)) }
    else if op == 0xED { Some(Instr::Read(ReadOp::Sbc, AddressingMode::Absolute)) }
    else if op == 0xFD { Some(Instr::Read(ReadOp::Sbc, AddressingMode::AbsoluteX)) }
    else if op == 0xF9 { Some(Instr::Read(ReadOp::Sbc, AddressingMode::AbsoluteY)) }
    else if op == 0xE1 { Some(Instr::Read(ReadOp::Sbc, AddressingMode::IndexedIndirect)) }
    else if op == 0xF1 { Some(Instr::Read(ReadOp::Sbc, AddressingMode::IndirectIndexed)) }
    else if op == 0x29 { Some(Instr::Read(ReadOp::And, AddressingMode::Immediate)) }
    else if op == 0x25 { Some(Instr::Read(ReadOp::And, AddressingMode::ZeroPage)) }
    else if op == 0x35 { Some(Instr::Read(ReadOp::And, AddressingMode::ZeroPageX)) }
    else if op == 0x2D { Some(Instr::Read(ReadOp::And, AddressingMode::Absolute)) }
    else if op == 0x3D { Some(Instr::Read(ReadOp::And, AddressingMode::AbsoluteX)) }
    else if op == 0x39 { Some(Instr::Read(ReadOp::And, AddressingMode::AbsoluteY)) }
    else if op == 0x21 { Some(Instr::Read(ReadOp::And, AddressingMode::IndexedIndirect)) }
    else if op == 0x31 { Some(Instr::Read(ReadOp::And, AddressingMode::IndirectIndexed)) }
    else if op == 0x49 { Some(Instr::Read(ReadOp::Eor, AddressingMode::Immediate)) }
    else if op == 0x45 { Some(Instr::Read(ReadOp::Eor, AddressingMode::ZeroPage)) }
    else if op == 0x55 { Some(Instr::Read(ReadOp::Eor, AddressingMode::ZeroPageX)) }
    else if op == 0x4D { Some(Instr::Read(ReadOp::Eor, AddressingMode::Absolute)) }
    else if op == 0x5D { Some(Instr::Read(ReadOp::Eor, AddressingMode::AbsoluteX)) }
    else if op == 0x59 { Some(Instr::Read(ReadOp::Eor, AddressingMode::AbsoluteY)) }
    else if op == 0x41 { Some(Instr::Read(ReadOp::Eor, AddressingMode::IndexedIndirect)) }
    else if op == 0x51 { Some(Instr::Read(ReadOp::Eor, AddressingMode::IndirectIndexed)) }
    else if op == 0x09 { Some(Instr::Read(ReadOp::Ora, AddressingMode::Immediate)) }
    else if op == 0x05 { Some(Instr::Read(ReadOp::Ora, AddressingMode::ZeroPage)) }
    else if op == 0x15 { Some(Instr::Read(ReadOp::Ora, AddressingMode::ZeroPageX)) }
    else if op == 0x0D { Some(Instr::Read(ReadOp::Ora, AddressingMode::Absolute)) }
    else if op == 0x1D { Some(Instr::Read(ReadOp::Ora, AddressingMode::AbsoluteX)) }
    else if op == 0x19 { Some(Instr::Read(ReadOp::Ora, AddressingMode::AbsoluteY)) }
    else if op == 0x01 { Some(Instr::Read(ReadOp::Ora, AddressingMode::IndexedIndirect)) }
    else if op == 0x11 { Some(Instr::Read(ReadOp::Ora, AddressingMode::IndirectIndexed)) }
    else if op == 0xC9 { Some(Instr::Read(ReadOp::Cmp, AddressingMode::Immediate)) }
    else if op == 0xC5 { Some(Instr::Read(ReadOp::Cmp, AddressingMode::ZeroPage)) }
    else if op == 0xD5 { Some(Instr::Read(ReadOp::Cmp, AddressingMode::ZeroPageX)) }
    else if op == 0xCD { Some(Instr::Read(ReadOp::Cmp, AddressingMode::Absolute)) }
    else if op == 0xDD { Some(Instr::Read(ReadOp::Cmp, AddressingMode::AbsoluteX)) }
    else if op == 0xD9 { Some(Instr::Read(ReadOp::Cmp, AddressingMode::AbsoluteY)) }
    else if op == 0xC1 { Some(Instr::Read(ReadOp::Cmp, AddressingMode::IndexedIndirect)) }
    else if op == 0xD1 { Some(Instr::Read(ReadOp::Cmp, AddressingMode::IndirectIndexed)) }
    else if op == 0xE0 { Some(Instr::Read(ReadOp::Cpx, AddressingMode::Immediate)) }
    else if op == 0xE4 { Some(Instr::Read(ReadOp::Cpx, AddressingMode::ZeroPage)) }
    else if op == 0xEC { Some(Instr::Read(ReadOp::Cpx, AddressingMode::Absolute)) }
    else if op == 0xC0 { Some(Instr::Read(ReadOp::Cpy, AddressingMode::Immediate)) }
    else if op == 0xC4 { Some(Instr::Read(ReadOp::Cpy, AddressingMode::ZeroPage)) }
    else if op == 0xCC { Some(Instr::Read(ReadOp::Cpy, AddressingMode::Absolute)) }
    else if op == 0x24 { Some(Instr::Read(ReadOp::Bit, AddressingMode::ZeroPage)) }
    else if op == 0x2C { Some(Instr::Read(ReadOp::Bit, AddressingMode::Absolute)) }
    else if op == 0x85 { Some(Instr::Store(StoreOp::Sta, AddressingMode::ZeroPage)) }
    else if op == 0x95 { Some(Instr::Store(StoreOp::Sta, AddressingMode::ZeroPageX)) }
    else if op == 0x8D { Some(Instr::Store(StoreOp::Sta, AddressingMode::Absolute)) }
    else if op == 0x9D { Some(Instr::Store(StoreOp::Sta, AddressingMode::AbsoluteX)) }
    else if op == 0x99 { Some(Instr::Store(StoreOp::Sta, AddressingMode::AbsoluteY)) }
    else if op == 0x81 { Some(Instr::Store(StoreOp::Sta, AddressingMode::IndexedIndirect)) }
    else if op == 0x91 { Some(Instr::Store(StoreOp::Sta, AddressingMode::IndirectIndexed)) }
    else if op == 0x86 { Some(Instr::Store(StoreOp::Stx, AddressingMode::ZeroPage)) }
    else if op == 0x96 { Some(Instr::Store(StoreOp::Stx, AddressingMode::ZeroPageY)) }
    else if op == 0x8E { Some(Instr::Store(StoreOp::Stx, AddressingMode::Absolute)) }
    else if op == 0x84 { Some(Instr::Store(StoreOp::Sty, AddressingMode::ZeroPage)) }
    else if op == 0x94 { Some(Instr::Store(StoreOp::Sty, AddressingMode::ZeroPageX)) }
    else if op == 0x8C { Some(Instr::Store(StoreOp::Sty, AddressingMode::Absolute)) }
    else if op == 0x0A { Some(Instr::Rmw(RmwOp::Asl, AddressingMode::Accumulator)) }
    else if op == 0x06 { Some(Instr::Rmw(RmwOp::Asl, AddressingMode::ZeroPage)) }
    else if op == 0x16 { Some(Instr::Rmw(RmwOp::Asl, AddressingMode::ZeroPageX)) }
    else if op == 0x0E { Some(Instr::Rmw(RmwOp::Asl, AddressingMode::Absolute)) }
    else if op == 0x1E { Some(Instr::Rmw(RmwOp::Asl, AddressingMode::AbsoluteX)) }
    else if op == 0x4A { Some(Instr::Rmw(RmwOp::Lsr, AddressingMode::Accumulator)) }
    else if op == 0x46 { Some(Instr::Rmw(RmwOp::Lsr, AddressingMode::ZeroPage)) }
    else if op == 0x56 { Some(Instr::Rmw(RmwOp::Lsr, AddressingMode::ZeroPageX)) }
    else if op == 0x4E { Some(Instr::Rmw(RmwOp::Lsr, AddressingMode::Absolute)) }
    else if op == 0x5E { Some(Instr::Rmw(RmwOp::Lsr, AddressingMode::AbsoluteX)) }
    else if op == 0x2A { Some(Instr::Rmw(RmwOp::Rol, AddressingMode::Accumulator)) }
    else if op == 0x26 { Some(Instr::Rmw(RmwOp::Rol, AddressingMode::ZeroPage)) }
    else if op == 0x36 { Some(Instr::Rmw(RmwOp::Rol, AddressingMode::ZeroPageX)) }
    else if op == 0x2E { Some(Instr::Rmw(RmwOp::Rol, AddressingMode::Absolute)) }
    else if op == 0x3E { Some(Instr::Rmw(RmwOp::Rol, AddressingMode::AbsoluteX)) }
    else if op == 0x6A { Some(Instr::Rmw(RmwOp::Ror, AddressingMode::Accumulator)) }
    else if op == 0x66 { Some(Instr::Rmw(RmwOp::Ror, AddressingMode::ZeroPage)) }
    else if op == 0x76 { Some(Instr::Rmw(RmwOp::Ror, AddressingMode::ZeroPageX)) }
    else if op == 0x6E { Some(Instr::Rmw(RmwOp::Ror, AddressingMode::Absolute)) }
    else if op == 0x7E { Some(Instr::Rmw(RmwOp::Ror, AddressingMode::AbsoluteX)) }
    else if op == 0xE6 { Some(Instr::Rmw(RmwOp::Inc, AddressingMode::ZeroPage)) }
    else if op == 0xF6 { Some(Instr::Rmw(RmwOp::Inc, AddressingMode::ZeroPageX)) }
    else if op == 0xEE { Some(Instr::Rmw(RmwOp::Inc, AddressingMode::Absolute)) }
    else if op == 0xFE { Some(Instr::Rmw(RmwOp::Inc, AddressingMode::AbsoluteX)) }
    else if op == 0xC6 { Some(Instr::Rmw(RmwOp::Dec, AddressingMode::ZeroPage)) }
    else if op == 0xD6 { Some(Instr::Rmw(RmwOp::Dec, AddressingMode::ZeroPageX)) }
    else if op == 0xCE { Some(Instr::Rmw(RmwOp::Dec, AddressingMode::Absolute)) }
    else if op == 0xDE { Some(Instr::Rmw(RmwOp::Dec, AddressingMode::AbsoluteX)) }
    else if op == 0xAA { Some(Instr::Implied(ImpliedOp::Tax)) }
    else if op == 0xA8 { Some(Instr::Implied(ImpliedOp::Tay)) }
    else if op == 0x8A { Some(Instr::Implied(ImpliedOp::Txa)) }
    else if op == 0x98 { Some(Instr::Implied(ImpliedOp::Tya)) }
    else if op == 0xBA { Some(Instr::Implied(ImpliedOp::Tsx)) }
    else if op == 0x9A { Some(Instr::Implied(ImpliedOp::Txs)) }
    else if op == 0xE8 { Some(Instr::Implied(ImpliedOp::Inx)) }
    else if op == 0xC8 { Some(Instr::Implied(ImpliedOp::Iny)) }
    else if op == 0xCA { Some(Instr::Implied(ImpliedOp::Dex)) }
    else if op == 0x88 { Some(Instr::Implied(ImpliedOp::Dey)) }
    else if op == 0x18 { Some(Instr::Implied(ImpliedOp::Clc)) }
    else if op == 0xD8 { Some(Instr::Implied(ImpliedOp::Cld)) }
    else if op == 0x58 { Some(Instr::Implied(ImpliedOp::Cli)) }
    else if op == 0xB8 { Some(Instr::Implied(ImpliedOp::Clv)) }
    else if op == 0x38 { Some(Instr::Implied(ImpliedOp::Sec)) }
    else if op == 0xF8 { Some(Instr::Implied(ImpliedOp::Sed)) }
    else if op == 0x78 { Some(Instr::Implied(ImpliedOp::Sei)) }
    else if op == 0xEA { Some(Instr::Implied(ImpliedOp::Nop)) }
    else if op == 0x90 { Some(Instr::Branch(BranchOp::Bcc)) }
    else if op == 0xB0 { Some(Instr::Branch(BranchOp::Bcs)) }
    else if op == 0xF0 { Some(Instr::Branch(BranchOp::Beq)) }
    else if op == 0x30 { Some(Instr::Branch(BranchOp::Bmi)) }
    else if op == 0xD0 { Some(Instr::Branch(BranchOp::Bne)) }
    else if op == 0x10 { Some(Instr::Branch(BranchOp::Bpl)) }
    else if op == 0x50 { Some(Instr::Branch(BranchOp::Bvc)) }
    else if op == 0x70 { Some(Instr::Branch(BranchOp::Bvs)) }
    else if op == 0x48 { Some(Instr::Pha) }
    else if op == 0x08 { Some(Instr::Php) }
    else if op == 0x68 { Some(Instr::Pla) }
    else if op == 0x28 { Some(Instr::Plp) }
    else if op == 0x4C { Some(Instr::JmpAbs) }
    else if op == 0x6C { Some(Instr::JmpInd) }
    else if op == 0x20 { Some(Instr::Jsr) }
    else if op == 0x60 { Some(Instr::Rts) }
    else if op == 0x40 { Some(Instr::Rti) }
    else if op == 0x00 { Some(Instr::Brk) }
    else { None }
}

impl CPU {
    /// Fold an operand byte into the registers and flags.
    pub fn apply_read_op(&mut self, op: ReadOp, m: u8)
        ensures
            *final(self) == s_apply_read_op(op, *old(self), m),
    {
        match op {
            ReadOp::Lda => {
                self.a = m;
                self.ps = self.set_zn_flags(m);
            },
            ReadOp::Ldx => {
                self.x = m;
                self.ps = self.set_zn_flags(m);
            },
            ReadOp::Ldy => {
                self.y = m;
                self.ps = self.set_zn_flags(m);
            },
            ReadOp::Adc => self.add_with_carry(m),
            ReadOp::Sbc => self.add_with_carry(m ^ 0xFF),
            ReadOp::And => {
                let r = self.a & m;
                self.a = r;
                self.ps = self.set_zn_flags(r);
            },
            ReadOp::Eor => {
                let r = self.a ^ m;
                self.a = r;
                self.ps = self.set_zn_flags(r);
            },
            ReadOp::Ora => {
                let r = self.a | m;
                self.a = r;
                self.ps = self.set_zn_flags(r);
            },
            ReadOp::Cmp => {
                let r = self.a;
                self.compare(r, m);
            },
            ReadOp::Cpx => {
                let r = self.x;
                self.compare(r, m);
            },
            ReadOp::Cpy => {
                let r = self.y;
                self.compare(r, m);
            },
            ReadOp::Bit => {
                let r = self.a & m;
                let p1 = set_flag(self.ps, FLAG_Z, r == 0);
                let p2 = set_flag(p1, FLAG_V, (r & 0x40) != 0);
                self.ps = set_flag(p2, FLAG_N, (r & 0x80) != 0);
            },
        }
    }

    /// Z and N recomputed from a result byte.
    fn set_zn_flags(&self, v: u8) -> (r: u8)
        ensures
            r == set_zn(self.ps, v),
    {
        set_flag(set_flag(self.ps, FLAG_Z, v == 0), FLAG_N, (v & 0x80) != 0)
    }

    /// The nine-bit add that ADC and SBC share, settling C, Z, N and V.
    fn add_with_carry(&mut self, m: u8)
        ensures
            *final(self) == crate::cpu::model::s_add_with_carry(*old(self), m),
    {
        let c_in: u16 = if get_flag(self.ps, FLAG_C) {
            1
        } else {
            0
        };
        let sum: u16 = self.a as u16 + m as u16 + c_in;
        let r: u8 = (sum % 256) as u8;
        let p1 = set_flag(self.ps, FLAG_C, sum > 255);
        let p2 = set_flag(p1, FLAG_Z, r == 0);
        let p3 = set_flag(p2, FLAG_N, (r & 0x80) != 0);
        let p4 = set_flag(p3, FLAG_V, ((!(self.a ^ m)) & (self.a ^ r)) & 0x80 != 0);
        self.a = r;
        self.ps = p4;
        self.temp16 = sum;
    }

    /// Compare a register against an operand: C, Z and N.
    fn compare(&mut self, r: u8, m: u8)
        ensures
            *final(self) == crate::cpu::model::s_compare(*old(self), r, m),
    {
        let t: u16 = (r as u16).wrapping_sub(m as u16);
        let p1 = set_flag(self.ps, FLAG_C, r >= m);
        let p2 = set_flag(p1, FLAG_Z, (t & 0xFF) == 0);
        let p3 = set_flag(p2, FLAG_N, (t & 0x80) != 0);
        self.temp16 = t;
        self.ps = p3;
    }

    /// One read-modify-write operation into the scratch byte.
    pub fn apply_rmw_op(&mut self, op: RmwOp, v: u8)
        ensures
            *final(self) == s_apply_rmw_op(op, *old(self), v),
    {
        match op {
            RmwOp::Asl => {
                let res: u16 = (v as u16) << 1u16;
                let p1 = set_flag(self.ps, FLAG_C, (res & 0xFF00) != 0);
                let p2 = set_flag(p1, FLAG_Z, (res & 0xFF) == 0);
                self.ps = set_flag(p2, FLAG_N, (res & 0x80) != 0);
                self.temp8 = #[verifier::truncate] ((res & 0xFF) as u8);
            },
            RmwOp::Lsr => {
                let r = v >> 1u8;
                let p1 = set_flag(self.ps, FLAG_C, (v & 0x01) != 0);
                let p2 = set_flag(p1, FLAG_Z, r == 0);
                self.ps = set_flag(p2, FLAG_N, (r & 0x80) != 0);
                self.temp8 = r;
            },
            RmwOp::Rol => {
                let c_in: u16 = if get_flag(self.ps, FLAG_C) {
                    1
                } else {
                    0
                };
                let res: u16 = ((v as u16) << 1u16) | c_in;
                let p1 = set_flag(self.ps, FLAG_C, (res & 0xFF00) != 0);
                let p2 = set_flag(p1, FLAG_Z, (res & 0xFF) == 0);
                self.ps = set_flag(p2, FLAG_N, (res & 0x80) != 0);
                self.temp8 = #[verifier::truncate] ((res & 0xFF) as u8);
            },
            RmwOp::Ror => {
                let c_in: u16 = if get_flag(self.ps, FLAG_C) {
                    1
                } else {
                    0
                };
                let res: u16 = ((v >> 1u8) as u16) | (c_in << 7u16);
                let p1 = set_flag(self.ps, FLAG_C, (v & 0x01) != 0);
                let p2 = set_flag(p1, FLAG_Z, (res & 0xFF) == 0);
                self.ps = set_flag(p2, FLAG_N, (res & 0x80) != 0);
                self.temp8 = #[verifier::truncate] ((res & 0xFF) as u8);
            },
            RmwOp::Inc => {
                self.temp8 = v.wrapping_add(1);
            },
            RmwOp::Dec => {
                self.temp8 = v.wrapping_sub(1);
            },
        }
    }

    /// The accumulator form of a read-modify-write operation.
    fn apply_rmw_to_a(&mut self, op: RmwOp)
        ensures
            *final(self) == s_apply_rmw_to_a(op, *old(self)),
    {
        let keep = self.temp8;
        let v = self.a;
        self.apply_rmw_op(op, v);
        self.a = self.temp8;
        self.temp8 = keep;
    }

    /// Closing cycle of a read instruction.
    fn read_final(&mut self, op: ReadOp, data: &mut CPUData)
        ensures
            *final(self) == s_read_final(op, *old(self), old(data).pins).0,
            final(data).pins == s_read_final(op, *old(self), old(data).pins).1,
            *final(data) == (CPUData { pins: final(data).pins, ..*old(data) }),
    {
        let m = data.pins.data;
        self.apply_read_op(op, m);
        self.instruction_finish();
    }

    /// One cycle of a read instruction.
    pub fn read_instr(&mut self, op: ReadOp, mode: AddressingMode, data: &mut CPUData)
        ensures
            *final(self) == s_read_instr(op, mode, *old(self), old(data).pins).0,
            final(data).pins == s_read_instr(op, mode, *old(self), old(data).pins).1,
            *final(data) == (CPUData { pins: final(data).pins, ..*old(data) }),
    {
        match mode {
            AddressingMode::Immediate => {
                if self.counter.value == 0 {
                    addressing::get_current_byte(self, data);
                } else {
                    self.read_final(op, data);
                }
            },
            AddressingMode::ZeroPage => {
                if self.counter.value == 0 {
                    addressing::get_current_byte(self, data);
                } else if self.counter.value == 1 {
                    addressing::get_byte_from_data(self, data);
                } else {
                    self.read_final(op, data);
                }
            },
            AddressingMode::ZeroPageX => {
                if self.counter.value == 0 {
                    addressing::get_current_byte(self, data);
                } else if self.counter.value == 1 {
                    addressing::add_x_to_data(self, data);
                } else if self.counter.value == 2 {
                    addressing::get_byte_from_temp8(self, data);
                } else {
                    self.read_final(op, data);
                }
            },
            AddressingMode::ZeroPageY => {
                if self.counter.value == 0 {
                    addressing::get_current_byte(self, data);
                } else if self.counter.value == 1 {
                    addressing::add_y_to_data(self, data);
                } else if self.counter.value == 2 {
                    addressing::get_byte_from_temp8(self, data);
                } else {
                    self.read_final(op, data);
                }
            },
            AddressingMode::Absolute => {
                if self.counter.value == 0 {
                    addressing::get_current_byte(self, data);
                } else if self.counter.value == 1 {
                    addressing::get_second_current_byte(self, data);
                } else if self.counter.value == 2 {
                    addressing::create_address_from_data(self, data);
                    data.pins.rw = ReadWrite::R;
                } else {
                    self.read_final(op, data);
                }
            },
            AddressingMode::AbsoluteX => {
                let reg = self.x;
                self.read_absolute_indexed(op, reg, data);
            },
            AddressingMode::AbsoluteY => {
                let reg = self.y;
                self.read_absolute_indexed(op, reg, data);
            },
            AddressingMode::IndexedIndirect => {
                if self.counter.value == 0 {
                    addressing::get_current_byte(self, data);
                } else if self.counter.value == 1 {
                    addressing::get_second_current_byte_add_x(self, data);
                } else if self.counter.value == 2 {
                    addressing::get_next_byte_add_1_temp8(self, data);
                } else if self.counter.value == 3 {
                    addressing::set_temp16_msb_from_data(self, data);
                } else if self.counter.value == 4 {
                    addressing::get_byte_from_temp16_addr(self, data);
                } else {
                    self.read_final(op, data);
                }
            },
            AddressingMode::IndirectIndexed => {
                if self.counter.value == 0 {
                    addressing::get_current_byte_tempb(self, data);
                } else if self.counter.value == 1 {
                    addressing::get_byte_from_data_store(self, data);
                } else if self.counter.value == 2 {
                    addressing::get_next_byte_add_1_var(self, data);
                } else if self.counter.value == 3 {
                    addressing::add_y_to_addr_check_of(self, data);
                } else if self.counter.value == 4 {
                    if !self.tempb {
                        self.read_final(op, data);
                        self.temp8 = data.pins.data;
                    } else {
                        self.temp8 = data.pins.data;
                    }
                } else {
                    self.read_final(op, data);
                }
            },
            _ => self.instruction_finish(),
        }
    }

    /// The absolute indexed read path shared by the X and Y forms.
    fn read_absolute_indexed(&mut self, op: ReadOp, reg: u8, data: &mut CPUData)
        ensures
            *final(self) == s_read_absolute_indexed(op, *old(self), old(data).pins, reg).0,
            final(data).pins == s_read_absolute_indexed(op, *old(self), old(data).pins, reg).1,
            *final(data) == (CPUData { pins: final(data).pins, ..*old(data) }),
    {
        if self.counter.value == 0 {
            addressing::get_current_byte_tempb(self, data);
        } else if self.counter.value == 1 {
            addressing::get_second_current_byte_add_reg_tempb(self, data, reg);
        } else if self.counter.value == 2 {
            addressing::boundary_check_get_addr(self, data);
        } else if self.counter.value == 3 {
            if self.tempb {
                let addr = self.temp16 | ((self.temp8 as u16) << 8u16);
                data.pins.address = addr;
                data.pins.rw = ReadWrite::R;
            } else {
                self.read_final(op, data);
            }
        } else {
            self.read_final(op, data);
        }
    }

    /// The register a store instruction writes.
    fn store_val(&self, op: StoreOp) -> (v: u8)
        ensures
            v == crate::cpu::model::store_value(op, *self),
    {
        match op {
            StoreOp::Sta => self.a,
            StoreOp::Stx => self.x,
            StoreOp::Sty => self.y,
        }
    }

    /// One cycle of a store instruction.
    pub fn store_instr(&mut self, op: StoreOp, mode: AddressingMode, data: &mut CPUData)
        ensures
            *final(self) == s_store_instr(op, mode, *old(self), old(data).pins).0,
            final(data).pins == s_store_instr(op, mode, *old(self), old(data).pins).1,
            *final(data) == (CPUData { pins: final(data).pins, ..*old(data) }),
    {
        match mode {
            AddressingMode::ZeroPage => {
                if self.counter.value == 0 {
                    addressing::get_current_byte(self, data);
                } else if self.counter.value == 1 {
                    match op {
                        StoreOp::Sta => addressing::store_zero_page_a(self, data),
                        StoreOp::Stx => addressing::store_zero_page_x(self, data),
                        StoreOp::Sty => addressing::store_zero_page_y(self, data),
                    }
                } else {
                    self.instruction_finish();
                }
            },
            AddressingMode::ZeroPageX => {
                if self.counter.value == 0 {
                    addressing::get_current_byte(self, data);
                } else if self.counter.value == 1 {
                    addressing::add_x_to_data(self, data);
                } else if self.counter.value == 2 {
                    match op {
                        StoreOp::Sta => addressing::store_zero_page_temp_a(self, data),
                        StoreOp::Stx => addressing::store_zero_page_temp_x(self, data),
                        StoreOp::Sty => addressing::store_zero_page_temp_y(self, data),
                    }
                } else {
                    self.instruction_finish();
                }
            },
            AddressingMode::ZeroPageY => {
                if self.counter.value == 0 {
                    addressing::get_current_byte(self, data);
                } else if self.counter.value == 1 {
                    addressing::add_y_to_data(self, data);
                } else if self.counter.value == 2 {
                    match op {
                        StoreOp::Sta => addressing::store_zero_page_temp_a(self, data),
                        StoreOp::Stx => addressing::store_zero_page_temp_x(self, data),
                        StoreOp::Sty => addressing::store_zero_page_temp_y(self, data),
                    }
                } else {
                    self.instruction_finish();
                }
            },
            AddressingMode::Absolute => {
                if self.counter.value == 0 {
                    addressing::get_current_byte(self, data);
                } else if self.counter.value == 1 {
                    addressing::get_second_current_byte(self, data);
                } else if self.counter.value == 2 {
                    data.pins.address = self.temp16 | ((data.pins.data as u16) << 8u16);
                    data.pins.data = self.store_val(op);
                    data.pins.rw = ReadWrite::W;
                } else {
                    self.instruction_finish();
                }
            },
            AddressingMode::AbsoluteX => {
                if self.counter.value == 0 {
                    addressing::get_current_byte(self, data);
                } else if self.counter.value == 1 {
                    addressing::get_second_current_byte(self, data);
                } else if self.counter.value == 2 {
                    addressing::create_address_add_x(self, data);
                } else if self.counter.value == 3 {
                    data.pins.address = self.temp16;
                    data.pins.data = self.store_val(op);
                    data.pins.rw = ReadWrite::W;
                } else {
                    self.instruction_finish();
                }
            },
            AddressingMode::AbsoluteY => {
                if self.counter.value == 0 {
                    addressing::get_current_byte(self, data);
                } else if self.counter.value == 1 {
                    addressing::get_second_current_byte(self, data);
                } else if self.counter.value == 2 {
                    addressing::create_address_add_y(self, data);
                } else if self.counter.value == 3 {
                    data.pins.address = self.temp16;
                    data.pins.data = self.store_val(op);
                    data.pins.rw = ReadWrite::W;
                } else {
                    self.instruction_finish();
                }
            },
            AddressingMode::IndexedIndirect => {
                if self.counter.value == 0 {
                    addressing::get_current_byte(self, data);
                } else if self.counter.value == 1 {
                    addressing::get_second_current_byte_add_x(self, data);
                } else if self.counter.value == 2 {
                    addressing::get_next_byte_add_1_temp8(self, data);
                } else if self.counter.value == 3 {
                    addressing::set_temp16_msb_from_data(self, data);
                } else if self.counter.value == 4 {
                    match op {
                        StoreOp::Sta => addressing::store_a(self, data),
                        StoreOp::Stx => addressing::store_x(self, data),
                        StoreOp::Sty => addressing::store_y(self, data),
                    }
                } else {
                    self.instruction_finish();
                }
            },
            AddressingMode::IndirectIndexed => {
                if self.counter.value == 0 {
                    addressing::get_current_byte(self, data);
                } else if self.counter.value == 1 {
                    addressing::get_byte_from_data_store(self, data);
                } else if self.counter.value == 2 {
                    addressing::get_next_byte_add_1_var(self, data);
                } else if self.counter.value == 3 {
                    addressing::add_y_to_addr_ignore_of(self, data);
                } else if self.counter.value == 4 {
                    match op {
                        StoreOp::Sta => addressing::store_a(self, data),
                        StoreOp::Stx => addressing::store_x(self, data),
                        StoreOp::Sty => addressing::store_y(self, data),
                    }
                } else {
                    self.instruction_finish();
                }
            },
            _ => self.instruction_finish(),
        }
    }

    /// Closing cycle of a read-modify-write instruction.
    fn rmw_end(&mut self, op: RmwOp)
        ensures
            *final(self) == crate::cpu::model::s_rmw_end_cpu(op, *old(self)),
    {
        match op {
            RmwOp::Inc | RmwOp::Dec => {
                let v = self.temp8;
                self.ps = self.set_zn_flags(v);
                self.instruction_finish();
            },
            _ => self.instruction_finish(),
        }
    }

    /// One cycle of a read-modify-write instruction: read, dummy write of
    /// the original byte, compute, final write.
    pub fn rmw_instr(&mut self, op: RmwOp, mode: AddressingMode, data: &mut CPUData)
        ensures
            *final(self) == s_rmw_instr(op, mode, *old(self), old(data).pins).0,
            final(data).pins == s_rmw_instr(op, mode, *old(self), old(data).pins).1,
            *final(data) == (CPUData { pins: final(data).pins, ..*old(data) }),
    {
        match mode {
            AddressingMode::Accumulator => {
                if self.counter.value == 0 {
                    self.apply_rmw_to_a(op);
                } else {
                    self.instruction_finish();
                }
            },
            AddressingMode::ZeroPage => {
                if self.counter.value == 0 {
                    addressing::get_current_byte(self, data);
                } else if self.counter.value == 1 {
                    addressing::get_byte_from_data_save_addr(self, data);
                } else if self.counter.value == 2 {
                    let v = data.pins.data;
                    self.apply_rmw_op(op, v);
                    data.pins.rw = ReadWrite::W;
                } else if self.counter.value == 3 {
                    addressing::store_temp_8_in_temp16(self, data);
                } else {
                    self.rmw_end(op);
                }
            },
            AddressingMode::ZeroPageX => {
                if self.counter.value == 0 {
                    addressing::get_current_byte(self, data);
                } else if self.counter.value == 1 {
                    addressing::add_x_to_data(self, data);
                } else if self.counter.value == 2 {
                    addressing::get_byte_from_temp8_save_addr(self, data);
                } else if self.counter.value == 3 {
                    let v = data.pins.data;
                    self.apply_rmw_op(op, v);
                    data.pins.rw = ReadWrite::W;
                } else if self.counter.value == 4 {
                    addressing::store_temp_8_in_temp16(self, data);
                } else {
                    self.rmw_end(op);
                }
            },
            AddressingMode::Absolute => {
                if self.counter.value == 0 {
                    addressing::get_current_byte(self, data);
                } else if self.counter.value == 1 {
                    addressing::get_second_current_byte(self, data);
                } else if self.counter.value == 2 {
                    addressing::create_address_from_data_save_addr(self, data);
                    data.pins.rw = ReadWrite::R;
                } else if self.counter.value == 3 {
                    let v = data.pins.data;
                    self.apply_rmw_op(op, v);
                    data.pins.rw = ReadWrite::W;
                } else if self.counter.value == 4 {
                    addressing::store_temp_8_in_temp16(self, data);
                } else {
                    self.rmw_end(op);
                }
            },
            AddressingMode::AbsoluteX => {
                if self.counter.value == 0 {
                    addressing::get_current_byte(self, data);
                } else if self.counter.value == 1 {
                    addressing::get_second_current_byte(self, data);
                } else if self.counter.value == 2 {
                    addressing::create_address_add_x(self, data);
                    data.pins.address = self.temp16;
                    data.pins.rw = ReadWrite::R;
                } else if self.counter.value == 3 {
                    let v = data.pins.data;
                    self.apply_rmw_op(op, v);
                    data.pins.rw = ReadWrite::W;
                } else if self.counter.value == 4 {
                    addressing::store_temp_8_in_temp16(self, data);
                } else if self.counter.value == 5 {
                } else {
                    self.rmw_end(op);
                }
            },
            _ => self.instruction_finish(),
        }
    }

    /// One cycle of a two-cycle implied instruction.
    pub fn implied_instr(&mut self, op: ImpliedOp, data: &mut CPUData)
        ensures
            *final(self) == s_implied_instr(op, *old(self), old(data).pins).0,
            final(data).pins == s_implied_instr(op, *old(self), old(data).pins).1,
            *final(data) == (CPUData { pins: final(data).pins, ..*old(data) }),
    {
        if self.counter.value == 0 {
            match op {
                ImpliedOp::Tax => self.x = self.a,
                ImpliedOp::Tay => self.y = self.a,
                ImpliedOp::Txa => self.a = self.x,
                ImpliedOp::Tya => self.a = self.y,
                ImpliedOp::Tsx => self.x = self.sp,
                ImpliedOp::Txs => self.sp = self.x,
                ImpliedOp::Inx => self.x = self.x.wrapping_add(1),
                ImpliedOp::Iny => self.y = self.y.wrapping_add(1),
                ImpliedOp::Dex => self.x = self.x.wrapping_sub(1),
                ImpliedOp::Dey => self.y = self.y.wrapping_sub(1),
                ImpliedOp::Clc => self.ps = set_flag(self.ps, FLAG_C, false),
                ImpliedOp::Cld => self.ps = set_flag(self.ps, FLAG_D, false),
                ImpliedOp::Cli => self.ps = set_flag(self.ps, FLAG_I, false),
                ImpliedOp::Clv => self.ps = set_flag(self.ps, FLAG_V, false),
                ImpliedOp::Sec => self.ps = set_flag(self.ps, FLAG_C, true),
                ImpliedOp::Sed => self.ps = set_flag(self.ps, FLAG_D, true),
                ImpliedOp::Sei => self.ps = set_flag(self.ps, FLAG_I, true),
                ImpliedOp::Nop => {},
            }
        } else {
            match op {
                ImpliedOp::Tax | ImpliedOp::Tsx | ImpliedOp::Inx | ImpliedOp::Dex => {
                    let v = self.x;
                    self.ps = self.set_zn_flags(v);
                },
                ImpliedOp::Tay | ImpliedOp::Iny | ImpliedOp::Dey => {
                    let v = self.y;
                    self.ps = self.set_zn_flags(v);
                },
                ImpliedOp::Txa | ImpliedOp::Tya => {
                    let v = self.a;
                    self.ps = self.set_zn_flags(v);
                },
                _ => {},
            }
            self.instruction_finish();
        }
    }

    /// One cycle of a conditional branch.
    pub fn branch_instr(&mut self, op: BranchOp, data: &mut CPUData)
        ensures
            *final(self) == s_branch_instr(op, *old(self), old(data).pins).0,
            final(data).pins == s_branch_instr(op, *old(self), old(data).pins).1,
            *final(data) == (CPUData { pins: final(data).pins, ..*old(data) }),
    {
        if self.counter.value == 0 {
        } else if self.counter.value == 1 {
            let taken = match op {
                BranchOp::Bcc => !get_flag(self.ps, FLAG_C),
                BranchOp::Bcs => get_flag(self.ps, FLAG_C),
                BranchOp::Beq => get_flag(self.ps, FLAG_Z),
                BranchOp::Bmi => get_flag(self.ps, FLAG_N),
                BranchOp::Bne => !get_flag(self.ps, FLAG_Z),
                BranchOp::Bpl => !get_flag(self.ps, FLAG_N),
                BranchOp::Bvc => !get_flag(self.ps, FLAG_V),
                BranchOp::Bvs => get_flag(self.ps, FLAG_V),
            };
            if !taken {
                self.pc = self.pc.wrapping_add(1);
                self.instruction_finish();
            } else {
                addressing::get_current_byte(self, data);
            }
        } else if self.counter.value == 2 {
            let off = data.pins.data;
            let old_pc = self.pc;
            let target = if off < 0x80 {
                self.pc.wrapping_add(off as u16)
            } else {
                self.pc.wrapping_sub(0x100 - off as u16)
            };
            self.pc = target;
            if (old_pc & 0xFF00) == (target & 0xFF00) {
                self.instruction_finish();
            }
        } else {
            self.instruction_finish();
        }
    }

    /// One cycle of PHA or PHP, pushing the given byte.
    pub fn push_instr(&mut self, v: u8, data: &mut CPUData)
        ensures
            *final(self) == s_push_instr(*old(self), old(data).pins, v).0,
            final(data).pins == s_push_instr(*old(self), old(data).pins, v).1,
            *final(data) == (CPUData { pins: final(data).pins, ..*old(data) }),
    {
        if self.counter.value == 0 {
            data.pins.address = 0x0100u16 | (self.sp as u16);
            data.pins.data = v;
            data.pins.rw = ReadWrite::W;
        } else if self.counter.value == 1 {
            self.sp = self.sp.wrapping_sub(1);
        } else {
            self.instruction_finish();
        }
    }

    /// One cycle of PLA.
    pub fn pla_instr(&mut self, data: &mut CPUData)
        ensures
            *final(self) == s_pla_instr(*old(self), old(data).pins).0,
            final(data).pins == s_pla_instr(*old(self), old(data).pins).1,
            *final(data) == (CPUData { pins: final(data).pins, ..*old(data) }),
    {
        if self.counter.value == 0 {
            self.sp = self.sp.wrapping_add(1);
        } else if self.counter.value == 1 {
            data.pins.address = 0x0100u16 | (self.sp as u16);
            data.pins.rw = ReadWrite::R;
        } else if self.counter.value == 2 {
            self.a = data.pins.data;
        } else {
            let v = self.a;
            self.ps = self.set_zn_flags(v);
            self.instruction_finish();
        }
    }

    /// One cycle of PLP.
    pub fn plp_instr(&mut self, data: &mut CPUData)
        ensures
            *final(self) == s_plp_instr(*old(self), old(data).pins).0,
            final(data).pins == s_plp_instr(*old(self), old(data).pins).1,
            *final(data) == (CPUData { pins: final(data).pins, ..*old(data) }),
    {
        if self.counter.value == 0 {
            self.sp = self.sp.wrapping_add(1);
        } else if self.counter.value == 1 {
            data.pins.address = 0x0100u16 | (self.sp as u16);
            data.pins.rw = ReadWrite::R;
        } else if self.counter.value == 2 {
            self.ps = data.pins.data;
        } else {
            self.instruction_finish();
        }
    }

    /// One cycle of JMP with an absolute operand.
    pub fn jmp_abs_instr(&mut self, data: &mut CPUData)
        ensures
            *final(self) == s_jmp_abs_instr(*old(self), old(data).pins).0,
            final(data).pins == s_jmp_abs_instr(*old(self), old(data).pins).1,
            *final(data) == (CPUData { pins: final(data).pins, ..*old(data) }),
    {
        if self.counter.value == 0 {
            addressing::get_current_byte(self, data);
        } else if self.counter.value == 1 {
            addressing::get_second_current_byte(self, data);
        } else {
            addressing::create_address_from_data_save_addr(self, data);
            self.pc = self.temp16;
            self.instruction_finish();
        }
    }

    /// One cycle of JMP through a pointer, with the page-wrap quirk.
    pub fn jmp_ind_instr(&mut self, data: &mut CPUData)
        ensures
            *final(self) == s_jmp_ind_instr(*old(self), old(data).pins).0,
            final(data).pins == s_jmp_ind_instr(*old(self), old(data).pins).1,
            *final(data) == (CPUData { pins: final(data).pins, ..*old(data) }),
    {
        if self.counter.value == 0 {
            addressing::get_current_byte(self, data);
        } else if self.counter.value == 1 {
            addressing::get_second_current_byte(self, data);
        } else if self.counter.value == 2 {
            addressing::create_address_from_data_save_addr(self, data);
            data.pins.rw = ReadWrite::R;
        } else if self.counter.value == 3 {
            let hi_addr = (self.temp16 & 0xFF00) | (self.temp16.wrapping_add(1) & 0x00FF);
            self.temp16 = data.pins.data as u16;
            data.pins.address = hi_addr;
            data.pins.rw = ReadWrite::R;
        } else {
            addressing::create_address_from_data_save_addr(self, data);
            self.pc = self.temp16;
            self.instruction_finish();
        }
    }

    /// One cycle of JSR.
    pub fn jsr_instr(&mut self, data: &mut CPUData)
        ensures
            *final(self) == s_jsr_instr(*old(self), old(data).pins).0,
            final(data).pins == s_jsr_instr(*old(self), old(data).pins).1,
            *final(data) == (CPUData { pins: final(data).pins, ..*old(data) }),
    {
        if self.counter.value == 0 {
            addressing::get_current_byte(self, data);
        } else if self.counter.value == 1 {
            addressing::get_second_current_byte(self, data);
        } else if self.counter.value == 2 {
            self.temp16 = self.temp16 | ((data.pins.data as u16) << 8u16);
            self.pc = self.pc.wrapping_sub(1);
            data.pins.address = 0x0100u16 | (self.sp as u16);
            self.sp = self.sp.wrapping_sub(1);
            data.pins.data = #[verifier::truncate] ((self.pc >> 8u16) as u8);
            data.pins.rw = ReadWrite::W;
        } else if self.counter.value == 3 {
            data.pins.address = 0x0100u16 | (self.sp as u16);
            self.sp = self.sp.wrapping_sub(1);
            data.pins.data = #[verifier::truncate] ((self.pc & 0xFF) as u8);
            data.pins.rw = ReadWrite::W;
        } else if self.counter.value == 4 {
        } else {
            self.pc = self.temp16;
            self.instruction_finish();
        }
    }

    /// One cycle of RTS.
    pub fn rts_instr(&mut self, data: &mut CPUData)
        ensures
            *final(self) == s_rts_instr(*old(self), old(data).pins).0,
            final(data).pins == s_rts_instr(*old(self), old(data).pins).1,
            *final(data) == (CPUData { pins: final(data).pins, ..*old(data) }),
    {
        if self.counter.value == 0 {
            self.sp = self.sp.wrapping_add(1);
        } else if self.counter.value == 1 {
            data.pins.address = 0x0100u16 | (self.sp as u16);
            data.pins.rw = ReadWrite::R;
        } else if self.counter.value == 2 {
            self.temp16 = data.pins.data as u16;
            self.sp = self.sp.wrapping_add(1);
        } else if self.counter.value == 3 {
            data.pins.address = 0x0100u16 | (self.sp as u16);
            data.pins.rw = ReadWrite::R;
        } else if self.counter.value == 4 {
            addressing::create_address_from_data_save_addr(self, data);
            self.pc = self.temp16.wrapping_add(1);
        } else {
            self.instruction_finish();
        }
    }

    /// One cycle of RTI.
    pub fn rti_instr(&mut self, data: &mut CPUData)
        ensures
            *final(self) == s_rti_instr(*old(self), old(data).pins).0,
            final(data).pins == s_rti_instr(*old(self), old(data).pins).1,
            *final(data) == (CPUData { pins: final(data).pins, ..*old(data) }),
    {
        if self.counter.value == 0 {
            self.sp = self.sp.wrapping_add(1);
        } else if self.counter.value == 1 {
            data.pins.address = 0x0100u16 | (self.sp as u16);
            data.pins.rw = ReadWrite::R;
        } else if self.counter.value == 2 {
            self.sp = self.sp.wrapping_add(1);
            self.temp8 = data.pins.data;
        } else if self.counter.value == 3 {
            self.ps = self.temp8;
            data.pins.address = 0x0100u16 | (self.sp as u16);
            data.pins.rw = ReadWrite::R;
        } else if self.counter.value == 4 {
            self.pc = data.pins.data as u16;
            self.sp = self.sp.wrapping_add(1);
            data.pins.address = 0x0100u16 | (self.sp as u16);
            data.pins.rw = ReadWrite::R;
        } else {
            self.pc = self.pc | ((data.pins.data as u16) << 8u16);
            self.instruction_finish();
        }
    }

    /// One cycle of the seven-cycle interrupt entry shared by BRK and the
    /// hardware interrupts.
    pub fn interrupt_seq(&mut self, data: &mut CPUData, nmi: bool, brk: bool)
        ensures
            *final(self) == s_int_seq(*old(self), old(data).pins, nmi, brk).0,
            final(data).pins == s_int_seq(*old(self), old(data).pins, nmi, brk).1,
            *final(data) == (CPUData { pins: final(data).pins, ..*old(data) }),
    {
        if self.counter.value == 0 {
            data.pins.address = 0x0100u16 | (self.sp as u16);
            self.sp = self.sp.wrapping_sub(1);
            data.pins.data = #[verifier::truncate] ((self.pc >> 8u16) as u8);
            data.pins.rw = ReadWrite::W;
        } else if self.counter.value == 1 {
            data.pins.address = 0x0100u16 | (self.sp as u16);
            self.sp = self.sp.wrapping_sub(1);
            data.pins.data = #[verifier::truncate] ((self.pc & 0xFF) as u8);
            data.pins.rw = ReadWrite::W;
        } else if self.counter.value == 2 {
            data.pins.address = 0x0100u16 | (self.sp as u16);
            self.sp = self.sp.wrapping_sub(1);
            data.pins.data = if brk {
                self.ps | FLAG_B
            } else {
                self.ps
            };
            data.pins.rw = ReadWrite::W;
        } else if self.counter.value == 3 {
            data.pins.address = if nmi {
                0xFFFA
            } else {
                0xFFFE
            };
            data.pins.rw = ReadWrite::R;
        } else if self.counter.value == 4 {
            self.temp16 = data.pins.data as u16;
            data.pins.address = if nmi {
                0xFFFB
            } else {
                0xFFFF
            };
            data.pins.rw = ReadWrite::R;
        } else if self.counter.value == 5 {
            self.pc = self.temp16 | ((data.pins.data as u16) << 8u16);
            self.ps = self.ps | FLAG_I;
        } else {
            self.instruction_finish();
        }
    }

    /// One cycle of the reset sequence.
    pub fn reset_step(&mut self, data: &mut CPUData)
        ensures
            *final(self) == s_reset_step(*old(self), old(data).pins).0,
            final(data).pins == s_reset_step(*old(self), old(data).pins).1,
            *final(data) == (CPUData { pins: final(data).pins, ..*old(data) }),
    {
        if self.counter.value == 0 {
            data.pins.address = 0xFFFC;
            data.pins.rw = ReadWrite::R;
        } else if self.counter.value == 1 {
            self.pc = data.pins.data as u16;
            data.pins.address = 0xFFFD;
            data.pins.rw = ReadWrite::R;
        } else if self.counter.value == 2 {
            self.pc = self.pc | ((data.pins.data as u16) << 8u16);
        } else if self.counter.value <= 5 {
        } else {
            self.instruction_finish();
        }
    }

    /// One cycle of the two-cycle stand-in for an unofficial opcode.
    fn invalid_instr(&mut self, data: &mut CPUData)
        ensures
            *final(self) == s_invalid_instr(*old(self), old(data).pins).0,
            final(data).pins == s_invalid_instr(*old(self), old(data).pins).1,
            *final(data) == (CPUData { pins: final(data).pins, ..*old(data) }),
    {
        if self.counter.value == 0 {
            if self.invalid_ops < 0xFFFF_FFFF_FFFF_FFFF {
                self.invalid_ops = self.invalid_ops + 1;
            }
        } else {
            self.instruction_finish();
        }
    }

    /// One cycle of the instruction latched in `opcode`.
    pub fn execute(&mut self, data: &mut CPUData)
        ensures
            *final(self) == s_execute(*old(self), old(data).pins).0,
            final(data).pins == s_execute(*old(self), old(data).pins).1,
            *final(data) == (CPUData { pins: final(data).pins, ..*old(data) }),
    {
        match decode(self.opcode) {
            Some(Instr::Read(op, mode)) => self.read_instr(op, mode, data),
            Some(Instr::Store(op, mode)) => self.store_instr(op, mode, data),
            Some(Instr::Rmw(op, mode)) => self.rmw_instr(op, mode, data),
            Some(Instr::Implied(op)) => self.implied_instr(op, data),
            Some(Instr::Branch(op)) => self.branch_instr(op, data),
            Some(Instr::Pha) => {
                let v = self.a;
                self.push_instr(v, data);
            },
            Some(Instr::Php) => {
                let v = self.ps;
                self.push_instr(v, data);
            },
            Some(Instr::Pla) => self.pla_instr(data),
            Some(Instr::Plp) => self.plp_instr(data),
            Some(Instr::JmpAbs) => self.jmp_abs_instr(data),
            Some(Instr::JmpInd) => self.jmp_ind_instr(data),
            Some(Instr::Jsr) => self.jsr_instr(data),
            Some(Instr::Rts) => self.rts_instr(data),
            Some(Instr::Rti) => self.rti_instr(data),
            Some(Instr::Brk) => self.interrupt_seq(data, false, true),
            None => self.invalid_instr(data),
        }
    }
}

} // verus!
