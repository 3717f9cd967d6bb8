//! A cycle-stepped MOS 6502 compatible CPU. Each call of [`CPU::tick`]
//! advances the processor by one clock; the processor talks to the outside
//! world only through the pin record in [`CPUData`], which the surrounding
//! bus resolves between ticks.

use vstd::prelude::*;

use crate::clock::Clock;
use crate::counter::Counter;
use crate::memory::Memory;
use crate::cpu::model::{s_reset_registers, s_tick};

pub mod instructions;
pub mod model;

verus! {

pub const FLAG_C: u8 = 0x01;
pub const FLAG_Z: u8 = 0x02;
pub const FLAG_I: u8 = 0x04;
pub const FLAG_D: u8 = 0x08;
pub const FLAG_B: u8 = 0x10;
pub const FLAG_V: u8 = 0x40;
pub const FLAG_N: u8 = 0x80;

/// Top-level execution state of the processor.
#[derive(Clone, Copy, Debug, PartialEq, Eq, Structural, Default)]
pub enum CPUState {
    #[default]
    Fetch,
    Execute,
    Halted,
    Interrupt,
    Reset,
}

/// Direction of the bus transaction published on the pins.
#[derive(Clone, Copy, Debug, PartialEq, Eq, Structural, Default)]
pub enum ReadWrite {
    #[default]
    R,
    W,
}

/// The processor's bus pins: one address, one data byte, one direction.
#[derive(Clone, Copy, Debug, PartialEq, Eq, Structural, Default)]
pub struct CPUPins {
    pub address: u16,
    pub data: u8,
    pub rw: ReadWrite,
}

/// Everything the CPU shares with whoever drives it: the pins, a mirror of
/// the execution state, a memory for standalone use, and the clock line.
#[derive(Debug, Default)]
pub struct CPUData {
    pub pins: CPUPins,
    pub state: CPUState,
    pub mem: Memory,
    pub clock: Clock,
}

/// The thirteen addressing modes of the official instruction set.
#[derive(Clone, Copy, Debug, PartialEq, Eq, Structural)]
pub enum AddressingMode {
    Implicit,
    Accumulator,
    Immediate,
    ZeroPage,
    ZeroPageX,
    ZeroPageY,
    Relative,
    Absolute,
    AbsoluteX,
    AbsoluteY,
    Indirect,
    IndexedIndirect,
    IndirectIndexed,
}

/// Instructions that read one operand byte and fold it into a register.
#[derive(Clone, Copy, Debug, PartialEq, Eq, Structural)]
pub enum ReadOp {
    Lda,
    Ldx,
    Ldy,
    Adc,
    Sbc,
    And,
    Eor,
    Ora,
    Cmp,
    Cpx,
    Cpy,
    Bit,
}

/// Instructions that write one register to memory.
#[derive(Clone, Copy, Debug, PartialEq, Eq, Structural)]
pub enum StoreOp {
    Sta,
    Stx,
    Sty,
}

/// Read-modify-write instructions.
#[derive(Clone, Copy, Debug, PartialEq, Eq, Structural)]
pub enum RmwOp {
    Asl,
    Lsr,
    Rol,
    Ror,
    Inc,
    Dec,
}

/// Two-cycle instructions that touch only registers and flags.
#[derive(Clone, Copy, Debug, PartialEq, Eq, Structural)]
pub enum ImpliedOp {
    Tax,
    Tay,
    Txa,
    Tya,
    Tsx,
    Txs,
    Inx,
    Iny,
    Dex,
    Dey,
    Clc,
    Cld,
    Cli,
    Clv,
    Sec,
    Sed,
    Sei,
    Nop,
}

/// The eight conditional branches.
#[derive(Clone, Copy, Debug, PartialEq, Eq, Structural)]
pub enum BranchOp {
    Bcc,
    Bcs,
    Beq,
    Bmi,
    Bne,
    Bpl,
    Bvc,
    Bvs,
}

/// A decoded instruction: the operation together with its addressing mode.
#[derive(Clone, Copy, Debug, PartialEq, Eq, Structural)]
pub enum Instr {
    Read(ReadOp, AddressingMode),
    Store(StoreOp, AddressingMode),
    Rmw(RmwOp, AddressingMode),
    Implied(ImpliedOp),
    Branch(BranchOp),
    Pha,
    Php,
    Pla,
    Plp,
    JmpAbs,
    JmpInd,
    Jsr,
    Rts,
    Rti,
    Brk,
}

/// The processor registers together with the latches that the per-cycle
/// micro-ops use, and the pending interrupt lines.
#[derive(Clone, Copy, Debug, PartialEq, Eq, Structural, Default)]
pub struct CPU {
    pub pc: u16,
    pub sp: u8,
    pub a: u8,
    pub x: u8,
    pub y: u8,
    pub ps: u8,
    pub state: CPUState,
    pub counter: Counter,
    pub opcode: u8,
    pub temp8: u8,
    pub temp16: u16,
    pub tempb: bool,
    pub nmi_pending: bool,
    pub irq_pending: bool,
    pub take_nmi: bool,
    pub invalid_ops: u64,
}

/// Set or clear one flag bit in a status byte.
pub fn set_flag(p: u8, mask: u8, on: bool) -> (r: u8)
    ensures
        r == model::flag_set(p, mask, on),
{
    if on {
        p | mask
    } else {
        p & !mask
    }
}

/// Whether one flag bit is set in a status byte.
pub fn get_flag(p: u8, mask: u8) -> (r: bool)
    ensures
        r == model::flag_on(p, mask),
{
    p & mask != 0
}

impl CPU {
    /// Reinitialise the registers and park the processor at the start of the
    /// seven-cycle reset sequence, which will load the program counter from
    /// the reset vector.
    pub fn reset(&mut self)
        ensures
            *final(self) == s_reset_registers(*old(self)),
    {
        self.sp = 0xFF;
        self.ps = 0;
        self.a = 0;
        self.x = 0;
        self.y = 0;
        self.state = CPUState::Reset;
        self.counter.value = 0;
        self.nmi_pending = false;
        self.irq_pending = false;
        self.take_nmi = false;
    }

    /// The current top-level execution state.
    pub fn get_state(&self) -> (s: CPUState)
        ensures
            s == self.state,
    {
        self.state
    }

    /// True between instructions: the processor is about to fetch an opcode.
    pub fn is_complete(&self) -> (r: bool)
        ensures
            r == (self.state is Fetch && self.counter.value == 0),
    {
        self.state == CPUState::Fetch && self.counter.value == 0
    }

    /// Latch a non-maskable interrupt request; it is taken at the next
    /// instruction boundary whatever the interrupt-disable flag says.
    pub fn nmi_request(&mut self)
        ensures
            *final(self) == (CPU { nmi_pending: true, ..*old(self) }),
    {
        self.nmi_pending = true;
    }

    /// Latch a maskable interrupt request; it is taken at the next
    /// instruction boundary only while the interrupt-disable flag is clear.
    pub fn irq_request(&mut self)
        ensures
            *final(self) == (CPU { irq_pending: true, ..*old(self) }),
    {
        self.irq_pending = true;
    }

    /// End the instruction in flight: return to `Fetch` with the cycle
    /// counter parked so that the closing tick leaves it at 0.
    pub fn instruction_finish(&mut self)
        ensures
            *final(self) == model::s_finish(*old(self)),
    {
        self.state = CPUState::Fetch;
        self.counter.reset();
    }

    fn fetch(&mut self, data: &mut CPUData)
        ensures
            *final(self) == model::s_fetch(*old(self), old(data).pins).0,
            *final(data) == (CPUData {
                pins: model::s_fetch(*old(self), old(data).pins).1,
                ..*old(data)
            }),
    {
        if self.counter.value == 0 {
            data.pins.address = self.pc;
            data.pins.rw = ReadWrite::R;
            self.pc = self.pc.wrapping_add(1);
        } else {
            self.opcode = data.pins.data;
            self.state = CPUState::Execute;
            self.counter.reset();
        }
    }

    /// Advance the processor by one clock. On the clock's high phase the
    /// call is a no-op; on the low phase the processor performs the cycle
    /// that its state and cycle counter select, publishing at most one bus
    /// transaction on the pins.
    pub fn tick(&mut self, data: &mut CPUData)
        ensures
            old(data).clock.state ==> *final(self) == *old(self) && *final(data) == *old(data),
            !old(data).clock.state ==> {
                &&& *final(self) == s_tick(*old(self), old(data).pins).0
                &&& *final(data) == (CPUData {
                    pins: s_tick(*old(self), old(data).pins).1,
                    state: if old(self).state is Halted {
                        old(data).state
                    } else {
                        s_tick(*old(self), old(data).pins).0.state
                    },
                    ..*old(data)
                })
            },
    {
        if data.clock.state {
            return;
        }

        match self.state {
            CPUState::Halted => {
                return;
            }
            CPUState::Fetch => {
                if self.counter.value == 0 && (self.nmi_pending || (self.irq_pending
                    && get_flag(self.ps, FLAG_I) == false)) {
                    self.take_nmi = self.nmi_pending;
                    if self.nmi_pending {
                        self.nmi_pending = false;
                    } else {
                        self.irq_pending = false;
                    }
                    self.state = CPUState::Interrupt;
                    let nmi = self.take_nmi;
                    self.interrupt_seq(data, nmi, false);
                } else {
                    self.fetch(data);
                }
            }
            CPUState::Execute => self.execute(data),
            CPUState::Interrupt => {
                let nmi = self.take_nmi;
                self.interrupt_seq(data, nmi, false);
            }
            CPUState::Reset => self.reset_step(data),
        }

        self.counter.tick();
        data.state = self.state;
    }
}

} // verus!
