//! A cycle-stepped core of the Nintendo Entertainment System: a MOS 6502
//! compatible CPU driven one clock at a time through a pin record, a per-dot
//! picture processing unit, an iNES cartridge with the NROM mapper, and the
//! bus that ties them together at the fixed 3:1 PPU:CPU clock ratio.

pub mod addressing;
pub mod bits;
pub mod cartridge;
pub mod clock;
pub mod counter;
pub mod cpu;
pub mod laws;
pub mod mapper;
pub mod memory;
pub mod nes;
pub mod opcodes;
pub mod ppu;
pub mod stack;

pub use cpu::{CPU, CPUData, CPUPins, CPUState, ReadWrite, AddressingMode};
pub use clock::Clock;
pub use counter::Counter;
pub use memory::Memory;
