//! The system bus: work RAM, the CPU, the PPU and the cartridge, clocked
//! together at the fixed ratio of three PPU dots per CPU cycle.

use vstd::prelude::*;

use crate::cartridge::Cartridge;
use crate::cpu::model::s_tick;
use crate::cpu::{CPUData, CPUPins, ReadWrite, CPU};
use crate::memory::Memory;
use crate::bits::wadd16;
use crate::ppu::{
    l_set_coarse_x, l_set_coarse_y, l_set_fine_y, l_set_ntx, l_set_nty, s_next_dot,
    s_vram_write_effect, CTRL_EN_NMI, CTRL_INC_MODE, CTRL_NAMETBL_X, CTRL_NAMETBL_Y, PPU,
};

verus! {

/// The console: bus, clock scheduler and device owner in one.
#[derive(Debug)]
pub struct NES {
    pub cpu: CPU,
    pub data: CPUData,
    pub ppu: PPU,
    pub ticks: u32,
}

impl NES {
    /// A well-formed console: a well-formed PPU, at least the 2 KiB of work
    /// RAM that the address decoder mirrors, the CPU clock line held low,
    /// and the tick counter inside its period.
    pub open spec fn wf(&self) -> bool {
        &&& self.ppu.wf()
        &&& self.data.mem.data@.len() >= 0x800
        &&& !self.data.clock.state
        &&& self.ticks <= 3
    }

    /// A console with empty work RAM and no cartridge.
    pub fn new() -> (n: NES)
        ensures
            n.wf(),
            n.ppu.cartridge is None,
            n.ticks == 0,
            n.cpu.pc == 0 && n.cpu.sp == 0 && n.cpu.a == 0 && n.cpu.x == 0 && n.cpu.y == 0,
            n.cpu.ps == 0 && n.cpu.state is Fetch && n.cpu.counter.value == 0,
            !n.cpu.nmi_pending && !n.cpu.irq_pending,
            n.cpu.invalid_ops == 0,
            forall|j: int| 0 <= j < n.data.mem.data@.len() ==> n.data.mem.data@[j] == 0u8,
    {
        NES {
            cpu: CPU {
                pc: 0,
                sp: 0,
                a: 0,
                x: 0,
                y: 0,
                ps: 0,
                state: crate::cpu::CPUState::Fetch,
                counter: crate::counter::Counter { value: 0 },
                opcode: 0,
                temp8: 0,
                temp16: 0,
                tempb: false,
                nmi_pending: false,
                irq_pending: false,
                take_nmi: false,
                invalid_ops: 0,
            },
            data: CPUData {
                pins: CPUPins { address: 0, data: 0, rw: ReadWrite::R },
                state: crate::cpu::CPUState::Fetch,
                mem: Memory::new(2048),
                clock: crate::clock::Clock { state: false },
            },
            ppu: PPU::new(),
            ticks: 0,
        }
    }

    /// Put the CPU through its reset sequence and restart the clock ratio.
    pub fn reset(&mut self)
        ensures
            *final(self) == (NES {
                cpu: crate::cpu::model::s_reset_registers(old(self).cpu),
                ticks: 0,
                ..*old(self)
            }),
    {
        self.cpu.reset();
        self.ticks = 0;
    }

    /// The CPU's program counter.
    pub fn get_pc(&self) -> (r: u16)
        ensures
            r == self.cpu.pc,
    {
        self.cpu.pc
    }

    /// Whether the CPU sits at an instruction boundary.
    pub fn cpu_complete(&self) -> (r: bool)
        ensures
            r == (self.cpu.state is Fetch && self.cpu.counter.value == 0),
    {
        self.cpu.is_complete()
    }

    /// The CPU's program counter.
    pub fn program_counter(&self) -> (r: u16)
        ensures
            r == self.cpu.pc,
    {
        self.cpu.pc
    }

    /// Give the console its cartridge; the PPU holds it for both buses.
    pub fn attach_cart(&mut self, cart: Cartridge)
        ensures
            *final(self) == (NES { ppu: final(self).ppu, ..*old(self) }),
            final(self).ppu == (PPU { cartridge: Some(cart), ..old(self).ppu }),
    {
        self.ppu.attach_cart(cart);
    }

    /// Advance the console by one PPU dot. Every third dot the CPU runs one
    /// cycle, the bus resolves its pending pin transaction (cartridge
    /// first, then mirrored work RAM, then the mirrored PPU register
    /// window, with open addresses reading zero), and a pending PPU NMI
    /// pulse is consumed into a CPU non-maskable interrupt request. The
    /// register-window clauses spell out what each of the eight registers
    /// returns and changes, relative to the PPU state after its dot.
    #[verifier::rlimit(100)]
    pub fn tick(&mut self)
        requires
            old(self).wf(),
        ensures
            final(self).wf(),
            final(self).ticks == if old(self).ticks % 3 == 0 {
                1u32
            } else {
                (old(self).ticks + 1) as u32
            },
            (final(self).ppu.scanline, final(self).ppu.cycle) == s_next_dot(
                old(self).ppu.scanline,
                old(self).ppu.cycle,
            ),
            final(self).ppu.frame_complete == (old(self).ppu.frame_complete || (old(
                self,
            ).ppu.scanline == 260 && old(self).ppu.cycle == 340)),
            old(self).ticks % 3 != 0 ==> final(self).cpu == old(self).cpu && final(self).data
                == old(self).data && final(self).ppu.nmi == (old(self).ppu.nmi || (old(
                self,
            ).ppu.scanline == 241 && old(self).ppu.cycle == 1 && old(self).ppu.control
                & CTRL_EN_NMI != 0)),
            old(self).ticks % 3 == 0 ==> ({
                let nmi_edge = old(self).ppu.nmi || (old(self).ppu.scanline == 241 && old(
                    self,
                ).ppu.cycle == 1 && old(self).ppu.control & CTRL_EN_NMI != 0);
                let c1 = s_tick(old(self).cpu, old(self).data.pins).0;
                let p1 = s_tick(old(self).cpu, old(self).data.pins).1;
                &&& !final(self).ppu.nmi
                &&& final(self).cpu == if nmi_edge {
                    CPU { nmi_pending: true, ..c1 }
                } else {
                    c1
                }
                &&& final(self).data.clock == old(self).data.clock
                &&& final(self).data.state == (if old(self).cpu.state is Halted {
                    old(self).data.state
                } else {
                    c1.state
                })
                &&& final(self).data.pins.address == p1.address
                &&& final(self).data.pins.rw == p1.rw
                &&& (p1.rw is R ==> final(self).data.mem.data@ == old(self).data.mem.data@)
                &&& (p1.rw is R && p1.address <= 0x1FFF && (old(self).ppu.cartridge matches Some(
                    c,
                ) ==> c.s_cpu_read(p1.address) is None) ==> final(self).data.pins.data == old(
                    self,
                ).data.mem.data@[(p1.address & 0x07FF) as int])
                &&& (p1.rw is R && (old(self).ppu.cartridge matches Some(c) && c.s_cpu_read(
                    p1.address,
                ) matches Some(b)) ==> final(self).data.pins.data == (old(
                    self,
                ).ppu.cartridge->Some_0.s_cpu_read(p1.address))->Some_0)
                &&& (p1.rw is W && p1.address <= 0x1FFF && (old(self).ppu.cartridge matches Some(
                    c,
                ) ==> c.s_cpu_read(p1.address) is None) ==> final(self).data.mem.data@ == old(
                    self,
                ).data.mem.data@.update((p1.address & 0x07FF) as int, p1.data))
                &&& (p1.rw is W && p1.address > 0x1FFF ==> final(self).data.mem.data@ == old(
                    self,
                ).data.mem.data@)
                &&& ({
                    let win = 0x2000 <= p1.address <= 0x3FFF;
                    let reg = p1.address & 0x0007;
                    let po = old(self).ppu;
                    let status_mid = if po.scanline == -1 && po.cycle == 0 {
                        po.status & 0x7F
                    } else if po.scanline == 241 && po.cycle == 1 {
                        po.status | 0x80
                    } else {
                        po.status
                    };
                    let v_mid = po.s_vram_after_dot();
                    let inc: u16 = if po.control & CTRL_INC_MODE != 0 {
                        32u16
                    } else {
                        1u16
                    };
                    &&& (p1.rw is R && win && reg == 2 ==> final(self).data.pins.data
                        == status_mid && final(self).ppu.status == (status_mid & 0x7F) && final(self).ppu.address_latch == 0)
                    &&& (p1.rw is R && win && reg == 7 ==> final(self).data.pins.data == (
                    if v_mid >= 0x3F00 {
                        po.s_ppu_read(v_mid)
                    } else {
                        po.data_buffer
                    }) && final(self).ppu.data_buffer == po.s_ppu_read(v_mid) && final(self).ppu.vram_addr.value == wadd16(v_mid, inc))
                    &&& (p1.rw is R && win && reg != 2 && reg != 7 ==> final(self).data.pins.data == 0)
                    &&& (p1.rw is W && win && reg == 0 ==> final(self).ppu.control == p1.data
                        && final(self).ppu.tram_addr.value == l_set_nty(
                        l_set_ntx(po.tram_addr.value, p1.data & CTRL_NAMETBL_X != 0),
                        p1.data & CTRL_NAMETBL_Y != 0,
                    ))
                    &&& (p1.rw is W && win && reg == 1 ==> final(self).ppu.mask == p1.data)
                    &&& (p1.rw is W && win && reg == 5 && po.address_latch == 0 ==> final(self).ppu.fine_x == (p1.data & 0x07) && final(self).ppu.tram_addr.value
                        == l_set_coarse_x(po.tram_addr.value, p1.data >> 3) && final(self).ppu.address_latch == 1)
                    &&& (p1.rw is W && win && reg == 5 && po.address_latch != 0 ==> final(self).ppu.tram_addr.value == l_set_coarse_y(
                        l_set_fine_y(po.tram_addr.value, p1.data & 0x07),
                        p1.data >> 3,
                    ) && final(self).ppu.address_latch == 0)
                    &&& (p1.rw is W && win && reg == 6 && po.address_latch == 0 ==> final(self).ppu.tram_addr.value == ((((p1.data & 0x3F) as u16) << 8) | (
                    po.tram_addr.value & 0x00FF)) && final(self).ppu.address_latch == 1)
                    &&& (p1.rw is W && win && reg == 6 && po.address_latch != 0 ==> final(self).ppu.tram_addr.value == ((po.tram_addr.value & 0xFF00) | (p1.data as u16))
                        && final(self).ppu.vram_addr.value == final(self).ppu.tram_addr.value
                        && final(self).ppu.address_latch == 0)
                    &&& (p1.rw is W && win && reg == 7 ==> s_vram_write_effect(
                        po,
                        final(self).ppu,
                        v_mid,
                        p1.data,
                    ) && final(self).ppu.vram_addr.value == wadd16(v_mid, inc))
                })
            }),
    {
        proof {
            crate::bits::lemma_mask_bounds();
        }
        self.ppu.tick();

        if self.ticks % 3 == 0 {
            self.cpu.tick(&mut self.data);

            let addr = self.data.pins.address;
            match self.data.pins.rw {
                ReadWrite::R => {
                    let cart_val: Option<u8> = match &self.ppu.cartridge {
                        Some(c) => c.cpu_read(addr),
                        None => None,
                    };
                    if let Some(b) = cart_val {
                        self.data.pins.data = b;
                    } else if addr <= 0x1FFF {
                        self.data.pins.data = self.data.mem.data[(addr & 0x07FF) as usize];
                    } else if addr <= 0x3FFF {
                        let b = self.ppu.cpu_read(addr & 0x0007);
                        self.data.pins.data = b;
                    } else {
                        self.data.pins.data = 0;
                    }
                },
                ReadWrite::W => {
                    let d = self.data.pins.data;
                    let taken: bool = match &mut self.ppu.cartridge {
                        Some(c) => c.cpu_write(addr, d).is_some(),
                        None => false,
                    };
                    if taken {
                    } else if addr <= 0x1FFF {
                        self.data.mem.data[(addr & 0x07FF) as usize] = d;
                    } else if addr <= 0x3FFF {
                        self.ppu.cpu_write(addr & 0x0007, d);
                    }
                },
            }

            if self.ppu.nmi {
                self.ppu.nmi = false;
                self.cpu.nmi_request();
            }

            self.ticks = 0;
        }

        self.ticks = self.ticks + 1;
    }
}

} // verus!
