//! The picture processing unit: a per-dot state machine over nametable,
//! pattern and palette memory, the two "loopy" scroll registers, the
//! background shifter pipeline, and the CPU-facing register window.

use vstd::prelude::*;

use crate::bits::{lemma_mask_bounds, wadd16};
use crate::cartridge::{Cartridge, Mirror};
use crate::mapper::s_mapper_ppu_write_map;

verus! {

pub const STAT_VBLANK: u8 = 0x80;
pub const STAT_SPR_0_HIT: u8 = 0x40;
pub const STAT_SPR_OVERFLOW: u8 = 0x20;

pub const MASK_GRAYSCALE: u8 = 0x01;
pub const MASK_REND_BG_LEFT: u8 = 0x02;
pub const MASK_REND_SPR_LEFT: u8 = 0x04;
pub const MASK_REND_BG: u8 = 0x08;
pub const MASK_REND_SPR: u8 = 0x10;

pub const CTRL_NAMETBL_X: u8 = 0x01;
pub const CTRL_NAMETBL_Y: u8 = 0x02;
pub const CTRL_INC_MODE: u8 = 0x04;
pub const CTRL_PTRN_SPR: u8 = 0x08;
pub const CTRL_PTRN_BG: u8 = 0x10;
pub const CTRL_SPR_SIZE: u8 = 0x20;
pub const CTRL_SLV_MODE: u8 = 0x40;
pub const CTRL_EN_NMI: u8 = 0x80;

/// A fifteen-bit scroll register packing coarse X and Y, the nametable
/// selects, and fine Y.
#[derive(Clone, Copy, Debug, PartialEq, Eq, Structural, Default)]
pub struct LoopyReg {
    pub value: u16,
}

/// Coarse X replaced in a raw loopy value.
pub open spec fn l_set_coarse_x(v: u16, value: u8) -> u16 {
    (v & 0xFFE0) | ((value & 0x1F) as u16)
}

/// Coarse Y replaced in a raw loopy value.
pub open spec fn l_set_coarse_y(v: u16, value: u8) -> u16 {
    (v & 0xFC1F) | (((value & 0x1F) as u16) << 5)
}

/// The horizontal nametable select replaced in a raw loopy value.
pub open spec fn l_set_ntx(v: u16, value: bool) -> u16 {
    (v & 0xFBFF) | (if value { 0x400u16 } else { 0u16 })
}

/// The vertical nametable select replaced in a raw loopy value.
pub open spec fn l_set_nty(v: u16, value: bool) -> u16 {
    (v & 0xF7FF) | (if value { 0x800u16 } else { 0u16 })
}

/// Fine Y replaced in a raw loopy value.
pub open spec fn l_set_fine_y(v: u16, value: u8) -> u16 {
    (v & 0x8FFF) | (((value & 0x07) as u16) << 12)
}

impl LoopyReg {
    /// The raw register value.
    pub fn get_data(&self) -> (r: u16)
        ensures
            r == self.value,
    {
        self.value
    }

    /// Coarse X: bits 0 through 4.
    pub fn get_coarse_x(&self) -> (r: u8)
        ensures
            r == (self.value & 0x1F) as u8,
            r < 32,
    {
        proof {
            lemma_mask_bounds();
        }
        (self.value & 0x1F) as u8
    }

    /// Coarse Y: bits 5 through 9.
    pub fn get_coarse_y(&self) -> (r: u8)
        ensures
            r == ((self.value & 0x3E0) >> 5) as u8,
            r < 32,
    {
        proof {
            lemma_mask_bounds();
        }
        ((self.value & 0x3E0) >> 5u16) as u8
    }

    /// The horizontal nametable select: bit 10.
    pub fn get_nametable_x(&self) -> (r: bool)
        ensures
            r == ((self.value & 0x400) != 0),
    {
        (self.value & 0x400) > 0
    }

    /// The vertical nametable select: bit 11.
    pub fn get_nametable_y(&self) -> (r: bool)
        ensures
            r == ((self.value & 0x800) != 0),
    {
        (self.value & 0x800) > 0
    }

    /// Fine Y: bits 12 through 14.
    pub fn get_fine_y(&self) -> (r: u8)
        ensures
            r == ((self.value & 0x7000) >> 12) as u8,
            r < 8,
    {
        proof {
            lemma_mask_bounds();
        }
        ((self.value & 0x7000) >> 12u16) as u8
    }

    /// Replace coarse X.
    pub fn set_coarse_x(&mut self, value: u8)
        ensures
            final(self).value == l_set_coarse_x(old(self).value, value),
    {
        self.value = (self.value & 0xFFE0) | ((value & 0x1F) as u16);
    }

    /// Replace coarse Y.
    pub fn set_coarse_y(&mut self, value: u8)
        ensures
            final(self).value == l_set_coarse_y(old(self).value, value),
    {
        self.value = (self.value & 0xFC1F) | (((value & 0x1F) as u16) << 5u16);
    }

    /// Replace the horizontal nametable select.
    pub fn set_nametable_x(&mut self, value: bool)
        ensures
            final(self).value == l_set_ntx(old(self).value, value),
    {
        self.value = (self.value & 0xFBFF) | (if value {
            0x400
        } else {
            0
        });
    }

    /// Replace the vertical nametable select.
    pub fn set_nametable_y(&mut self, value: bool)
        ensures
            final(self).value == l_set_nty(old(self).value, value),
    {
        self.value = (self.value & 0xF7FF) | (if value {
            0x800
        } else {
            0
        });
    }

    /// Replace fine Y.
    pub fn set_fine_y(&mut self, value: u8)
        ensures
            final(self).value == l_set_fine_y(old(self).value, value),
    {
        self.value = (self.value & 0x8FFF) | (((value & 0x07) as u16) << 12u16);
    }

    /// Step the register by the CPU-side increment, wrapping.
    pub fn increment_data(&mut self, inc_count: u8)
        ensures
            final(self).value == wadd16(old(self).value, inc_count as u16),
    {
        self.value = self.value.wrapping_add(inc_count as u16);
    }

    /// Replace the raw register value.
    pub fn set_data(&mut self, data: u16)
        ensures
            final(self).value == data,
    {
        self.value = data;
    }
}

/// Flat index of a pattern-table address inside the PPU's own pattern
/// pages.
pub open spec fn pattern_idx(a: u16) -> int {
    ((a & 0x1000) >> 12) * 4096 + (a & 0x0FFF)
}

/// Flat index of a nametable address inside the two nametable pages, after
/// mirroring.
pub open spec fn name_idx(m: Mirror, a: u16) -> int {
    let ma = a & 0x0FFF;
    let off = ma & 0x03FF;
    match m {
        Mirror::Vertical => if ma < 0x0400 {
            off as int
        } else if ma < 0x0800 {
            1024 + off
        } else if ma < 0x0C00 {
            off as int
        } else {
            1024 + off
        },
        Mirror::Horizontal => if ma < 0x0800 {
            off as int
        } else {
            1024 + off
        },
        Mirror::OnescreenLo => off as int,
        Mirror::OnescreenHi => 1024 + off,
    }
}

/// Index into palette RAM, with the hardware's aliasing of the four sprite
/// backdrop entries onto the background ones.
pub open spec fn palette_idx(a: u16) -> int {
    let b = a & 0x001F;
    if b == 0x10 {
        0int
    } else if b == 0x14 {
        4int
    } else if b == 0x18 {
        8int
    } else if b == 0x1C {
        0xCint
    } else {
        b as int
    }
}

/// The picture processing unit.
#[derive(Clone, Debug)]
pub struct PPU {
    pub cartridge: Option<Cartridge>,
    pub scanline: i16,
    pub cycle: i16,
    pub frame_complete: bool,
    pub buf: Vec<u8>,
    pub nmi: bool,
    pub fine_x: u8,
    pub address_latch: u8,
    pub data_buffer: u8,
    pub status: u8,
    pub mask: u8,
    pub control: u8,
    pub vram_addr: LoopyReg,
    pub tram_addr: LoopyReg,
    pub table_name: Vec<u8>,
    pub table_pattern: Vec<u8>,
    pub table_palette: Vec<u8>,

    pub bg_next_tile_id: u8,
    pub bg_next_tile_attrib: u8,
    pub bg_next_tile_lsb: u8,
    pub bg_next_tile_msb: u8,
    pub bg_shifter_pattern_lo: u16,
    pub bg_shifter_pattern_hi: u16,
    pub bg_shifter_attrib_lo: u16,
    pub bg_shifter_attrib_hi: u16,
}

fn filled_vec(n: usize, v: u8) -> (r: Vec<u8>)
    ensures
        r@.len() == n,
        forall|j: int| 0 <= j < n ==> r@[j] == v,
{
    let mut r: Vec<u8> = Vec::new();
    let mut i: usize = 0;
    while i < n
        invariant
            i <= n,
            r@.len() == i,
            forall|j: int| 0 <= j < i ==> r@[j] == v,
        decreases n - i,
    {
        r.push(v);
        i = i + 1;
    }
    r
}

/// The mirroring in force: the attached cartridge's, or horizontal while
/// none is attached.
pub open spec fn mirror_of(p: &PPU) -> Mirror {
    match p.cartridge {
        Some(c) => c.mirror,
        None => Mirror::Horizontal,
    }
}

/// Whether the background fetch pipeline runs at this dot: a visible or
/// pre-render scanline, during dots 2 through 257 or 321 through 337.
pub open spec fn dot_in_fetch_band(sl: i16, cy: i16) -> bool {
    (-1 <= sl < 240) && ((2 <= cy < 258) || (321 <= cy < 338))
}

/// The coarse-X scroll step: count to 31, then wrap with a horizontal
/// nametable toggle.
pub open spec fn s_scroll_inc_x(v: u16) -> u16 {
    if (v & 0x1F) as u8 == 31 {
        let v1 = l_set_coarse_x(v, 0);
        l_set_ntx(v1, !((v1 & 0x400) != 0))
    } else {
        l_set_coarse_x(v, (((v & 0x1F) as u8) + 1) as u8)
    }
}

/// The vertical scroll step: fine Y counts to 7, then coarse Y advances,
/// wrapping from 29 with a vertical nametable toggle and from 31 without.
pub open spec fn s_scroll_inc_y(v: u16) -> u16 {
    let fy = ((v & 0x7000) >> 12) as u8;
    if fy < 7 {
        l_set_fine_y(v, (fy + 1) as u8)
    } else {
        let v0 = l_set_fine_y(v, 0);
        let cy = ((v0 & 0x3E0) >> 5) as u8;
        if cy == 29 {
            let v1 = l_set_coarse_y(v0, 0);
            l_set_nty(v1, !((v1 & 0x800) != 0))
        } else if cy == 31 {
            l_set_coarse_y(v0, 0)
        } else {
            l_set_coarse_y(v0, (cy + 1) as u8)
        }
    }
}

/// The horizontal reload: coarse X and the horizontal nametable select
/// copied from `t` into `v`.
pub open spec fn s_scroll_mv_x(v: u16, t: u16) -> u16 {
    l_set_coarse_x(l_set_ntx(v, (t & 0x400) != 0), (t & 0x1F) as u8)
}

/// The vertical reload: fine Y, coarse Y and the vertical nametable
/// select copied from `t` into `v`.
pub open spec fn s_scroll_mv_y(v: u16, t: u16) -> u16 {
    l_set_coarse_y(
        l_set_nty(l_set_fine_y(v, ((t & 0x7000) >> 12) as u8), (t & 0x800) != 0),
        ((t & 0x3E0) >> 5) as u8,
    )
}

/// The scanline and dot counters one tick later: every call advances by
/// exactly one step of the plain 341-by-262 dot sequence.
pub open spec fn s_next_dot(sl: i16, cy: i16) -> (i16, i16) {
    if cy + 1 >= 341 {
        (if sl + 1 >= 261 {
            -1i16
        } else {
            (sl + 1) as i16
        }, 0i16)
    } else {
        (sl, (cy + 1) as i16)
    }
}

/// A dot's position within the frame: 0 at the top of the pre-render
/// line, 89341 at the last dot of scanline 260.
pub open spec fn dot_index(sl: i16, cy: i16) -> int {
    (sl + 1) * 341 + cy
}

/// Law: the dot sequence is the plain cyclic walk over one frame of
/// 341 times 262 dots: each step advances the frame position by exactly
/// one, modulo 89342, and stays within range.
pub proof fn lemma_dot_sequence_advances(sl: i16, cy: i16)
    requires
        -1 <= sl <= 260,
        0 <= cy <= 340,
    ensures
        ({
            let (sl2, cy2) = s_next_dot(sl, cy);
            &&& -1 <= sl2 <= 260
            &&& 0 <= cy2 <= 340
            &&& dot_index(sl2, cy2) == (dot_index(sl, cy) + 1) % 89342
        }),
{
    let (sl2, cy2) = s_next_dot(sl, cy);
    if sl == 260 && cy == 340 {
        assert(dot_index(sl, cy) + 1 == 89342);
        vstd::arithmetic::div_mod::lemma_mod_self_0(89342);
    } else {
        vstd::arithmetic::div_mod::lemma_small_mod(
            (dot_index(sl, cy) + 1) as nat,
            89342nat,
        );
    }
}

/// What one write into PPU address space does to the four memories: the
/// cartridge takes it first (CHR RAM), then the pattern pages, the
/// mirrored nametables, and palette RAM with its aliasing. Exactly one
/// cell changes; every memory not named stays.
pub open spec fn s_vram_write_effect(po: PPU, pn: PPU, address: u16, data: u8) -> bool {
    let a = address & 0x3FFF;
    let cart_takes = match po.cartridge {
        Some(c) => match s_mapper_ppu_write_map(c.mapper, a) {
            Some(idx) => idx < c.char_mem@.len(),
            None => false,
        },
        None => false,
    };
    if cart_takes {
        &&& pn.cartridge matches Some(cn)
        &&& po.cartridge matches Some(co)
        &&& cn == (Cartridge { char_mem: cn.char_mem, ..co })
        &&& cn.char_mem@ == co.char_mem@.update(
            s_mapper_ppu_write_map(co.mapper, a)->Some_0 as int,
            data,
        )
        &&& pn.table_pattern@ == po.table_pattern@
        &&& pn.table_name@ == po.table_name@
        &&& pn.table_palette@ == po.table_palette@
    } else if a <= 0x1FFF {
        &&& pn.cartridge == po.cartridge
        &&& pn.table_pattern@ == po.table_pattern@.update(pattern_idx(a), data)
        &&& pn.table_name@ == po.table_name@
        &&& pn.table_palette@ == po.table_palette@
    } else if a <= 0x3EFF {
        &&& pn.cartridge == po.cartridge
        &&& pn.table_pattern@ == po.table_pattern@
        &&& pn.table_name@ == po.table_name@.update(name_idx(mirror_of(&po), a), data)
        &&& pn.table_palette@ == po.table_palette@
    } else {
        &&& pn.cartridge == po.cartridge
        &&& pn.table_pattern@ == po.table_pattern@
        &&& pn.table_name@ == po.table_name@
        &&& pn.table_palette@ == po.table_palette@.update(palette_idx(a), data)
    }
}

impl PPU {
    /// A well-formed unit: the memories have their hardware sizes, the dot
    /// counters sit in range, fine X fits in three bits, and an attached
    /// cartridge is itself well formed.
    pub open spec fn wf(&self) -> bool {
        &&& self.buf@.len() == 61440
        &&& self.table_name@.len() == 2048
        &&& self.table_pattern@.len() == 8192
        &&& self.table_palette@.len() == 32
        &&& -1 <= self.scanline <= 260
        &&& 0 <= self.cycle <= 340
        &&& self.fine_x <= 7
        &&& match self.cartridge {
            Some(c) => c.wf(),
            None => true,
        }
    }

    /// A freshly powered unit: cleared registers, dot (0, 0), a framebuffer
    /// of the backdrop colour.
    pub fn new() -> (p: PPU)
        ensures
            p.wf(),
            p.cartridge is None,
            p.scanline == 0,
            p.cycle == 0,
            !p.frame_complete,
            !p.nmi,
            p.status == 0,
            p.mask == 0,
            p.control == 0,
            p.address_latch == 0,
            p.data_buffer == 0,
            p.fine_x == 0,
            p.vram_addr.value == 0,
            p.tram_addr.value == 0,
            forall|j: int| 0 <= j < p.buf@.len() ==> p.buf@[j] == 0x0Fu8,
            forall|j: int| 0 <= j < p.table_name@.len() ==> p.table_name@[j] == 0u8,
            forall|j: int| 0 <= j < p.table_pattern@.len() ==> p.table_pattern@[j] == 0u8,
            forall|j: int| 0 <= j < p.table_palette@.len() ==> p.table_palette@[j] == 0u8,
    {
        PPU {
            cartridge: None,
            scanline: 0,
            cycle: 0,
            frame_complete: false,
            buf: filled_vec(61440, 0x0F),
            nmi: false,
            fine_x: 0,
            address_latch: 0,
            data_buffer: 0,
            status: 0,
            mask: 0,
            control: 0,
            vram_addr: LoopyReg { value: 0 },
            tram_addr: LoopyReg { value: 0 },
            table_name: filled_vec(2048, 0),
            table_pattern: filled_vec(8192, 0),
            table_palette: filled_vec(32, 0),
            bg_next_tile_id: 0,
            bg_next_tile_attrib: 0,
            bg_next_tile_lsb: 0,
            bg_next_tile_msb: 0,
            bg_shifter_pattern_lo: 0,
            bg_shifter_pattern_hi: 0,
            bg_shifter_attrib_lo: 0,
            bg_shifter_attrib_hi: 0,
        }
    }

    /// Attach a cartridge; the unit consults it first on every bus access.
    pub fn attach_cart(&mut self, cart: Cartridge)
        ensures
            *final(self) == (PPU { cartridge: final(self).cartridge, ..*old(self) }),
            final(self).cartridge == Some(cart),
    {
        self.cartridge = Some(cart);
    }

    /// What a read of PPU address space returns, without side effects:
    /// cartridge first, then pattern pages, mirrored nametables, and
    /// palette RAM under the grayscale mask.
    pub open spec fn s_ppu_read(&self, address: u16) -> u8 {
        let a = address & 0x3FFF;
        let cart_byte = match self.cartridge {
            Some(c) => c.s_ppu_read(a),
            None => None,
        };
        match cart_byte {
            Some(b) => b,
            None => if a <= 0x1FFF {
                self.table_pattern@[pattern_idx(a)]
            } else if a <= 0x3EFF {
                self.table_name@[name_idx(mirror_of(self), a)]
            } else {
                self.table_palette@[palette_idx(a)] & (if self.mask & MASK_GRAYSCALE != 0 {
                    0x30u8
                } else {
                    0x3Fu8
                })
            },
        }
    }

    /// Read a byte from PPU address space.
    pub fn ppu_read(&self, address: u16) -> (r: u8)
        requires
            self.wf(),
        ensures
            r == self.s_ppu_read(address),
    {
        proof {
            lemma_mask_bounds();
        }
        let a = address & 0x3FFF;

        let from_cart: Option<u8> = match &self.cartridge {
            Some(c) => c.ppu_read(a),
            None => None,
        };
        if let Some(b) = from_cart {
            return b;
        }

        if a <= 0x1FFF {
            let idx: usize = (((a & 0x1000) >> 12u16) as usize) * 4096 + ((a & 0x0FFF) as usize);
            self.table_pattern[idx]
        } else if a <= 0x3EFF {
            let idx = self.name_index(a);
            self.table_name[idx]
        } else {
            let idx = Self::palette_index(a);
            self.table_palette[idx] & (if self.mask & MASK_GRAYSCALE != 0 {
                0x30
            } else {
                0x3F
            })
        }
    }

    /// The mirrored nametable cell an address selects.
    fn name_index(&self, a: u16) -> (idx: usize)
        ensures
            idx == name_idx(mirror_of(self), a),
            idx < 2048,
    {
        proof {
            lemma_mask_bounds();
        }
        let ma = a & 0x0FFF;
        let off = (ma & 0x03FF) as usize;
        let mirror = match &self.cartridge {
            Some(c) => c.mirror,
            None => Mirror::Horizontal,
        };
        match mirror {
            Mirror::Vertical => {
                if ma < 0x0400 {
                    off
                } else if ma < 0x0800 {
                    1024 + off
                } else if ma < 0x0C00 {
                    off
                } else {
                    1024 + off
                }
            },
            Mirror::Horizontal => {
                if ma < 0x0800 {
                    off
                } else {
                    1024 + off
                }
            },
            Mirror::OnescreenLo => off,
            Mirror::OnescreenHi => 1024 + off,
        }
    }

    /// The palette RAM cell an address selects, after aliasing.
    fn palette_index(a: u16) -> (idx: usize)
        ensures
            idx == palette_idx(a),
            idx < 32,
    {
        proof {
            lemma_mask_bounds();
        }
        let b = a & 0x001F;
        if b == 0x10 {
            0
        } else if b == 0x14 {
            4
        } else if b == 0x18 {
            8
        } else if b == 0x1C {
            0xC
        } else {
            b as usize
        }
    }

    /// Write a byte into PPU address space.
    pub fn ppu_write(&mut self, address: u16, data: u8)
        requires
            old(self).wf(),
        ensures
            final(self).wf(),
            s_vram_write_effect(*old(self), *final(self), address, data),
            *final(self) == (PPU {
                cartridge: final(self).cartridge,
                table_pattern: final(self).table_pattern,
                table_name: final(self).table_name,
                table_palette: final(self).table_palette,
                ..*old(self)
            }),
    {
        proof {
            lemma_mask_bounds();
        }
        let a = address & 0x3FFF;

        let taken: bool = match &mut self.cartridge {
            Some(c) => c.ppu_write(a, data).is_some(),
            None => false,
        };
        if taken {
            return;
        }

        if a <= 0x1FFF {
            let idx: usize = (((a & 0x1000) >> 12u16) as usize) * 4096 + ((a & 0x0FFF) as usize);
            self.table_pattern[idx] = data;
        } else if a <= 0x3EFF {
            let idx = self.name_index(a);
            self.table_name[idx] = data;
        } else {
            let idx = Self::palette_index(a);
            self.table_palette[idx] = data;
        }
    }

    /// Read one of the eight CPU-facing registers (the caller masks the
    /// address into 0..=7). Reading the status register clears the VBlank
    /// bit and resets the address latch; reading the data register returns
    /// the buffered byte (or, in palette space, the fresh one) and steps
    /// the VRAM address.
    pub fn cpu_read(&mut self, address: u16) -> (r: u8)
        requires
            old(self).wf(),
            address <= 0x0007,
        ensures
            final(self).wf(),
            address == 0x0002 ==> r == old(self).status && *final(self) == (PPU {
                status: old(self).status & 0x7F,
                address_latch: 0,
                ..*old(self)
            }),
            address == 0x0007 ==> ({
                let v = old(self).vram_addr.value;
                let fresh = old(self).s_ppu_read(v);
                let inc: u16 = if old(self).control & CTRL_INC_MODE != 0 {
                    32u16
                } else {
                    1u16
                };
                &&& r == if v >= 0x3F00 {
                    fresh
                } else {
                    old(self).data_buffer
                }
                &&& *final(self) == (PPU {
                    data_buffer: fresh,
                    vram_addr: LoopyReg { value: wadd16(v, inc) },
                    ..*old(self)
                })
            }),
            address != 0x0002 && address != 0x0007 ==> r == 0 && *final(self) == *old(self),
    {
        if address == 2 {
            let d = self.status;
            self.status = self.status & 0x7F;
            self.address_latch = 0;
            d
        } else if address == 7 {
            let mut d = self.data_buffer;
            let v = self.vram_addr.get_data();
            let fresh = self.ppu_read(v);
            self.data_buffer = fresh;
            if v >= 0x3F00 {
                d = fresh;
            }
            let inc: u8 = if self.control & CTRL_INC_MODE != 0 {
                32
            } else {
                1
            };
            self.vram_addr.increment_data(inc);
            d
        } else {
            0
        }
    }

    /// Write one of the eight CPU-facing registers. Control updates copy
    /// the nametable selects into the temporary scroll register; the
    /// scroll and address registers fill in two halves steered by the
    /// address latch; a data write lands in VRAM and steps the address.
    pub fn cpu_write(&mut self, address: u16, data: u8)
        requires
            old(self).wf(),
            address <= 0x0007,
        ensures
            final(self).wf(),
            address == 0x0000 ==> ({
                let t2 = l_set_nty(
                    l_set_ntx(old(self).tram_addr.value, data & CTRL_NAMETBL_X != 0),
                    data & CTRL_NAMETBL_Y != 0,
                );
                *final(self) == (PPU {
                    control: data,
                    tram_addr: LoopyReg { value: t2 },
                    ..*old(self)
                })
            }),
            address == 0x0001 ==> *final(self) == (PPU { mask: data, ..*old(self) }),
            address == 0x0002 || address == 0x0003 || address == 0x0004 ==> *final(self) == *old(
                self,
            ),
            address == 0x0005 && old(self).address_latch == 0 ==> ({
                let t1 = l_set_coarse_x(old(self).tram_addr.value, data >> 3);
                *final(self) == (PPU {
                    fine_x: data & 0x07,
                    tram_addr: LoopyReg { value: t1 },
                    address_latch: 1,
                    ..*old(self)
                })
            }),
            address == 0x0005 && old(self).address_latch != 0 ==> ({
                let t2 = l_set_coarse_y(
                    l_set_fine_y(old(self).tram_addr.value, data & 0x07),
                    data >> 3,
                );
                *final(self) == (PPU {
                    tram_addr: LoopyReg { value: t2 },
                    address_latch: 0,
                    ..*old(self)
                })
            }),
            address == 0x0006 && old(self).address_latch == 0 ==> ({
                let t = (((data & 0x3F) as u16) << 8) | (old(self).tram_addr.value & 0x00FF);
                *final(self) == (PPU {
                    tram_addr: LoopyReg { value: t },
                    address_latch: 1,
                    ..*old(self)
                })
            }),
            address == 0x0006 && old(self).address_latch != 0 ==> ({
                let t = (old(self).tram_addr.value & 0xFF00) | (data as u16);
                *final(self) == (PPU {
                    tram_addr: LoopyReg { value: t },
                    vram_addr: LoopyReg { value: t },
                    address_latch: 0,
                    ..*old(self)
                })
            }),
            address == 0x0007 ==> ({
                let v = old(self).vram_addr.value;
                let inc: u16 = if old(self).control & CTRL_INC_MODE != 0 {
                    32u16
                } else {
                    1u16
                };
                &&& s_vram_write_effect(*old(self), *final(self), v, data)
                &&& *final(self) == (PPU {
                    cartridge: final(self).cartridge,
                    table_pattern: final(self).table_pattern,
                    table_name: final(self).table_name,
                    table_palette: final(self).table_palette,
                    vram_addr: LoopyReg { value: wadd16(v, inc) },
                    ..*old(self)
                })
            }),
    {
        proof {
            crate::bits::lemma_byte_bits();
        }
        if address == 0 {
            self.control = data;
            let ntx = data & CTRL_NAMETBL_X != 0;
            let nty = data & CTRL_NAMETBL_Y != 0;
            self.tram_addr.set_nametable_x(ntx);
            self.tram_addr.set_nametable_y(nty);
        } else if address == 1 {
            self.mask = data;
        } else if address == 5 {
            if self.address_latch == 0 {
                self.fine_x = data & 0x07;
                self.tram_addr.set_coarse_x(data >> 3u8);
                self.address_latch = 1;
            } else {
                self.tram_addr.set_fine_y(data & 0x07);
                self.tram_addr.set_coarse_y(data >> 3u8);
                self.address_latch = 0;
            }
        } else if address == 6 {
            if self.address_latch == 0 {
                let data_set = (((data & 0x3F) as u16) << 8u16) | (self.tram_addr.get_data()
                    & 0x00FF);
                self.tram_addr.set_data(data_set);
                self.address_latch = 1;
            } else {
                let data_set = (self.tram_addr.get_data() & 0xFF00) | data as u16;
                self.tram_addr.set_data(data_set);
                self.vram_addr = self.tram_addr;
                self.address_latch = 0;
            }
        } else if address == 7 {
            let v = self.vram_addr.get_data();
            self.ppu_write(v, data);
            let inc: u8 = if self.control & CTRL_INC_MODE != 0 {
                32
            } else {
                1
            };
            self.vram_addr.increment_data(inc);
        }
    }

    /// Whether background or sprite rendering is switched on; scroll
    /// updates run only then.
    pub open spec fn rendering_on(&self) -> bool {
        self.mask & MASK_REND_BG != 0 || self.mask & MASK_REND_SPR != 0
    }

    /// The scroll register after this dot: coarse X steps at the end of
    /// every tile fetch, the vertical step runs at dot 256, the horizontal
    /// reload at dot 257, and the vertical reload during dots 280 through
    /// 304 of the pre-render line; nothing moves while rendering is off.
    pub open spec fn s_vram_after_dot(&self) -> u16 {
        let sl = self.scanline;
        let cy = self.cycle;
        let t = self.tram_addr.value;
        let v0 = self.vram_addr.value;
        if !self.rendering_on() {
            v0
        } else {
            let v1 = if dot_in_fetch_band(sl, cy) && (cy - 1) % 8 == 7 {
                s_scroll_inc_x(v0)
            } else {
                v0
            };
            let v2 = if -1 <= sl < 240 && cy == 256 {
                s_scroll_inc_y(v1)
            } else {
                v1
            };
            let v3 = if -1 <= sl < 240 && cy == 257 {
                s_scroll_mv_x(v2, t)
            } else {
                v2
            };
            if sl == -1 && 280 <= cy < 305 {
                s_scroll_mv_y(v3, t)
            } else {
                v3
            }
        }
    }

    /// The four background shift registers after this dot: within the
    /// fetch band they step one pixel left while background rendering is
    /// on, and at the start of each tile fetch (and at dot 257) their low
    /// bytes reload from the fetched tile latches.
    pub open spec fn s_shifters_after_dot(&self) -> (u16, u16, u16, u16) {
        let sl = self.scanline;
        let cy = self.cycle;
        let shifted = if dot_in_fetch_band(sl, cy) && self.mask & MASK_REND_BG != 0 {
            (
                self.bg_shifter_pattern_lo << 1,
                self.bg_shifter_pattern_hi << 1,
                self.bg_shifter_attrib_lo << 1,
                self.bg_shifter_attrib_hi << 1,
            )
        } else {
            (
                self.bg_shifter_pattern_lo,
                self.bg_shifter_pattern_hi,
                self.bg_shifter_attrib_lo,
                self.bg_shifter_attrib_hi,
            )
        };
        if (dot_in_fetch_band(sl, cy) && (cy - 1) % 8 == 0) || (-1 <= sl < 240 && cy == 257) {
            (
                (shifted.0 & 0xFF00) | (self.bg_next_tile_lsb as u16),
                (shifted.1 & 0xFF00) | (self.bg_next_tile_msb as u16),
                (shifted.2 & 0xFF00) | (if self.bg_next_tile_attrib & 0b01 != 0 {
                    0xFFu16
                } else {
                    0u16
                }),
                (shifted.3 & 0xFF00) | (if self.bg_next_tile_attrib & 0b10 != 0 {
                    0xFFu16
                } else {
                    0u16
                }),
            )
        } else {
            shifted
        }
    }

    /// The attribute byte fetched for the next tile: read from the
    /// attribute footer of the current nametable, then shifted down to the
    /// two bits of the quadrant the scroll register points into.
    pub open spec fn s_attrib_fetch(&self) -> u8 {
        let v = self.vram_addr.value;
        let nty: u16 = if v & 0x800 != 0 {
            1u16
        } else {
            0u16
        };
        let ntx: u16 = if v & 0x400 != 0 {
            1u16
        } else {
            0u16
        };
        let cyv = ((v & 0x3E0) >> 5) as u8;
        let cxv = (v & 0x1F) as u8;
        let address = 0x23C0u16 | (nty << 11) | (ntx << 10) | (((cyv >> 2) as u16) << 3) | ((cxv
            >> 2) as u16);
        let a0 = self.s_ppu_read(address);
        let a1 = if cyv & 0x02 != 0 {
            a0 >> 4
        } else {
            a0
        };
        let a2 = if cxv & 0x02 != 0 {
            a1 >> 2
        } else {
            a1
        };
        a2 & 0x03
    }

    /// The pattern-row address of the next tile, low plane; the high plane
    /// sits eight bytes further.
    pub open spec fn s_pattern_fetch_addr(&self) -> u16 {
        let v = self.vram_addr.value;
        let pt: u16 = if self.control & CTRL_PTRN_BG != 0 {
            0x1000u16
        } else {
            0u16
        };
        (pt + ((self.bg_next_tile_id as u16) << 4) + ((((v & 0x7000) >> 12) as u8) as u16)) as u16
    }

    /// The four tile latches after this dot, following the eight-dot fetch
    /// cadence: tile id, attribute, pattern low plane, pattern high plane;
    /// dots 338 and 340 refetch the tile id.
    pub open spec fn s_latches_after_dot(&self) -> (u8, u8, u8, u8) {
        let sl = self.scanline;
        let cy = self.cycle;
        let unchanged = (
            self.bg_next_tile_id,
            self.bg_next_tile_attrib,
            self.bg_next_tile_lsb,
            self.bg_next_tile_msb,
        );
        if dot_in_fetch_band(sl, cy) {
            let ph = (cy - 1) % 8;
            if ph == 0 {
                (
                    self.s_ppu_read(0x2000 | (self.vram_addr.value & 0x0FFF)),
                    unchanged.1,
                    unchanged.2,
                    unchanged.3,
                )
            } else if ph == 2 {
                (unchanged.0, self.s_attrib_fetch(), unchanged.2, unchanged.3)
            } else if ph == 4 {
                (
                    unchanged.0,
                    unchanged.1,
                    self.s_ppu_read(self.s_pattern_fetch_addr()),
                    unchanged.3,
                )
            } else if ph == 6 {
                (
                    unchanged.0,
                    unchanged.1,
                    unchanged.2,
                    self.s_ppu_read((self.s_pattern_fetch_addr() + 8) as u16),
                )
            } else {
                unchanged
            }
        } else if -1 <= sl < 240 && (cy == 338 || cy == 340) {
            (
                self.s_ppu_read(0x2000 | (self.vram_addr.value & 0x0FFF)),
                unchanged.1,
                unchanged.2,
                unchanged.3,
            )
        } else {
            unchanged
        }
    }

    /// The palette entry the composition stage emits: the pixel and
    /// palette bits sampled at bit `0x8000 >> fine_x` of the four shift
    /// registers while background rendering is on (zero otherwise), looked
    /// up through palette RAM and masked to the system palette.
    pub open spec fn s_composed_pixel(&self) -> u8 {
        let bit_mux = 0x8000u16 >> (self.fine_x as u16);
        let bg_pixel: u8 = if self.mask & MASK_REND_BG != 0 {
            let p0: u8 = if (self.bg_shifter_pattern_lo & bit_mux) > 0 {
                1u8
            } else {
                0u8
            };
            let p1: u8 = if (self.bg_shifter_pattern_hi & bit_mux) > 0 {
                1u8
            } else {
                0u8
            };
            (p1 << 1) | p0
        } else {
            0u8
        };
        let bg_palette: u8 = if self.mask & MASK_REND_BG != 0 {
            let a0: u8 = if (self.bg_shifter_attrib_lo & bit_mux) > 0 {
                1u8
            } else {
                0u8
            };
            let a1: u8 = if (self.bg_shifter_attrib_hi & bit_mux) > 0 {
                1u8
            } else {
                0u8
            };
            (a1 << 1) | a0
        } else {
            0u8
        };
        self.s_ppu_read((0x3F00 + ((bg_palette as u16) << 2) + (bg_pixel as u16)) as u16) & 0x3F
    }

    /// Step coarse X, wrapping from 31 to 0 with a horizontal nametable
    /// toggle; a no-op while rendering is off.
    fn inc_scroll_x(&mut self)
        ensures
            *final(self) == (PPU { vram_addr: final(self).vram_addr, ..*old(self) }),
            !old(self).rendering_on() ==> final(self).vram_addr == old(self).vram_addr,
            old(self).rendering_on() ==> final(self).vram_addr.value == s_scroll_inc_x(
                old(self).vram_addr.value,
            ),
    {
        if !(self.mask & MASK_REND_BG != 0 || self.mask & MASK_REND_SPR != 0) {
            return;
        }

        if self.vram_addr.get_coarse_x() == 31 {
            self.vram_addr.set_coarse_x(0);
            let nt = !self.vram_addr.get_nametable_x();
            self.vram_addr.set_nametable_x(nt);
        } else {
            let cx = self.vram_addr.get_coarse_x();
            self.vram_addr.set_coarse_x(cx + 1);
        }
    }

    /// Step the vertical scroll: fine Y counts to 7, then coarse Y
    /// advances, wrapping from 29 with a vertical nametable toggle and
    /// from 31 without one; a no-op while rendering is off.
    fn inc_scroll_y(&mut self)
        ensures
            *final(self) == (PPU { vram_addr: final(self).vram_addr, ..*old(self) }),
            !old(self).rendering_on() ==> final(self).vram_addr == old(self).vram_addr,
            old(self).rendering_on() ==> final(self).vram_addr.value == s_scroll_inc_y(
                old(self).vram_addr.value,
            ),
    {
        if !(self.mask & MASK_REND_BG != 0 || self.mask & MASK_REND_SPR != 0) {
            return;
        }

        if self.vram_addr.get_fine_y() < 7 {
            let fy = self.vram_addr.get_fine_y();
            self.vram_addr.set_fine_y(fy + 1);
        } else {
            self.vram_addr.set_fine_y(0);
            let cy = self.vram_addr.get_coarse_y();

            if cy == 29 {
                self.vram_addr.set_coarse_y(0);
                let nt = !self.vram_addr.get_nametable_y();
                self.vram_addr.set_nametable_y(nt);
            } else if cy == 31 {
                self.vram_addr.set_coarse_y(0);
            } else {
                self.vram_addr.set_coarse_y(cy + 1);
            }
        }
    }

    /// Reload the horizontal scroll components of `v` from `t`; a no-op
    /// while rendering is off.
    fn mv_addr_x(&mut self)
        ensures
            *final(self) == (PPU { vram_addr: final(self).vram_addr, ..*old(self) }),
            !old(self).rendering_on() ==> final(self).vram_addr == old(self).vram_addr,
            old(self).rendering_on() ==> final(self).vram_addr.value == s_scroll_mv_x(
                old(self).vram_addr.value,
                old(self).tram_addr.value,
            ),
    {
        if !(self.mask & MASK_REND_BG != 0 || self.mask & MASK_REND_SPR != 0) {
            return;
        }

        let ntx = self.tram_addr.get_nametable_x();
        self.vram_addr.set_nametable_x(ntx);
        let cx = self.tram_addr.get_coarse_x();
        self.vram_addr.set_coarse_x(cx);
    }

    /// Reload the vertical scroll components of `v` from `t`; a no-op
    /// while rendering is off.
    fn mv_addr_y(&mut self)
        ensures
            *final(self) == (PPU { vram_addr: final(self).vram_addr, ..*old(self) }),
            !old(self).rendering_on() ==> final(self).vram_addr == old(self).vram_addr,
            old(self).rendering_on() ==> final(self).vram_addr.value == s_scroll_mv_y(
                old(self).vram_addr.value,
                old(self).tram_addr.value,
            ),
    {
        if !(self.mask & MASK_REND_BG != 0 || self.mask & MASK_REND_SPR != 0) {
            return;
        }

        let fy = self.tram_addr.get_fine_y();
        self.vram_addr.set_fine_y(fy);
        let nty = self.tram_addr.get_nametable_y();
        self.vram_addr.set_nametable_y(nty);
        let cy = self.tram_addr.get_coarse_y();
        self.vram_addr.set_coarse_y(cy);
    }

    /// Load the low bytes of the four shift registers from the fetched
    /// tile latches; the two attribute bits fan out over a full byte.
    fn load_bg_shifters(&mut self)
        ensures
            *final(self) == (PPU {
                bg_shifter_pattern_lo: (old(self).bg_shifter_pattern_lo & 0xFF00) | (old(
                    self,
                ).bg_next_tile_lsb as u16),
                bg_shifter_pattern_hi: (old(self).bg_shifter_pattern_hi & 0xFF00) | (old(
                    self,
                ).bg_next_tile_msb as u16),
                bg_shifter_attrib_lo: (old(self).bg_shifter_attrib_lo & 0xFF00) | (if (old(
                    self,
                ).bg_next_tile_attrib & 0b01) != 0 {
                    0xFFu16
                } else {
                    0u16
                }),
                bg_shifter_attrib_hi: (old(self).bg_shifter_attrib_hi & 0xFF00) | (if (old(
                    self,
                ).bg_next_tile_attrib & 0b10) != 0 {
                    0xFFu16
                } else {
                    0u16
                }),
                ..*old(self)
            }),
    {
        self.bg_shifter_pattern_lo = (self.bg_shifter_pattern_lo & 0xFF00) | (
        self.bg_next_tile_lsb as u16);
        self.bg_shifter_pattern_hi = (self.bg_shifter_pattern_hi & 0xFF00) | (
        self.bg_next_tile_msb as u16);

        self.bg_shifter_attrib_lo = (self.bg_shifter_attrib_lo & 0xFF00) | (if (
        self.bg_next_tile_attrib & 0b01) != 0 {
            0xFF
        } else {
            0x00
        });
        self.bg_shifter_attrib_hi = (self.bg_shifter_attrib_hi & 0xFF00) | (if (
        self.bg_next_tile_attrib & 0b10) != 0 {
            0xFF
        } else {
            0x00
        });
    }

    /// Step the four shift registers one pixel left; a no-op unless
    /// background rendering is on.
    fn update_shifters(&mut self)
        ensures
            old(self).mask & MASK_REND_BG == 0 ==> *final(self) == *old(self),
            old(self).mask & MASK_REND_BG != 0 ==> *final(self) == (PPU {
                bg_shifter_pattern_lo: old(self).bg_shifter_pattern_lo << 1,
                bg_shifter_pattern_hi: old(self).bg_shifter_pattern_hi << 1,
                bg_shifter_attrib_lo: old(self).bg_shifter_attrib_lo << 1,
                bg_shifter_attrib_hi: old(self).bg_shifter_attrib_hi << 1,
                ..*old(self)
            }),
    {
        if self.mask & MASK_REND_BG == 0 {
            return;
        }

        self.bg_shifter_pattern_lo = self.bg_shifter_pattern_lo << 1u16;
        self.bg_shifter_pattern_hi = self.bg_shifter_pattern_hi << 1u16;

        self.bg_shifter_attrib_lo = self.bg_shifter_attrib_lo << 1u16;
        self.bg_shifter_attrib_hi = self.bg_shifter_attrib_hi << 1u16;
    }

    /// Advance the unit by one dot. The dot and scanline counters follow
    /// [`s_next_dot`]; the VBlank flag clears at the top of the pre-render
    /// line and sets at dot 1 of scanline 241, raising the NMI line when
    /// enabled; `frame_complete` latches at the end of scanline 260; the
    /// memories and CPU-facing registers are untouched; the scroll
    /// register, shift registers and tile latches follow their per-dot
    /// functions; and the one framebuffer cell under the beam takes the
    /// composed palette entry.
    #[verifier::rlimit(100)]
    pub fn tick(&mut self)
        requires
            old(self).wf(),
        ensures
            final(self).wf(),
            *final(self) == (PPU {
                scanline: final(self).scanline,
                cycle: final(self).cycle,
                frame_complete: final(self).frame_complete,
                status: final(self).status,
                nmi: final(self).nmi,
                buf: final(self).buf,
                vram_addr: final(self).vram_addr,
                bg_next_tile_id: final(self).bg_next_tile_id,
                bg_next_tile_attrib: final(self).bg_next_tile_attrib,
                bg_next_tile_lsb: final(self).bg_next_tile_lsb,
                bg_next_tile_msb: final(self).bg_next_tile_msb,
                bg_shifter_pattern_lo: final(self).bg_shifter_pattern_lo,
                bg_shifter_pattern_hi: final(self).bg_shifter_pattern_hi,
                bg_shifter_attrib_lo: final(self).bg_shifter_attrib_lo,
                bg_shifter_attrib_hi: final(self).bg_shifter_attrib_hi,
                ..*old(self)
            }),
            (final(self).scanline, final(self).cycle) == s_next_dot(
                old(self).scanline,
                old(self).cycle,
            ),
            final(self).frame_complete == (old(self).frame_complete || (old(self).scanline == 260
                && old(self).cycle == 340)),
            final(self).status == if old(self).scanline == -1 && old(self).cycle == 0 {
                old(self).status & 0x7F
            } else if old(self).scanline == 241 && old(self).cycle == 1 {
                old(self).status | 0x80
            } else {
                old(self).status
            },
            final(self).nmi == (old(self).nmi || (old(self).scanline == 241 && old(self).cycle
                == 1 && old(self).control & CTRL_EN_NMI != 0)),
            final(self).vram_addr.value == old(self).s_vram_after_dot(),
            (
                final(self).bg_shifter_pattern_lo,
                final(self).bg_shifter_pattern_hi,
                final(self).bg_shifter_attrib_lo,
                final(self).bg_shifter_attrib_hi,
            ) == old(self).s_shifters_after_dot(),
            (
                final(self).bg_next_tile_id,
                final(self).bg_next_tile_attrib,
                final(self).bg_next_tile_lsb,
                final(self).bg_next_tile_msb,
            ) == old(self).s_latches_after_dot(),
            final(self).buf@.len() == old(self).buf@.len(),
            ({
                let x = old(self).cycle - 1;
                let y = old(self).scanline;
                if 0 <= x < 256 && 0 <= y < 240 {
                    final(self).buf@ == old(self).buf@.update(
                        y * 256 + x,
                        final(self).s_composed_pixel(),
                    )
                } else {
                    final(self).buf@ == old(self).buf@
                }
            }),
    {
        proof {
            lemma_mask_bounds();
            crate::bits::lemma_byte_bits();
            crate::bits::lemma_low_byte_reload();
        }

        if self.scanline >= -1 && self.scanline < 240 {
            if self.scanline == -1 && self.cycle == 0 {
                self.status = self.status & 0x7F;
            }

            if (self.cycle >= 2 && self.cycle < 258) || (self.cycle >= 321 && self.cycle < 338) {
                self.update_shifters();

                let phase = (self.cycle - 1) % 8;
                if phase == 0 {
                    self.load_bg_shifters();
                    let addr = 0x2000u16 | (self.vram_addr.get_data() & 0x0FFF);
                    self.bg_next_tile_id = self.ppu_read(addr);
                } else if phase == 2 {
                    let nty: u16 = if self.vram_addr.get_nametable_y() {
                        1
                    } else {
                        0
                    };
                    let ntx: u16 = if self.vram_addr.get_nametable_x() {
                        1
                    } else {
                        0
                    };
                    let cy = self.vram_addr.get_coarse_y();
                    let cx = self.vram_addr.get_coarse_x();
                    let address = 0x23C0u16 | (nty << 11u16) | (ntx << 10u16) | (((cy >> 2u8)
                        as u16) << 3u16) | ((cx >> 2u8) as u16);

                    self.bg_next_tile_attrib = self.ppu_read(address);

                    if cy & 0x02 > 0 {
                        self.bg_next_tile_attrib = self.bg_next_tile_attrib >> 4u8;
                    }
                    if cx & 0x02 > 0 {
                        self.bg_next_tile_attrib = self.bg_next_tile_attrib >> 2u8;
                    }
                    self.bg_next_tile_attrib = self.bg_next_tile_attrib & 0x03;
                } else if phase == 4 {
                    let pt: u16 = if self.control & CTRL_PTRN_BG != 0 {
                        0x1000
                    } else {
                        0
                    };
                    let addr = pt + ((self.bg_next_tile_id as u16) << 4u16) + (
                    self.vram_addr.get_fine_y() as u16);
                    self.bg_next_tile_lsb = self.ppu_read(addr);
                } else if phase == 6 {
                    let pt: u16 = if self.control & CTRL_PTRN_BG != 0 {
                        0x1000
                    } else {
                        0
                    };
                    let addr = pt + ((self.bg_next_tile_id as u16) << 4u16) + (
                    self.vram_addr.get_fine_y() as u16) + 8;
                    self.bg_next_tile_msb = self.ppu_read(addr);
                } else if phase == 7 {
                    self.inc_scroll_x();
                }
            }

            if self.cycle == 256 {
                self.inc_scroll_y();
            }

            if self.cycle == 257 {
                self.load_bg_shifters();
                self.mv_addr_x();
            }

            if self.cycle == 338 || self.cycle == 340 {
                let addr = 0x2000u16 | (self.vram_addr.get_data() & 0x0FFF);
                self.bg_next_tile_id = self.ppu_read(addr);
            }

            if self.scanline == -1 && self.cycle >= 280 && self.cycle < 305 {
                self.mv_addr_y();
            }
        }

        if self.scanline == 241 && self.cycle == 1 {
            self.status = self.status | 0x80;

            if self.control & CTRL_EN_NMI != 0 {
                self.nmi = true;
            }
        }

        let mut bg_pixel: u8 = 0;
        let mut bg_palette: u8 = 0;

        if self.mask & MASK_REND_BG != 0 {
            let bit_mux: u16 = 0x8000u16 >> (self.fine_x as u16);

            let p0: u8 = if (self.bg_shifter_pattern_lo & bit_mux) > 0 {
                1
            } else {
                0
            };
            let p1: u8 = if (self.bg_shifter_pattern_hi & bit_mux) > 0 {
                1
            } else {
                0
            };
            bg_pixel = (p1 << 1u8) | p0;

            let a0: u8 = if (self.bg_shifter_attrib_lo & bit_mux) > 0 {
                1
            } else {
                0
            };
            let a1: u8 = if (self.bg_shifter_attrib_hi & bit_mux) > 0 {
                1
            } else {
                0
            };
            bg_palette = (a1 << 1u8) | a0;
        }

        let x: i16 = self.cycle - 1;
        let y: i16 = self.scanline;
        if x >= 0 && x < 256 && y >= 0 && y < 240 {
            let color = self.get_color(bg_palette, bg_pixel);
            let idx: usize = (y as usize) * 256 + (x as usize);
            self.buf[idx] = color;
        }

        self.cycle = self.cycle + 1;
        if self.cycle >= 341 {
            self.cycle = 0;
            self.scanline = self.scanline + 1;

            if self.scanline >= 261 {
                self.scanline = -1;
                self.frame_complete = true;
            }
        }
    }

    /// The palette entry a palette/pixel pair selects, masked to the
    /// system palette's 64 entries.
    pub fn get_color(&self, palette: u8, pixel: u8) -> (r: u8)
        requires
            self.wf(),
        ensures
            r == (self.s_ppu_read(
                (0x3F00 + ((palette as u16) << 2) + (pixel as u16)) as u16,
            ) & 0x3F),
    {
        proof {
            crate::bits::lemma_byte_bits();
        }
        self.ppu_read(0x3F00 + ((palette as u16) << 2u16) + (pixel as u16)) & 0x3F
    }

    /// The colour of one dot of a rendered pattern table.
    pub open spec fn s_pattern_pixel(&self, i: bool, palette: u8, py: int, px: int) -> u8 {
        let base = (if i {
            0x1000int
        } else {
            0int
        }) + (py / 8) * 256 + (px / 8) * 16 + (py % 8);
        let sh = (7 - (px % 8)) as u8;
        let lsb = self.s_ppu_read(base as u16);
        let msb = self.s_ppu_read((base + 8) as u16);
        let pixel = (((lsb >> sh) & 1) + ((msb >> sh) & 1)) as u8;
        self.s_ppu_read((0x3F00 + ((palette as u16) << 2) + pixel) as u16) & 0x3F
    }

    /// Render one of the two pattern tables as a 128 by 128 sheet of
    /// palette entries, row-major.
    pub fn get_pattern_table(&self, i: bool, palette: u8) -> (r: Vec<u8>)
        requires
            self.wf(),
        ensures
            r@.len() == 16384,
            forall|py: int, px: int|
                0 <= py < 128 && 0 <= px < 128 ==> r@[py * 128 + px] == self.s_pattern_pixel(
                    i,
                    palette,
                    py,
                    px,
                ),
    {
        proof {
            crate::bits::lemma_byte_bits();
        }
        let mut r: Vec<u8> = Vec::new();
        let mut py: usize = 0;
        while py < 128
            invariant
                self.wf(),
                py <= 128,
                r@.len() == py * 128,
                forall|qy: int, qx: int|
                    0 <= qy < py && 0 <= qx < 128 ==> r@[qy * 128 + qx] == self.s_pattern_pixel(
                        i,
                        palette,
                        qy,
                        qx,
                    ),
            decreases 128 - py,
        {
            let mut px: usize = 0;
            while px < 128
                invariant
                    self.wf(),
                    py < 128,
                    px <= 128,
                    r@.len() == py * 128 + px,
                    forall|qy: int, qx: int|
                        0 <= qy < py && 0 <= qx < 128 ==> r@[qy * 128 + qx]
                            == self.s_pattern_pixel(i, palette, qy, qx),
                    forall|qx: int|
                        0 <= qx < px ==> r@[py * 128 + qx] == self.s_pattern_pixel(
                            i,
                            palette,
                            py as int,
                            qx,
                        ),
                decreases 128 - px,
            {
                proof {
                    crate::bits::lemma_byte_bits();
                }
                let base: u16 = (if i {
                    0x1000u16
                } else {
                    0u16
                }) + ((py / 8) as u16) * 256 + ((px / 8) as u16) * 16 + ((py % 8) as u16);
                let sh: u8 = (7 - (px % 8)) as u8;
                let lsb = self.ppu_read(base);
                let msb = self.ppu_read(base + 8);
                let pixel: u8 = ((lsb >> sh) & 1) + ((msb >> sh) & 1);
                let color = self.get_color(palette, pixel);
                r.push(color);
                px = px + 1;
            }
            py = py + 1;
        }
        r
    }
}


// ---------------------------------------------------------------------------
// Laws of the PPU address space
// ---------------------------------------------------------------------------

/// Law: writing one of the aliased sprite-backdrop palette cells (offsets
/// 0x10, 0x14, 0x18, 0x1C) lands in the matching background cell, and the
/// byte reads back through both addresses.
pub proof fn lemma_palette_aliasing(p1: PPU, p2: PPU, k: u16, b: u8)
    requires
        p1.wf(),
        k == 0x10 || k == 0x14 || k == 0x18 || k == 0x1C,
        s_vram_write_effect(p1, p2, (0x3F00 + k) as u16, b),
        p2.mask == p1.mask,
        p1.mask & MASK_GRAYSCALE == 0,
        b < 0x40,
        p2.cartridge == p1.cartridge,
    ensures
        p2.s_ppu_read((0x3F00 + (k - 0x10)) as u16) == b,
        p2.s_ppu_read((0x3F00 + k) as u16) == b,
{
    assert((((0x3F00 + k) as u16) & 0x3FFF) == (0x3F00 + k) as u16 && (((0x3F00 + k) as u16)
        & 0x001F) == k && (((0x3F00 + (k - 0x10)) as u16) & 0x3FFF) == (0x3F00 + (k - 0x10))
        as u16 && (((0x3F00 + (k - 0x10)) as u16) & 0x001F) == (k - 0x10) as u16)
        by (bit_vector)
        requires
            k == 0x10 || k == 0x14 || k == 0x18 || k == 0x1C,
    ;
    assert(b & 0x3F == b)
        by (bit_vector)
        requires
            b < 0x40,
    ;
}

/// Law: writing one of the background palette cells (offsets 0x00, 0x04,
/// 0x08, 0x0C) reads back through the aliased sprite-backdrop address.
pub proof fn lemma_palette_aliasing_reverse(p1: PPU, p2: PPU, j: u16, b: u8)
    requires
        p1.wf(),
        j == 0x00 || j == 0x04 || j == 0x08 || j == 0x0C,
        s_vram_write_effect(p1, p2, (0x3F00 + j) as u16, b),
        p2.mask == p1.mask,
        p1.mask & MASK_GRAYSCALE == 0,
        b < 0x40,
        p2.cartridge == p1.cartridge,
    ensures
        p2.s_ppu_read((0x3F00 + (j + 0x10)) as u16) == b,
        p2.s_ppu_read((0x3F00 + j) as u16) == b,
{
    assert((((0x3F00 + j) as u16) & 0x3FFF) == (0x3F00 + j) as u16 && (((0x3F00 + j) as u16)
        & 0x001F) == j && (((0x3F00 + (j + 0x10)) as u16) & 0x3FFF) == (0x3F00 + (j + 0x10))
        as u16 && (((0x3F00 + (j + 0x10)) as u16) & 0x001F) == (j + 0x10) as u16)
        by (bit_vector)
        requires
            j == 0x00 || j == 0x04 || j == 0x08 || j == 0x0C,
    ;
    assert(b & 0x3F == b)
        by (bit_vector)
        requires
            b < 0x40,
    ;
}

/// Law: under vertical mirroring, the nametable cells at `0x2000 + x` and
/// `0x2800 + x` are the same cell: a byte written through the one reads
/// back through both.
pub proof fn lemma_vertical_mirroring(p1: PPU, p2: PPU, x: u16, b: u8)
    requires
        p1.wf(),
        x < 0x400,
        mirror_of(&p1) is Vertical,
        s_vram_write_effect(p1, p2, (0x2000 + x) as u16, b),
    ensures
        p2.s_ppu_read((0x2800 + x) as u16) == b,
        p2.s_ppu_read((0x2000 + x) as u16) == b,
{
    assert((((0x2000 + x) as u16) & 0x3FFF) == (0x2000 + x) as u16 && (((0x2000 + x) as u16)
        & 0x0FFF) == x && (x & 0x03FF) == x && (((0x2800 + x) as u16) & 0x3FFF) == (0x2800 + x)
        as u16 && (((0x2800 + x) as u16) & 0x0FFF) == (0x800 + x) as u16 && (((0x800 + x) as u16)
        & 0x03FF) == x)
        by (bit_vector)
        requires
            x < 0x400,
    ;
}

/// Law: under horizontal mirroring, the nametable cells at `0x2000 + x`
/// and `0x2400 + x` are the same cell.
pub proof fn lemma_horizontal_mirroring(p1: PPU, p2: PPU, x: u16, b: u8)
    requires
        p1.wf(),
        x < 0x400,
        mirror_of(&p1) is Horizontal,
        s_vram_write_effect(p1, p2, (0x2000 + x) as u16, b),
    ensures
        p2.s_ppu_read((0x2400 + x) as u16) == b,
        p2.s_ppu_read((0x2000 + x) as u16) == b,
{
    assert((((0x2000 + x) as u16) & 0x3FFF) == (0x2000 + x) as u16 && (((0x2000 + x) as u16)
        & 0x0FFF) == x && (x & 0x03FF) == x && (((0x2400 + x) as u16) & 0x3FFF) == (0x2400 + x)
        as u16 && (((0x2400 + x) as u16) & 0x0FFF) == (0x400 + x) as u16 && (((0x400 + x) as u16)
        & 0x03FF) == x)
        by (bit_vector)
        requires
            x < 0x400,
    ;
}

} // verus!
