//! The cartridge: PRG and CHR byte arrays behind a mapper, a mirroring
//! mode, and the parser for the iNES container that fills them.

use vstd::prelude::*;

use crate::mapper::{
    s_mapper_cpu_map, s_mapper_ppu_map, s_mapper_ppu_write_map, INES_000, Mapper,
};

verus! {

/// Nametable mirroring arrangements.
#[derive(Clone, Copy, Debug, PartialEq, Eq, Structural)]
pub enum Mirror {
    Horizontal,
    Vertical,
    OnescreenLo,
    OnescreenHi,
}

/// Why a cartridge image was rejected.
#[derive(Clone, Copy, Debug, PartialEq, Eq, Structural)]
pub enum CartridgeError {
    /// The image ends before the header, or before the PRG and CHR data
    /// that the header promises.
    TooShort,
    /// The image does not open with the iNES magic bytes.
    BadMagic,
    /// The image names a mapper this core does not implement.
    UnsupportedMapper,
}

/// The sixteen-byte iNES header, split into its named fields.
#[allow(non_camel_case_types)]
#[derive(Clone, Copy, Debug)]
pub struct iNESHeader {
    pub name: [u8; 4],
    pub prog_rom_chunks: u8,
    pub char_rom_chunks: u8,
    pub mapper1: u8,
    pub mapper2: u8,
    pub prog_ram_size: u8,
    pub tv_system1: u8,
    pub tv_system2: u8,
    pub unused: [u8; 5],
}

impl iNESHeader {
    /// Split a raw sixteen-byte header into its fields.
    pub fn from_array(content: [u8; 16]) -> (h: iNESHeader)
        ensures
            h.name@ == seq![content@[0], content@[1], content@[2], content@[3]],
            h.prog_rom_chunks == content@[4],
            h.char_rom_chunks == content@[5],
            h.mapper1 == content@[6],
            h.mapper2 == content@[7],
            h.prog_ram_size == content@[8],
            h.tv_system1 == content@[9],
            h.tv_system2 == content@[10],
            h.unused@ == seq![
                content@[11],
                content@[12],
                content@[13],
                content@[14],
                content@[15],
            ],
    {
        iNESHeader {
            name: [content[0], content[1], content[2], content[3]],
            prog_rom_chunks: content[4],
            char_rom_chunks: content[5],
            mapper1: content[6],
            mapper2: content[7],
            prog_ram_size: content[8],
            tv_system1: content[9],
            tv_system2: content[10],
            unused: [content[11], content[12], content[13], content[14], content[15]],
        }
    }
}

/// A cartridge: its memories, its mirroring, and its mapper.
#[derive(Clone, Debug)]
pub struct Cartridge {
    pub mapper: Mapper,

    pub mapper_id: u8,
    pub prog_banks: u8,
    pub char_banks: u8,

    pub prog_mem: Vec<u8>,
    pub char_mem: Vec<u8>,

    pub mirror: Mirror,
}

/// Magic bytes opening an iNES image: "NES" and 0x1A.
pub open spec fn ines_magic_ok(b: Seq<u8>) -> bool {
    &&& b.len() >= 16
    &&& b[0] == 0x4Eu8
    &&& b[1] == 0x45u8
    &&& b[2] == 0x53u8
    &&& b[3] == 0x1Au8
}

/// The mapper number: high nibble of byte 7 over high nibble of byte 6.
pub open spec fn ines_mapper_id(b: Seq<u8>) -> u8 {
    ((b[7] >> 4) << 4) | (b[6] >> 4)
}

/// Where the PRG data starts: after the header and, when byte 6 flags one,
/// a 512-byte trainer.
pub open spec fn ines_data_offset(b: Seq<u8>) -> int {
    if b[6] & 0x04 != 0 {
        528int
    } else {
        16int
    }
}

/// The image length the header promises.
pub open spec fn ines_total_len(b: Seq<u8>) -> int {
    ines_data_offset(b) + b[4] * 16384 + b[5] * 8192
}

impl Cartridge {
    /// A well-formed cartridge: the memories have the sizes the bank counts
    /// promise (8 KiB of CHR RAM when there are no CHR banks) and the
    /// mapper carries the same bank counts.
    pub open spec fn wf(&self) -> bool {
        &&& self.prog_mem@.len() == self.prog_banks * 16384
        &&& self.char_mem@.len() == if self.char_banks == 0 {
            8192int
        } else {
            self.char_banks * 8192
        }
        &&& self.mapper == Mapper::Nrom(INES_000 {
            prog_banks: self.prog_banks,
            char_banks: self.char_banks,
        })
    }

    /// What a CPU read returns: the PRG byte behind the mapper's index, or
    /// nothing when the address is not the cartridge's or the index falls
    /// outside PRG memory.
    pub open spec fn s_cpu_read(&self, address: u16) -> Option<u8> {
        match s_mapper_cpu_map(self.mapper, address) {
            Some(idx) => if idx < self.prog_mem@.len() {
                Some(self.prog_mem@[idx as int])
            } else {
                None
            },
            None => None,
        }
    }

    /// What a PPU read returns, from CHR memory.
    pub open spec fn s_ppu_read(&self, address: u16) -> Option<u8> {
        match s_mapper_ppu_map(self.mapper, address) {
            Some(idx) => if idx < self.char_mem@.len() {
                Some(self.char_mem@[idx as int])
            } else {
                None
            },
            None => None,
        }
    }

    /// Read a byte on behalf of the CPU. On a well-formed cartridge with at
    /// least one PRG bank, every address from 0x8000 up answers.
    pub fn cpu_read(&self, address: u16) -> (r: Option<u8>)
        ensures
            r == self.s_cpu_read(address),
            self.wf() && self.prog_banks >= 1 && address >= 0x8000 ==> r is Some,
    {
        proof {
            crate::bits::lemma_mask_bounds();
        }
        if let Some(mapped_addr) = self.mapper.cpu_read(address) {
            if (mapped_addr as usize) < self.prog_mem.len() {
                return Some(self.prog_mem[mapped_addr as usize]);
            }
            return None;
        }

        None
    }

    /// Write a byte on behalf of the CPU; `Some` when the cartridge took
    /// it. The reference policy lets PRG writes land, since a program under
    /// test may rely on writable PRG.
    pub fn cpu_write(&mut self, address: u16, data: u8) -> (r: Option<()>)
        ensures
            match s_mapper_cpu_map(old(self).mapper, address) {
                Some(idx) => if idx < old(self).prog_mem@.len() {
                    &&& r is Some
                    &&& *final(self) == (Cartridge {
                        prog_mem: final(self).prog_mem,
                        ..*old(self)
                    })
                    &&& final(self).prog_mem@ == old(self).prog_mem@.update(idx as int, data)
                } else {
                    r is None && *final(self) == *old(self)
                },
                None => r is None && *final(self) == *old(self),
            },
            final(self).wf() == old(self).wf(),
    {
        if let Some(mapped_addr) = self.mapper.cpu_write(address) {
            if (mapped_addr as usize) < self.prog_mem.len() {
                self.prog_mem[mapped_addr as usize] = data;
                return Some(());
            }
            return None;
        }

        None
    }

    /// Read a byte on behalf of the PPU. On a well-formed cartridge every
    /// pattern-table address answers.
    pub fn ppu_read(&self, address: u16) -> (r: Option<u8>)
        ensures
            r == self.s_ppu_read(address),
            self.wf() && address <= 0x1FFF ==> r is Some,
    {
        if let Some(mapped_addr) = self.mapper.ppu_read(address) {
            if (mapped_addr as usize) < self.char_mem.len() {
                return Some(self.char_mem[mapped_addr as usize]);
            }
            return None;
        }

        None
    }

    /// Write a byte on behalf of the PPU; only CHR RAM takes it.
    pub fn ppu_write(&mut self, address: u16, data: u8) -> (r: Option<()>)
        ensures
            match s_mapper_ppu_write_map(old(self).mapper, address) {
                Some(idx) => if idx < old(self).char_mem@.len() {
                    &&& r is Some
                    &&& *final(self) == (Cartridge {
                        char_mem: final(self).char_mem,
                        ..*old(self)
                    })
                    &&& final(self).char_mem@ == old(self).char_mem@.update(idx as int, data)
                } else {
                    r is None && *final(self) == *old(self)
                },
                None => r is None && *final(self) == *old(self),
            },
            final(self).wf() == old(self).wf(),
    {
        if let Some(mapped_addr) = self.mapper.ppu_write(address) {
            if (mapped_addr as usize) < self.char_mem.len() {
                self.char_mem[mapped_addr as usize] = data;
                return Some(());
            }
            return None;
        }

        None
    }

    /// Parse an iNES image into a cartridge: magic, bank counts, mirroring
    /// bit, optional trainer, then the PRG and CHR payloads. An image that
    /// is too short for its own header is rejected, as are a wrong magic
    /// and a mapper outside the supported set.
    pub fn from_bytes(bytes: &Vec<u8>) -> (r: Result<Cartridge, CartridgeError>)
        ensures
            bytes@.len() < 16 ==> r == Result::<Cartridge, CartridgeError>::Err(
                CartridgeError::TooShort,
            ),
            bytes@.len() >= 16 && !ines_magic_ok(bytes@) ==> r == Result::<
                Cartridge,
                CartridgeError,
            >::Err(CartridgeError::BadMagic),
            ines_magic_ok(bytes@) && ines_mapper_id(bytes@) != 0 ==> r == Result::<
                Cartridge,
                CartridgeError,
            >::Err(CartridgeError::UnsupportedMapper),
            ines_magic_ok(bytes@) && ines_mapper_id(bytes@) == 0 && bytes@.len()
                < ines_total_len(bytes@) ==> r == Result::<Cartridge, CartridgeError>::Err(
                CartridgeError::TooShort,
            ),
            ines_magic_ok(bytes@) && ines_mapper_id(bytes@) == 0 && bytes@.len()
                >= ines_total_len(bytes@) ==> {
                &&& r is Ok
                &&& {
                    let c = r->Ok_0;
                    let off = ines_data_offset(bytes@);
                    &&& c.wf()
                    &&& c.mapper_id == 0
                    &&& c.prog_banks == bytes@[4]
                    &&& c.char_banks == bytes@[5]
                    &&& c.mirror == if bytes@[6] & 0x01 != 0 {
                        Mirror::Vertical
                    } else {
                        Mirror::Horizontal
                    }
                    &&& forall|j: int|
                        0 <= j < c.prog_mem@.len() ==> c.prog_mem@[j] == bytes@[off + j]
                    &&& c.char_banks != 0 ==> forall|j: int|
                        0 <= j < c.char_mem@.len() ==> c.char_mem@[j] == bytes@[
                            off + c.prog_banks * 16384 + j
                        ]
                    &&& c.char_banks == 0 ==> forall|j: int|
                        0 <= j < c.char_mem@.len() ==> c.char_mem@[j] == 0u8
                }
            },
    {
        if bytes.len() < 16 {
            return Err(CartridgeError::TooShort);
        }
        if !(bytes[0] == 0x4E && bytes[1] == 0x45 && bytes[2] == 0x53 && bytes[3] == 0x1A) {
            return Err(CartridgeError::BadMagic);
        }

        let prog_banks = bytes[4];
        let char_banks = bytes[5];
        let flags1 = bytes[6];
        let flags2 = bytes[7];
        let mapper_id = ((flags2 >> 4u8) << 4u8) | (flags1 >> 4u8);
        if mapper_id != 0 {
            return Err(CartridgeError::UnsupportedMapper);
        }

        let offset: usize = if flags1 & 0x04 != 0 {
            16 + 512
        } else {
            16
        };
        let prg_len: usize = prog_banks as usize * 16384;
        let chr_len: usize = char_banks as usize * 8192;
        if bytes.len() < offset + prg_len + chr_len {
            return Err(CartridgeError::TooShort);
        }

        let mut prog_mem: Vec<u8> = Vec::new();
        let mut i: usize = 0;
        while i < prg_len
            invariant
                i <= prg_len,
                prog_mem@.len() == i,
                offset <= 528,
                prg_len <= 0x3FC000,
                offset + prg_len + chr_len <= bytes@.len(),
                forall|j: int| 0 <= j < i ==> prog_mem@[j] == bytes@[offset + j],
            decreases prg_len - i,
        {
            prog_mem.push(bytes[offset + i]);
            i = i + 1;
        }

        let chr_start = offset + prg_len;
        let mut char_mem: Vec<u8> = Vec::new();
        if char_banks == 0 {
            let mut k: usize = 0;
            while k < 8192
                invariant
                    k <= 8192,
                    char_mem@.len() == k,
                    forall|j: int| 0 <= j < k ==> char_mem@[j] == 0u8,
                decreases 8192 - k,
            {
                char_mem.push(0);
                k = k + 1;
            }
        } else {
            let mut k: usize = 0;
            while k < chr_len
                invariant
                    k <= chr_len,
                    char_mem@.len() == k,
                    chr_start <= 0x3FC210,
                    chr_len <= 0x1FE000,
                    chr_start + chr_len <= bytes@.len(),
                    forall|j: int| 0 <= j < k ==> char_mem@[j] == bytes@[chr_start + j],
                decreases chr_len - k,
            {
                char_mem.push(bytes[chr_start + k]);
                k = k + 1;
            }
        }

        let mirror = if flags1 & 0x01 != 0 {
            Mirror::Vertical
        } else {
            Mirror::Horizontal
        };

        Ok(Cartridge {
            mapper: Mapper::Nrom(INES_000::new(prog_banks, char_banks)),
            mapper_id,
            prog_banks,
            char_banks,
            prog_mem,
            char_mem,
            mirror,
        })
    }
}

} // verus!
