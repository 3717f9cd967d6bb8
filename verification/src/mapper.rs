//! Cartridge mappers: translators from a logical bus address to an index
//! into the cartridge's PRG or CHR memory. Only NROM, iNES mapper number
//! zero, exists here; further mappers would join the [`Mapper`] enum.

use vstd::prelude::*;

verus! {

/// Where a CPU access lands in PRG memory under NROM: addresses from
/// 0x8000 up are mirrored over one or two 16 KiB banks, everything below is
/// not the cartridge's.
pub open spec fn s_nrom_cpu_map(prog_banks: u8, address: u16) -> Option<u16> {
    if address >= 0x8000 {
        Some(address & (if prog_banks > 1 { 0x7FFFu16 } else { 0x3FFFu16 }))
    } else {
        None
    }
}

/// Where a PPU read lands in CHR memory under NROM: the pattern-table
/// region maps through unchanged.
pub open spec fn s_nrom_ppu_map(address: u16) -> Option<u16> {
    if address <= 0x1FFF {
        Some(address)
    } else {
        None
    }
}

/// Where a PPU write lands under NROM: only a cartridge with CHR RAM, that
/// is with no CHR ROM banks, accepts writes to the pattern-table region.
pub open spec fn s_nrom_ppu_write_map(char_banks: u8, address: u16) -> Option<u16> {
    if address <= 0x1FFF && char_banks == 0 {
        Some(address)
    } else {
        None
    }
}

/// The NROM mapper: direct mirroring, no banking state.
#[allow(non_camel_case_types)]
#[derive(Clone, Copy, Debug, PartialEq, Eq, Structural)]
pub struct INES_000 {
    pub prog_banks: u8,
    pub char_banks: u8,
}

impl INES_000 {
    /// An NROM mapper for a cartridge with the given bank counts.
    pub fn new(prog_banks: u8, char_banks: u8) -> (m: INES_000)
        ensures
            m.prog_banks == prog_banks,
            m.char_banks == char_banks,
    {
        INES_000 { prog_banks, char_banks }
    }

    /// The number of 16 KiB PRG banks.
    pub fn get_prog_banks(&self) -> (r: u8)
        ensures
            r == self.prog_banks,
    {
        self.prog_banks
    }

    /// The number of 8 KiB CHR banks; zero means CHR RAM.
    pub fn get_char_banks(&self) -> (r: u8)
        ensures
            r == self.char_banks,
    {
        self.char_banks
    }

    /// Translate a CPU read address to a PRG index.
    pub fn cpu_read(&self, address: u16) -> (r: Option<u16>)
        ensures
            r == s_nrom_cpu_map(self.prog_banks, address),
    {
        if address >= 0x8000 {
            return Some(address & (if self.prog_banks > 1 {
                0x7FFF
            } else {
                0x3FFF
            }));
        }

        None
    }

    /// Translate a CPU write address to a PRG index; NROM decodes writes
    /// exactly as reads.
    pub fn cpu_write(&self, address: u16) -> (r: Option<u16>)
        ensures
            r == s_nrom_cpu_map(self.prog_banks, address),
    {
        self.cpu_read(address)
    }

    /// Translate a PPU read address to a CHR index.
    pub fn ppu_read(&self, address: u16) -> (r: Option<u16>)
        ensures
            r == s_nrom_ppu_map(address),
    {
        if address <= 0x1FFF {
            return Some(address);
        }

        None
    }

    /// Translate a PPU write address to a CHR index; only CHR RAM accepts
    /// the write.
    pub fn ppu_write(&self, address: u16) -> (r: Option<u16>)
        ensures
            r == s_nrom_ppu_write_map(self.char_banks, address),
    {
        if address <= 0x1FFF && self.char_banks == 0 {
            return Some(address);
        }

        None
    }
}

/// The mapper attached to a cartridge. The bus never inspects the variant;
/// it only asks for address translations.
#[derive(Clone, Copy, Debug, PartialEq, Eq, Structural)]
pub enum Mapper {
    Nrom(INES_000),
}

/// The CPU-side translation of the attached mapper.
pub open spec fn s_mapper_cpu_map(m: Mapper, address: u16) -> Option<u16> {
    match m {
        Mapper::Nrom(n) => s_nrom_cpu_map(n.prog_banks, address),
    }
}

/// The PPU-side read translation of the attached mapper.
pub open spec fn s_mapper_ppu_map(m: Mapper, address: u16) -> Option<u16> {
    match m {
        Mapper::Nrom(n) => s_nrom_ppu_map(address),
    }
}

/// The PPU-side write translation of the attached mapper.
pub open spec fn s_mapper_ppu_write_map(m: Mapper, address: u16) -> Option<u16> {
    match m {
        Mapper::Nrom(n) => s_nrom_ppu_write_map(n.char_banks, address),
    }
}

impl Mapper {
    /// Translate a CPU read address.
    pub fn cpu_read(&self, address: u16) -> (r: Option<u16>)
        ensures
            r == s_mapper_cpu_map(*self, address),
    {
        match self {
            Mapper::Nrom(n) => n.cpu_read(address),
        }
    }

    /// Translate a CPU write address.
    pub fn cpu_write(&self, address: u16) -> (r: Option<u16>)
        ensures
            r == s_mapper_cpu_map(*self, address),
    {
        match self {
            Mapper::Nrom(n) => n.cpu_write(address),
        }
    }

    /// Translate a PPU read address.
    pub fn ppu_read(&self, address: u16) -> (r: Option<u16>)
        ensures
            r == s_mapper_ppu_map(*self, address),
    {
        match self {
            Mapper::Nrom(n) => n.ppu_read(address),
        }
    }

    /// Translate a PPU write address.
    pub fn ppu_write(&self, address: u16) -> (r: Option<u16>)
        ensures
            r == s_mapper_ppu_write_map(*self, address),
    {
        match self {
            Mapper::Nrom(n) => n.ppu_write(address),
        }
    }
}

} // verus!
