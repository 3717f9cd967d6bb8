use nes_core::cartridge::{Cartridge, CartridgeError, Mirror, iNESHeader};

fn image(prg_banks: u8, chr_banks: u8, flags1: u8, flags2: u8) -> Vec<u8> {
    let mut v = vec![0x4E, 0x45, 0x53, 0x1A, prg_banks, chr_banks, flags1, flags2];
    v.extend_from_slice(&[0u8; 8]);
    if flags1 & 0x04 != 0 {
        v.extend_from_slice(&vec![0xEE; 512]);
    }
    for i in 0..(prg_banks as usize * 16384) {
        v.push((i % 251) as u8);
    }
    for i in 0..(chr_banks as usize * 8192) {
        v.push((i % 241) as u8);
    }
    v
}

#[test]
fn short_image_is_rejected() {
    let v = vec![0x4E, 0x45, 0x53];
    assert_eq!(Cartridge::from_bytes(&v).unwrap_err(), CartridgeError::TooShort);
}

#[test]
fn image_shorter_than_header_promises_is_rejected() {
    let mut v = image(1, 1, 0, 0);
    v.truncate(2000);
    assert_eq!(Cartridge::from_bytes(&v).unwrap_err(), CartridgeError::TooShort);
}

#[test]
fn wrong_magic_is_rejected() {
    let mut v = image(1, 1, 0, 0);
    v[3] = 0x00;
    assert_eq!(Cartridge::from_bytes(&v).unwrap_err(), CartridgeError::BadMagic);
}

#[test]
fn unsupported_mapper_is_rejected() {
    let v = image(1, 1, 0x10, 0);
    assert_eq!(Cartridge::from_bytes(&v).unwrap_err(), CartridgeError::UnsupportedMapper);
}

#[test]
fn nrom_image_parses_with_vertical_mirroring() {
    let v = image(2, 1, 0x01, 0);
    let c = Cartridge::from_bytes(&v).unwrap();
    assert_eq!(c.mapper_id, 0);
    assert_eq!(c.prog_banks, 2);
    assert_eq!(c.char_banks, 1);
    assert_eq!(c.mirror, Mirror::Vertical);
    assert_eq!(c.prog_mem.len(), 2 * 16384);
    assert_eq!(c.char_mem.len(), 8192);
    assert_eq!(c.prog_mem[0], 0);
    assert_eq!(c.prog_mem[300], (300 % 251) as u8);
}

#[test]
fn trainer_is_skipped() {
    let v = image(1, 1, 0x05, 0);
    let c = Cartridge::from_bytes(&v).unwrap();
    assert_eq!(c.prog_mem[0], 0);
    assert_eq!(c.prog_mem[1], 1);
}

#[test]
fn single_bank_prg_mirrors_over_the_upper_half() {
    let v = image(1, 1, 0, 0);
    let c = Cartridge::from_bytes(&v).unwrap();
    assert_eq!(c.cpu_read(0x8000), c.cpu_read(0xC000));
    assert_eq!(c.cpu_read(0x8005).unwrap(), 5);
    assert_eq!(c.cpu_read(0x7FFF), None);
}

#[test]
fn two_bank_prg_does_not_mirror() {
    let v = image(2, 1, 0, 0);
    let mut c = Cartridge::from_bytes(&v).unwrap();
    assert_eq!(c.cpu_read(0x8000).unwrap(), 0);
    assert_eq!(c.cpu_read(0xC000).unwrap(), (16384 % 251) as u8);
    assert!(c.cpu_write(0x8000, 0x77).is_some());
    assert_eq!(c.cpu_read(0x8000).unwrap(), 0x77);
}

#[test]
fn chr_rom_refuses_writes_but_chr_ram_accepts_them() {
    let v = image(1, 1, 0, 0);
    let mut c = Cartridge::from_bytes(&v).unwrap();
    assert!(c.ppu_write(0x0000, 0x55).is_none());

    let v = image(1, 0, 0, 0);
    let mut c = Cartridge::from_bytes(&v).unwrap();
    assert_eq!(c.char_mem.len(), 8192);
    assert!(c.ppu_write(0x0123, 0x55).is_some());
    assert_eq!(c.ppu_read(0x0123).unwrap(), 0x55);
}

#[test]
fn header_splits_into_named_fields() {
    let h = iNESHeader::from_array([
        0x4E, 0x45, 0x53, 0x1A, 2, 1, 0x01, 0x00, 0, 0, 0, 7, 8, 9, 10, 11,
    ]);
    assert_eq!(h.name, [0x4E, 0x45, 0x53, 0x1A]);
    assert_eq!(h.prog_rom_chunks, 2);
    assert_eq!(h.char_rom_chunks, 1);
    assert_eq!(h.mapper1, 0x01);
    assert_eq!(h.unused, [7, 8, 9, 10, 11]);
}
