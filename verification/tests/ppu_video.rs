use nes_core::cartridge::Cartridge;
use nes_core::ppu::{CTRL_EN_NMI, LoopyReg, PPU, STAT_VBLANK};

fn cart_with_mirroring(flags1: u8) -> Cartridge {
    let mut v = vec![0x4E, 0x45, 0x53, 0x1A, 1, 1, flags1, 0];
    v.extend_from_slice(&[0u8; 8]);
    v.extend_from_slice(&vec![0u8; 16384]);
    v.extend_from_slice(&vec![0u8; 8192]);
    Cartridge::from_bytes(&v).unwrap()
}

#[test]
fn frame_completes_exactly_once_in_one_frame_of_dots() {
    let mut ppu = PPU::new();
    ppu.scanline = -1;
    ppu.cycle = 0;

    let mut transitions: u32 = 0;
    for _ in 0..89342u32 {
        ppu.tick();
        if ppu.frame_complete {
            transitions += 1;
            ppu.frame_complete = false;
        }
    }

    assert_eq!(transitions, 1);
}

#[test]
fn vblank_first_observable_at_scanline_241_cycle_1() {
    let mut ppu = PPU::new();
    ppu.scanline = -1;
    ppu.cycle = 0;

    while !(ppu.scanline == 241 && ppu.cycle == 1) {
        ppu.tick();
        assert!(ppu.status & STAT_VBLANK == 0);
    }
    ppu.tick();

    assert!(ppu.status & STAT_VBLANK != 0);

    let first = ppu.cpu_read(2);
    assert!(first & STAT_VBLANK != 0);
    let second = ppu.cpu_read(2);
    assert!(second & STAT_VBLANK == 0);
}

#[test]
fn nmi_raised_exactly_once_per_frame_when_enabled() {
    let mut ppu = PPU::new();
    ppu.cpu_write(0, CTRL_EN_NMI);
    ppu.address_latch = 1;

    while !(ppu.scanline == 241 && ppu.cycle == 1) {
        ppu.tick();
    }
    assert!(!ppu.nmi);
    ppu.tick();
    assert!(ppu.nmi);

    ppu.nmi = false;
    for _ in 0..2000u32 {
        ppu.tick();
        assert!(!ppu.nmi);
    }

    let first = ppu.cpu_read(2);
    assert!(first & STAT_VBLANK != 0);
    assert_eq!(ppu.address_latch, 0);
    let second = ppu.cpu_read(2);
    assert!(second & STAT_VBLANK == 0);
}

#[test]
fn ppuaddr_ppudata_write_then_buffered_readback() {
    let mut ppu = PPU::new();

    ppu.cpu_write(6, 0x21);
    ppu.cpu_write(6, 0x08);
    assert_eq!(ppu.vram_addr.value, 0x2108);
    ppu.cpu_write(7, 0xAB);

    ppu.cpu_write(6, 0x21);
    ppu.cpu_write(6, 0x08);
    let _dummy = ppu.cpu_read(7);
    let got = ppu.cpu_read(7);

    assert_eq!(got, 0xAB);
}

#[test]
fn palette_writes_alias_the_background_entries() {
    let mut ppu = PPU::new();
    for k in [0x10u16, 0x14, 0x18, 0x1C] {
        let b = (k as u8) ^ 0x2A;
        ppu.ppu_write(0x3F00 + k, b & 0x3F);
        assert_eq!(ppu.ppu_read(0x3F00 + (k - 0x10)), b & 0x3F);
        assert_eq!(ppu.ppu_read(0x3F00 + k), b & 0x3F);

        ppu.ppu_write(0x3F00 + (k - 0x10), 0x15);
        assert_eq!(ppu.ppu_read(0x3F00 + k), 0x15);
    }
}

#[test]
fn data_register_increments_by_32_in_column_mode() {
    let mut ppu = PPU::new();
    ppu.cpu_write(0, 0x04);
    ppu.cpu_write(6, 0x20);
    ppu.cpu_write(6, 0x00);
    ppu.cpu_write(7, 0x11);
    assert_eq!(ppu.vram_addr.value, 0x2020);
}

#[test]
fn scroll_register_fills_in_two_writes() {
    let mut ppu = PPU::new();
    ppu.cpu_write(5, 0b01111_101);
    assert_eq!(ppu.fine_x, 0b101);
    assert_eq!(ppu.tram_addr.get_coarse_x(), 0b01111);
    ppu.cpu_write(5, 0b00011_010);
    assert_eq!(ppu.tram_addr.get_fine_y(), 0b010);
    assert_eq!(ppu.tram_addr.get_coarse_y(), 0b00011);
    assert_eq!(ppu.address_latch, 0);
}

#[test]
fn loopy_register_fields_round_trip() {
    let mut r = LoopyReg { value: 0 };
    r.set_coarse_x(21);
    r.set_coarse_y(17);
    r.set_nametable_x(true);
    r.set_nametable_y(true);
    r.set_fine_y(5);
    assert_eq!(r.get_coarse_x(), 21);
    assert_eq!(r.get_coarse_y(), 17);
    assert!(r.get_nametable_x());
    assert!(r.get_nametable_y());
    assert_eq!(r.get_fine_y(), 5);
    r.set_nametable_x(false);
    assert!(!r.get_nametable_x());
    assert_eq!(r.get_coarse_x(), 21);
    r.increment_data(1);
    assert_eq!(r.get_coarse_x(), 22);
}

#[test]
fn framebuffer_carries_palette_entries() {
    let mut ppu = PPU::new();
    assert_eq!(ppu.buf.len(), 240 * 256);
    assert_eq!(ppu.buf[0], 0x0F);
    ppu.scanline = 10;
    ppu.cycle = 21;
    ppu.ppu_write(0x3F00, 0x2C);
    ppu.tick();
    assert_eq!(ppu.buf[10 * 256 + 20], 0x2C);
}

#[test]
fn vertical_mirroring_joins_the_upper_and_lower_nametables() {
    let mut ppu = PPU::new();
    ppu.attach_cart(cart_with_mirroring(0x01));
    for x in [0u16, 5, 0x3FF] {
        ppu.ppu_write(0x2000 + x, 0x31);
        assert_eq!(ppu.ppu_read(0x2800 + x), 0x31);
        ppu.ppu_write(0x2800 + x, 0x42);
        assert_eq!(ppu.ppu_read(0x2000 + x), 0x42);
        ppu.ppu_write(0x2400 + x, 0x53);
        assert_eq!(ppu.ppu_read(0x2C00 + x), 0x53);
    }
}

#[test]
fn horizontal_mirroring_joins_the_side_by_side_nametables() {
    let mut ppu = PPU::new();
    ppu.attach_cart(cart_with_mirroring(0x00));
    for x in [0u16, 5, 0x3FF] {
        ppu.ppu_write(0x2000 + x, 0x31);
        assert_eq!(ppu.ppu_read(0x2400 + x), 0x31);
        ppu.ppu_write(0x2800 + x, 0x42);
        assert_eq!(ppu.ppu_read(0x2C00 + x), 0x42);
    }
}
