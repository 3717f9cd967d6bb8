use nes_core::cartridge::Cartridge;
use nes_core::nes::NES;

fn rom_with_program(program: &[u8]) -> Cartridge {
    let mut v = vec![0x4E, 0x45, 0x53, 0x1A, 1, 1, 0, 0];
    v.extend_from_slice(&[0u8; 8]);
    let mut prg = vec![0u8; 16384];
    prg[..program.len()].copy_from_slice(program);
    prg[0x3FFC] = 0x00;
    prg[0x3FFD] = 0x80;
    v.extend_from_slice(&prg);
    v.extend_from_slice(&vec![0u8; 8192]);
    Cartridge::from_bytes(&v).unwrap()
}

#[test]
fn bus_runs_a_program_out_of_the_cartridge() {
    // LDA #$42; STA $0005; JMP $8005
    let cart = rom_with_program(&[0xA9, 0x42, 0x85, 0x05, 0x4C, 0x05, 0x80]);
    let mut nes = NES::new();
    nes.attach_cart(cart);
    nes.reset();

    for _ in 0..300u32 {
        nes.tick();
    }

    assert_eq!(nes.data.mem.data[0x0005], 0x42);
}

#[test]
fn work_ram_is_mirrored_across_the_low_pages() {
    // LDA #$07; STA $0805; JMP $8005
    let cart = rom_with_program(&[0xA9, 0x07, 0x8D, 0x05, 0x08, 0x4C, 0x05, 0x80]);
    let mut nes = NES::new();
    nes.attach_cart(cart);
    nes.reset();

    for _ in 0..300u32 {
        nes.tick();
    }

    assert_eq!(nes.data.mem.data[0x0005], 0x07);
}

#[test]
fn reset_loads_the_vector_through_the_bus() {
    let cart = rom_with_program(&[0x4C, 0x00, 0x80]);
    let mut nes = NES::new();
    nes.attach_cart(cart);
    nes.reset();

    for _ in 0..100u32 {
        nes.tick();
        if nes.cpu_complete() {
            break;
        }
    }

    assert_eq!(nes.get_pc(), 0x8000);
    assert_eq!(nes.program_counter(), 0x8000);
}

#[test]
fn ppu_nmi_pulse_is_consumed_into_a_cpu_request() {
    let cart = rom_with_program(&[0x4C, 0x00, 0x80]);
    let mut nes = NES::new();
    nes.attach_cart(cart);
    nes.reset();
    nes.ppu.nmi = true;

    for _ in 0..3u32 {
        nes.tick();
        if !nes.ppu.nmi {
            break;
        }
    }

    assert!(!nes.ppu.nmi);
    assert!(nes.cpu.nmi_pending);
}

#[test]
fn nmi_fires_after_enabling_it_through_the_register_window() {
    // LDA #$80; STA $2000; JMP $8005 -- switch VBlank NMIs on, then spin.
    let cart = rom_with_program(&[0xA9, 0x80, 0x8D, 0x00, 0x20, 0x4C, 0x05, 0x80]);
    let mut nes = NES::new();
    nes.attach_cart(cart);
    nes.reset();

    let mut delivered = false;
    for _ in 0..(3 * 89342u32) {
        nes.tick();
        if nes.cpu.nmi_pending {
            delivered = true;
            break;
        }
    }

    assert!(delivered);
}

#[test]
fn pattern_table_sheet_has_one_entry_per_dot() {
    let cart = rom_with_program(&[0x4C, 0x00, 0x80]);
    let mut nes = NES::new();
    nes.attach_cart(cart);
    let sheet = nes.ppu.get_pattern_table(false, 0);
    assert_eq!(sheet.len(), 128 * 128);
    for e in &sheet {
        assert!(*e < 0x40);
    }
}
