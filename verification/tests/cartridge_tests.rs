//! Tests for iNES parsing and the five mappers.

use nesium::cartridge::{Cartridge, CartridgeError, Mapper, Mirroring};

/// Builds an iNES image: `prg` 16 KiB banks of PRG filled with the bank
/// number, `chr` 8 KiB banks of CHR filled with the bank number plus 0x40,
/// and the given flag bytes.
fn make_rom(prg: u8, chr: u8, flags6: u8, flags7: u8) -> Vec<u8> {
    let mut data = vec![0x4E, 0x45, 0x53, 0x1A, prg, chr, flags6, flags7];
    data.resize(16, 0);
    for bank in 0..prg {
        for _ in 0..0x4000 {
            data.push(bank);
        }
    }
    for bank in 0..chr {
        for _ in 0..0x2000 {
            data.push(bank + 0x40);
        }
    }
    data
}

#[test]
fn load_rejects_short_image() {
    let data = vec![0x4E, 0x45, 0x53];
    assert!(matches!(Cartridge::load(&data), Err(CartridgeError::InvalidHeader)));
}

#[test]
fn load_rejects_bad_magic() {
    let mut data = make_rom(1, 1, 0, 0);
    data[0] = 0x4D;
    assert!(matches!(Cartridge::load(&data), Err(CartridgeError::InvalidHeader)));
}

#[test]
fn load_rejects_truncated_body() {
    let mut data = make_rom(2, 1, 0, 0);
    data.truncate(data.len() - 1);
    assert!(matches!(Cartridge::load(&data), Err(CartridgeError::InvalidHeader)));
}

#[test]
fn load_rejects_unsupported_mapper() {
    // Mapper 5 = high nibble of flags 6.
    let data = make_rom(1, 1, 0x50, 0);
    assert!(matches!(Cartridge::load(&data), Err(CartridgeError::UnsupportedMapper(5))));
}

#[test]
fn load_decodes_header_fields() {
    // Vertical mirroring (bit 0) and battery (bit 1).
    let data = make_rom(2, 1, 0x03, 0);
    let cart = Cartridge::load(&data).unwrap();
    assert_eq!(cart.mapper_id, 0);
    assert!(cart.has_ram);
    assert_eq!(cart.mirroring, Mirroring::Vertical);
    assert_eq!(cart.prg_rom.len(), 0x8000);
    assert_eq!(cart.chr_rom.len(), 0x2000);
    assert_eq!(cart.prg_rom[0], 0);
    assert_eq!(cart.prg_rom[0x4000], 1);
    assert_eq!(cart.chr_rom[0], 0x40);
}

#[test]
fn load_four_screen_overrides_mirroring() {
    let data = make_rom(1, 1, 0x09, 0);
    let cart = Cartridge::load(&data).unwrap();
    assert_eq!(cart.mirroring, Mirroring::FourScreen);
}

#[test]
fn load_without_chr_allocates_chr_ram() {
    let data = make_rom(1, 0, 0, 0);
    let cart = Cartridge::load(&data).unwrap();
    assert_eq!(cart.chr_rom.len(), 0x2000);
    assert!(cart.chr_rom.iter().all(|&b| b == 0));
}

#[test]
fn nrom_16k_image_mirrors_upper_window() {
    let mut data = make_rom(1, 1, 0, 0);
    data[16] = 0xAB;
    let cart = Cartridge::load(&data).unwrap();
    assert_eq!(cart.cpu_read(0x8000), 0xAB);
    assert_eq!(cart.cpu_read(0xC000), 0xAB);
}

#[test]
fn uxrom_write_selects_low_window_bank() {
    // Mapper 2, four PRG banks.
    let data = make_rom(4, 0, 0x20, 0);
    let mut cart = Cartridge::load(&data).unwrap();
    assert_eq!(cart.cpu_read(0x8000), 0);
    // The upper window is fixed to the last bank.
    assert_eq!(cart.cpu_read(0xC000), 3);
    cart.cpu_write(0x8000, 2);
    assert_eq!(cart.cpu_read(0x8000), 2);
    assert_eq!(cart.cpu_read(0xC000), 3);
    // The three bank bits wrap at the installed bank count.
    cart.cpu_write(0x8000, 5);
    assert_eq!(cart.cpu_read(0x8000), 1);
}

#[test]
fn cnrom_write_selects_chr_bank() {
    // Mapper 3, four CHR banks: only two bank bits decode.
    let data = make_rom(2, 4, 0x30, 0);
    let mut cart = Cartridge::load(&data).unwrap();
    let chr_ram = vec![0u8; 0x2000];
    assert_eq!(cart.ppu_read(0, &chr_ram), 0x40);
    cart.cpu_write(0x8000, 3);
    assert_eq!(cart.ppu_read(0, &chr_ram), 0x43);
    // Bit 2 is masked off with four banks installed.
    cart.cpu_write(0x8000, 0x05);
    assert_eq!(cart.ppu_read(0, &chr_ram), 0x41);
}

/// Drives the MMC1 serial port: five writes, one data bit each, low bit
/// first.
fn mmc1_serial_write(cart: &mut Cartridge, addr: u16, value: u8) {
    for bit in 0..5 {
        cart.cpu_write(addr, (value >> bit) & 1);
    }
}

#[test]
fn mmc1_commits_only_on_fifth_write() {
    // Mapper 1, four PRG banks, CHR RAM.
    let data = make_rom(4, 0, 0x10, 0);
    let mut cart = Cartridge::load(&data).unwrap();
    // Power-on: PRG mode 3 fixes the last bank at 0xC000.
    assert_eq!(cart.cpu_read(0x8000), 0);
    assert_eq!(cart.cpu_read(0xC000), 3);
    // Four writes with bit 7 clear change nothing observable.
    for bit in [1, 0, 0, 0] {
        cart.cpu_write(0xE000, bit);
        assert_eq!(cart.cpu_read(0x8000), 0);
        assert_eq!(cart.cpu_read(0xC000), 3);
    }
    // The fifth write commits the accumulated 0b00001 to the PRG register.
    cart.cpu_write(0xE000, 0);
    assert_eq!(cart.cpu_read(0x8000), 1);
    assert_eq!(cart.cpu_read(0xC000), 3);
}

#[test]
fn mmc1_control_write_switches_mirroring() {
    let data = make_rom(2, 0, 0x10, 0);
    let mut cart = Cartridge::load(&data).unwrap();
    // Commit 0b00010 (vertical) to the control register at 0x8000.
    mmc1_serial_write(&mut cart, 0x8000, 0x02);
    match &cart.mapper {
        Mapper::Mmc1(m) => assert_eq!(m.mirroring, Mirroring::Vertical),
        _ => panic!("expected the MMC1 board"),
    }
    mmc1_serial_write(&mut cart, 0x8000, 0x03);
    match &cart.mapper {
        Mapper::Mmc1(m) => assert_eq!(m.mirroring, Mirroring::Horizontal),
        _ => panic!("expected the MMC1 board"),
    }
}

#[test]
fn mmc1_reset_bit_forces_prg_mode_three() {
    let data = make_rom(4, 0, 0x10, 0);
    let mut cart = Cartridge::load(&data).unwrap();
    // Switch to 32 KiB PRG mode (mode 0) through the control register.
    mmc1_serial_write(&mut cart, 0x8000, 0x00);
    // A write with bit 7 set resets the shifter and forces mode 3 back.
    cart.cpu_write(0x8000, 0x80);
    match &cart.mapper {
        Mapper::Mmc1(m) => {
            assert_eq!(m.prg_mode, 3);
            assert_eq!(m.shift_reg, 0x20);
        },
        _ => panic!("expected the MMC1 board"),
    }
}

#[test]
fn mmc3_bank_data_moves_prg_window() {
    // Mapper 4, four 16 KiB PRG banks = eight 8 KiB banks.
    let data = make_rom(4, 1, 0x40, 0);
    let mut cart = Cartridge::load(&data).unwrap();
    // Select slot 6 (the switchable 8 KiB window at 0x8000 in mode 0).
    cart.cpu_write(0x8000, 6);
    cart.cpu_write(0x8001, 4);
    // 8 KiB bank 4 lies inside 16 KiB bank 2.
    assert_eq!(cart.cpu_read(0x8000), 2);
    // The last 8 KiB bank stays fixed at 0xE000.
    assert_eq!(cart.cpu_read(0xE000), 3);
}

#[test]
fn mmc3_irq_first_fires_after_latch_plus_one_clocks() {
    let data = make_rom(2, 1, 0x40, 0);
    let mut cart = Cartridge::load(&data).unwrap();
    // Load latch 3, force a reload, enable the IRQ line.
    cart.cpu_write(0xC000, 3);
    cart.cpu_write(0xC001, 0);
    cart.cpu_write(0xE001, 0);
    for clock in 1..=3 {
        cart.clock_scanline();
        assert!(!cart.irq_pending(), "no interrupt before clock 4, got one at {clock}");
    }
    assert!(cart.clock_scanline());
    assert!(cart.irq_pending());
    // Disabling through 0xE000 also acknowledges.
    cart.cpu_write(0xE000, 0);
    assert!(!cart.irq_pending());
}

#[test]
fn mmc3_irq_with_zero_latch_fires_on_first_clock() {
    let data = make_rom(2, 1, 0x40, 0);
    let mut cart = Cartridge::load(&data).unwrap();
    cart.cpu_write(0xC000, 0);
    cart.cpu_write(0xC001, 0);
    cart.cpu_write(0xE001, 0);
    assert!(cart.clock_scanline());
    assert!(cart.irq_pending());
}

#[test]
fn mmc3_mirroring_register() {
    let data = make_rom(2, 1, 0x40, 0);
    let mut cart = Cartridge::load(&data).unwrap();
    cart.cpu_write(0xA000, 1);
    match &cart.mapper {
        Mapper::Mmc3(m) => assert_eq!(m.mirroring, Mirroring::Horizontal),
        _ => panic!("expected the MMC3 board"),
    }
    cart.cpu_write(0xA000, 0);
    match &cart.mapper {
        Mapper::Mmc3(m) => assert_eq!(m.mirroring, Mirroring::Vertical),
        _ => panic!("expected the MMC3 board"),
    }
}

#[test]
fn chr_ram_round_trips_through_the_mapper() {
    let data = make_rom(1, 0, 0, 0);
    let mut cart = Cartridge::load(&data).unwrap();
    let mut chr_ram = vec![0u8; 0x2000];
    cart.ppu_write(0x1234, 0x5A, &mut chr_ram);
    assert_eq!(cart.ppu_read(0x1234, &chr_ram), 0x5A);
}
