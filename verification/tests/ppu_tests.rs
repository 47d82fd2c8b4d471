//! Tests for the PPU registers, the palette mirrors and the frame geometry.

use nesium::cartridge::Cartridge;
use nesium::cartridge::Mirroring;
use nesium::ppu::Ppu;

fn make_rom(prg: u8, chr: u8, flags6: u8, flags7: u8) -> Vec<u8> {
    let mut data = vec![0x4E, 0x45, 0x53, 0x1A, prg, chr, flags6, flags7];
    data.resize(16, 0);
    data.resize(16 + prg as usize * 0x4000 + chr as usize * 0x2000, 0);
    data
}

fn test_cart() -> Cartridge {
    Cartridge::load(&make_rom(1, 1, 0, 0)).unwrap()
}

#[test]
fn ppustatus_read_clears_vblank_and_toggle() {
    let cart = test_cart();
    let chr_ram = vec![0u8; 0x2000];
    let mut ppu = Ppu::new();
    ppu.status = 0xE4;
    ppu.write_toggle = true;
    let value = ppu.read_register(0x2002, &cart, &chr_ram);
    assert_eq!(value, 0xE4);
    assert_eq!(ppu.status, 0x64);
    assert!(!ppu.write_toggle);
}

#[test]
fn ppuaddr_two_phase_write_loads_v() {
    let mut ppu = Ppu::new();
    // The high write masks to six bits; the low write copies t into v.
    ppu.write_register(0x2006, 0x3F);
    assert!(ppu.write_toggle);
    assert_eq!(ppu.vram_addr, 0);
    ppu.write_register(0x2006, 0x10);
    assert!(!ppu.write_toggle);
    assert_eq!(ppu.vram_addr, 0x3F10);
    assert_eq!(ppu.vram_addr_temp, 0x3F10);
}

#[test]
fn ppuscroll_two_phase_write_loads_t() {
    let mut ppu = Ppu::new();
    // First write: fine X and coarse X.
    ppu.write_register(0x2005, 0x7D);
    assert_eq!(ppu.fine_x, 5);
    assert_eq!(ppu.vram_addr_temp & 0x1F, 0x0F);
    assert!(ppu.write_toggle);
    // Second write: fine Y and coarse Y.
    ppu.write_register(0x2005, 0x5E);
    assert!(!ppu.write_toggle);
    assert_eq!((ppu.vram_addr_temp >> 12) & 0x7, 6);
    assert_eq!((ppu.vram_addr_temp >> 5) & 0x1F, 11);
}

#[test]
fn ppuctrl_write_selects_nametable_bits_of_t() {
    let mut ppu = Ppu::new();
    ppu.write_register(0x2000, 0x03);
    assert_eq!(ppu.vram_addr_temp, 0x0C00);
}

#[test]
fn palette_write_mirrors_transparent_entry() {
    let cart = test_cart();
    let chr_ram = vec![0u8; 0x2000];
    let mut ppu = Ppu::new();
    ppu.write_vram(0x3F10, 0x2B);
    assert_eq!(ppu.read_vram(0x3F00, &cart, &chr_ram), 0x2B);
    assert_eq!(ppu.read_vram(0x3F10, &cart, &chr_ram), 0x2B);
    ppu.write_vram(0x3F04, 0x11);
    assert_eq!(ppu.read_vram(0x3F14, &cart, &chr_ram), 0x11);
    // A non-transparent entry does not mirror.
    ppu.write_vram(0x3F11, 0x33);
    assert_eq!(ppu.read_vram(0x3F11, &cart, &chr_ram), 0x33);
    assert_ne!(ppu.read_vram(0x3F01, &cart, &chr_ram), 0x33);
}

#[test]
fn ppudata_palette_reads_are_immediate() {
    let cart = test_cart();
    let chr_ram = vec![0u8; 0x2000];
    let mut ppu = Ppu::new();
    // Point v at the palette and write four entries through PPUDATA.
    ppu.write_register(0x2006, 0x3F);
    ppu.write_register(0x2006, 0x00);
    for value in [0x0F, 0x30, 0x10, 0x00] {
        ppu.write_register(0x2007, value);
    }
    // Read them back: palette reads skip the one-read buffer delay.
    ppu.write_register(0x2006, 0x3F);
    ppu.write_register(0x2006, 0x00);
    let mut seen = Vec::new();
    for _ in 0..4 {
        seen.push(ppu.read_register(0x2007, &cart, &chr_ram));
    }
    assert_eq!(seen, vec![0x0F, 0x30, 0x10, 0x00]);
}

#[test]
fn ppudata_nametable_reads_are_buffered() {
    let cart = test_cart();
    let chr_ram = vec![0u8; 0x2000];
    let mut ppu = Ppu::new();
    ppu.write_register(0x2006, 0x20);
    ppu.write_register(0x2006, 0x00);
    ppu.write_register(0x2007, 0x77);
    ppu.write_register(0x2007, 0x88);
    ppu.write_register(0x2006, 0x20);
    ppu.write_register(0x2006, 0x00);
    // The first read returns the stale buffer; the next two the data.
    let stale = ppu.read_register(0x2007, &cart, &chr_ram);
    assert_ne!(stale, 0x77);
    assert_eq!(ppu.read_register(0x2007, &cart, &chr_ram), 0x77);
    assert_eq!(ppu.read_register(0x2007, &cart, &chr_ram), 0x88);
}

#[test]
fn ppudata_increment_follows_ctrl_bit() {
    let mut ppu = Ppu::new();
    ppu.write_register(0x2006, 0x20);
    ppu.write_register(0x2006, 0x00);
    ppu.write_register(0x2007, 1);
    assert_eq!(ppu.vram_addr, 0x2001);
    // Bit 2 of PPUCTRL switches to steps of 32.
    ppu.write_register(0x2000, 0x04);
    ppu.write_register(0x2007, 2);
    assert_eq!(ppu.vram_addr, 0x2021);
}

#[test]
fn oamdata_write_advances_oam_addr() {
    let mut ppu = Ppu::new();
    ppu.write_register(0x2003, 0x10);
    ppu.write_register(0x2004, 0xAB);
    assert_eq!(ppu.oam[0x10], 0xAB);
    assert_eq!(ppu.oam_addr, 0x11);
}

#[test]
fn vertical_mirroring_folds_nametables() {
    let cart = test_cart();
    let chr_ram = vec![0u8; 0x2000];
    let mut ppu = Ppu::new();
    ppu.set_mirroring(nesium::cartridge::Mirroring::Vertical);
    ppu.write_vram(0x2000, 0x11);
    ppu.write_vram(0x2400, 0x22);
    // Vertical: 0x2800 aliases 0x2000, 0x2C00 aliases 0x2400.
    assert_eq!(ppu.read_vram(0x2800, &cart, &chr_ram), 0x11);
    assert_eq!(ppu.read_vram(0x2C00, &cart, &chr_ram), 0x22);
    ppu.set_mirroring(nesium::cartridge::Mirroring::Horizontal);
    // Horizontal: 0x2400 aliases 0x2000 instead.
    assert_eq!(ppu.read_vram(0x2400, &cart, &chr_ram), 0x11);
}

#[test]
fn frame_has_89342_dots_when_rendering_is_off() {
    let cart = test_cart();
    let chr_ram = vec![0u8; 0x2000];
    let mut ppu = Ppu::new();
    for _ in 0..89342 {
        ppu.step(&cart, &chr_ram);
    }
    assert_eq!(ppu.frame, 1);
    assert_eq!(ppu.scanline, -1);
    assert_eq!(ppu.cycle, 0);
}

#[test]
fn odd_frames_skip_one_dot_while_rendering() {
    let cart = test_cart();
    let chr_ram = vec![0u8; 0x2000];
    let mut ppu = Ppu::new();
    ppu.write_register(0x2001, 0x08);
    // Frame 0 is even: full length.
    for _ in 0..89342 {
        ppu.step(&cart, &chr_ram);
    }
    assert_eq!(ppu.frame, 1);
    assert_eq!((ppu.scanline, ppu.cycle), (-1, 0));
    // Frame 1 is odd: the pre-render line drops its last dot.
    for _ in 0..89341 {
        ppu.step(&cart, &chr_ram);
    }
    assert_eq!(ppu.frame, 2);
    assert_eq!((ppu.scanline, ppu.cycle), (-1, 0));
}

#[test]
fn vblank_flag_rises_at_scanline_241_dot_1() {
    let cart = test_cart();
    let chr_ram = vec![0u8; 0x2000];
    let mut ppu = Ppu::new();
    ppu.write_register(0x2000, 0x80);
    // Dot index of (241, 1) is (241 + 1) * 341 + 1; one more step executes it.
    let dots_before = (241 + 1) * 341 + 1;
    let mut nmi_edges = 0;
    for _ in 0..dots_before {
        if ppu.step(&cart, &chr_ram) {
            nmi_edges += 1;
        }
    }
    assert_eq!(ppu.status & 0x80, 0);
    assert_eq!(nmi_edges, 0);
    assert!(ppu.step(&cart, &chr_ram));
    assert_eq!(ppu.status & 0x80, 0x80);
}

#[test]
fn sprite_zero_hit_rises_where_sprite_and_background_overlap() {
    // CHR RAM board, so the pattern tables are writable through PPUDATA.
    let data = make_rom(1, 0, 0, 0);
    let cart = Cartridge::load(&data).unwrap();
    let mut bus = nesium::memory::MemoryBus::new(cart);
    // Power-on nametables read 0xFF, so make tile 0xFF fully opaque in
    // both bit planes, at 0x0FF0..0x1000.
    bus.write(0x2006, 0x0F);
    bus.write(0x2006, 0xF0);
    for _ in 0..16 {
        bus.write(0x2007, 0xFF);
    }
    // Sprite zero: tile 0xFF at (100, 10), in front of the background.
    bus.write(0x2003, 0x00);
    for byte in [10, 0xFF, 0x00, 100] {
        bus.write(0x2004, byte);
    }
    // Enable background and sprites, left columns included.
    bus.write(0x2001, 0x1E);
    for _ in 0..2 * 89342 {
        bus.step_ppu();
    }
    assert_ne!(bus.read(0x2002) & 0x40, 0, "sprite-0 hit never rose");
}

#[test]
fn backdrop_helpers_fill_with_the_universal_colour() {
    let mut ppu = Ppu::new();
    ppu.write_vram(0x3F00, 0x21);
    let mut buffer = vec![0xFFu8; 64];
    ppu.build_framebuffer(&mut buffer);
    assert!(buffer.iter().all(|&p| p == 0x21));
    // With rendering off, the single-pixel renderer writes the backdrop too.
    let mut one = vec![0u8; 61440];
    ppu.render_pixel_to_buffer(&mut one, 5, 5);
    assert_eq!(one[5 * 256 + 5], 0x21);
}

#[test]
fn one_screen_mirroring_selects_one_bank() {
    let cart = test_cart();
    let chr_ram = vec![0u8; 0x2000];
    // Lower: every nametable folds onto VRAM bank 0.
    let mut ppu = Ppu::new();
    ppu.set_mirroring(Mirroring::OneScreenLower);
    ppu.write_vram(0x2005, 0x11);
    assert_eq!(ppu.read_vram(0x2405, &cart, &chr_ram), 0x11);
    assert_eq!(ppu.read_vram(0x2C05, &cart, &chr_ram), 0x11);
    assert_eq!(ppu.vram[0x005], 0x11);
    // Upper: every nametable folds onto VRAM bank 1.
    let mut upper = Ppu::new();
    upper.set_mirroring(Mirroring::OneScreenUpper);
    upper.write_vram(0x2007, 0x22);
    assert_eq!(upper.read_vram(0x2407, &cart, &chr_ram), 0x22);
    assert_eq!(upper.read_vram(0x2C07, &cart, &chr_ram), 0x22);
    assert_eq!(upper.vram[0x407], 0x22);
    assert_ne!(upper.vram[0x007], 0x22);
}

#[test]
fn rendered_lines_step_fine_y_at_dot_256_and_copy_x_at_257() {
    let cart = test_cart();
    let chr_ram = vec![0u8; 0x2000];
    let mut ppu = Ppu::new();
    ppu.mask = 0x18;
    ppu.scanline = 0;
    ppu.cycle = 256;
    ppu.vram_addr = 0;
    ppu.vram_addr_temp = 0x041F;
    ppu.step(&cart, &chr_ram);
    // Dot 256 advanced fine Y (bit 12) on top of the coarse-X step.
    assert_eq!(ppu.vram_addr & 0x7000, 0x1000);
    assert_eq!(ppu.cycle, 257);
    ppu.step(&cart, &chr_ram);
    // Dot 257 copied the horizontal bits of t into v.
    assert_eq!(ppu.vram_addr & 0x041F, 0x041F);
    assert_eq!(ppu.cycle, 258);
}
