//! Tests for the frame driver and the session surface: frame geometry,
//! framebuffer stability, battery RAM round trips and end-to-end interrupt
//! delivery.

use nesium::cartridge::CartridgeError;
use nesium::emulator::Emulator;
use nesium::input::NesButton;

/// Builds an iNES image around a program at 0x8000, with RESET at 0x8000
/// and the IRQ vector at 0x9000.
fn make_rom(program: &[u8], flags6: u8) -> Vec<u8> {
    let mut data = vec![0x4E, 0x45, 0x53, 0x1A, 1, 1, flags6, 0];
    data.resize(16, 0);
    let mut prg = vec![0u8; 0x4000];
    prg[..program.len()].copy_from_slice(program);
    prg[0x3FFC] = 0x00;
    prg[0x3FFD] = 0x80;
    prg[0x3FFE] = 0x00;
    prg[0x3FFF] = 0x90;
    data.extend_from_slice(&prg);
    data.resize(16 + 0x4000 + 0x2000, 0);
    data
}

/// An endless loop: JMP $8000.
const IDLE: [u8; 3] = [0x4C, 0x00, 0x80];

#[test]
fn load_rom_surfaces_parse_errors() {
    let junk = vec![0u8; 4];
    assert!(matches!(Emulator::load_rom(&junk, false), Err(CartridgeError::InvalidHeader)));
    let mut bad_mapper = make_rom(&IDLE, 0x60);
    bad_mapper[7] = 0;
    assert!(matches!(
        Emulator::load_rom(&bad_mapper, false),
        Err(CartridgeError::UnsupportedMapper(6))
    ));
}

#[test]
fn each_frame_consumes_exactly_one_frame_of_dots() {
    let mut session = Emulator::load_rom(&make_rom(&IDLE, 0), false).unwrap();
    assert_eq!(session.total_ppu_cycles, 0);
    session.step_frame();
    assert_eq!(session.total_ppu_cycles, 89342);
    assert_eq!(session.frame_count(), 1);
    for _ in 0..4 {
        session.step_frame();
    }
    assert_eq!(session.total_ppu_cycles, 5 * 89342);
    assert_eq!(session.frame_count(), 5);
}

#[test]
fn framebuffer_is_stable_between_frames() {
    let mut session = Emulator::load_rom(&make_rom(&IDLE, 0), false).unwrap();
    session.step_frame();
    let snapshot: Vec<u8> = session.framebuffer().to_vec();
    // Reading the frame, draining audio and pressing buttons change nothing.
    let again: Vec<u8> = session.framebuffer().to_vec();
    assert_eq!(snapshot, again);
    session.take_audio_samples();
    session.set_button(1, NesButton::A, true);
    assert_eq!(snapshot, session.framebuffer().to_vec());
}

#[test]
fn framebuffer_has_one_palette_index_per_pixel() {
    let mut session = Emulator::load_rom(&make_rom(&IDLE, 0), false).unwrap();
    session.step_frame();
    let fb = session.framebuffer();
    assert_eq!(fb.len(), 256 * 240);
    assert!(fb.iter().all(|&p| p < 64));
}

#[test]
fn sram_round_trips() {
    let mut session = Emulator::load_rom(&make_rom(&IDLE, 0x02), false).unwrap();
    assert!(session.has_battery());
    let image: Vec<u8> = (0..0x2000).map(|i| (i % 251) as u8).collect();
    session.set_sram(&image);
    assert_eq!(session.sram().to_vec(), image);
    // A short image fills a prefix and leaves the suffix alone.
    let short = vec![0xEE; 16];
    session.set_sram(&short);
    assert_eq!(&session.sram()[..16], &short[..]);
    assert_eq!(session.sram()[16], image[16]);
    // A long image is truncated to the 8 KiB of battery RAM.
    let long = vec![0x77; 0x3000];
    session.set_sram(&long);
    assert!(session.sram().iter().all(|&b| b == 0x77));
}

#[test]
fn audio_levels_accumulate_about_735_per_frame() {
    let mut session = Emulator::load_rom(&make_rom(&IDLE, 0), false).unwrap();
    session.step_frame();
    let samples = session.take_audio_samples();
    // One NTSC frame is about a sixtieth of a second of audio.
    assert!((720..=750).contains(&samples.len()), "got {}", samples.len());
    assert!(session.take_audio_samples().is_empty());
}

#[test]
fn reset_reruns_the_vector_and_keeps_memory() {
    // Write a marker into RAM, then reset.
    let program = [0xA9, 0x5A, 0x85, 0x10, 0x4C, 0x04, 0x80];
    let mut session = Emulator::load_rom(&make_rom(&program, 0), false).unwrap();
    session.step_frame();
    let sp_before = session.cpu.sp;
    session.reset();
    assert_eq!(session.cpu.pc, 0x8000);
    assert_eq!(session.cpu.sp, sp_before.wrapping_sub(3));
    assert_eq!(session.memory.ram[0x10], 0x5A);
}

#[test]
fn frame_counter_irq_vectors_the_cpu() {
    // CLI; LDA #$00; STA $4017; JMP $8005 -- then wait for the APU IRQ.
    // The handler at 0x9000 (all zero bytes = BRK) is never reached within
    // the checked window; what matters is that the CPU leaves the loop.
    let program = [0x58, 0xA9, 0x00, 0x8D, 0x17, 0x40, 0x4C, 0x06, 0x80];
    let mut session = Emulator::load_rom(&make_rom(&program, 0), false).unwrap();
    // The 29830-cycle wait to the frame interrupt spans a frame boundary,
    // since one frame is just under 29781 CPU cycles.
    session.step_frame();
    session.step_frame();
    let pc = session.cpu.pc;
    assert!(!(0x8000..0x8100).contains(&pc), "CPU never took the IRQ, pc = {pc:#06X}");
    assert!(session.memory.apu.frame_counter_interrupt);
}

#[test]
fn buttons_reach_the_game_through_the_strobe() {
    let mut session = Emulator::load_rom(&make_rom(&IDLE, 0), false).unwrap();
    session.set_button(1, NesButton::Start, true);
    session.memory.write(0x4016, 1);
    session.memory.write(0x4016, 0);
    let bits: Vec<u8> = (0..8).map(|_| session.memory.read(0x4016) & 1).collect();
    assert_eq!(bits, vec![0, 0, 0, 1, 0, 0, 0, 0]);
    // Pad two is independent.
    session.set_button(2, NesButton::A, true);
    session.memory.write(0x4016, 1);
    session.memory.write(0x4016, 0);
    assert_eq!(session.memory.read(0x4017) & 1, 1);
}

#[test]
fn palette_boot_sequence_reads_back_immediately() {
    let mut session = Emulator::load_rom(&make_rom(&IDLE, 0), false).unwrap();
    // The classic boot handshake through the bus: set PPUADDR to the
    // palette, write four colours, re-point, read back with no delay.
    session.memory.write(0x2006, 0x3F);
    session.memory.write(0x2006, 0x00);
    for value in [0x0F, 0x30, 0x10, 0x00] {
        session.memory.write(0x2007, value);
    }
    session.memory.write(0x2006, 0x3F);
    session.memory.write(0x2006, 0x00);
    let got: Vec<u8> = (0..4).map(|_| session.memory.read(0x2007)).collect();
    assert_eq!(got, vec![0x0F, 0x30, 0x10, 0x00]);
}

#[test]
fn nmi_is_delivered_at_vblank_when_enabled() {
    // Point the NMI vector at 0xA000 and enable NMI through PPUCTRL.
    let program = [0xA9, 0x80, 0x8D, 0x00, 0x20, 0x4C, 0x05, 0x80];
    let mut rom = make_rom(&program, 0);
    // NMI vector lives at 0xFFFA/B = PRG offset 0x3FFA (16 KiB mirrored);
    // the handler at 0xA000 (PRG offset 0x2000) spins in place.
    rom[16 + 0x3FFA] = 0x00;
    rom[16 + 0x3FFB] = 0xA0;
    rom[16 + 0x2000] = 0x4C;
    rom[16 + 0x2001] = 0x00;
    rom[16 + 0x2002] = 0xA0;
    let mut session = Emulator::load_rom(&rom, false).unwrap();
    session.step_frame();
    assert!((0xA000..=0xA002).contains(&session.cpu.pc), "pc = {:#06X}", session.cpu.pc);
}
