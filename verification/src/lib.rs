//! Core of an NTSC Nintendo Entertainment System emulator: a cycle-synchronized
//! co-simulation of a 6502-derived CPU, a picture processing unit, an audio
//! processing unit and bank-switching cartridge mappers, composed around a
//! shared memory bus.
//!
//! The library is pure logic: it takes a ROM image as bytes and button states,
//! and produces a 256x240 framebuffer of 6-bit palette indices plus a stream of
//! digital audio mixer levels.  Reading ROM files, presenting the framebuffer
//! and converting mixer levels to analogue samples are left to the host.

pub mod apu;
pub mod cartridge;
pub mod ppu;
pub mod cpu;
pub mod emulator;
pub mod input;
pub mod memory;
pub mod trace;
