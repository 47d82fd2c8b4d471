//! Tests for the APU: the frame-counter interrupt timing, channel gating
//! and the sample clock.

use nesium::apu::Apu;

fn silent_memory() -> ([u8; 0x800], Vec<u8>) {
    ([0u8; 0x800], vec![0u8; 0x4000])
}

#[test]
fn frame_irq_rises_after_29830_cycles() {
    let (ram, prg) = silent_memory();
    let mut apu = Apu::new();
    // 4-step mode with the IRQ allowed.
    apu.write_register(0x4017, 0x00);
    // No interrupt during the first 29829 cycles after the write...
    let fired_early = apu.step(29829, &ram, &prg);
    assert!(!fired_early);
    assert!(!apu.frame_counter_interrupt);
    // ...and the flag rises exactly on cycle 29830.
    let fired = apu.step(1, &ram, &prg);
    assert!(fired);
    assert!(apu.frame_counter_interrupt);
}

#[test]
fn irq_inhibit_suppresses_the_frame_interrupt() {
    let (ram, prg) = silent_memory();
    let mut apu = Apu::new();
    apu.write_register(0x4017, 0x40);
    let fired = apu.step(40000, &ram, &prg);
    assert!(!fired);
    assert!(!apu.frame_counter_interrupt);
}

#[test]
fn five_step_mode_never_raises_the_frame_interrupt() {
    let (ram, prg) = silent_memory();
    let mut apu = Apu::new();
    apu.write_register(0x4017, 0x80);
    let fired = apu.step(80000, &ram, &prg);
    assert!(!fired);
    assert!(!apu.frame_counter_interrupt);
}

#[test]
fn status_read_reports_and_clears_the_frame_interrupt() {
    let (ram, prg) = silent_memory();
    let mut apu = Apu::new();
    apu.write_register(0x4017, 0x00);
    apu.step(29830, &ram, &prg);
    let status = apu.read_register(0x4015);
    assert_ne!(status & 0x40, 0);
    assert!(!apu.frame_counter_interrupt);
    assert_eq!(apu.read_register(0x4015) & 0x40, 0);
}

#[test]
fn length_counter_loads_only_while_enabled() {
    let (_ram, _prg) = silent_memory();
    let mut apu = Apu::new();
    // Writing a length with the channel disabled loads nothing.
    apu.write_register(0x4003, 0x08);
    assert_eq!(apu.pulse1.length_counter, 0);
    // Enable pulse 1, then load length index 1 -> 254 steps.
    apu.write_register(0x4015, 0x01);
    apu.write_register(0x4003, 0x08);
    assert_eq!(apu.pulse1.length_counter, 254);
    // Disabling clears the counter at once.
    apu.write_register(0x4015, 0x00);
    assert_eq!(apu.pulse1.length_counter, 0);
}

#[test]
fn pulse_output_follows_the_duty_sequence() {
    let mut apu = Apu::new();
    apu.write_register(0x4015, 0x01);
    // Duty 2 (50%), constant volume 9; period above the mute line.
    apu.write_register(0x4000, 0x99);
    apu.write_register(0x4002, 0x20);
    apu.write_register(0x4003, 0x08);
    // Fresh channel sits at duty step 0, which is silent for duty 2.
    assert_eq!(apu.pulse1.output(), 0);
    apu.pulse1.duty_step = 2;
    assert_eq!(apu.pulse1.output(), 9);
}

#[test]
fn pulse_mutes_below_period_eight() {
    let mut apu = Apu::new();
    apu.write_register(0x4015, 0x01);
    apu.write_register(0x4000, 0x9F);
    apu.write_register(0x4002, 0x05);
    apu.write_register(0x4003, 0x08);
    assert!(apu.pulse1.mute);
    assert_eq!(apu.pulse1.output(), 0);
}

#[test]
fn triangle_freezes_at_ultrasonic_periods() {
    let mut apu = Apu::new();
    apu.write_register(0x4015, 0x04);
    apu.write_register(0x4008, 0x7F);
    apu.write_register(0x400A, 0x01);
    apu.write_register(0x400B, 0x08);
    // Load the linear counter through a quarter frame.
    apu.step(7458, &[0u8; 0x800], &vec![0u8; 16]);
    assert_eq!(apu.triangle.output(), 7);
}

#[test]
fn noise_lfsr_steps_from_the_seed() {
    let mut apu = Apu::new();
    // Seeded to 1: the first clock shifts in bit0 ^ bit1 = 1 as bit 14.
    assert_eq!(apu.noise.shift_register, 1);
    apu.write_register(0x400E, 0x00);
    apu.noise.timer_counter = 0;
    apu.noise.clock_timer();
    assert_eq!(apu.noise.shift_register, 0x4000);
}

#[test]
fn sample_clock_emits_at_the_output_rate() {
    let (ram, prg) = silent_memory();
    let mut apu = Apu::new();
    // One CPU second produces one second of samples, give or take one.
    apu.step(1789773, &ram, &prg);
    let samples = apu.take_samples();
    assert!((44099..=44101).contains(&samples.len()), "got {}", samples.len());
    assert!(apu.take_samples().is_empty());
}

#[test]
fn mixer_levels_weigh_the_channels() {
    let mut apu = Apu::new();
    apu.dmc.output_level = 5;
    apu.triangle.enabled = true;
    apu.triangle.length_counter = 1;
    apu.triangle.linear_counter = 1;
    apu.triangle.timer = 100;
    apu.triangle.step = 0;
    // Triangle step 0 outputs 15: tnd = 3*15 + 2*0 + 5.
    let levels = apu.mixer_levels();
    assert_eq!(levels.tnd, 50);
    assert_eq!(levels.pulse, 0);
}

#[test]
fn channel_enable_bits_gate_every_length_counter() {
    let mut apu = Apu::new();
    apu.write_register(0x4015, 0x0F);
    apu.write_register(0x4003, 0x08);
    apu.write_register(0x4007, 0x08);
    apu.write_register(0x400B, 0x08);
    apu.write_register(0x400F, 0x08);
    assert_eq!(apu.pulse1.length_counter, 254);
    assert_eq!(apu.pulse2.length_counter, 254);
    assert_eq!(apu.triangle.length_counter, 254);
    assert_eq!(apu.noise.length_counter, 254);
    // Dropping pulse 2 and noise clears exactly their counters.
    apu.write_register(0x4015, 0x05);
    assert_eq!(apu.pulse1.length_counter, 254);
    assert_eq!(apu.pulse2.length_counter, 0);
    assert_eq!(apu.triangle.length_counter, 254);
    assert_eq!(apu.noise.length_counter, 0);
}

#[test]
fn dmc_enable_restarts_an_exhausted_sample() {
    let mut apu = Apu::new();
    apu.write_register(0x4012, 0x04);
    apu.write_register(0x4013, 0x02);
    assert_eq!(apu.dmc.bytes_remaining, 0);
    apu.write_register(0x4015, 0x10);
    assert_eq!(apu.dmc.current_address, 0xC000 | (0x04 << 6));
    assert_eq!(apu.dmc.bytes_remaining, (0x02 << 4) | 1);
    // Disabling zeroes the byte count again.
    apu.write_register(0x4015, 0x00);
    assert_eq!(apu.dmc.bytes_remaining, 0);
}

#[test]
fn five_step_switch_clocks_the_length_counters_at_once() {
    let (ram, prg) = silent_memory();
    let mut apu = Apu::new();
    apu.write_register(0x4015, 0x01);
    apu.write_register(0x4000, 0x00);
    apu.write_register(0x4003, 0x08);
    assert_eq!(apu.pulse1.length_counter, 254);
    // Switching to the 5-step sequence clocks a half frame on the next
    // cycle, stepping the running counter down by one.
    apu.write_register(0x4017, 0x80);
    apu.step(1, &ram, &prg);
    assert_eq!(apu.pulse1.length_counter, 253);
}
