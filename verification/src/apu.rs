//! The audio processing unit: two pulse channels, a triangle, a noise
//! channel and the DMC sample player, driven by the frame sequencer at CPU
//! rate.
//!
//! Everything digital is modelled here: envelopes, sweeps, length counters,
//! the linear-feedback shift register and the frame-counter interrupt.  The
//! output of the APU is a stream of mixer levels — the summed pulse level
//! and the weighted triangle/noise/DMC level — emitted at 44.1 kHz points of
//! the CPU clock.  Turning those levels into analogue samples through the
//! non-linear mixing curves and high-pass filters is the host's business.

use vstd::prelude::*;

verus! {

/// NTSC CPU clock rate in Hz; the sample clock divides this down to 44100.
pub const CPU_FREQUENCY: u32 = 1789773;

/// Output sample rate in Hz.
pub const OUTPUT_SAMPLE_RATE: u32 = 44100;

/// One bit of the duty sequence of a pulse channel.
pub open spec fn spec_duty_value(duty: u8, step: u8) -> u8 {
    let d = duty % 4;
    let s = step % 8;
    if d == 0 {
        if s == 1 {
            1
        } else {
            0
        }
    } else if d == 1 {
        if s == 1 || s == 2 {
            1
        } else {
            0
        }
    } else if d == 2 {
        if 1 <= s <= 4 {
            1
        } else {
            0
        }
    } else {
        if s == 0 || s == 3 {
            0
        } else {
            1
        }
    }
}

/// One bit of the duty sequence of a pulse channel, as executable code.
fn duty_value(duty: u8, step: u8) -> (r: u8)
    ensures
        r == spec_duty_value(duty, step),
{
    let d = duty % 4;
    let s = step % 8;
    if d == 0 {
        if s == 1 {
            1
        } else {
            0
        }
    } else if d == 1 {
        if s == 1 || s == 2 {
            1
        } else {
            0
        }
    } else if d == 2 {
        if 1 <= s && s <= 4 {
            1
        } else {
            0
        }
    } else {
        if s == 0 || s == 3 {
            0
        } else {
            1
        }
    }
}

/// The 32-step triangle ramp: down from 15 to 0, then back up to 15.
pub open spec fn triangle_wave(step: u8) -> u8 {
    let s = step % 32;
    if s < 16 {
        (15 - s) as u8
    } else {
        (s - 16) as u8
    }
}

/// The length counter load table, indexed by the five length bits of a
/// channel's fourth register.
pub open spec fn spec_length_value(index: u8) -> u8 {
    let i = index % 32;
    if i == 0 {
        10
    } else if i == 1 {
        254
    } else if i == 2 {
        20
    } else if i == 3 {
        2
    } else if i == 4 {
        40
    } else if i == 5 {
        4
    } else if i == 6 {
        80
    } else if i == 7 {
        6
    } else if i == 8 {
        160
    } else if i == 9 {
        8
    } else if i == 10 {
        60
    } else if i == 11 {
        10
    } else if i == 12 {
        14
    } else if i == 13 {
        12
    } else if i == 14 {
        26
    } else if i == 15 {
        14
    } else if i == 16 {
        12
    } else if i == 17 {
        16
    } else if i == 18 {
        24
    } else if i == 19 {
        18
    } else if i == 20 {
        48
    } else if i == 21 {
        20
    } else if i == 22 {
        96
    } else if i == 23 {
        22
    } else if i == 24 {
        192
    } else if i == 25 {
        24
    } else if i == 26 {
        72
    } else if i == 27 {
        26
    } else if i == 28 {
        16
    } else if i == 29 {
        28
    } else if i == 30 {
        32
    } else {
        30
    }
}

/// The length counter load table, as executable code.
fn length_value(index: u8) -> (r: u8)
    ensures
        r == spec_length_value(index),
{
    let i = index % 32;
    if i < 16 {
        if i < 8 {
            if i == 0 {
                10
            } else if i == 1 {
                254
            } else if i == 2 {
                20
            } else if i == 3 {
                2
            } else if i == 4 {
                40
            } else if i == 5 {
                4
            } else if i == 6 {
                80
            } else {
                6
            }
        } else {
            if i == 8 {
                160
            } else if i == 9 {
                8
            } else if i == 10 {
                60
            } else if i == 11 {
                10
            } else if i == 12 {
                14
            } else if i == 13 {
                12
            } else if i == 14 {
                26
            } else {
                14
            }
        }
    } else {
        if i < 24 {
            if i == 16 {
                12
            } else if i == 17 {
                16
            } else if i == 18 {
                24
            } else if i == 19 {
                18
            } else if i == 20 {
                48
            } else if i == 21 {
                20
            } else if i == 22 {
                96
            } else {
                22
            }
        } else {
            if i == 24 {
                192
            } else if i == 25 {
                24
            } else if i == 26 {
                72
            } else if i == 27 {
                26
            } else if i == 28 {
                16
            } else if i == 29 {
                28
            } else if i == 30 {
                32
            } else {
                30
            }
        }
    }
}

/// NTSC noise channel periods, indexed by the low four register bits.
fn noise_period(index: u8) -> u16 {
    let i = index % 16;
    if i == 0 {
        4
    } else if i == 1 {
        8
    } else if i == 2 {
        16
    } else if i == 3 {
        32
    } else if i == 4 {
        64
    } else if i == 5 {
        96
    } else if i == 6 {
        128
    } else if i == 7 {
        160
    } else if i == 8 {
        202
    } else if i == 9 {
        254
    } else if i == 10 {
        380
    } else if i == 11 {
        508
    } else if i == 12 {
        762
    } else if i == 13 {
        1016
    } else if i == 14 {
        2034
    } else {
        4068
    }
}

/// NTSC DMC playback rates, indexed by the low four register bits.
fn dmc_period(index: u8) -> u16 {
    let i = index % 16;
    if i == 0 {
        428
    } else if i == 1 {
        380
    } else if i == 2 {
        340
    } else if i == 3 {
        320
    } else if i == 4 {
        286
    } else if i == 5 {
        254
    } else if i == 6 {
        226
    } else if i == 7 {
        214
    } else if i == 8 {
        190
    } else if i == 9 {
        160
    } else if i == 10 {
        142
    } else if i == 11 {
        128
    } else if i == 12 {
        106
    } else if i == 13 {
        84
    } else if i == 14 {
        72
    } else {
        54
    }
}

/// The byte the DMC sample fetch reads: RAM below 0x2000, PRG ROM from
/// 0x8000 up (without banking, as the sample player sees a flat image),
/// and zero elsewhere.
pub open spec fn spec_dmc_byte(ram: Seq<u8>, prg: Seq<u8>, addr: u16) -> u8 {
    if addr < 0x2000 {
        ram[addr as int % 0x800]
    } else if addr >= 0x8000 && (addr - 0x8000) < prg.len() {
        prg[addr - 0x8000]
    } else {
        0
    }
}

/// Reads one byte for the DMC sample fetch.
fn dmc_read(addr: u16, ram: &[u8; 0x800], prg: &Vec<u8>) -> (r: u8)
    ensures
        r == spec_dmc_byte(ram@, prg@, addr),
{
    if addr < 0x2000 {
        ram[(addr as usize) % 0x800]
    } else if addr >= 0x8000 && ((addr - 0x8000) as usize) < prg.len() {
        prg[(addr - 0x8000) as usize]
    } else {
        0
    }
}

// ---------------------------------------------------------------------------
// Channel building blocks
// ---------------------------------------------------------------------------

/// The volume envelope shared by the pulse and noise channels.
pub struct Envelope {
    pub start: bool,
    pub loop_flag: bool,
    pub constant_volume: bool,
    pub volume: u8,
    pub decay_counter: u8,
    pub divider: u8,
}

impl Envelope {
    pub fn new() -> (r: Self)
        ensures
            r.start == false,
            r.volume == 0,
            r.decay_counter == 0,
            r.divider == 0,
    {
        Envelope {
            start: false,
            loop_flag: false,
            constant_volume: false,
            volume: 0,
            decay_counter: 0,
            divider: 0,
        }
    }

    /// A quarter-frame clock: a started envelope reloads to 15, otherwise
    /// the divider counts down and, on wrap, the decay level falls (or
    /// reloads when looping).
    pub fn clock(&mut self)
        ensures
            final(self).loop_flag == old(self).loop_flag,
            final(self).constant_volume == old(self).constant_volume,
            final(self).volume == old(self).volume,
            !final(self).start,
            old(self).start ==> final(self).decay_counter == 15
                && final(self).divider == old(self).volume,
            (!old(self).start && old(self).divider == 0 && old(self).decay_counter == 0
                && old(self).loop_flag) ==> final(self).decay_counter == 15,
            (!old(self).start && old(self).divider == 0 && old(self).decay_counter > 0)
                ==> final(self).decay_counter == old(self).decay_counter - 1,
            !old(self).start && old(self).divider == 0 ==> final(self).divider == old(self).volume,
            (!old(self).start && old(self).divider > 0) ==> final(self).divider
                == old(self).divider - 1 && final(self).decay_counter == old(self).decay_counter,
    {
        if self.start {
            self.start = false;
            self.decay_counter = 15;
            self.divider = self.volume;
        } else {
            if self.divider == 0 {
                self.divider = self.volume;
                if self.decay_counter == 0 {
                    if self.loop_flag {
                        self.decay_counter = 15;
                    }
                } else {
                    self.decay_counter = self.decay_counter - 1;
                }
            } else {
                self.divider = self.divider - 1;
            }
        }
    }
}

/// The period a sweep unit aims for: the current period shifted down and
/// added or subtracted, with pulse 1 subtracting one extra (one's
/// complement) and pulse 2 not (two's complement).
pub open spec fn sweep_target(timer: u16, shift: u8, negate: bool, channel_id: u8) -> u16 {
    let change = timer >> ((shift % 16) as u16);
    if negate {
        if channel_id == 1 {
            vstd::wrapping::u16_specs::wrapping_sub(
                vstd::wrapping::u16_specs::wrapping_sub(timer, change),
                1,
            )
        } else {
            vstd::wrapping::u16_specs::wrapping_sub(timer, change)
        }
    } else {
        vstd::wrapping::u16_specs::wrapping_add(timer, change)
    }
}

/// The sweep unit of a pulse channel.
pub struct Sweep {
    pub enabled: bool,
    pub period: u8,
    pub negate: bool,
    pub shift: u8,
    pub reload: bool,
    pub divider: u8,
}

impl Sweep {
    pub fn new() -> (r: Self)
        ensures
            !r.enabled,
            !r.reload,
            r.divider == 0,
    {
        Sweep { enabled: false, period: 0, negate: false, shift: 0, reload: false, divider: 0 }
    }

    /// A half-frame clock: when the divider wraps and the unit is active,
    /// the channel period follows the target (unless muted or the target
    /// overflows eleven bits); the divider reloads on wrap or on demand.
    pub fn clock(&mut self, timer: &mut u16, mute: bool, channel_id: u8)
        ensures
            final(self).enabled == old(self).enabled,
            final(self).period == old(self).period,
            final(self).negate == old(self).negate,
            final(self).shift == old(self).shift,
            !final(self).reload,
            (old(self).divider == 0 && old(self).enabled && old(self).shift > 0 && !mute
                && sweep_target(*old(timer), old(self).shift, old(self).negate, channel_id)
                <= 0x7FF) ==> *final(timer) == sweep_target(
                *old(timer),
                old(self).shift,
                old(self).negate,
                channel_id,
            ),
            !(old(self).divider == 0 && old(self).enabled && old(self).shift > 0 && !mute
                && sweep_target(*old(timer), old(self).shift, old(self).negate, channel_id)
                <= 0x7FF) ==> *final(timer) == *old(timer),
            (old(self).divider == 0 || old(self).reload) ==> final(self).divider
                == old(self).period,
            !(old(self).divider == 0 || old(self).reload) ==> final(self).divider
                == old(self).divider - 1,
    {
        let change = *timer >> ((self.shift % 16) as u16);
        let target: u16 = if self.negate {
            if channel_id == 1 {
                timer.wrapping_sub(change).wrapping_sub(1)
            } else {
                timer.wrapping_sub(change)
            }
        } else {
            timer.wrapping_add(change)
        };
        if self.divider == 0 && self.enabled && self.shift > 0 && !mute {
            if target <= 0x7FF {
                *timer = target;
            }
        }
        if self.divider == 0 || self.reload {
            self.divider = self.period;
            self.reload = false;
        } else {
            self.divider = self.divider - 1;
            self.reload = false;
        }
    }
}

// ---------------------------------------------------------------------------
// The five channels
// ---------------------------------------------------------------------------

/// One of the two square-wave channels.
pub struct PulseChannel {
    pub enabled: bool,
    pub length_counter: u8,
    pub length_counter_halt: bool,
    pub envelope: Envelope,
    pub sweep: Sweep,
    pub timer: u16,
    pub timer_counter: u16,
    pub duty_cycle: u8,
    pub duty_step: u8,
    pub constant_volume: bool,
    pub channel_id: u8,
    pub mute: bool,
    pub target_period: u16,
}

/// What a pulse channel feeds the mixer: its envelope volume when the duty
/// sequence is high and nothing silences it, else zero.
pub open spec fn pulse_level(c: PulseChannel) -> u8 {
    if !c.enabled || c.length_counter == 0 || c.mute {
        0
    } else if spec_duty_value(c.duty_cycle, c.duty_step) == 0 {
        0
    } else if c.constant_volume {
        c.envelope.volume
    } else {
        c.envelope.decay_counter
    }
}

impl PulseChannel {
    pub fn new(channel_id: u8) -> (r: Self)
        ensures
            !r.enabled,
            r.length_counter == 0,
            r.timer == 0,
            r.duty_step == 0,
            r.channel_id == channel_id,
    {
        PulseChannel {
            enabled: false,
            length_counter: 0,
            length_counter_halt: false,
            envelope: Envelope::new(),
            sweep: Sweep::new(),
            timer: 0,
            timer_counter: 0,
            duty_cycle: 0,
            duty_step: 0,
            constant_volume: false,
            channel_id,
            mute: false,
            target_period: 0,
        }
    }

    /// An APU-rate clock of the waveform timer: on wrap, the duty sequence
    /// advances one step.
    pub fn clock_timer(&mut self)
        ensures
            old(self).timer_counter == 0 ==> *final(self) == (PulseChannel {
                timer_counter: old(self).timer,
                duty_step: ((old(self).duty_step % 8 + 1) % 8) as u8,
                ..*old(self)
            }),
            old(self).timer_counter > 0 ==> *final(self) == (PulseChannel {
                timer_counter: (old(self).timer_counter - 1) as u16,
                ..*old(self)
            }),
    {
        if self.timer_counter == 0 {
            self.timer_counter = self.timer;
            self.duty_step = (self.duty_step % 8 + 1) % 8;
        } else {
            self.timer_counter = self.timer_counter - 1;
        }
    }

    /// Recomputes the sweep target and the mute line: a channel is muted
    /// when its period falls under 8 or the target overflows eleven bits.
    pub fn update_target_period(&mut self)
        ensures
            *final(self) == (PulseChannel {
                target_period: sweep_target(
                    old(self).timer,
                    old(self).sweep.shift,
                    old(self).sweep.negate,
                    old(self).channel_id,
                ),
                mute: old(self).timer < 8 || sweep_target(
                    old(self).timer,
                    old(self).sweep.shift,
                    old(self).sweep.negate,
                    old(self).channel_id,
                ) > 0x7FF,
                ..*old(self)
            }),
    {
        let change = self.timer >> ((self.sweep.shift % 16) as u16);
        if self.sweep.negate {
            if self.channel_id == 1 {
                self.target_period = self.timer.wrapping_sub(change).wrapping_sub(1);
            } else {
                self.target_period = self.timer.wrapping_sub(change);
            }
        } else {
            self.target_period = self.timer.wrapping_add(change);
        }
        self.mute = self.timer < 8 || self.target_period > 0x7FF;
    }

    /// The channel's current mixer contribution.
    pub fn output(&self) -> (r: u8)
        ensures
            r == pulse_level(*self),
    {
        if !self.enabled || self.length_counter == 0 || self.mute {
            return 0;
        }
        if duty_value(self.duty_cycle, self.duty_step) == 0 {
            return 0;
        }
        if self.constant_volume {
            self.envelope.volume
        } else {
            self.envelope.decay_counter
        }
    }
}

impl PulseChannel {
    /// The duty/halt/envelope register of a pulse channel.
    pub fn set_control(&mut self, value: u8)
        ensures
            *final(self) == (PulseChannel {
                duty_cycle: (value >> 6) & 0x03,
                length_counter_halt: (value & 0x20) != 0,
                constant_volume: (value & 0x10) != 0,
                envelope: (Envelope {
                    loop_flag: (value & 0x20) != 0,
                    volume: value & 0x0F,
                    ..old(self).envelope
                }),
                ..*old(self)
            }),
    {
        self.duty_cycle = (value >> 6) & 0x03;
        self.length_counter_halt = (value & 0x20) != 0;
        self.envelope.loop_flag = (value & 0x20) != 0;
        self.constant_volume = (value & 0x10) != 0;
        self.envelope.volume = value & 0x0F;
    }

    /// The sweep register of a pulse channel.
    pub fn set_sweep(&mut self, value: u8)
        ensures
            final(self).sweep.enabled == ((value & 0x80) != 0),
            final(self).sweep.period == ((value >> 4) & 0x07),
            final(self).sweep.negate == ((value & 0x08) != 0),
            final(self).sweep.shift == (value & 0x07),
            final(self).sweep.reload,
            final(self).timer == old(self).timer,
            final(self).length_counter == old(self).length_counter,
            final(self).enabled == old(self).enabled,
            final(self).duty_step == old(self).duty_step,
            final(self).envelope == old(self).envelope,
    {
        self.sweep.enabled = (value & 0x80) != 0;
        self.sweep.period = (value >> 4) & 0x07;
        self.sweep.negate = (value & 0x08) != 0;
        self.sweep.shift = value & 0x07;
        self.sweep.reload = true;
        self.update_target_period();
    }

    /// The low timer byte of a pulse channel.
    pub fn set_timer_low(&mut self, value: u8)
        ensures
            final(self).timer == ((old(self).timer & 0xFF00) | value as u16),
            final(self).length_counter == old(self).length_counter,
            final(self).enabled == old(self).enabled,
            final(self).duty_step == old(self).duty_step,
            final(self).envelope == old(self).envelope,
    {
        self.timer = (self.timer & 0xFF00) | value as u16;
        self.update_target_period();
    }

    /// The high timer bits and length load of a pulse channel: also resets
    /// the duty sequence and starts the envelope.
    pub fn set_timer_high(&mut self, value: u8)
        ensures
            final(self).timer == ((old(self).timer & 0x00FF) | (((value & 0x07) as u16) << 8)),
            old(self).enabled ==> final(self).length_counter == spec_length_value(
                (value >> 3) & 0x1F,
            ),
            !old(self).enabled ==> final(self).length_counter == old(self).length_counter,
            final(self).duty_step == 0,
            final(self).envelope.start,
            final(self).enabled == old(self).enabled,
    {
        self.timer = (self.timer & 0x00FF) | (((value & 0x07) as u16) << 8);
        if self.enabled {
            self.length_counter = length_value((value >> 3) & 0x1F);
        }
        self.duty_step = 0;
        self.envelope.start = true;
        self.update_target_period();
    }
}

/// The triangle channel.
pub struct TriangleChannel {
    pub enabled: bool,
    pub length_counter: u8,
    pub length_counter_halt: bool,
    pub linear_counter: u8,
    pub linear_counter_reload: u8,
    pub linear_counter_reload_flag: bool,
    pub timer: u16,
    pub timer_counter: u16,
    pub step: u8,
}

/// What the triangle feeds the mixer: the ramp value, frozen at the middle
/// when the period is ultrasonic, and zero when either counter has run out.
pub open spec fn triangle_level(c: TriangleChannel) -> u8 {
    if !c.enabled || c.length_counter == 0 || c.linear_counter == 0 {
        0
    } else if c.timer < 2 {
        7
    } else {
        triangle_wave(c.step)
    }
}

impl TriangleChannel {
    pub fn new() -> (r: Self)
        ensures
            !r.enabled,
            r.length_counter == 0,
            r.linear_counter == 0,
            r.step == 0,
    {
        TriangleChannel {
            enabled: false,
            length_counter: 0,
            length_counter_halt: false,
            linear_counter: 0,
            linear_counter_reload: 0,
            linear_counter_reload_flag: false,
            timer: 0,
            timer_counter: 0,
            step: 0,
        }
    }

    /// A CPU-rate clock of the waveform timer: on wrap, the ramp advances
    /// one step, but only while both the length and linear counters run.
    pub fn clock_timer(&mut self)
        ensures
            (old(self).timer_counter == 0 && old(self).length_counter > 0
                && old(self).linear_counter > 0) ==> *final(self) == (TriangleChannel {
                timer_counter: old(self).timer,
                step: ((old(self).step % 32 + 1) % 32) as u8,
                ..*old(self)
            }),
            (old(self).timer_counter == 0 && !(old(self).length_counter > 0
                && old(self).linear_counter > 0)) ==> *final(self) == (TriangleChannel {
                timer_counter: old(self).timer,
                ..*old(self)
            }),
            old(self).timer_counter > 0 ==> *final(self) == (TriangleChannel {
                timer_counter: (old(self).timer_counter - 1) as u16,
                ..*old(self)
            }),
    {
        if self.timer_counter == 0 {
            self.timer_counter = self.timer;
            if self.length_counter > 0 && self.linear_counter > 0 {
                self.step = (self.step % 32 + 1) % 32;
            }
        } else {
            self.timer_counter = self.timer_counter - 1;
        }
    }

    /// The channel's current mixer contribution.
    pub fn output(&self) -> (r: u8)
        ensures
            r == triangle_level(*self),
    {
        if !self.enabled || self.length_counter == 0 || self.linear_counter == 0 {
            return 0;
        }
        if self.timer < 2 {
            return 7;
        }
        let s = self.step % 32;
        if s < 16 {
            15 - s
        } else {
            s - 16
        }
    }
}

impl TriangleChannel {
    /// The halt/linear-reload register of the triangle.
    pub fn set_control(&mut self, value: u8)
        ensures
            *final(self) == (TriangleChannel {
                length_counter_halt: (value & 0x80) != 0,
                linear_counter_reload: value & 0x7F,
                ..*old(self)
            }),
    {
        self.length_counter_halt = (value & 0x80) != 0;
        self.linear_counter_reload = value & 0x7F;
    }

    /// The low timer byte of the triangle.
    pub fn set_timer_low(&mut self, value: u8)
        ensures
            *final(self) == (TriangleChannel {
                timer: (old(self).timer & 0xFF00) | value as u16,
                ..*old(self)
            }),
    {
        self.timer = (self.timer & 0xFF00) | value as u16;
    }

    /// The high timer bits and length load of the triangle: also flags the
    /// linear counter for reload.
    pub fn set_timer_high(&mut self, value: u8)
        ensures
            final(self).timer == ((old(self).timer & 0x00FF) | (((value & 0x07) as u16) << 8)),
            old(self).enabled ==> final(self).length_counter == spec_length_value(
                (value >> 3) & 0x1F,
            ),
            !old(self).enabled ==> final(self).length_counter == old(self).length_counter,
            final(self).linear_counter_reload_flag,
            final(self).enabled == old(self).enabled,
            final(self).length_counter_halt == old(self).length_counter_halt,
            final(self).linear_counter == old(self).linear_counter,
            final(self).linear_counter_reload == old(self).linear_counter_reload,
    {
        self.timer = (self.timer & 0x00FF) | (((value & 0x07) as u16) << 8);
        if self.enabled {
            self.length_counter = length_value((value >> 3) & 0x1F);
        }
        self.linear_counter_reload_flag = true;
    }
}

/// The noise channel and its 15-bit linear-feedback shift register.
pub struct NoiseChannel {
    pub enabled: bool,
    pub length_counter: u8,
    pub length_counter_halt: bool,
    pub envelope: Envelope,
    pub timer: u16,
    pub timer_counter: u16,
    pub shift_register: u16,
    pub mode: bool,
    pub constant_volume: bool,
}

/// The register after one LFSR step: the feedback bit is bit 0 xor bit 1
/// (or bit 6 in the short mode), shifted in as the new bit 14.
pub open spec fn lfsr_next(sr: u16, mode: bool) -> u16 {
    let feedback = if mode {
        (sr & 0x01) ^ ((sr >> 6) & 0x01)
    } else {
        (sr & 0x01) ^ ((sr >> 1) & 0x01)
    };
    (sr >> 1) | (feedback << 14)
}

/// What the noise channel feeds the mixer: its envelope volume while bit 0
/// of the register is clear and the length counter runs.
pub open spec fn noise_level(c: NoiseChannel) -> u8 {
    if !c.enabled || c.length_counter == 0 || (c.shift_register & 0x01) != 0 {
        0
    } else if c.constant_volume {
        c.envelope.volume
    } else {
        c.envelope.decay_counter
    }
}

impl NoiseChannel {
    pub fn new() -> (r: Self)
        ensures
            !r.enabled,
            r.length_counter == 0,
            r.shift_register == 1,
    {
        NoiseChannel {
            enabled: false,
            length_counter: 0,
            length_counter_halt: false,
            envelope: Envelope::new(),
            timer: 0,
            timer_counter: 0,
            // The register must never be all zeroes; hardware seeds it to 1.
            shift_register: 1,
            mode: false,
            constant_volume: false,
        }
    }

    /// An APU-rate clock of the timer: on wrap, the LFSR advances.
    pub fn clock_timer(&mut self)
        ensures
            old(self).timer_counter == 0 ==> *final(self) == (NoiseChannel {
                timer_counter: old(self).timer,
                shift_register: lfsr_next(old(self).shift_register, old(self).mode),
                ..*old(self)
            }),
            old(self).timer_counter > 0 ==> *final(self) == (NoiseChannel {
                timer_counter: (old(self).timer_counter - 1) as u16,
                ..*old(self)
            }),
    {
        if self.timer_counter == 0 {
            self.timer_counter = self.timer;
            let feedback = if self.mode {
                (self.shift_register & 0x01) ^ ((self.shift_register >> 6) & 0x01)
            } else {
                (self.shift_register & 0x01) ^ ((self.shift_register >> 1) & 0x01)
            };
            self.shift_register = (self.shift_register >> 1) | (feedback << 14);
        } else {
            self.timer_counter = self.timer_counter - 1;
        }
    }

    /// The channel's current mixer contribution.
    pub fn output(&self) -> (r: u8)
        ensures
            r == noise_level(*self),
    {
        if !self.enabled || self.length_counter == 0 || (self.shift_register & 0x01) != 0 {
            return 0;
        }
        if self.constant_volume {
            self.envelope.volume
        } else {
            self.envelope.decay_counter
        }
    }
}

impl NoiseChannel {
    /// The halt/envelope register of the noise channel.
    pub fn set_control(&mut self, value: u8)
        ensures
            *final(self) == (NoiseChannel {
                length_counter_halt: (value & 0x20) != 0,
                constant_volume: (value & 0x10) != 0,
                envelope: (Envelope {
                    loop_flag: (value & 0x20) != 0,
                    volume: value & 0x0F,
                    ..old(self).envelope
                }),
                ..*old(self)
            }),
    {
        self.length_counter_halt = (value & 0x20) != 0;
        self.envelope.loop_flag = (value & 0x20) != 0;
        self.constant_volume = (value & 0x10) != 0;
        self.envelope.volume = value & 0x0F;
    }

    /// The mode/period register of the noise channel.
    pub fn set_mode(&mut self, value: u8)
        ensures
            final(self).mode == ((value & 0x80) != 0),
            final(self).length_counter == old(self).length_counter,
            final(self).enabled == old(self).enabled,
            final(self).envelope == old(self).envelope,
            final(self).shift_register == old(self).shift_register,
    {
        self.mode = (value & 0x80) != 0;
        self.timer = noise_period(value & 0x0F);
    }

    /// The length-load register of the noise channel: starts the envelope.
    pub fn set_length(&mut self, value: u8)
        ensures
            old(self).enabled ==> final(self).length_counter == spec_length_value(
                (value >> 3) & 0x1F,
            ),
            !old(self).enabled ==> final(self).length_counter == old(self).length_counter,
            final(self).envelope.start,
            final(self).enabled == old(self).enabled,
            final(self).shift_register == old(self).shift_register,
    {
        if self.enabled {
            self.length_counter = length_value((value >> 3) & 0x1F);
        }
        self.envelope.start = true;
    }
}

/// The delta-modulation channel: plays 1-bit deltas fetched from CPU
/// memory, nudging a 7-bit output level up and down.
pub struct DmcChannel {
    pub enabled: bool,
    pub loop_flag: bool,
    pub irq_enabled: bool,
    pub irq_occurred: bool,
    pub output_level: u8,
    pub sample_address: u16,
    pub sample_length: u16,
    pub current_address: u16,
    pub bytes_remaining: u16,
    pub sample_buffer: u8,
    pub sample_buffer_empty: bool,
    pub shift_register: u8,
    pub bits_remaining: u8,
    pub silence: bool,
    pub rate: u16,
    pub rate_counter: u16,
}

impl DmcChannel {
    pub fn new() -> (r: Self)
        ensures
            !r.enabled,
            !r.irq_occurred,
            r.output_level == 0,
            r.bytes_remaining == 0,
            r.bits_remaining == 8,
            r.sample_buffer_empty,
            r.silence,
    {
        DmcChannel {
            enabled: false,
            loop_flag: false,
            irq_enabled: false,
            irq_occurred: false,
            output_level: 0,
            sample_address: 0xC000,
            sample_length: 1,
            current_address: 0xC000,
            bytes_remaining: 0,
            sample_buffer: 0,
            sample_buffer_empty: true,
            shift_register: 0,
            bits_remaining: 8,
            silence: true,
            rate: 428,
            rate_counter: 428,
        }
    }

    /// The IRQ/loop/rate register of the DMC.
    pub fn set_control(&mut self, value: u8)
        ensures
            final(self).irq_enabled == ((value & 0x80) != 0),
            final(self).loop_flag == ((value & 0x40) != 0),
            (value & 0x80) == 0 ==> !final(self).irq_occurred,
            (value & 0x80) != 0 ==> final(self).irq_occurred == old(self).irq_occurred,
            final(self).enabled == old(self).enabled,
            final(self).output_level == old(self).output_level,
            final(self).bytes_remaining == old(self).bytes_remaining,
    {
        self.irq_enabled = (value & 0x80) != 0;
        self.loop_flag = (value & 0x40) != 0;
        self.rate = dmc_period(value & 0x0F);
        if !self.irq_enabled {
            self.irq_occurred = false;
        }
    }

    /// A direct load of the 7-bit output level.
    pub fn set_level(&mut self, value: u8)
        ensures
            *final(self) == (DmcChannel { output_level: value & 0x7F, ..*old(self) }),
    {
        self.output_level = value & 0x7F;
    }

    /// The sample start address, in 64-byte units above 0xC000.
    pub fn set_address(&mut self, value: u8)
        ensures
            *final(self) == (DmcChannel {
                sample_address: 0xC000 | ((value as u16) << 6),
                ..*old(self)
            }),
    {
        self.sample_address = 0xC000 | ((value as u16) << 6);
    }

    /// The sample length, in 16-byte units plus one.
    pub fn set_length(&mut self, value: u8)
        ensures
            *final(self) == (DmcChannel {
                sample_length: ((value as u16) << 4) | 1,
                ..*old(self)
            }),
    {
        self.sample_length = ((value as u16) << 4) | 1;
    }

    /// One CPU cycle of the DMC: refill the sample buffer from memory when
    /// it is empty, and clock the output unit at the channel rate.  Returns
    /// true when sample exhaustion raises the DMC interrupt.
    pub fn clock(&mut self, ram: &[u8; 0x800], prg_rom: &Vec<u8>) -> (r: bool)
        ensures
            old(self).output_level <= 127 ==> final(self).output_level <= 127,
            r ==> final(self).irq_occurred && old(self).irq_enabled,
            !r ==> final(self).irq_occurred == old(self).irq_occurred,
            final(self).irq_enabled == old(self).irq_enabled,
            final(self).enabled == old(self).enabled,
            final(self).bits_remaining >= 1 || old(self).bits_remaining == 0,
    {
        let mut irq = false;
        if self.enabled && self.sample_buffer_empty && self.bytes_remaining > 0 {
            self.sample_buffer = dmc_read(self.current_address, ram, prg_rom);
            self.sample_buffer_empty = false;
            self.current_address = if self.current_address == 0xFFFF {
                0x8000
            } else {
                self.current_address + 1
            };
            self.bytes_remaining = self.bytes_remaining - 1;
            if self.bytes_remaining == 0 {
                if self.loop_flag {
                    self.current_address = self.sample_address;
                    self.bytes_remaining = self.sample_length;
                } else if self.irq_enabled {
                    self.irq_occurred = true;
                    irq = true;
                }
            }
        }
        if self.rate_counter == 0 {
            self.rate_counter = self.rate;
            if !self.silence {
                if (self.shift_register & 0x01) != 0 {
                    if self.output_level <= 125 {
                        self.output_level = self.output_level + 2;
                    }
                } else {
                    if self.output_level >= 2 {
                        self.output_level = self.output_level - 2;
                    }
                }
            }
            self.shift_register = self.shift_register >> 1;
            if self.bits_remaining >= 1 {
                self.bits_remaining = self.bits_remaining - 1;
            }
            if self.bits_remaining == 0 {
                self.bits_remaining = 8;
                if self.sample_buffer_empty {
                    self.silence = true;
                } else {
                    self.silence = false;
                    self.shift_register = self.sample_buffer;
                    self.sample_buffer_empty = true;
                }
            }
        } else {
            self.rate_counter = self.rate_counter - 1;
        }
        irq
    }

    /// The channel's current mixer contribution: the raw output level.
    pub fn output(&self) -> (r: u8)
        ensures
            r == self.output_level,
    {
        self.output_level
    }
}

// ---------------------------------------------------------------------------
// The APU proper
// ---------------------------------------------------------------------------

/// One output point: the summed pulse level (0..=30) and the weighted
/// triangle/noise/DMC level (0..=202), ready for the host's mixing curves.
#[derive(Debug, Clone, Copy, PartialEq, Eq, Structural)]
pub struct MixerLevels {
    pub pulse: u8,
    pub tnd: u8,
}

/// The status byte read at 0x4015: one bit per running length counter, the
/// DMC activity bit, and the two interrupt flags.
pub open spec fn apu_status_byte(a: Apu) -> u8 {
    ((if a.pulse1.length_counter > 0 {
        0x01int
    } else {
        0int
    }) + (if a.pulse2.length_counter > 0 {
        0x02int
    } else {
        0int
    }) + (if a.triangle.length_counter > 0 {
        0x04int
    } else {
        0int
    }) + (if a.noise.length_counter > 0 {
        0x08int
    } else {
        0int
    }) + (if a.dmc.bytes_remaining > 0 {
        0x10int
    } else {
        0int
    }) + (if a.frame_counter_interrupt {
        0x40int
    } else {
        0int
    }) + (if a.dmc.irq_occurred {
        0x80int
    } else {
        0int
    })) as u8
}

/// The pulse mixer input: both pulse levels summed, saturated to the table
/// range.
pub open spec fn pulse_mix_level(a: Apu) -> u8 {
    let sum = pulse_level(a.pulse1) + pulse_level(a.pulse2);
    if sum > 30 {
        30
    } else {
        sum as u8
    }
}

/// The triangle/noise/DMC mixer input: 3T + 2N + D, saturated to the table
/// range.
pub open spec fn tnd_mix_level(a: Apu) -> u8 {
    let sum = 3 * triangle_level(a.triangle) + 2 * noise_level(a.noise) + a.dmc.output_level;
    if sum > 202 {
        202
    } else {
        sum as u8
    }
}

/// The frame-sequencer counter after one CPU cycle: a scheduled reset, or
/// the final step of either sequence, leaves the counter at 1 for the next
/// cycle (the step lands on 0 and the per-cycle advance then runs);
/// otherwise the counter counts up, saturating at the 64-bit boundary.
pub open spec fn sequencer_next(mode: bool, reset: bool, c: u64) -> u64 {
    if reset {
        1
    } else if !mode && c == 29829 {
        1
    } else if mode && c == 37281 {
        1
    } else if c < 0xFFFFFFFFFFFFFFFF {
        (c + 1) as u64
    } else {
        c
    }
}

/// Whether one CPU cycle of the sequencer raises the frame interrupt: only
/// the final step of the 4-step sequence with the inhibit bit clear, and
/// never on the cycle that consumes a scheduled reset.
pub open spec fn sequencer_fires(mode: bool, inhibit: bool, reset: bool, c: u64) -> bool {
    !reset && !mode && !inhibit && c == 29829
}

/// The sequencer counter after `n` CPU cycles.
pub open spec fn sequencer_after(mode: bool, reset: bool, c: u64, n: nat) -> u64
    decreases n,
{
    if n == 0 {
        c
    } else {
        sequencer_after(mode, false, sequencer_next(mode, reset, c), (n - 1) as nat)
    }
}

/// Whether any of `n` CPU cycles of the sequencer raises the frame
/// interrupt.
pub open spec fn sequencer_fires_within(
    mode: bool,
    inhibit: bool,
    reset: bool,
    c: u64,
    n: nat,
) -> bool
    decreases n,
{
    n > 0 && (sequencer_fires(mode, inhibit, reset, c) || sequencer_fires_within(
        mode,
        inhibit,
        false,
        sequencer_next(mode, reset, c),
        (n - 1) as nat,
    ))
}

/// Peels the last cycle off a sequencer run.
proof fn lemma_sequencer_after_snoc(mode: bool, reset: bool, c: u64, n: nat)
    ensures
        sequencer_after(mode, reset, c, n + 1) == sequencer_next(
            mode,
            reset && n == 0,
            sequencer_after(mode, reset, c, n),
        ),
    decreases n,
{
    if n == 0 {
        assert(sequencer_after(mode, reset, c, 1) == sequencer_after(
            mode,
            false,
            sequencer_next(mode, reset, c),
            0,
        ));
    } else {
        lemma_sequencer_after_snoc(mode, false, sequencer_next(mode, reset, c), (n - 1) as nat);
        assert(sequencer_after(mode, reset, c, n + 1) == sequencer_after(
            mode,
            false,
            sequencer_next(mode, reset, c),
            n,
        ));
        assert(sequencer_after(mode, reset, c, n) == sequencer_after(
            mode,
            false,
            sequencer_next(mode, reset, c),
            (n - 1) as nat,
        ));
    }
}

/// Peels the last cycle off the fired-within predicate.
proof fn lemma_sequencer_fires_snoc(mode: bool, inhibit: bool, reset: bool, c: u64, n: nat)
    ensures
        sequencer_fires_within(mode, inhibit, reset, c, n + 1) == (sequencer_fires_within(
            mode,
            inhibit,
            reset,
            c,
            n,
        ) || sequencer_fires(mode, inhibit, reset && n == 0, sequencer_after(mode, reset, c, n))),
    decreases n,
{
    if n == 0 {
        assert(sequencer_fires_within(mode, inhibit, reset, c, 1) == (sequencer_fires(
            mode,
            inhibit,
            reset,
            c,
        ) || sequencer_fires_within(mode, inhibit, false, sequencer_next(mode, reset, c), 0)));
    } else {
        lemma_sequencer_fires_snoc(
            mode,
            inhibit,
            false,
            sequencer_next(mode, reset, c),
            (n - 1) as nat,
        );
        lemma_sequencer_after_snoc(mode, reset, c, (n - 1) as nat);
        assert(sequencer_fires_within(mode, inhibit, reset, c, n + 1) == (sequencer_fires(
            mode,
            inhibit,
            reset,
            c,
        ) || sequencer_fires_within(
            mode,
            inhibit,
            false,
            sequencer_next(mode, reset, c),
            n,
        )));
        assert(sequencer_fires_within(mode, inhibit, reset, c, n) == (sequencer_fires(
            mode,
            inhibit,
            reset,
            c,
        ) || sequencer_fires_within(
            mode,
            inhibit,
            false,
            sequencer_next(mode, reset, c),
            (n - 1) as nat,
        )));
    }
}

/// The whole audio unit.
pub struct Apu {
    pub pulse1: PulseChannel,
    pub pulse2: PulseChannel,
    pub triangle: TriangleChannel,
    pub noise: NoiseChannel,
    pub dmc: DmcChannel,
    /// CPU cycles since the frame sequencer was last reset.
    pub cycle_count: u64,
    /// False for the 4-step sequence, true for the 5-step sequence.
    pub frame_counter_mode: bool,
    pub frame_counter_interrupt: bool,
    pub irq_inhibit: bool,
    pub reset_sequencer: bool,
    /// Output-rate accumulator: grows by 44100 every CPU cycle and sheds one
    /// CPU frequency's worth per emitted sample.
    pub sample_counter: u32,
    /// Host sync nudge on the per-sample threshold, held within half a
    /// sample either way.
    pub sample_adjustment: i32,
    pub sample_buffer: Vec<MixerLevels>,
}

impl Apu {
    /// Validity of an APU state: the sample accumulator and the sync nudge
    /// stay inside the bands the sample clock arithmetic needs.
    pub open spec fn wf(self) -> bool {
        &&& self.sample_counter <= 2000000
        &&& -22050 <= self.sample_adjustment <= 22050
    }

    pub fn new() -> (r: Self)
        ensures
            r.wf(),
            r.cycle_count == 0,
            !r.frame_counter_mode,
            !r.frame_counter_interrupt,
            !r.irq_inhibit,
            !r.reset_sequencer,
            r.sample_buffer@.len() == 0,
            !r.pulse1.enabled,
            !r.pulse2.enabled,
            !r.triangle.enabled,
            !r.noise.enabled,
            !r.dmc.enabled,
            r.pulse1.channel_id == 1,
            r.pulse2.channel_id == 2,
    {
        Apu {
            pulse1: PulseChannel::new(1),
            pulse2: PulseChannel::new(2),
            triangle: TriangleChannel::new(),
            noise: NoiseChannel::new(),
            dmc: DmcChannel::new(),
            cycle_count: 0,
            frame_counter_mode: false,
            frame_counter_interrupt: false,
            irq_inhibit: false,
            reset_sequencer: false,
            sample_counter: 0,
            sample_adjustment: 0,
            sample_buffer: Vec::new(),
        }
    }

    /// A CPU read of 0x4015: the channel status byte.  Reading clears the
    /// frame-counter interrupt flag and nothing else.
    pub fn read_register(&mut self, addr: u16) -> (r: u8)
        ensures
            addr == 0x4015 ==> (*final(self) == (Apu {
                frame_counter_interrupt: false,
                sample_buffer: final(self).sample_buffer,
                ..*old(self)
            }) && final(self).sample_buffer == old(self).sample_buffer && r == apu_status_byte(
                *old(self),
            )),
            addr != 0x4015 ==> *final(self) == *old(self) && r == 0,
    {
        if addr == 0x4015 {
            let mut value: u8 = 0;
            if self.pulse1.length_counter > 0 {
                value = value + 0x01;
            }
            if self.pulse2.length_counter > 0 {
                value = value + 0x02;
            }
            if self.triangle.length_counter > 0 {
                value = value + 0x04;
            }
            if self.noise.length_counter > 0 {
                value = value + 0x08;
            }
            if self.dmc.bytes_remaining > 0 {
                value = value + 0x10;
            }
            if self.frame_counter_interrupt {
                value = value + 0x40;
            }
            if self.dmc.irq_occurred {
                value = value + 0x80;
            }
            self.frame_counter_interrupt = false;
            value
        } else {
            0
        }
    }

    /// The mixer inputs at this instant.
    pub fn mixer_levels(&self) -> (r: MixerLevels)
        ensures
            r.pulse == pulse_mix_level(*self),
            r.tnd == tnd_mix_level(*self),
    {
        let p1 = self.pulse1.output() as u16;
        let p2 = self.pulse2.output() as u16;
        let t = self.triangle.output() as u16;
        let n = self.noise.output() as u16;
        let d = self.dmc.output() as u16;
        let pulse_sum = p1 + p2;
        let tnd_sum = 3 * t + 2 * n + d;
        MixerLevels {
            pulse: if pulse_sum > 30 {
                30
            } else {
                pulse_sum as u8
            },
            tnd: if tnd_sum > 202 {
                202
            } else {
                tnd_sum as u8
            },
        }
    }

    /// Hands the buffered mixer levels to the caller, leaving an empty
    /// buffer behind.
    pub fn take_samples(&mut self) -> (r: Vec<MixerLevels>)
        ensures
            r@ == old(self).sample_buffer@,
            final(self).sample_buffer@.len() == 0,
            *final(self) == (Apu { sample_buffer: final(self).sample_buffer, ..*old(self) }),
    {
        let mut out: Vec<MixerLevels> = Vec::new();
        core::mem::swap(&mut out, &mut self.sample_buffer);
        out
    }

    /// Nudges the sample clock by a small proportional term so that audio
    /// production tracks the host's consumption; the nudge never exceeds
    /// half a sample per sample.
    pub fn adjust_sample_rate(&mut self, queue_size: usize, target_queue_size: usize)
        ensures
            *final(self) == (Apu {
                sample_adjustment: final(self).sample_adjustment,
                ..*old(self)
            }),
            -22050 <= final(self).sample_adjustment <= 22050,
    {
        let queue = if queue_size > 1000000 {
            1000000
        } else {
            queue_size
        };
        let target = if target_queue_size > 1000000 {
            1000000
        } else {
            target_queue_size
        };
        let error: i64 = queue as i64 - target as i64;
        let scaled: i64 = error * 441 / 1000;
        self.sample_adjustment = if scaled > 22050 {
            22050
        } else if scaled < -22050 {
            -22050
        } else {
            scaled as i32
        };
    }

    /// A CPU write to an APU register.  The contract pins the registers the
    /// sequencer and the channel gates depend on: 0x4015 enables channels and
    /// clears stopped length counters, 0x4017 sets the sequencer mode and the
    /// IRQ inhibit (clearing a pending frame interrupt when inhibited) and
    /// schedules a sequencer reset; the per-channel registers load timers,
    /// length counters and envelopes.
    pub fn write_register(&mut self, addr: u16, value: u8)
        ensures
            final(self).sample_counter == old(self).sample_counter,
            final(self).sample_adjustment == old(self).sample_adjustment,
            final(self).sample_buffer == old(self).sample_buffer,
            final(self).cycle_count == old(self).cycle_count,
            addr == 0x4017 ==> final(self).frame_counter_mode == ((value & 0x80) != 0)
                && final(self).irq_inhibit == ((value & 0x40) != 0)
                && final(self).reset_sequencer
                && ((value & 0x40) != 0 ==> !final(self).frame_counter_interrupt)
                && ((value & 0x40) == 0 ==> final(self).frame_counter_interrupt
                    == old(self).frame_counter_interrupt),
            addr != 0x4017 ==> final(self).frame_counter_mode == old(self).frame_counter_mode
                && final(self).irq_inhibit == old(self).irq_inhibit
                && final(self).reset_sequencer == old(self).reset_sequencer
                && final(self).frame_counter_interrupt == old(self).frame_counter_interrupt,
            addr == 0x4015 ==> final(self).pulse1.enabled == ((value & 0x01) != 0)
                && final(self).pulse2.enabled == ((value & 0x02) != 0)
                && final(self).triangle.enabled == ((value & 0x04) != 0)
                && final(self).noise.enabled == ((value & 0x08) != 0)
                && final(self).dmc.enabled == ((value & 0x10) != 0)
                && ((value & 0x01) == 0 ==> final(self).pulse1.length_counter == 0)
                && ((value & 0x02) == 0 ==> final(self).pulse2.length_counter == 0)
                && ((value & 0x04) == 0 ==> final(self).triangle.length_counter == 0)
                && ((value & 0x08) == 0 ==> final(self).noise.length_counter == 0)
                && ((value & 0x01) != 0 ==> final(self).pulse1.length_counter == old(self).pulse1.length_counter)
                && ((value & 0x02) != 0 ==> final(self).pulse2.length_counter == old(self).pulse2.length_counter)
                && ((value & 0x04) != 0 ==> final(self).triangle.length_counter == old(self).triangle.length_counter)
                && ((value & 0x08) != 0 ==> final(self).noise.length_counter == old(self).noise.length_counter)
                && ((value & 0x10) == 0 ==> final(self).dmc.bytes_remaining == 0)
                && ((value & 0x10) != 0 && old(self).dmc.bytes_remaining == 0
                    ==> final(self).dmc.current_address == old(self).dmc.sample_address
                    && final(self).dmc.bytes_remaining == old(self).dmc.sample_length)
                && ((value & 0x10) != 0 && old(self).dmc.bytes_remaining > 0
                    ==> final(self).dmc.current_address == old(self).dmc.current_address
                    && final(self).dmc.bytes_remaining == old(self).dmc.bytes_remaining)
                && !final(self).dmc.irq_occurred,
            // Registers that no clause of the written address reaches stay put.
            !(0x4000 <= addr <= 0x4003 || addr == 0x4015) ==> final(self).pulse1
                == old(self).pulse1,
            !(0x4004 <= addr <= 0x4007 || addr == 0x4015) ==> final(self).pulse2
                == old(self).pulse2,
            !(addr == 0x4008 || addr == 0x400A || addr == 0x400B || addr == 0x4015)
                ==> final(self).triangle == old(self).triangle,
            !(addr == 0x400C || addr == 0x400E || addr == 0x400F || addr == 0x4015)
                ==> final(self).noise == old(self).noise,
            !(0x4010 <= addr <= 0x4013 || addr == 0x4015) ==> final(self).dmc == old(self).dmc,
            // The per-channel register map, carried up from the setters.
            addr == 0x4000 ==> final(self).pulse1 == (PulseChannel {
                duty_cycle: (value >> 6) & 0x03,
                length_counter_halt: (value & 0x20) != 0,
                constant_volume: (value & 0x10) != 0,
                envelope: (Envelope {
                    loop_flag: (value & 0x20) != 0,
                    volume: value & 0x0F,
                    ..old(self).pulse1.envelope
                }),
                ..old(self).pulse1
            }),
            addr == 0x4004 ==> final(self).pulse2 == (PulseChannel {
                duty_cycle: (value >> 6) & 0x03,
                length_counter_halt: (value & 0x20) != 0,
                constant_volume: (value & 0x10) != 0,
                envelope: (Envelope {
                    loop_flag: (value & 0x20) != 0,
                    volume: value & 0x0F,
                    ..old(self).pulse2.envelope
                }),
                ..old(self).pulse2
            }),
            addr == 0x4001 ==> final(self).pulse1.sweep.enabled == ((value & 0x80) != 0)
                && final(self).pulse1.sweep.period == ((value >> 4) & 0x07)
                && final(self).pulse1.sweep.negate == ((value & 0x08) != 0)
                && final(self).pulse1.sweep.shift == (value & 0x07)
                && final(self).pulse1.sweep.reload
                && final(self).pulse1.timer == old(self).pulse1.timer
                && final(self).pulse1.length_counter == old(self).pulse1.length_counter,
            addr == 0x4005 ==> final(self).pulse2.sweep.enabled == ((value & 0x80) != 0)
                && final(self).pulse2.sweep.period == ((value >> 4) & 0x07)
                && final(self).pulse2.sweep.negate == ((value & 0x08) != 0)
                && final(self).pulse2.sweep.shift == (value & 0x07)
                && final(self).pulse2.sweep.reload
                && final(self).pulse2.timer == old(self).pulse2.timer
                && final(self).pulse2.length_counter == old(self).pulse2.length_counter,
            addr == 0x4002 ==> final(self).pulse1.timer == ((old(self).pulse1.timer & 0xFF00)
                | value as u16) && final(self).pulse1.length_counter
                == old(self).pulse1.length_counter && final(self).pulse1.envelope
                == old(self).pulse1.envelope,
            addr == 0x4006 ==> final(self).pulse2.timer == ((old(self).pulse2.timer & 0xFF00)
                | value as u16) && final(self).pulse2.length_counter
                == old(self).pulse2.length_counter && final(self).pulse2.envelope
                == old(self).pulse2.envelope,
            addr == 0x4003 ==> final(self).pulse1.timer == ((old(self).pulse1.timer & 0x00FF)
                | (((value & 0x07) as u16) << 8)),
            addr == 0x4007 ==> final(self).pulse2.timer == ((old(self).pulse2.timer & 0x00FF)
                | (((value & 0x07) as u16) << 8)),
            addr == 0x400A ==> final(self).triangle == (TriangleChannel {
                timer: (old(self).triangle.timer & 0xFF00) | value as u16,
                ..old(self).triangle
            }),
            addr == 0x400B ==> final(self).triangle.timer == ((old(self).triangle.timer & 0x00FF)
                | (((value & 0x07) as u16) << 8)),
            addr == 0x400C ==> final(self).noise == (NoiseChannel {
                length_counter_halt: (value & 0x20) != 0,
                constant_volume: (value & 0x10) != 0,
                envelope: (Envelope {
                    loop_flag: (value & 0x20) != 0,
                    volume: value & 0x0F,
                    ..old(self).noise.envelope
                }),
                ..old(self).noise
            }),
            addr == 0x400E ==> final(self).noise.mode == ((value & 0x80) != 0)
                && final(self).noise.length_counter == old(self).noise.length_counter
                && final(self).noise.shift_register == old(self).noise.shift_register,
            addr == 0x4010 ==> final(self).dmc.irq_enabled == ((value & 0x80) != 0)
                && final(self).dmc.loop_flag == ((value & 0x40) != 0)
                && ((value & 0x80) == 0 ==> !final(self).dmc.irq_occurred)
                && ((value & 0x80) != 0 ==> final(self).dmc.irq_occurred
                    == old(self).dmc.irq_occurred)
                && final(self).dmc.enabled == old(self).dmc.enabled
                && final(self).dmc.output_level == old(self).dmc.output_level
                && final(self).dmc.bytes_remaining == old(self).dmc.bytes_remaining,
            addr == 0x4003 && old(self).pulse1.enabled ==> final(self).pulse1.length_counter
                == spec_length_value((value >> 3) & 0x1F) && final(self).pulse1.duty_step == 0
                && final(self).pulse1.envelope.start,
            addr == 0x4007 && old(self).pulse2.enabled ==> final(self).pulse2.length_counter
                == spec_length_value((value >> 3) & 0x1F) && final(self).pulse2.duty_step == 0
                && final(self).pulse2.envelope.start,
            addr == 0x400B && old(self).triangle.enabled ==> final(self).triangle.length_counter
                == spec_length_value((value >> 3) & 0x1F)
                && final(self).triangle.linear_counter_reload_flag,
            addr == 0x400F && old(self).noise.enabled ==> final(self).noise.length_counter
                == spec_length_value((value >> 3) & 0x1F) && final(self).noise.envelope.start,
            addr == 0x4008 ==> final(self).triangle.length_counter_halt == ((value & 0x80) != 0)
                && final(self).triangle.linear_counter_reload == (value & 0x7F),
            addr == 0x4011 ==> final(self).dmc.output_level == (value & 0x7F),
            addr == 0x4012 ==> final(self).dmc.sample_address == (0xC000 | ((value as u16) << 6)),
            addr == 0x4013 ==> final(self).dmc.sample_length == (((value as u16) << 4) | 1),
    {
        if addr == 0x4000 {
            self.pulse1.set_control(value);
        } else if addr == 0x4001 {
            self.pulse1.set_sweep(value);
        } else if addr == 0x4002 {
            self.pulse1.set_timer_low(value);
        } else if addr == 0x4003 {
            self.pulse1.set_timer_high(value);
        } else if addr == 0x4004 {
            self.pulse2.set_control(value);
        } else if addr == 0x4005 {
            self.pulse2.set_sweep(value);
        } else if addr == 0x4006 {
            self.pulse2.set_timer_low(value);
        } else if addr == 0x4007 {
            self.pulse2.set_timer_high(value);
        } else if addr == 0x4008 {
            self.triangle.set_control(value);
        } else if addr == 0x400A {
            self.triangle.set_timer_low(value);
        } else if addr == 0x400B {
            self.triangle.set_timer_high(value);
        } else if addr == 0x400C {
            self.noise.set_control(value);
        } else if addr == 0x400E {
            self.noise.set_mode(value);
        } else if addr == 0x400F {
            self.noise.set_length(value);
        } else if addr == 0x4010 {
            self.dmc.set_control(value);
        } else if addr == 0x4011 {
            self.dmc.set_level(value);
        } else if addr == 0x4012 {
            self.dmc.set_address(value);
        } else if addr == 0x4013 {
            self.dmc.set_length(value);
        } else if addr == 0x4015 {
            self.pulse1.enabled = (value & 0x01) != 0;
            self.pulse2.enabled = (value & 0x02) != 0;
            self.triangle.enabled = (value & 0x04) != 0;
            self.noise.enabled = (value & 0x08) != 0;
            self.dmc.enabled = (value & 0x10) != 0;
            if !self.pulse1.enabled {
                self.pulse1.length_counter = 0;
            }
            if !self.pulse2.enabled {
                self.pulse2.length_counter = 0;
            }
            if !self.triangle.enabled {
                self.triangle.length_counter = 0;
            }
            if !self.noise.enabled {
                self.noise.length_counter = 0;
            }
            if !self.dmc.enabled {
                self.dmc.bytes_remaining = 0;
            } else if self.dmc.bytes_remaining == 0 {
                self.dmc.current_address = self.dmc.sample_address;
                self.dmc.bytes_remaining = self.dmc.sample_length;
            }
            self.dmc.irq_occurred = false;
        } else if addr == 0x4017 {
            self.frame_counter_mode = (value & 0x80) != 0;
            self.irq_inhibit = (value & 0x40) != 0;
            if self.irq_inhibit {
                self.frame_counter_interrupt = false;
            }
            self.reset_sequencer = true;
        }
    }

    /// A quarter-frame clock: envelopes and the triangle's linear counter.
    fn clock_quarter_frame(&mut self)
        ensures
            final(self).frame_counter_interrupt == old(self).frame_counter_interrupt,
            final(self).frame_counter_mode == old(self).frame_counter_mode,
            final(self).irq_inhibit == old(self).irq_inhibit,
            final(self).reset_sequencer == old(self).reset_sequencer,
            final(self).cycle_count == old(self).cycle_count,
            final(self).dmc == old(self).dmc,
            final(self).sample_counter == old(self).sample_counter,
            final(self).sample_adjustment == old(self).sample_adjustment,
            final(self).sample_buffer == old(self).sample_buffer,
            final(self).pulse1.length_counter == old(self).pulse1.length_counter,
            final(self).pulse2.length_counter == old(self).pulse2.length_counter,
            final(self).triangle.length_counter == old(self).triangle.length_counter,
            final(self).noise.length_counter == old(self).noise.length_counter,
            final(self).pulse1.length_counter_halt == old(self).pulse1.length_counter_halt,
            final(self).pulse2.length_counter_halt == old(self).pulse2.length_counter_halt,
            final(self).triangle.length_counter_halt == old(self).triangle.length_counter_halt,
            final(self).noise.length_counter_halt == old(self).noise.length_counter_halt,
            old(self).triangle.linear_counter_reload_flag ==> final(self).triangle.linear_counter
                == old(self).triangle.linear_counter_reload,
            (!old(self).triangle.linear_counter_reload_flag && old(self).triangle.linear_counter
                > 0) ==> final(self).triangle.linear_counter == old(self).triangle.linear_counter
                - 1,
            (!old(self).triangle.linear_counter_reload_flag && old(self).triangle.linear_counter
                == 0) ==> final(self).triangle.linear_counter == 0,
    {
        self.pulse1.envelope.clock();
        self.pulse2.envelope.clock();
        self.noise.envelope.clock();
        if self.triangle.linear_counter_reload_flag {
            self.triangle.linear_counter = self.triangle.linear_counter_reload;
        } else if self.triangle.linear_counter > 0 {
            self.triangle.linear_counter = self.triangle.linear_counter - 1;
        }
        if !self.triangle.length_counter_halt {
            self.triangle.linear_counter_reload_flag = false;
        }
    }

    /// A half-frame clock: length counters and sweep units.
    fn clock_half_frame(&mut self)
        ensures
            final(self).frame_counter_interrupt == old(self).frame_counter_interrupt,
            final(self).frame_counter_mode == old(self).frame_counter_mode,
            final(self).irq_inhibit == old(self).irq_inhibit,
            final(self).reset_sequencer == old(self).reset_sequencer,
            final(self).cycle_count == old(self).cycle_count,
            final(self).dmc == old(self).dmc,
            final(self).sample_counter == old(self).sample_counter,
            final(self).sample_adjustment == old(self).sample_adjustment,
            final(self).sample_buffer == old(self).sample_buffer,
            (!old(self).pulse1.length_counter_halt && old(self).pulse1.length_counter > 0)
                ==> final(self).pulse1.length_counter == old(self).pulse1.length_counter - 1,
            (!old(self).pulse2.length_counter_halt && old(self).pulse2.length_counter > 0)
                ==> final(self).pulse2.length_counter == old(self).pulse2.length_counter - 1,
            (!old(self).triangle.length_counter_halt && old(self).triangle.length_counter > 0)
                ==> final(self).triangle.length_counter == old(self).triangle.length_counter - 1,
            (!old(self).noise.length_counter_halt && old(self).noise.length_counter > 0)
                ==> final(self).noise.length_counter == old(self).noise.length_counter - 1,
            (old(self).pulse1.length_counter_halt || old(self).pulse1.length_counter == 0)
                ==> final(self).pulse1.length_counter == old(self).pulse1.length_counter,
            (old(self).triangle.length_counter_halt || old(self).triangle.length_counter == 0)
                ==> final(self).triangle.length_counter == old(self).triangle.length_counter,
    {
        if !self.pulse1.length_counter_halt && self.pulse1.length_counter > 0 {
            self.pulse1.length_counter = self.pulse1.length_counter - 1;
        }
        if !self.pulse2.length_counter_halt && self.pulse2.length_counter > 0 {
            self.pulse2.length_counter = self.pulse2.length_counter - 1;
        }
        if !self.triangle.length_counter_halt && self.triangle.length_counter > 0 {
            self.triangle.length_counter = self.triangle.length_counter - 1;
        }
        if !self.noise.length_counter_halt && self.noise.length_counter > 0 {
            self.noise.length_counter = self.noise.length_counter - 1;
        }
        let mut timer1 = self.pulse1.timer;
        self.pulse1.sweep.clock(&mut timer1, self.pulse1.mute, 1);
        self.pulse1.timer = timer1;
        self.pulse1.update_target_period();
        let mut timer2 = self.pulse2.timer;
        self.pulse2.sweep.clock(&mut timer2, self.pulse2.mute, 2);
        self.pulse2.timer = timer2;
        self.pulse2.update_target_period();
    }

    /// One CPU cycle of the APU: waveform timers at their own rates, the DMC
    /// memory reader, the frame sequencer at its exact cycle counts, and the
    /// sample clock.
    ///
    /// The contract pins the frame-counter interrupt: in 4-step mode it
    /// rises exactly when the sequencer reaches cycle 29829 with the inhibit
    /// bit clear, and the sequencer then starts over.
    pub fn step_cycle(&mut self, ram: &[u8; 0x800], prg_rom: &Vec<u8>) -> (r: bool)
        requires
            old(self).wf(),
        ensures
            final(self).wf(),
            final(self).frame_counter_mode == old(self).frame_counter_mode,
            final(self).irq_inhibit == old(self).irq_inhibit,
            !final(self).reset_sequencer,
            final(self).cycle_count == sequencer_next(
                old(self).frame_counter_mode,
                old(self).reset_sequencer,
                old(self).cycle_count,
            ),
            sequencer_fires(
                old(self).frame_counter_mode,
                old(self).irq_inhibit,
                old(self).reset_sequencer,
                old(self).cycle_count,
            ) ==> final(self).frame_counter_interrupt && r,
            !sequencer_fires(
                old(self).frame_counter_mode,
                old(self).irq_inhibit,
                old(self).reset_sequencer,
                old(self).cycle_count,
            ) ==> final(self).frame_counter_interrupt == old(self).frame_counter_interrupt,
            r ==> sequencer_fires(
                old(self).frame_counter_mode,
                old(self).irq_inhibit,
                old(self).reset_sequencer,
                old(self).cycle_count,
            ) || final(self).dmc.irq_occurred,
            old(self).frame_counter_interrupt ==> final(self).frame_counter_interrupt,
            old(self).dmc.irq_occurred ==> final(self).dmc.irq_occurred,
            old(self).sample_buffer@.is_prefix_of(final(self).sample_buffer@),
            final(self).sample_buffer@.len() <= old(self).sample_buffer@.len() + 1,
            // A scheduled reset consumed in 5-step mode clocks the quarter
            // and half frame immediately: running, unhalted length counters
            // step down and the linear counter takes its reload.
            (old(self).reset_sequencer && old(self).frame_counter_mode
                && !old(self).pulse1.length_counter_halt && old(self).pulse1.length_counter > 0)
                ==> final(self).pulse1.length_counter == old(self).pulse1.length_counter - 1,
            (old(self).reset_sequencer && old(self).frame_counter_mode
                && !old(self).pulse2.length_counter_halt && old(self).pulse2.length_counter > 0)
                ==> final(self).pulse2.length_counter == old(self).pulse2.length_counter - 1,
            (old(self).reset_sequencer && old(self).frame_counter_mode
                && !old(self).triangle.length_counter_halt && old(self).triangle.length_counter
                > 0) ==> final(self).triangle.length_counter == old(self).triangle.length_counter
                - 1,
            (old(self).reset_sequencer && old(self).frame_counter_mode
                && !old(self).noise.length_counter_halt && old(self).noise.length_counter > 0)
                ==> final(self).noise.length_counter == old(self).noise.length_counter - 1,
            (old(self).reset_sequencer && !old(self).frame_counter_mode)
                ==> final(self).pulse1.length_counter == old(self).pulse1.length_counter
                && final(self).pulse2.length_counter == old(self).pulse2.length_counter
                && final(self).triangle.length_counter == old(self).triangle.length_counter
                && final(self).noise.length_counter == old(self).noise.length_counter,
    {
        let mut irq = false;
        if self.reset_sequencer {
            self.reset_sequencer = false;
            if self.frame_counter_mode {
                self.clock_quarter_frame();
                self.clock_half_frame();
            }
            self.cycle_count = 0;
        }
        if self.cycle_count % 2 == 1 {
            self.pulse1.clock_timer();
            self.pulse2.clock_timer();
            self.noise.clock_timer();
        }
        self.triangle.clock_timer();
        if self.dmc.clock(ram, prg_rom) {
            irq = true;
        }
        if self.frame_counter_mode {
            if self.cycle_count == 7457 {
                self.clock_quarter_frame();
            } else if self.cycle_count == 14913 {
                self.clock_quarter_frame();
                self.clock_half_frame();
            } else if self.cycle_count == 22371 {
                self.clock_quarter_frame();
            } else if self.cycle_count == 37281 {
                self.clock_quarter_frame();
                self.clock_half_frame();
                self.cycle_count = 0;
            }
        } else {
            if self.cycle_count == 7457 {
                self.clock_quarter_frame();
            } else if self.cycle_count == 14913 {
                self.clock_quarter_frame();
                self.clock_half_frame();
            } else if self.cycle_count == 22371 {
                self.clock_quarter_frame();
            } else if self.cycle_count == 29829 {
                self.clock_quarter_frame();
                self.clock_half_frame();
                if !self.irq_inhibit {
                    self.frame_counter_interrupt = true;
                    irq = true;
                }
                self.cycle_count = 0;
            }
        }
        self.sample_counter = self.sample_counter + OUTPUT_SAMPLE_RATE;
        let threshold_signed: i64 = CPU_FREQUENCY as i64 + self.sample_adjustment as i64;
        let threshold: u32 = threshold_signed as u32;
        if self.sample_counter >= threshold {
            self.sample_counter = self.sample_counter - threshold;
            let levels = self.mixer_levels();
            self.sample_buffer.push(levels);
        }
        if self.cycle_count < 0xFFFFFFFFFFFFFFFF {
            self.cycle_count = self.cycle_count + 1;
        }
        irq
    }

    /// Advances the APU by a number of CPU cycles; true when any of those
    /// cycles raised the frame-counter or DMC interrupt.
    ///
    /// The contract carries the per-cycle sequencer law across the batch:
    /// the cycle counter ends where `cpu_cycles` steps of the sequencer
    /// leave it, the frame interrupt rises exactly when one of those steps
    /// crossed the final step of the 4-step sequence with the inhibit bit
    /// clear, and the result reports that crossing (or a DMC interrupt).
    pub fn step(&mut self, cpu_cycles: u64, ram: &[u8; 0x800], prg_rom: &Vec<u8>) -> (r: bool)
        requires
            old(self).wf(),
        ensures
            final(self).wf(),
            final(self).frame_counter_mode == old(self).frame_counter_mode,
            final(self).irq_inhibit == old(self).irq_inhibit,
            final(self).reset_sequencer == (old(self).reset_sequencer && cpu_cycles == 0),
            final(self).cycle_count == sequencer_after(
                old(self).frame_counter_mode,
                old(self).reset_sequencer,
                old(self).cycle_count,
                cpu_cycles as nat,
            ),
            final(self).frame_counter_interrupt == (old(self).frame_counter_interrupt
                || sequencer_fires_within(
                old(self).frame_counter_mode,
                old(self).irq_inhibit,
                old(self).reset_sequencer,
                old(self).cycle_count,
                cpu_cycles as nat,
            )),
            sequencer_fires_within(
                old(self).frame_counter_mode,
                old(self).irq_inhibit,
                old(self).reset_sequencer,
                old(self).cycle_count,
                cpu_cycles as nat,
            ) ==> r,
            r ==> sequencer_fires_within(
                old(self).frame_counter_mode,
                old(self).irq_inhibit,
                old(self).reset_sequencer,
                old(self).cycle_count,
                cpu_cycles as nat,
            ) || final(self).dmc.irq_occurred,
            old(self).dmc.irq_occurred ==> final(self).dmc.irq_occurred,
            old(self).sample_buffer@.is_prefix_of(final(self).sample_buffer@),
    {
        let ghost m0 = self.frame_counter_mode;
        let ghost i0 = self.irq_inhibit;
        let ghost r0 = self.reset_sequencer;
        let ghost c0 = self.cycle_count;
        let mut irq = false;
        let mut i: u64 = 0;
        while i < cpu_cycles
            invariant
                self.wf(),
                i <= cpu_cycles,
                self.frame_counter_mode == m0,
                self.irq_inhibit == i0,
                self.reset_sequencer == (r0 && i == 0),
                self.cycle_count == sequencer_after(m0, r0, c0, i as nat),
                self.frame_counter_interrupt == (old(self).frame_counter_interrupt
                    || sequencer_fires_within(m0, i0, r0, c0, i as nat)),
                sequencer_fires_within(m0, i0, r0, c0, i as nat) ==> irq,
                irq ==> sequencer_fires_within(m0, i0, r0, c0, i as nat)
                    || self.dmc.irq_occurred,
                old(self).dmc.irq_occurred ==> self.dmc.irq_occurred,
                old(self).sample_buffer@.is_prefix_of(self.sample_buffer@),
            decreases cpu_cycles - i,
        {
            proof {
                lemma_sequencer_after_snoc(m0, r0, c0, i as nat);
                lemma_sequencer_fires_snoc(m0, i0, r0, c0, i as nat);
            }
            let fired = self.step_cycle(ram, prg_rom);
            if fired {
                irq = true;
            }
            i = i + 1;
        }
        irq
    }
}

} // verus!
