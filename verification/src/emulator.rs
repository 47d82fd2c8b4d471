//! The frame driver: runs CPU, PPU and APU in lockstep for exactly one NTSC
//! frame per call, delivering interrupts between instructions, and exposes
//! the session surface the host consumes — framebuffer, audio levels,
//! buttons and battery RAM.

use crate::apu::MixerLevels;
use crate::cartridge::Cartridge;
use crate::cartridge::CartridgeError;
use crate::cartridge::ines_body_ok;
use crate::cartridge::ines_magic_ok;
use crate::cartridge::ines_mapper_id;
use crate::cartridge::ines_ok;
use crate::cpu::Cpu;
use crate::cpu::FLAG_I;
use crate::cpu::Interrupt;
use crate::cpu::CpuBus;
use crate::input::NesButton;
use crate::input::with_button;
use crate::memory::MemoryBus;
use crate::ppu::dot_of;
use crate::trace::TraceState;
use vstd::prelude::*;

verus! {

/// Dots per NTSC frame: 262 scanlines of 341 dots.
pub const PPU_CYCLES_PER_FRAME: u64 = 89342;

/// One running console: the CPU, the bus that owns everything else, and the
/// frame clock.  The whole emulator is a value; independent sessions never
/// share state.
pub struct Emulator {
    pub cpu: Cpu,
    pub memory: MemoryBus,
    /// Thirds of a CPU cycle owed: each dot deposits one third, each CPU
    /// cycle spends three.
    pub cpu_cycle_accumulator: i32,
    pub frame_count: u64,
    pub total_ppu_cycles: u64,
    pub trace: TraceState,
    /// Ghost dot ledger: every PPU dot stepped since power-on, the odd-frame
    /// skip counted as a dot.  `wf` ties it to the PPU's own frame counter
    /// and dot position, so it can only grow by really stepping the PPU.
    pub dots: Ghost<int>,
    /// Ghost frame ledger: full frames the PPU has wrapped through since
    /// power-on, the unwrapped shadow of the PPU's 64-bit frame counter.
    pub frames: Ghost<int>,
}

impl Emulator {
    /// Validity of a session: the bus is valid, the cycle accumulator sits
    /// in the band the frame loop keeps it in (a CPU instruction can
    /// overdraw at most seven cycles beyond the one that was due), and the
    /// ghost dot ledger agrees with the PPU's frame counter and dot
    /// position.
    pub open spec fn wf(self) -> bool {
        &&& self.memory.wf()
        &&& -21 <= self.cpu_cycle_accumulator <= 3
        &&& self.frames@ >= 0
        &&& self.dots@ == self.frames@ * 89342 + dot_of(
            self.memory.ppu.scanline,
            self.memory.ppu.cycle,
        )
        &&& self.memory.ppu.frame as int == self.frames@ % 0x10000000000000000
    }

    /// Boots a console around a loaded cartridge: the CPU comes out of
    /// RESET with the vector from the cartridge.
    pub fn new(cartridge: Cartridge, trace: bool) -> (r: Self)
        requires
            cartridge.wf(),
        ensures
            r.wf(),
            r.frame_count == 0,
            r.total_ppu_cycles == 0,
            r.cpu_cycle_accumulator == 0,
            r.trace.enabled == trace,
            r.memory.cartridge == cartridge,
    {
        let mut memory = MemoryBus::new(cartridge);
        let mut cpu = Cpu::new();
        cpu.sp = cpu.sp.wrapping_sub(3);
        cpu.status = cpu.status | FLAG_I;
        let lo = memory.read(0xFFFC) as u16;
        let hi = memory.read(0xFFFD) as u16;
        cpu.pc = hi * 0x100 + lo;
        Emulator {
            cpu,
            memory,
            cpu_cycle_accumulator: 0,
            frame_count: 0,
            total_ppu_cycles: 0,
            trace: TraceState::new(trace),
            dots: Ghost(0),
            frames: Ghost(0),
        }
    }

    /// Parses an iNES image and boots a session from it; the parse errors
    /// surface unchanged.
    pub fn load_rom(data: &Vec<u8>, trace: bool) -> (r: Result<Emulator, CartridgeError>)
        ensures
            ((r is Ok) <==> ines_ok(data@)),
            (r matches Ok(session) ==> session.wf() && session.frame_count == 0),
            !ines_magic_ok(data@) ==> r == Err::<Emulator, CartridgeError>(
                CartridgeError::InvalidHeader,
            ),
            ines_magic_ok(data@) && !ines_body_ok(data@) ==> r == Err::<Emulator, CartridgeError>(
                CartridgeError::InvalidHeader,
            ),
            ines_magic_ok(data@) && ines_body_ok(data@) && ines_mapper_id(data@) > 4 ==> r == Err::<
                Emulator,
                CartridgeError,
            >(CartridgeError::UnsupportedMapper(ines_mapper_id(data@))),
    {
        match Cartridge::load(data) {
            Result::Ok(cartridge) => Result::Ok(Emulator::new(cartridge, trace)),
            Result::Err(e) => Result::Err(e),
        }
    }

    /// Hands a pending interrupt line to the CPU.
    fn deliver_interrupt(&mut self, line: Interrupt)
        requires
            old(self).wf(),
        ensures
            final(self).wf(),
            final(self).cpu_cycle_accumulator == old(self).cpu_cycle_accumulator,
            final(self).frame_count == old(self).frame_count,
            final(self).total_ppu_cycles == old(self).total_ppu_cycles,
            final(self).dots == old(self).dots,
            final(self).frames == old(self).frames,
            final(self).memory.ppu_clock() == old(self).memory.ppu_clock(),
    {
        match line {
            Interrupt::Nmi => self.cpu.trigger_nmi(&mut self.memory),
            Interrupt::Irq => self.cpu.trigger_irq(&mut self.memory),
            Interrupt::Inactive => {},
        }
    }

    /// Runs exactly one NTSC frame: 89342 dots of the PPU, with the CPU fed
    /// a third of a cycle per dot and the APU following the CPU, and with
    /// NMI, mapper IRQ and APU IRQ lines delivered at instruction
    /// boundaries.
    ///
    /// The ghost dot ledger, which `wf` locks to the PPU's frame counter
    /// and dot position, grows by at least one full frame of dots — more
    /// only by the odd-frame skips — so a call really advances the picture
    /// unit through a frame; nothing else in a session moves that ledger.
    pub fn step_frame(&mut self)
        requires
            old(self).wf(),
        ensures
            final(self).wf(),
            final(self).total_ppu_cycles == vstd::wrapping::u64_specs::wrapping_add(
                old(self).total_ppu_cycles,
                PPU_CYCLES_PER_FRAME,
            ),
            old(self).total_ppu_cycles + PPU_CYCLES_PER_FRAME <= 0xFFFFFFFFFFFFFFFF ==> final(self).total_ppu_cycles == old(self).total_ppu_cycles + PPU_CYCLES_PER_FRAME,
            final(self).frame_count == vstd::wrapping::u64_specs::wrapping_add(
                old(self).frame_count,
                1,
            ),
            old(self).dots@ + 89342 <= final(self).dots@ <= old(self).dots@ + 2 * 89342,
            old(self).frames@ + 1 <= final(self).frames@ <= old(self).frames@ + 2,
    {
        let mut steps: u64 = 0;
        while steps < PPU_CYCLES_PER_FRAME
            invariant
                self.wf(),
                steps <= PPU_CYCLES_PER_FRAME,
                self.total_ppu_cycles == vstd::wrapping::u64_specs::wrapping_add(
                    old(self).total_ppu_cycles,
                    steps,
                ),
                self.frame_count == old(self).frame_count,
                old(self).dots@ + steps <= self.dots@ <= old(self).dots@ + 2 * steps,
                old(self).frames@ <= self.frames@,
            decreases PPU_CYCLES_PER_FRAME - steps,
        {
            let at_skip = self.memory.ppu.scanline == -1 && self.memory.ppu.cycle == 339 && (
            self.memory.ppu.mask & 0x18) != 0 && self.memory.ppu.frame % 2 == 1;
            let at_wrap = self.memory.ppu.scanline == 260 && self.memory.ppu.cycle == 340;
            let ghost pre_scanline = self.memory.ppu.scanline;
            let ghost pre_cycle = self.memory.ppu.cycle;
            let ghost pre_frames = self.frames@;
            let nmi = self.memory.step_ppu();
            self.dots = Ghost(
                self.dots@ + if at_skip {
                    2int
                } else {
                    1int
                },
            );
            self.frames = Ghost(
                self.frames@ + if at_wrap {
                    1int
                } else {
                    0int
                },
            );
            proof {
                let p0 = dot_of(pre_scanline, pre_cycle);
                assert(0 <= p0 <= 89341);
                if at_wrap {
                    assert(p0 == 89341);
                    vstd::arithmetic::div_mod::lemma_mod_self_0(89342);
                    vstd::arithmetic::div_mod::lemma_add_mod_noop(
                        pre_frames,
                        1,
                        0x10000000000000000,
                    );
                    vstd::arithmetic::div_mod::lemma_small_mod(1nat, 0x10000000000000000nat);
                    if pre_frames % 0x10000000000000000 < 0xFFFFFFFFFFFFFFFF {
                        vstd::arithmetic::div_mod::lemma_small_mod(
                            (pre_frames % 0x10000000000000000 + 1) as nat,
                            0x10000000000000000nat,
                        );
                    } else {
                        vstd::arithmetic::div_mod::lemma_mod_self_0(0x10000000000000000);
                    }
                } else {
                    assert(p0 != 89341);
                    if at_skip {
                        assert(p0 == 339);
                        vstd::arithmetic::div_mod::lemma_small_mod(341nat, 89342nat);
                    } else {
                        vstd::arithmetic::div_mod::lemma_small_mod(
                            (p0 + 1) as nat,
                            89342nat,
                        );
                    }
                }
            }
            if nmi {
                self.deliver_interrupt(Interrupt::Nmi);
            }
            if self.memory.mapper_irq_pending() && (self.cpu.status & FLAG_I) == 0 {
                self.deliver_interrupt(Interrupt::Irq);
                self.memory.acknowledge_mapper_irq();
            }
            self.cpu_cycle_accumulator = self.cpu_cycle_accumulator + 1;
            let ghost dots_snap = self.dots@;
            let ghost frames_snap = self.frames@;
            let ghost clock_snap = self.memory.ppu_clock();
            while self.cpu_cycle_accumulator >= 3
                invariant
                    self.memory.wf(),
                    -21 <= self.cpu_cycle_accumulator <= 4,
                    self.total_ppu_cycles == vstd::wrapping::u64_specs::wrapping_add(
                        old(self).total_ppu_cycles,
                        steps,
                    ),
                    self.frame_count == old(self).frame_count,
                    self.dots@ == dots_snap,
                    self.frames@ == frames_snap,
                    self.memory.ppu_clock() == clock_snap,
                    frames_snap >= 0,
                    dots_snap == frames_snap * 89342 + dot_of(
                        self.memory.ppu.scanline,
                        self.memory.ppu.cycle,
                    ),
                    self.memory.ppu.frame as int == frames_snap % 0x10000000000000000,
                decreases self.cpu_cycle_accumulator + 21,
            {
                let cpu_cycles = self.cpu.step(&mut self.memory);
                self.cpu_cycle_accumulator = self.cpu_cycle_accumulator - (3 * cpu_cycles) as i32;
                let irq = self.memory.step_apu(cpu_cycles);
                if irq && (self.cpu.status & FLAG_I) == 0 {
                    self.deliver_interrupt(Interrupt::Irq);
                }
            }
            self.total_ppu_cycles = self.total_ppu_cycles.wrapping_add(1);
            steps = steps + 1;
        }
        proof {
            assert(0 <= dot_of(old(self).memory.ppu.scanline, old(self).memory.ppu.cycle)
                <= 89341);
            assert(0 <= dot_of(self.memory.ppu.scanline, self.memory.ppu.cycle) <= 89341);
        }
        self.frame_count = self.frame_count.wrapping_add(1);
    }

    /// The published frame: 256 x 240 bytes of 6-bit palette indices.  The
    /// borrow is read-only, so the frame is stable until the next
    /// `step_frame` call mutates the session.
    pub fn framebuffer(&self) -> (r: &[u8; 61440])
        ensures
            r@ == self.memory.ppu.framebuffer@,
    {
        &self.memory.ppu.framebuffer
    }

    /// Drains the audio mixer levels buffered since the last call.
    pub fn take_audio_samples(&mut self) -> (r: Vec<MixerLevels>)
        requires
            old(self).wf(),
        ensures
            final(self).wf(),
            r@ == old(self).memory.apu.sample_buffer@,
            final(self).memory.apu.sample_buffer@.len() == 0,
            final(self).memory.ppu == old(self).memory.ppu,
    {
        self.memory.apu.take_samples()
    }

    /// Sets one button of one controller; the game observes the change at
    /// its next strobe.
    pub fn set_button(&mut self, controller: u8, button: NesButton, pressed: bool)
        requires
            old(self).wf(),
        ensures
            final(self).wf(),
            final(self).memory.input.strobe == old(self).memory.input.strobe,
            controller == 2 ==> final(self).memory.input.controller2 == with_button(
                old(self).memory.input.controller2,
                button,
                pressed,
            ) && final(self).memory.input.controller1 == old(self).memory.input.controller1,
            controller != 2 ==> final(self).memory.input.controller1 == with_button(
                old(self).memory.input.controller1,
                button,
                pressed,
            ) && final(self).memory.input.controller2 == old(self).memory.input.controller2,
            final(self).memory.ppu == old(self).memory.ppu,
            final(self).cpu == old(self).cpu,
    {
        if controller == 2 {
            self.memory.input.controller2.set_button(button, pressed);
        } else {
            self.memory.input.controller1.set_button(button, pressed);
        }
    }

    /// Whether the loaded cartridge carries battery-backed RAM worth saving.
    pub fn has_battery(&self) -> (r: bool)
        ensures
            r == self.memory.cartridge.has_ram,
    {
        self.memory.cartridge.has_ram
    }

    /// The battery-backed 8 KiB of PRG RAM.
    pub fn sram(&self) -> (r: &[u8; 0x2000])
        ensures
            r@ == self.memory.prg_ram@,
    {
        &self.memory.prg_ram
    }

    /// Loads battery RAM from a save image: a short image fills a prefix
    /// and leaves the rest alone, a long one is truncated.
    pub fn set_sram(&mut self, data: &Vec<u8>)
        requires
            old(self).wf(),
        ensures
            final(self).wf(),
            forall|i: int|
                0 <= i < 0x2000 ==> final(self).memory.prg_ram@[i] == (if i < data@.len() {
                    data@[i]
                } else {
                    old(self).memory.prg_ram@[i]
                }),
            final(self).memory.ppu == old(self).memory.ppu,
            final(self).memory.ram == old(self).memory.ram,
            final(self).cpu == old(self).cpu,
    {
        let mut i: usize = 0;
        while i < data.len() && i < 0x2000
            invariant
                i <= 0x2000,
                i <= data.len(),
                self.memory.wf(),
                *self == (Emulator {
                    memory: (MemoryBus { prg_ram: self.memory.prg_ram, ..old(self).memory }),
                    ..*old(self)
                }),
                forall|j: int|
                    0 <= j < 0x2000 ==> self.memory.prg_ram@[j] == (if j < i {
                        data@[j]
                    } else {
                        old(self).memory.prg_ram@[j]
                    }),
            decreases data.len() - i,
        {
            self.memory.prg_ram[i] = data[i];
            i = i + 1;
        }
    }

    /// Re-runs the CPU RESET sequence; memory keeps its contents.
    pub fn reset(&mut self)
        requires
            old(self).wf(),
        ensures
            final(self).wf(),
            final(self).cpu.sp == vstd::wrapping::u8_specs::wrapping_sub(old(self).cpu.sp, 3),
            final(self).cpu.status == (old(self).cpu.status | FLAG_I),
            final(self).memory.ram == old(self).memory.ram,
            final(self).memory.prg_ram == old(self).memory.prg_ram,
            final(self).memory.ppu == old(self).memory.ppu,
    {
        self.cpu.sp = self.cpu.sp.wrapping_sub(3);
        self.cpu.status = self.cpu.status | FLAG_I;
        let lo = self.memory.read(0xFFFC) as u16;
        let hi = self.memory.read(0xFFFD) as u16;
        self.cpu.pc = hi * 0x100 + lo;
    }

    /// Frames completed since power-on.
    pub fn frame_count(&self) -> (r: u64)
        ensures
            r == self.frame_count,
    {
        self.frame_count
    }

    /// The battery-RAM round trip: after loading a save image of at most
    /// 8 KiB, the saved bytes read back exactly, and the suffix beyond a
    /// short image is untouched.  This follows for every image and every
    /// session from the contracts of `set_sram` and `sram`.
    pub proof fn lemma_sram_round_trip(pre: Emulator, post: Emulator, data: Seq<u8>)
        requires
            data.len() <= 0x2000,
            forall|i: int|
                0 <= i < 0x2000 ==> post.memory.prg_ram@[i] == (if i < data.len() {
                    data[i]
                } else {
                    pre.memory.prg_ram@[i]
                }),
        ensures
            post.memory.prg_ram@.subrange(0, data.len() as int) == data,
            post.memory.prg_ram@.subrange(data.len() as int, 0x2000) == pre.memory.prg_ram@
                .subrange(data.len() as int, 0x2000),
    {
        assert(post.memory.prg_ram@.subrange(0, data.len() as int) =~= data);
        assert(post.memory.prg_ram@.subrange(data.len() as int, 0x2000) =~= pre.memory.prg_ram@
            .subrange(data.len() as int, 0x2000));
    }
}

} // verus!
