//! The memory bus: decodes 16-bit CPU addresses into RAM, PPU registers,
//! APU and input registers, PRG RAM and the cartridge, carries the open-bus
//! latch, and performs OAM DMA.  The bus owns every subsystem for the length
//! of a session.

use crate::apu::Apu;
use crate::apu::apu_status_byte;
use crate::cartridge::Cartridge;
use crate::cartridge::Mapper;
use crate::cartridge::Mmc3Mapper;
use crate::cartridge::mmc3_clocked;
use crate::cpu::CpuBus;
use crate::input::Input;
use crate::input::controller_bit;
use crate::ppu::Ppu;
use crate::ppu::dot_of;
use crate::ppu::palette_index;
use crate::ppu::skips_dot;
use crate::ppu::vram_addr_after_access;
use vstd::prelude::*;

verus! {

/// The byte OAM DMA copies for index `i` of page `page`: the CPU address
/// space at `page << 8`, read without side effects — RAM through its
/// mirrors, PRG RAM, and cartridge space through the mapper; a source page
/// over the register or expansion ranges yields the open-bus latch.
pub open spec fn dma_byte(bus: MemoryBus, page: u8, i: int) -> u8 {
    let src = page * 256 + i;
    if src < 0x2000 {
        bus.ram@[src % 0x800]
    } else if 0x6000 <= src < 0x8000 {
        bus.prg_ram@[src - 0x6000]
    } else if src >= 0x8000 {
        bus.cartridge.mapper.spec_cpu_read(bus.cartridge.prg_rom@, src as u16)
    } else {
        bus.open_bus
    }
}

/// The shared memory bus and every subsystem it owns.
pub struct MemoryBus {
    pub ram: [u8; 0x800],
    pub ppu: Ppu,
    pub apu: Apu,
    pub input: Input,
    pub cartridge: Cartridge,
    pub prg_ram: [u8; 0x2000],
    pub chr_ram: Vec<u8>,
    pub open_bus: u8,
}

impl MemoryBus {
    /// Validity of a bus state: every subsystem is valid and the CHR RAM
    /// buffer has its fixed 8 KiB size.
    pub open spec fn wf(self) -> bool {
        &&& self.ppu.wf()
        &&& self.apu.wf()
        &&& self.cartridge.wf()
        &&& self.chr_ram@.len() == 0x2000
    }

    pub fn new(cartridge: Cartridge) -> (r: Self)
        requires
            cartridge.wf(),
        ensures
            r.wf(),
            r.cartridge == cartridge,
            r.open_bus == 0x40,
            r.ppu.mirroring == cartridge.mirroring,
            r.ppu.scanline == -1,
            r.ppu.cycle == 0,
            r.ppu.frame == 0,
            r.apu.cycle_count == 0,
            !r.apu.frame_counter_mode,
            !r.apu.irq_inhibit,
            forall|i: int| 0 <= i < 0x2000 ==> r.prg_ram@[i] == 0,
            forall|i: int| 0 <= i < 0x800 ==> r.ram@[i] == 0xFF,
    {
        let mut ppu = Ppu::new();
        ppu.set_mirroring(cartridge.mirroring);
        MemoryBus {
            // Power-on RAM reads as set bits, as on the real machine.
            ram: [0xFF; 0x800],
            ppu,
            apu: Apu::new(),
            input: Input::new(),
            cartridge,
            prg_ram: [0; 0x2000],
            chr_ram: crate::cartridge::filled(0x2000, 0),
            open_bus: 0x40,
        }
    }

    /// A CPU read of the bus.  The contract pins the address map and the
    /// open-bus policy: every read updates the latch with the byte it
    /// returns, except the three carve-outs 0x4015/0x4016/0x4017, which
    /// keep the upper latch bits in their result and leave the latch alone;
    /// unmapped ranges return the latch itself.
    pub fn read(&mut self, addr: u16) -> (r: u8)
        requires
            old(self).wf(),
        ensures
            final(self).wf(),
            final(self).ram == old(self).ram,
            final(self).prg_ram == old(self).prg_ram,
            final(self).chr_ram == old(self).chr_ram,
            final(self).cartridge == old(self).cartridge,
            // A register read never advances the video clock.
            final(self).ppu.frame == old(self).ppu.frame,
            final(self).ppu.scanline == old(self).ppu.scanline,
            final(self).ppu.cycle == old(self).ppu.cycle,
            // The open-bus latch.
            !(addr == 0x4015 || addr == 0x4016 || addr == 0x4017) ==> final(self).open_bus == r,
            (addr == 0x4015 || addr == 0x4016 || addr == 0x4017) ==> final(self).open_bus == old(self).open_bus,
            // RAM and its mirrors.
            addr < 0x2000 ==> r == old(self).ram@[addr as int % 0x800],
            // PPU registers: the status read and the buffered data read.
            (0x2000 <= addr < 0x4000 && addr % 8 == 2) ==> r == old(self).ppu.status && final(self).ppu.status == (old(self).ppu.status & 0x7F) && !final(self).ppu.write_toggle,
            (0x2000 <= addr < 0x4000 && addr % 8 == 7) ==> final(self).ppu.vram_addr
                == vram_addr_after_access(old(self).ppu.vram_addr, old(self).ppu.ctrl),
            (0x2000 <= addr < 0x4000 && addr % 8 == 7 && old(self).ppu.vram_addr % 0x4000 >= 0x3F00)
                ==> r == old(self).ppu.palette@[palette_index(old(self).ppu.vram_addr % 0x4000)],
            (0x2000 <= addr < 0x4000 && addr % 8 == 7 && old(self).ppu.vram_addr % 0x4000 < 0x3F00)
                ==> r == old(self).ppu.vram_read_buffer,
            0x2000 <= addr < 0x4000 ==> final(self).apu == old(self).apu && final(self).input
                == old(self).input,
            // APU and input registers.
            0x4000 <= addr <= 0x4013 ==> r == 0 && final(self).ppu == old(self).ppu,
            addr == 0x4014 ==> r == 0x40 && *final(self) == (MemoryBus {
                open_bus: 0x40,
                ..*old(self)
            }),
            addr == 0x4015 ==> r == ((apu_status_byte(old(self).apu) & 0xDF) | (old(self).open_bus
                & 0x20)) && !final(self).apu.frame_counter_interrupt,
            addr == 0x4016 ==> r == ((old(self).open_bus & 0xE0) | (controller_bit(
                old(self).input.controller1,
                old(self).input.strobe,
            ) & 0x1F)),
            addr == 0x4017 ==> r == ((old(self).open_bus & 0xE0) | ((apu_status_byte(old(self).apu)
                | controller_bit(old(self).input.controller2, old(self).input.strobe)) & 0x1F))
                && !final(self).apu.frame_counter_interrupt,
            // Unmapped space returns the latch.
            0x4018 <= addr < 0x6000 ==> r == old(self).open_bus && *final(self) == *old(self),
            // PRG RAM.
            0x6000 <= addr < 0x8000 ==> r == old(self).prg_ram@[addr - 0x6000] && final(self).ppu
                == old(self).ppu,
            // Cartridge space through the mapper.
            addr >= 0x8000 ==> r == old(self).cartridge.mapper.spec_cpu_read(
                old(self).cartridge.prg_rom@,
                addr,
            ) && final(self).ppu == old(self).ppu,
    {
        let result: u8;
        if addr < 0x2000 {
            result = self.ram[(addr as usize) % 0x800];
        } else if addr < 0x4000 {
            result = self.ppu.read_register(addr, &self.cartridge, &self.chr_ram);
        } else if addr <= 0x4013 {
            result = self.apu.read_register(addr);
        } else if addr == 0x4014 {
            result = 0x40;
        } else if addr == 0x4015 {
            let apu_status = self.apu.read_register(addr);
            result = (apu_status & 0xDF) | (self.open_bus & 0x20);
        } else if addr == 0x4016 {
            let bit = self.input.read(0) & 0x1F;
            result = (self.open_bus & 0xE0) | bit;
        } else if addr == 0x4017 {
            let apu_status = self.apu.read_register(0x4015);
            let bit = self.input.read(1);
            result = (self.open_bus & 0xE0) | ((apu_status | bit) & 0x1F);
        } else if addr < 0x6000 {
            result = self.open_bus;
        } else if addr < 0x8000 {
            result = self.prg_ram[(addr - 0x6000) as usize];
        } else {
            result = self.cartridge.cpu_read(addr);
        }
        if addr != 0x4015 && addr != 0x4016 && addr != 0x4017 {
            self.open_bus = result;
        }
        result
    }

    /// A CPU write to the bus: RAM and PRG RAM take the byte, PPU and APU
    /// register ranges hand it to their units (a PPUDATA write into the
    /// pattern space lands in CHR RAM through the cartridge), the strobe
    /// register drives both pads, and a cartridge-space write feeds the
    /// mapper, propagating any mirroring change into the PPU before the
    /// next nametable fetch.
    pub fn write(&mut self, addr: u16, value: u8)
        requires
            old(self).wf(),
        ensures
            final(self).wf(),
            // A register write never advances the video clock.
            final(self).ppu.frame == old(self).ppu.frame,
            final(self).ppu.scanline == old(self).ppu.scanline,
            final(self).ppu.cycle == old(self).ppu.cycle,
            addr < 0x2000 ==> (*final(self) == (MemoryBus { ram: final(self).ram, ..*old(self) })
                && final(self).ram@ == old(self).ram@.update(addr as int % 0x800, value)),
            0x2000 <= addr < 0x4000 ==> final(self).ram == old(self).ram && final(self).apu == old(self).apu && final(self).input == old(self).input && final(self).cartridge == old(self).cartridge,
            (0x4000 <= addr <= 0x4013 || addr == 0x4015 || addr == 0x4017) ==> final(self).ppu
                == old(self).ppu && final(self).ram == old(self).ram && final(self).input == old(self).input && final(self).cartridge == old(self).cartridge,
            addr == 0x4017 ==> final(self).apu.frame_counter_mode == ((value & 0x80) != 0) && final(self).apu.irq_inhibit == ((value & 0x40) != 0) && final(self).apu.reset_sequencer,
            addr == 0x4014 || addr == 0x4016 ==> final(self).ppu == old(self).ppu && final(self).apu == old(self).apu && final(self).ram == old(self).ram,
            addr == 0x4016 ==> final(self).input.strobe == ((value & 0x01) != 0),
            0x4018 <= addr < 0x6000 ==> *final(self) == *old(self),
            0x6000 <= addr < 0x8000 ==> final(self).prg_ram@ == old(self).prg_ram@.update(
                addr - 0x6000,
                value,
            ) && final(self).ppu == old(self).ppu && final(self).ram == old(self).ram,
            addr >= 0x8000 ==> final(self).ram == old(self).ram && final(self).prg_ram == old(self).prg_ram && final(self).apu == old(self).apu && final(self).ppu.mirroring == final(self).cartridge.mapper.mirroring_of(),
            addr >= 0x8000 ==> (old(self).cartridge.mapper matches Mapper::Mmc3(m0) ==> (final(self).cartridge.mapper matches Mapper::Mmc3(m1) && crate::cartridge::mmc3_write_rel(
                m0,
                m1,
                addr,
                value,
            ))),
            addr >= 0x8000 ==> (old(self).cartridge.mapper matches Mapper::Mmc1(m0) ==> (final(self).cartridge.mapper matches Mapper::Mmc1(m1) && crate::cartridge::mmc1_write_rel(
                m0,
                m1,
                addr,
                value,
            ))),
    {
        if addr < 0x2000 {
            self.ram[(addr as usize) % 0x800] = value;
        } else if addr < 0x4000 {
            let chr_write = self.ppu.write_register(addr, value);
            match chr_write {
                Option::Some((chr_addr, chr_value)) => {
                    self.cartridge.ppu_write(chr_addr % 0x2000, chr_value, &mut self.chr_ram);
                },
                Option::None => {},
            }
        } else if addr <= 0x4013 || addr == 0x4015 || addr == 0x4017 {
            self.apu.write_register(addr, value);
        } else if addr == 0x4014 {
            // The DMA itself runs through trigger_oamdma, driven by the CPU.
        } else if addr == 0x4016 {
            self.input.write(value);
        } else if addr < 0x6000 {
            // Expansion space: writes are dropped.
        } else if addr < 0x8000 {
            let slot = (addr - 0x6000) as usize;
            self.prg_ram[slot] = value;
        } else {
            // Feed the mapper, then re-read its mirroring so that a switch
            // takes effect before the next nametable fetch.
            let _mirroring_changed = self.cartridge.cpu_write(addr, value);
            let m = self.cartridge.mapper.mirroring();
            self.ppu.set_mirroring(m);
        }
    }

    /// The OAM DMA handshake: copies the 256 bytes of CPU page `page` into
    /// OAM and returns the stall the CPU must serve: 513 cycles when the
    /// triggering cycle was odd, 514 when it was even.  The source bytes
    /// come from the CPU address space, read without register side effects.
    pub fn trigger_oamdma(&mut self, page: u8, current_cycle_odd: bool) -> (r: u64)
        requires
            old(self).wf(),
        ensures
            final(self).wf(),
            *final(self) == (MemoryBus {
                ppu: (Ppu { oam: final(self).ppu.oam, ..old(self).ppu }),
                ..*old(self)
            }),
            forall|i: int|
                0 <= i < 256 ==> final(self).ppu.oam@[i] == dma_byte(*old(self), page, i),
            r == (if current_cycle_odd {
                513int
            } else {
                514int
            }),
    {
        let page_addr = (page as u16) * 256;
        let mut i: usize = 0;
        while i < 256
            invariant
                i <= 256,
                self.wf(),
                page_addr == page * 256,
                *self == (MemoryBus {
                    ppu: (Ppu { oam: self.ppu.oam, ..old(self).ppu }),
                    ..*old(self)
                }),
                forall|j: int| 0 <= j < i ==> self.ppu.oam@[j] == dma_byte(*old(self), page, j),
                forall|j: int| i <= j < 256 ==> self.ppu.oam@[j] == old(self).ppu.oam@[j],
            decreases 256 - i,
        {
            let src = page_addr + i as u16;
            let byte: u8 = if src < 0x2000 {
                self.ram[(src as usize) % 0x800]
            } else if 0x6000 <= src && src < 0x8000 {
                self.prg_ram[(src - 0x6000) as usize]
            } else if src >= 0x8000 {
                self.cartridge.cpu_read(src)
            } else {
                self.open_bus
            };
            self.ppu.oam[i] = byte;
            i = i + 1;
        }
        if current_cycle_odd {
            513
        } else {
            514
        }
    }

    /// Advances the PPU one dot and clocks the mapper's scanline counter at
    /// the transition into each visible scanline while rendering is on.
    /// Returns true on the NMI rising edge.
    pub fn step_ppu(&mut self) -> (r: bool)
        requires
            old(self).wf(),
        ensures
            final(self).wf(),
            final(self).ram == old(self).ram,
            final(self).prg_ram == old(self).prg_ram,
            final(self).apu == old(self).apu,
            final(self).input == old(self).input,
            r == (final(self).ppu.nmi_output && !old(self).ppu.nmi_output),
            skips_dot(old(self).ppu) ==> dot_of(final(self).ppu.scanline, final(self).ppu.cycle)
                == (dot_of(old(self).ppu.scanline, old(self).ppu.cycle) + 2) % 89342,
            !skips_dot(old(self).ppu) ==> dot_of(final(self).ppu.scanline, final(self).ppu.cycle)
                == (dot_of(old(self).ppu.scanline, old(self).ppu.cycle) + 1) % 89342,
            (old(self).ppu.scanline == 241 && old(self).ppu.cycle == 1) ==> final(self).ppu.status
                == (old(self).ppu.status | 0x80),
            (old(self).ppu.scanline == 260 && old(self).ppu.cycle == 340) ==> final(self).ppu.frame
                == vstd::wrapping::u64_specs::wrapping_add(old(self).ppu.frame, 1),
            !(old(self).ppu.scanline == 260 && old(self).ppu.cycle == 340)
                ==> final(self).ppu.frame == old(self).ppu.frame,
            final(self).ppu.mask == old(self).ppu.mask,
            final(self).cartridge.prg_rom == old(self).cartridge.prg_rom,
            final(self).cartridge.chr_rom == old(self).cartridge.chr_rom,
            !(final(self).ppu.scanline != old(self).ppu.scanline && 0 <= final(self).ppu.scanline
                < 240 && (final(self).ppu.mask & 0x18) != 0) ==> final(self).cartridge == old(self).cartridge,
            (final(self).ppu.scanline != old(self).ppu.scanline && 0 <= final(self).ppu.scanline
                < 240 && (final(self).ppu.mask & 0x18) != 0) ==> (old(self).cartridge.mapper
                matches Mapper::Mmc3(m0) ==> (final(self).cartridge.mapper matches Mapper::Mmc3(m1)
                && mmc3_clocked(m0, m1))),
    {
        let old_scanline = self.ppu.scanline;
        let nmi = self.ppu.step(&self.cartridge, &self.chr_ram);
        if self.ppu.scanline != old_scanline && self.ppu.scanline >= 0 && self.ppu.scanline < 240 {
            if (self.ppu.mask & 0x18) != 0 {
                // The frame driver polls the pending flag rather than this
                // per-clock result.
                let _fired = self.cartridge.clock_scanline();
            }
        }
        nmi
    }

    /// Whether the mapper holds a pending scanline interrupt.
    pub fn mapper_irq_pending(&self) -> (r: bool)
        ensures
            r == self.cartridge.mapper.pending(),
    {
        self.cartridge.irq_pending()
    }

    /// Clears the mapper's pending interrupt after delivery; nothing else
    /// of the bus moves.
    pub fn acknowledge_mapper_irq(&mut self)
        ensures
            final(self).wf() == old(self).wf(),
            !final(self).cartridge.mapper.pending(),
            *final(self) == (MemoryBus { cartridge: final(self).cartridge, ..*old(self) }),
            (!(old(self).cartridge.mapper is Mmc3) ==> *final(self) == *old(self)),
            (old(self).cartridge.mapper matches Mapper::Mmc3(m0) ==> final(self).cartridge
                == (Cartridge {
                mapper: Mapper::Mmc3(Mmc3Mapper { irq_pending: false, ..m0 }),
                ..old(self).cartridge
            })),
    {
        self.cartridge.acknowledge_irq();
    }

    /// Advances the APU by a number of CPU cycles; true when those cycles
    /// raised an APU interrupt.  The frame-sequencer law carries through:
    /// the counter ends where that many sequencer steps leave it, and the
    /// frame interrupt rises exactly when one of them crossed the final
    /// 4-step cycle with the inhibit bit clear.
    pub fn step_apu(&mut self, cpu_cycles: u64) -> (r: bool)
        requires
            old(self).wf(),
        ensures
            final(self).wf(),
            final(self).ram == old(self).ram,
            final(self).ppu == old(self).ppu,
            final(self).input == old(self).input,
            final(self).cartridge == old(self).cartridge,
            old(self).apu.sample_buffer@.is_prefix_of(final(self).apu.sample_buffer@),
            final(self).apu.frame_counter_mode == old(self).apu.frame_counter_mode,
            final(self).apu.irq_inhibit == old(self).apu.irq_inhibit,
            final(self).apu.cycle_count == crate::apu::sequencer_after(
                old(self).apu.frame_counter_mode,
                old(self).apu.reset_sequencer,
                old(self).apu.cycle_count,
                cpu_cycles as nat,
            ),
            final(self).apu.frame_counter_interrupt == (old(self).apu.frame_counter_interrupt
                || crate::apu::sequencer_fires_within(
                old(self).apu.frame_counter_mode,
                old(self).apu.irq_inhibit,
                old(self).apu.reset_sequencer,
                old(self).apu.cycle_count,
                cpu_cycles as nat,
            )),
            crate::apu::sequencer_fires_within(
                old(self).apu.frame_counter_mode,
                old(self).apu.irq_inhibit,
                old(self).apu.reset_sequencer,
                old(self).apu.cycle_count,
                cpu_cycles as nat,
            ) ==> r,
            r ==> crate::apu::sequencer_fires_within(
                old(self).apu.frame_counter_mode,
                old(self).apu.irq_inhibit,
                old(self).apu.reset_sequencer,
                old(self).apu.cycle_count,
                cpu_cycles as nat,
            ) || final(self).apu.dmc.irq_occurred,
    {
        self.apu.step(cpu_cycles, &self.ram, &self.cartridge.prg_rom)
    }
}

impl CpuBus for MemoryBus {
    open spec fn bus_wf(&self) -> bool {
        self.wf()
    }

    open spec fn ppu_clock(&self) -> (u64, i32, u32) {
        (self.ppu.frame, self.ppu.scanline, self.ppu.cycle)
    }

    fn read(&mut self, addr: u16) -> (r: u8) {
        MemoryBus::read(self, addr)
    }

    fn write(&mut self, addr: u16, value: u8) {
        MemoryBus::write(self, addr, value)
    }

    fn trigger_oamdma(&mut self, page: u8, current_cycle_odd: bool) -> (r: u64) {
        MemoryBus::trigger_oamdma(self, page, current_cycle_odd)
    }
}

} // verus!
