//! The 6502-derived CPU: the full documented instruction set plus the
//! common undocumented opcodes, with the official cycle timing.
//!
//! The CPU talks to the rest of the machine through the [`CpuBus`] trait;
//! interrupt delivery is the frame driver's job, and OAM DMA suspends the
//! CPU through its stall counter.

use vstd::prelude::*;

verus! {

/// Carry flag.
pub const FLAG_C: u8 = 0x01;

/// Zero flag.
pub const FLAG_Z: u8 = 0x02;

/// Interrupt-disable flag.
pub const FLAG_I: u8 = 0x04;

/// Decimal flag (decoded but ignored by this CPU).
pub const FLAG_D: u8 = 0x08;

/// Break flag, set on BRK/IRQ pushes and clear on NMI pushes.
pub const FLAG_B: u8 = 0x10;

/// The unused flag, always set when the status byte is pushed.
pub const FLAG_U: u8 = 0x20;

/// Overflow flag.
pub const FLAG_V: u8 = 0x40;

/// Negative flag.
pub const FLAG_N: u8 = 0x80;

/// A pending interrupt line.
#[derive(Debug, Clone, Copy, PartialEq, Eq, Structural)]
pub enum Interrupt {
    Inactive,
    Nmi,
    Irq,
}

/// What the CPU needs from the machine around it: byte reads and writes over
/// the 16-bit address space, and the OAM DMA handshake.  Each implementation
/// brings its own validity predicate, which every access preserves, and a
/// notion of the machine's video clock, which no bus access may advance:
/// only the frame driver steps the picture unit.
pub trait CpuBus {
    /// Validity of the bus state; reads and writes keep it.
    spec fn bus_wf(&self) -> bool;

    /// The position of the machine's video clock, as an abstract value that
    /// bus accesses must not move.
    spec fn ppu_clock(&self) -> (u64, i32, u32);

    /// Reads one byte.
    fn read(&mut self, addr: u16) -> (r: u8)
        requires
            old(self).bus_wf(),
        ensures
            final(self).bus_wf(),
            final(self).ppu_clock() == old(self).ppu_clock(),
    ;

    /// Writes one byte.
    fn write(&mut self, addr: u16, value: u8)
        requires
            old(self).bus_wf(),
        ensures
            final(self).bus_wf(),
            final(self).ppu_clock() == old(self).ppu_clock(),
    ;

    /// Performs the OAM DMA for one page and returns the stall the CPU must
    /// serve: 513 cycles when triggered on an odd cycle, 514 on an even one.
    fn trigger_oamdma(&mut self, page: u8, current_cycle_odd: bool) -> (r: u64)
        requires
            old(self).bus_wf(),
        ensures
            final(self).bus_wf(),
            final(self).ppu_clock() == old(self).ppu_clock(),
            r == (if current_cycle_odd {
                513u64
            } else {
                514u64
            }),
    ;
}

/// The base cycle cost of every opcode, per the official timing table;
/// undocumented no-ops carry their measured costs and anything unknown runs
/// as a two-cycle no-op.
pub open spec fn base_cycles(op: u8) -> u64 {
    match op {
        0x09 | 0x0A | 0x0B | 0x18 | 0x1A | 0x29 | 0x2A | 0x2B | 0x38 | 0x3A | 0x49 | 0x4A | 0x4B | 0x58 | 0x5A | 0x69 | 0x6A | 0x6B | 0x78 | 0x7A | 0x80 | 0x82 | 0x88 | 0x89 | 0x8A | 0x98 | 0x9A | 0xA0 | 0xA2 | 0xA8 | 0xA9 | 0xAA | 0xAB | 0xB8 | 0xBA | 0xC0 | 0xC2 | 0xC8 | 0xC9 | 0xCA | 0xCB | 0xD8 | 0xDA | 0xE0 | 0xE2 | 0xE8 | 0xE9 | 0xEA | 0xEB | 0xF8 | 0xFA => 2,
        0x04 | 0x05 | 0x08 | 0x24 | 0x25 | 0x44 | 0x45 | 0x48 | 0x4C | 0x64 | 0x65 | 0x84 | 0x85 | 0x86 | 0x87 | 0xA4 | 0xA5 | 0xA6 | 0xA7 | 0xC4 | 0xC5 | 0xE4 | 0xE5 => 3,
        0x0C | 0x0D | 0x14 | 0x15 | 0x19 | 0x1C | 0x1D | 0x28 | 0x2C | 0x2D | 0x34 | 0x35 | 0x39 | 0x3C | 0x3D | 0x4D | 0x54 | 0x55 | 0x59 | 0x5C | 0x5D | 0x68 | 0x6D | 0x74 | 0x75 | 0x79 | 0x7C | 0x7D | 0x8C | 0x8D | 0x8E | 0x8F | 0x94 | 0x95 | 0x96 | 0x97 | 0xAC | 0xAD | 0xAE | 0xAF | 0xB4 | 0xB5 | 0xB6 | 0xB7 | 0xB9 | 0xBC | 0xBD | 0xBE | 0xBF | 0xCC | 0xCD | 0xD4 | 0xD5 | 0xD9 | 0xDC | 0xDD | 0xEC | 0xED | 0xF4 | 0xF5 | 0xF9 | 0xFC | 0xFD => 4,
        0x06 | 0x07 | 0x11 | 0x26 | 0x27 | 0x31 | 0x46 | 0x47 | 0x51 | 0x66 | 0x67 | 0x6C | 0x71 | 0x99 | 0x9D | 0xB1 | 0xB3 | 0xC6 | 0xC7 | 0xD1 | 0xE6 | 0xE7 | 0xF1 => 5,
        0x01 | 0x0E | 0x0F | 0x16 | 0x17 | 0x20 | 0x21 | 0x2E | 0x2F | 0x36 | 0x37 | 0x40 | 0x41 | 0x4E | 0x4F | 0x56 | 0x57 | 0x60 | 0x61 | 0x6E | 0x6F | 0x76 | 0x77 | 0x81 | 0x83 | 0x91 | 0xA1 | 0xA3 | 0xC1 | 0xCE | 0xCF | 0xD6 | 0xD7 | 0xE1 | 0xEE | 0xEF | 0xF6 | 0xF7 => 6,
        0x00 | 0x1B | 0x1E | 0x1F | 0x3B | 0x3E | 0x3F | 0x5B | 0x5E | 0x5F | 0x7B | 0x7E | 0x7F | 0xDB | 0xDE | 0xDF | 0xFB | 0xFE | 0xFF => 7,
        0x03 | 0x13 | 0x23 | 0x33 | 0x43 | 0x53 | 0x63 | 0x73 | 0xC3 | 0xD3 | 0xE3 | 0xF3 => 8,
        _ => 2,
    }
}

/// Opcodes that pay one extra cycle when their indexed read crosses a page
/// boundary.
pub open spec fn page_cross_op(op: u8) -> bool {
    match op {
        0x11 | 0x19 | 0x1C | 0x1D | 0x31 | 0x39 | 0x3C | 0x3D | 0x51 | 0x59 | 0x5C | 0x5D | 0x71 | 0x79 | 0x7C | 0x7D | 0xB1 | 0xB3 | 0xB9 | 0xBC | 0xBD | 0xBE | 0xBF | 0xD1 | 0xD9 | 0xDC | 0xDD | 0xF1 | 0xF9 | 0xFC | 0xFD => true,
        _ => false,
    }
}

/// The eight conditional branches: two cycles untaken, three taken, four
/// taken across a page boundary.
pub open spec fn branch_op(op: u8) -> bool {
    match op {
        0x10 | 0x30 | 0x50 | 0x70 | 0x90 | 0xB0 | 0xD0 | 0xF0 => true,
        _ => false,
    }
}

/// The official timing table: what an instruction may legally cost.
pub open spec fn cycles_ok(op: u8, c: u64) -> bool {
    if branch_op(op) {
        c == 2 || c == 3 || c == 4
    } else if page_cross_op(op) {
        c == base_cycles(op) || c == base_cycles(op) + 1
    } else {
        c == base_cycles(op)
    }
}

/// A status byte with one flag forced on or off.
pub open spec fn with_flag(status: u8, flag: u8, value: bool) -> u8 {
    if value {
        status | flag
    } else {
        status & !flag
    }
}

/// The status byte after the zero and negative flags are refreshed from a
/// result byte.
pub open spec fn with_zn(status: u8, value: u8) -> u8 {
    with_flag(with_flag(status, FLAG_Z, value == 0), FLAG_N, (value & FLAG_N) != 0)
}

/// The opcodes this CPU decodes.  Anything outside the table runs as a
/// two-cycle no-op that changes no architectural state.
pub open spec fn known_opcode(op: u8) -> bool {
    match op {
        0x00 | 0x01 | 0x03 | 0x04 | 0x05 | 0x06 | 0x07 | 0x08 | 0x09 | 0x0A | 0x0B | 0x0C | 0x0D | 0x0E | 0x0F | 0x10 | 0x11 | 0x13 | 0x14 | 0x15 | 0x16 | 0x17 | 0x18 | 0x19 | 0x1A | 0x1B | 0x1C | 0x1D | 0x1E | 0x1F | 0x20 | 0x21 | 0x23 | 0x24 | 0x25 | 0x26 | 0x27 | 0x28 | 0x29 | 0x2A | 0x2B | 0x2C | 0x2D | 0x2E | 0x2F | 0x30 | 0x31 | 0x33 | 0x34 | 0x35 | 0x36 | 0x37 | 0x38 | 0x39 | 0x3A | 0x3B | 0x3C | 0x3D | 0x3E | 0x3F | 0x40 | 0x41 | 0x43 | 0x44 | 0x45 | 0x46 | 0x47 | 0x48 | 0x49 | 0x4A | 0x4B | 0x4C | 0x4D | 0x4E | 0x4F | 0x50 | 0x51 | 0x53 | 0x54 | 0x55 | 0x56 | 0x57 | 0x58 | 0x59 | 0x5A | 0x5B | 0x5C | 0x5D | 0x5E | 0x5F | 0x60 | 0x61 | 0x63 | 0x64 | 0x65 | 0x66 | 0x67 | 0x68 | 0x69 | 0x6A | 0x6B | 0x6C | 0x6D | 0x6E | 0x6F | 0x70 | 0x71 | 0x73 | 0x74 | 0x75 | 0x76 | 0x77 | 0x78 | 0x79 | 0x7A | 0x7B | 0x7C | 0x7D | 0x7E | 0x7F | 0x80 | 0x81 | 0x82 | 0x83 | 0x84 | 0x85 | 0x86 | 0x87 | 0x88 | 0x89 | 0x8A | 0x8C | 0x8D | 0x8E | 0x8F | 0x90 | 0x91 | 0x94 | 0x95 | 0x96 | 0x97 | 0x98 | 0x99 | 0x9A | 0x9D | 0xA0 | 0xA1 | 0xA2 | 0xA3 | 0xA4 | 0xA5 | 0xA6 | 0xA7 | 0xA8 | 0xA9 | 0xAA | 0xAB | 0xAC | 0xAD | 0xAE | 0xAF | 0xB0 | 0xB1 | 0xB3 | 0xB4 | 0xB5 | 0xB6 | 0xB7 | 0xB8 | 0xB9 | 0xBA | 0xBC | 0xBD | 0xBE | 0xBF | 0xC0 | 0xC1 | 0xC2 | 0xC3 | 0xC4 | 0xC5 | 0xC6 | 0xC7 | 0xC8 | 0xC9 | 0xCA | 0xCB | 0xCC | 0xCD | 0xCE | 0xCF | 0xD0 | 0xD1 | 0xD3 | 0xD4 | 0xD5 | 0xD6 | 0xD7 | 0xD8 | 0xD9 | 0xDA | 0xDB | 0xDC | 0xDD | 0xDE | 0xDF | 0xE0 | 0xE1 | 0xE2 | 0xE3 | 0xE4 | 0xE5 | 0xE6 | 0xE7 | 0xE8 | 0xE9 | 0xEA | 0xEB | 0xEC | 0xED | 0xEE | 0xEF | 0xF0 | 0xF1 | 0xF3 | 0xF4 | 0xF5 | 0xF6 | 0xF7 | 0xF8 | 0xF9 | 0xFA | 0xFB | 0xFC | 0xFD | 0xFE | 0xFF => true,
        _ => false,
    }
}

/// The register file of the CPU.
#[derive(Debug, Clone)]
pub struct Cpu {
    pub pc: u16,
    pub a: u8,
    pub x: u8,
    pub y: u8,
    pub sp: u8,
    pub status: u8,
    pub cycles: u64,
    pub stall_cycles: u64,
}

impl Cpu {
    pub fn new() -> (r: Self)
        ensures
            r.pc == 0,
            r.a == 0,
            r.x == 0,
            r.y == 0,
            r.sp == 0xFD,
            r.status == (FLAG_U | FLAG_I),
            r.cycles == 0,
            r.stall_cycles == 0,
    {
        Cpu { pc: 0, a: 0, x: 0, y: 0, sp: 0xFD, status: FLAG_U | FLAG_I, cycles: 0, stall_cycles: 0 }
    }

    /// The RESET sequence: three phantom stack pushes, the interrupt mask
    /// raised, and the program counter loaded from the vector at 0xFFFC.
    pub fn reset<B: CpuBus>(&mut self, bus: &mut B)
        requires
            old(bus).bus_wf(),
        ensures
            final(bus).bus_wf(),
            final(bus).ppu_clock() == old(bus).ppu_clock(),
            final(self).sp == vstd::wrapping::u8_specs::wrapping_sub(old(self).sp, 3),
            final(self).status == (old(self).status | FLAG_I),
            final(self).a == old(self).a,
            final(self).x == old(self).x,
            final(self).y == old(self).y,
            final(self).cycles == old(self).cycles,
            final(self).stall_cycles == old(self).stall_cycles,
    {
        self.sp = self.sp.wrapping_sub(3);
        self.status = self.status | FLAG_I;
        self.pc = self.read_word(0xFFFC, bus);
    }

    /// Executes one instruction (or serves one stall cycle) and returns its
    /// cycle cost.  While a DMA stall is pending, each step costs exactly
    /// one cycle, fetches nothing and leaves the program counter alone.
    pub fn step<B: CpuBus>(&mut self, bus: &mut B) -> (r: u64)
        requires
            old(bus).bus_wf(),
        ensures
            final(bus).bus_wf(),
            final(bus).ppu_clock() == old(bus).ppu_clock(),
            old(self).stall_cycles > 0 ==> (r == 1 && *final(self) == (Cpu {
                stall_cycles: (old(self).stall_cycles - 1) as u64,
                cycles: vstd::wrapping::u64_specs::wrapping_add(old(self).cycles, 1),
                ..*old(self)
            })),
            old(self).stall_cycles == 0 ==> (1 <= r <= 8 && final(self).cycles
                == vstd::wrapping::u64_specs::wrapping_add(old(self).cycles, r)),
            final(self).cycles == vstd::wrapping::u64_specs::wrapping_add(old(self).cycles, r),
    {
        if self.stall_cycles > 0 {
            self.stall_cycles = self.stall_cycles - 1;
            self.cycles = self.cycles.wrapping_add(1);
            return 1;
        }
        let opcode = bus.read(self.pc);
        self.pc = self.pc.wrapping_add(1);
        let cycles = self.execute(opcode, bus);
        self.cycles = self.cycles.wrapping_add(cycles);
        cycles
    }

    /// A store that may hit the OAM DMA trigger: a write to 0x4014 performs
    /// the DMA and charges the CPU the full stall (513 from an odd cycle,
    /// 514 from an even one) before the next fetch.
    fn handle_write_with_oamdma<B: CpuBus>(&mut self, bus: &mut B, addr: u16, value: u8)
        requires
            old(bus).bus_wf(),
        ensures
            final(bus).bus_wf(),
            final(bus).ppu_clock() == old(bus).ppu_clock(),
            addr == 0x4014 ==> *final(self) == (Cpu {
                stall_cycles: (if old(self).cycles % 2 == 1 {
                    513u64
                } else {
                    514u64
                }),
                ..*old(self)
            }),
            addr != 0x4014 ==> *final(self) == *old(self),
    {
        if addr == 0x4014 {
            let current_cycle_odd = self.cycles % 2 == 1;
            let stall = bus.trigger_oamdma(value, current_cycle_odd);
            self.stall_cycles = stall;
            bus.write(addr, value);
        } else {
            bus.write(addr, value);
        }
    }

    /// Delivers a non-maskable interrupt: the return address and the status
    /// byte (break flag clear, unused flag set) go to the stack, interrupts
    /// are masked, the vector at 0xFFFA is taken, and seven cycles pass.
    pub fn trigger_nmi<B: CpuBus>(&mut self, bus: &mut B)
        requires
            old(bus).bus_wf(),
        ensures
            final(bus).bus_wf(),
            final(bus).ppu_clock() == old(bus).ppu_clock(),
            final(self).sp == vstd::wrapping::u8_specs::wrapping_sub(old(self).sp, 3),
            final(self).status == (old(self).status | FLAG_I),
            final(self).a == old(self).a,
            final(self).x == old(self).x,
            final(self).y == old(self).y,
            final(self).cycles == vstd::wrapping::u64_specs::wrapping_add(old(self).cycles, 7),
            final(self).stall_cycles == old(self).stall_cycles,
    {
        let pc = self.pc;
        self.push_word(pc, bus);
        let pushed = (self.status & !FLAG_B) | FLAG_U;
        self.push(pushed, bus);
        self.set_flag(FLAG_I, true);
        self.pc = self.read_word(0xFFFA, bus);
        self.cycles = self.cycles.wrapping_add(7);
    }

    /// Delivers a maskable interrupt, if the interrupt-disable flag allows:
    /// like an NMI, but the status is pushed with the break flag set and the
    /// vector at 0xFFFE is taken.  With interrupts masked nothing happens.
    pub fn trigger_irq<B: CpuBus>(&mut self, bus: &mut B)
        requires
            old(bus).bus_wf(),
        ensures
            final(bus).bus_wf(),
            final(bus).ppu_clock() == old(bus).ppu_clock(),
            (old(self).status & FLAG_I) != 0 ==> *final(self) == *old(self),
            (old(self).status & FLAG_I) == 0 ==> final(self).sp
                == vstd::wrapping::u8_specs::wrapping_sub(old(self).sp, 3) && final(self).status
                == (old(self).status | FLAG_I) && final(self).cycles
                == vstd::wrapping::u64_specs::wrapping_add(old(self).cycles, 7) && final(self).a
                == old(self).a && final(self).x == old(self).x && final(self).y == old(self).y
                && final(self).stall_cycles == old(self).stall_cycles,
    {
        if (self.status & FLAG_I) == 0 {
            let pc = self.pc;
            self.push_word(pc, bus);
            let pushed = self.status | FLAG_B | FLAG_U;
            self.push(pushed, bus);
            self.set_flag(FLAG_I, true);
            self.pc = self.read_word(0xFFFE, bus);
            self.cycles = self.cycles.wrapping_add(7);
        }
    }

    /// Executes one already-fetched instruction.  The returned cycle count
    /// matches the official table for every opcode, including the page-cross
    /// penalty on indexed reads; conditional branches report two, three or
    /// four cycles for untaken, taken and page-crossing taken.
    #[verifier::rlimit(100)]
    #[verifier::spinoff_prover]
    pub fn execute<B: CpuBus>(&mut self, opcode: u8, bus: &mut B) -> (r: u64)
        requires
            old(bus).bus_wf(),
        ensures
            final(bus).bus_wf(),
            final(bus).ppu_clock() == old(bus).ppu_clock(),
            cycles_ok(opcode, r),
            1 <= r <= 8,
            final(self).cycles == old(self).cycles,
            final(self).stall_cycles == old(self).stall_cycles || final(self).stall_cycles == 513
                || final(self).stall_cycles == 514,
            // An opcode outside the table is a two-cycle no-op; the bus-free
            // opcodes have their whole architectural effect pinned, and an
            // untaken branch only steps over its offset byte.
            !known_opcode(opcode) ==> r == 2 && *final(self) == *old(self),
            (opcode == 0xEA || opcode == 0x1A || opcode == 0x3A || opcode == 0x5A || opcode == 0x7A || opcode == 0xDA || opcode == 0xFA) ==> r == 2 && *final(self) == *old(self),
            opcode == 0xAA ==> r == 2 && *final(self) == (Cpu { x: old(self).a, status: with_zn(old(self).status, old(self).a), ..*old(self) }),
            opcode == 0xA8 ==> r == 2 && *final(self) == (Cpu { y: old(self).a, status: with_zn(old(self).status, old(self).a), ..*old(self) }),
            opcode == 0x8A ==> r == 2 && *final(self) == (Cpu { a: old(self).x, status: with_zn(old(self).status, old(self).x), ..*old(self) }),
            opcode == 0x98 ==> r == 2 && *final(self) == (Cpu { a: old(self).y, status: with_zn(old(self).status, old(self).y), ..*old(self) }),
            opcode == 0xBA ==> r == 2 && *final(self) == (Cpu { x: old(self).sp, status: with_zn(old(self).status, old(self).sp), ..*old(self) }),
            opcode == 0x9A ==> r == 2 && *final(self) == (Cpu { sp: old(self).x, ..*old(self) }),
            opcode == 0xE8 ==> r == 2 && *final(self) == (Cpu { x: vstd::wrapping::u8_specs::wrapping_add(old(self).x, 1), status: with_zn(old(self).status, vstd::wrapping::u8_specs::wrapping_add(old(self).x, 1)), ..*old(self) }),
            opcode == 0xC8 ==> r == 2 && *final(self) == (Cpu { y: vstd::wrapping::u8_specs::wrapping_add(old(self).y, 1), status: with_zn(old(self).status, vstd::wrapping::u8_specs::wrapping_add(old(self).y, 1)), ..*old(self) }),
            opcode == 0xCA ==> r == 2 && *final(self) == (Cpu { x: vstd::wrapping::u8_specs::wrapping_sub(old(self).x, 1), status: with_zn(old(self).status, vstd::wrapping::u8_specs::wrapping_sub(old(self).x, 1)), ..*old(self) }),
            opcode == 0x88 ==> r == 2 && *final(self) == (Cpu { y: vstd::wrapping::u8_specs::wrapping_sub(old(self).y, 1), status: with_zn(old(self).status, vstd::wrapping::u8_specs::wrapping_sub(old(self).y, 1)), ..*old(self) }),
            opcode == 0x18 ==> r == 2 && *final(self) == (Cpu { status: with_flag(old(self).status, FLAG_C, false), ..*old(self) }),
            opcode == 0x38 ==> r == 2 && *final(self) == (Cpu { status: with_flag(old(self).status, FLAG_C, true), ..*old(self) }),
            opcode == 0x58 ==> r == 2 && *final(self) == (Cpu { status: with_flag(old(self).status, FLAG_I, false), ..*old(self) }),
            opcode == 0x78 ==> r == 2 && *final(self) == (Cpu { status: with_flag(old(self).status, FLAG_I, true), ..*old(self) }),
            opcode == 0xB8 ==> r == 2 && *final(self) == (Cpu { status: with_flag(old(self).status, FLAG_V, false), ..*old(self) }),
            opcode == 0xD8 ==> r == 2 && *final(self) == (Cpu { status: with_flag(old(self).status, FLAG_D, false), ..*old(self) }),
            opcode == 0xF8 ==> r == 2 && *final(self) == (Cpu { status: with_flag(old(self).status, FLAG_D, true), ..*old(self) }),
            opcode == 0x0A ==> r == 2 && *final(self) == (Cpu { a: (((old(self).a * 2) % 256) as u8), status: with_zn(with_flag(old(self).status, FLAG_C, (old(self).a & 0x80) != 0), (((old(self).a * 2) % 256) as u8)), ..*old(self) }),
            opcode == 0x4A ==> r == 2 && *final(self) == (Cpu { a: (old(self).a / 2), status: with_zn(with_flag(old(self).status, FLAG_C, (old(self).a & 0x01) != 0), (old(self).a / 2)), ..*old(self) }),
            opcode == 0x2A ==> r == 2 && *final(self) == (Cpu { a: ((((old(self).a * 2) % 256) + (if (old(self).status & FLAG_C) != 0 { 1int } else { 0int })) as u8), status: with_zn(with_flag(old(self).status, FLAG_C, (old(self).a & 0x80) != 0), ((((old(self).a * 2) % 256) + (if (old(self).status & FLAG_C) != 0 { 1int } else { 0int })) as u8)), ..*old(self) }),
            opcode == 0x6A ==> r == 2 && *final(self) == (Cpu { a: ((old(self).a / 2 + (if (old(self).status & FLAG_C) != 0 { 0x80int } else { 0int })) as u8), status: with_zn(with_flag(old(self).status, FLAG_C, (old(self).a & 0x01) != 0), ((old(self).a / 2 + (if (old(self).status & FLAG_C) != 0 { 0x80int } else { 0int })) as u8)), ..*old(self) }),
            (opcode == 0x10 && (old(self).status & FLAG_N) != 0) ==> r == 2 && *final(self) == (Cpu { pc: vstd::wrapping::u16_specs::wrapping_add(old(self).pc, 1), ..*old(self) }),
            (opcode == 0x10 && (old(self).status & FLAG_N) == 0) ==> r == 3 || r == 4,
            (opcode == 0x30 && (old(self).status & FLAG_N) == 0) ==> r == 2 && *final(self) == (Cpu { pc: vstd::wrapping::u16_specs::wrapping_add(old(self).pc, 1), ..*old(self) }),
            (opcode == 0x30 && (old(self).status & FLAG_N) != 0) ==> r == 3 || r == 4,
            (opcode == 0x50 && (old(self).status & FLAG_V) != 0) ==> r == 2 && *final(self) == (Cpu { pc: vstd::wrapping::u16_specs::wrapping_add(old(self).pc, 1), ..*old(self) }),
            (opcode == 0x50 && (old(self).status & FLAG_V) == 0) ==> r == 3 || r == 4,
            (opcode == 0x70 && (old(self).status & FLAG_V) == 0) ==> r == 2 && *final(self) == (Cpu { pc: vstd::wrapping::u16_specs::wrapping_add(old(self).pc, 1), ..*old(self) }),
            (opcode == 0x70 && (old(self).status & FLAG_V) != 0) ==> r == 3 || r == 4,
            (opcode == 0x90 && (old(self).status & FLAG_C) != 0) ==> r == 2 && *final(self) == (Cpu { pc: vstd::wrapping::u16_specs::wrapping_add(old(self).pc, 1), ..*old(self) }),
            (opcode == 0x90 && (old(self).status & FLAG_C) == 0) ==> r == 3 || r == 4,
            (opcode == 0xB0 && (old(self).status & FLAG_C) == 0) ==> r == 2 && *final(self) == (Cpu { pc: vstd::wrapping::u16_specs::wrapping_add(old(self).pc, 1), ..*old(self) }),
            (opcode == 0xB0 && (old(self).status & FLAG_C) != 0) ==> r == 3 || r == 4,
            (opcode == 0xD0 && (old(self).status & FLAG_Z) != 0) ==> r == 2 && *final(self) == (Cpu { pc: vstd::wrapping::u16_specs::wrapping_add(old(self).pc, 1), ..*old(self) }),
            (opcode == 0xD0 && (old(self).status & FLAG_Z) == 0) ==> r == 3 || r == 4,
            (opcode == 0xF0 && (old(self).status & FLAG_Z) == 0) ==> r == 2 && *final(self) == (Cpu { pc: vstd::wrapping::u16_specs::wrapping_add(old(self).pc, 1), ..*old(self) }),
            (opcode == 0xF0 && (old(self).status & FLAG_Z) != 0) ==> r == 3 || r == 4,
            (opcode == 0x80 || opcode == 0x82 || opcode == 0x89 || opcode == 0xC2 || opcode == 0xE2) ==> r == 2 && *final(self) == (Cpu { pc: vstd::wrapping::u16_specs::wrapping_add(old(self).pc, 1), ..*old(self) }),
            (opcode == 0x04 || opcode == 0x44 || opcode == 0x64) ==> r == 3 && *final(self) == (Cpu { pc: vstd::wrapping::u16_specs::wrapping_add(old(self).pc, 1), ..*old(self) }),
            (opcode == 0x14 || opcode == 0x34 || opcode == 0x54 || opcode == 0x74 || opcode == 0xD4 || opcode == 0xF4) ==> r == 4 && *final(self) == (Cpu { pc: vstd::wrapping::u16_specs::wrapping_add(old(self).pc, 1), ..*old(self) }),
            opcode == 0x0C ==> r == 4 && *final(self) == (Cpu { pc: vstd::wrapping::u16_specs::wrapping_add(vstd::wrapping::u16_specs::wrapping_add(old(self).pc, 1), 1), ..*old(self) }),
    {
        match opcode {
            // BRK
            0x00 => {
                self.pc = self.pc.wrapping_add(1);
                self.push_word(self.pc, bus);
                self.push(self.status | FLAG_B | FLAG_U, bus);
                self.set_flag(FLAG_I, true);
                self.pc = self.read_word(0xFFFE, bus);
                7
            }
            // ORA (indirect, X)
            0x01 => {
                let (addr, extra_cycle) = self.addr_indirect_x(bus);
                let value = bus.read(addr);
                self.ora(value);
                6 + extra_cycle
            }
            // ORA (zero page)
            0x05 => {
                let addr = self.addr_zero_page(bus);
                let value = bus.read(addr);
                self.ora(value);
                3
            }
            // ASL (zero page)
            0x06 => {
                let addr = self.addr_zero_page(bus);
                let value = bus.read(addr);
                let result = self.asl(value);
                bus.write(addr, result);
                5
            }
            // PHP
            0x08 => {
                self.push(self.status | FLAG_B | FLAG_U, bus);
                3
            }
            // ORA (immediate)
            0x09 => {
                let value = self.addr_immediate(bus);
                self.ora(value);
                2
            }
            // ASL A
            0x0A => {
                self.a = self.asl(self.a);
                2
            }
            // ORA (absolute)
            0x0D => {
                let addr = self.addr_absolute(bus);
                let value = bus.read(addr);
                self.ora(value);
                4
            }
            // ASL (absolute)
            0x0E => {
                let addr = self.addr_absolute(bus);
                let value = bus.read(addr);
                let result = self.asl(value);
                bus.write(addr, result);
                6
            }
            // BPL
            0x10 => self.branch(!self.get_flag(FLAG_N), bus),
            // ORA (indirect), Y
            0x11 => {
                let (addr, extra_cycle) = self.addr_indirect_y(bus);
                let value = bus.read(addr);
                self.ora(value);
                5 + extra_cycle
            }
            // ORA (zero page, X)
            0x15 => {
                let addr = self.addr_zero_page_x(bus);
                let value = bus.read(addr);
                self.ora(value);
                4
            }
            // ASL (zero page, X)
            0x16 => {
                let addr = self.addr_zero_page_x(bus);
                let value = bus.read(addr);
                let result = self.asl(value);
                bus.write(addr, result);
                6
            }
            // CLC
            0x18 => {
                self.set_flag(FLAG_C, false);
                2
            }
            // ORA (absolute, Y)
            0x19 => {
                let (addr, extra_cycle) = self.addr_absolute_y(bus);
                let value = bus.read(addr);
                self.ora(value);
                4 + extra_cycle
            }
            // ORA (absolute, X)
            0x1D => {
                let (addr, extra_cycle) = self.addr_absolute_x(bus);
                let value = bus.read(addr);
                self.ora(value);
                4 + extra_cycle
            }
            // ASL (absolute, X)
            0x1E => {
                let (addr, _) = self.addr_absolute_x(bus);
                let value = bus.read(addr);
                let result = self.asl(value);
                bus.write(addr, result);
                7
            }
            // JSR
            0x20 => {
                let addr = self.addr_absolute(bus);
                self.push_word(self.pc.wrapping_sub(1), bus);
                self.pc = addr;
                6
            }
            // AND (indirect, X)
            0x21 => {
                let (addr, extra_cycle) = self.addr_indirect_x(bus);
                let value = bus.read(addr);
                self.and(value);
                6 + extra_cycle
            }
            // BIT (zero page)
            0x24 => {
                let addr = self.addr_zero_page(bus);
                let value = bus.read(addr);
                self.bit(value);
                3
            }
            // AND (zero page)
            0x25 => {
                let addr = self.addr_zero_page(bus);
                let value = bus.read(addr);
                self.and(value);
                3
            }
            // ROL (zero page)
            0x26 => {
                let addr = self.addr_zero_page(bus);
                let value = bus.read(addr);
                let result = self.rol(value);
                bus.write(addr, result);
                5
            }
            // PLP
            0x28 => {
                self.status = (self.pop(bus) & !FLAG_B) | FLAG_U;
                4
            }
            // AND (immediate)
            0x29 => {
                let value = self.addr_immediate(bus);
                self.and(value);
                2
            }
            // ROL A
            0x2A => {
                self.a = self.rol(self.a);
                2
            }
            // BIT (absolute)
            0x2C => {
                let addr = self.addr_absolute(bus);
                let value = bus.read(addr);
                self.bit(value);
                4
            }
            // AND (absolute)
            0x2D => {
                let addr = self.addr_absolute(bus);
                let value = bus.read(addr);
                self.and(value);
                4
            }
            // ROL (absolute)
            0x2E => {
                let addr = self.addr_absolute(bus);
                let value = bus.read(addr);
                let result = self.rol(value);
                bus.write(addr, result);
                6
            }
            // BMI
            0x30 => self.branch(self.get_flag(FLAG_N), bus),
            // AND (indirect), Y
            0x31 => {
                let (addr, extra_cycle) = self.addr_indirect_y(bus);
                let value = bus.read(addr);
                self.and(value);
                5 + extra_cycle
            }
            // AND (zero page, X)
            0x35 => {
                let addr = self.addr_zero_page_x(bus);
                let value = bus.read(addr);
                self.and(value);
                4
            }
            // ROL (zero page, X)
            0x36 => {
                let addr = self.addr_zero_page_x(bus);
                let value = bus.read(addr);
                let result = self.rol(value);
                bus.write(addr, result);
                6
            }
            // SEC
            0x38 => {
                self.set_flag(FLAG_C, true);
                2
            }
            // AND (absolute, Y)
            0x39 => {
                let (addr, extra_cycle) = self.addr_absolute_y(bus);
                let value = bus.read(addr);
                self.and(value);
                4 + extra_cycle
            }
            // AND (absolute, X)
            0x3D => {
                let (addr, extra_cycle) = self.addr_absolute_x(bus);
                let value = bus.read(addr);
                self.and(value);
                4 + extra_cycle
            }
            // ROL (absolute, X)
            0x3E => {
                let (addr, _) = self.addr_absolute_x(bus);
                let value = bus.read(addr);
                let result = self.rol(value);
                bus.write(addr, result);
                7
            }
            // RTI
            0x40 => {
                self.status = (self.pop(bus) & !FLAG_B) | FLAG_U;
                self.pc = self.pop_word(bus);
                6
            }
            // EOR (indirect, X)
            0x41 => {
                let (addr, extra_cycle) = self.addr_indirect_x(bus);
                let value = bus.read(addr);
                self.eor(value);
                6 + extra_cycle
            }
            // EOR (zero page)
            0x45 => {
                let addr = self.addr_zero_page(bus);
                let value = bus.read(addr);
                self.eor(value);
                3
            }
            // LSR (zero page)
            0x46 => {
                let addr = self.addr_zero_page(bus);
                let value = bus.read(addr);
                let result = self.lsr(value);
                bus.write(addr, result);
                5
            }
            // PHA
            0x48 => {
                self.push(self.a, bus);
                3
            }
            // EOR (immediate)
            0x49 => {
                let value = self.addr_immediate(bus);
                self.eor(value);
                2
            }
            // LSR A
            0x4A => {
                self.a = self.lsr(self.a);
                2
            }
            // JMP (absolute)
            0x4C => {
                self.pc = self.addr_absolute(bus);
                3
            }
            // EOR (absolute)
            0x4D => {
                let addr = self.addr_absolute(bus);
                let value = bus.read(addr);
                self.eor(value);
                4
            }
            // LSR (absolute)
            0x4E => {
                let addr = self.addr_absolute(bus);
                let value = bus.read(addr);
                let result = self.lsr(value);
                bus.write(addr, result);
                6
            }
            // BVC
            0x50 => self.branch(!self.get_flag(FLAG_V), bus),
            // EOR (indirect), Y
            0x51 => {
                let (addr, extra_cycle) = self.addr_indirect_y(bus);
                let value = bus.read(addr);
                self.eor(value);
                5 + extra_cycle
            }
            // EOR (zero page, X)
            0x55 => {
                let addr = self.addr_zero_page_x(bus);
                let value = bus.read(addr);
                self.eor(value);
                4
            }
            // LSR (zero page, X)
            0x56 => {
                let addr = self.addr_zero_page_x(bus);
                let value = bus.read(addr);
                let result = self.lsr(value);
                bus.write(addr, result);
                6
            }
            // CLI
            0x58 => {
                self.set_flag(FLAG_I, false);
                2
            }
            // EOR (absolute, Y)
            0x59 => {
                let (addr, extra_cycle) = self.addr_absolute_y(bus);
                let value = bus.read(addr);
                self.eor(value);
                4 + extra_cycle
            }
            // EOR (absolute, X)
            0x5D => {
                let (addr, extra_cycle) = self.addr_absolute_x(bus);
                let value = bus.read(addr);
                self.eor(value);
                4 + extra_cycle
            }
            // LSR (absolute, X)
            0x5E => {
                let (addr, _) = self.addr_absolute_x(bus);
                let value = bus.read(addr);
                let result = self.lsr(value);
                bus.write(addr, result);
                7
            }
            // RTS
            0x60 => {
                self.pc = self.pop_word(bus).wrapping_add(1);
                6
            }
            // ADC (indirect, X)
            0x61 => {
                let (addr, extra_cycle) = self.addr_indirect_x(bus);
                let value = bus.read(addr);
                self.adc(value);
                6 + extra_cycle
            }
            // ADC (zero page)
            0x65 => {
                let addr = self.addr_zero_page(bus);
                let value = bus.read(addr);
                self.adc(value);
                3
            }
            // ROR (zero page)
            0x66 => {
                let addr = self.addr_zero_page(bus);
                let value = bus.read(addr);
                let result = self.ror(value);
                bus.write(addr, result);
                5
            }
            // PLA
            0x68 => {
                self.a = self.pop(bus);
                self.update_zero_negative(self.a);
                4
            }
            // ADC (immediate)
            0x69 => {
                let value = self.addr_immediate(bus);
                self.adc(value);
                2
            }
            // ROR A
            0x6A => {
                self.a = self.ror(self.a);
                2
            }
            // JMP (indirect)
            0x6C => {
                let indirect_addr = self.addr_absolute(bus);
                // 6502 bug: doesn't increment page on indirect jump
                let addr = if (indirect_addr & 0xFF) == 0xFF {
                    (bus.read(indirect_addr) as u16)
                        | ((bus.read(indirect_addr & 0xFF00) as u16) << 8)
                } else {
                    self.read_word(indirect_addr, bus)
                };
                self.pc = addr;
                5
            }
            // ADC (absolute)
            0x6D => {
                let addr = self.addr_absolute(bus);
                let value = bus.read(addr);
                self.adc(value);
                4
            }
            // ROR (absolute)
            0x6E => {
                let addr = self.addr_absolute(bus);
                let value = bus.read(addr);
                let result = self.ror(value);
                bus.write(addr, result);
                6
            }
            // BVS
            0x70 => self.branch(self.get_flag(FLAG_V), bus),
            // ADC (indirect), Y
            0x71 => {
                let (addr, extra_cycle) = self.addr_indirect_y(bus);
                let value = bus.read(addr);
                self.adc(value);
                5 + extra_cycle
            }
            // ADC (zero page, X)
            0x75 => {
                let addr = self.addr_zero_page_x(bus);
                let value = bus.read(addr);
                self.adc(value);
                4
            }
            // ROR (zero page, X)
            0x76 => {
                let addr = self.addr_zero_page_x(bus);
                let value = bus.read(addr);
                let result = self.ror(value);
                bus.write(addr, result);
                6
            }
            // SEI
            0x78 => {
                self.set_flag(FLAG_I, true);
                2
            }
            // ADC (absolute, Y)
            0x79 => {
                let (addr, extra_cycle) = self.addr_absolute_y(bus);
                let value = bus.read(addr);
                self.adc(value);
                4 + extra_cycle
            }
            // ADC (absolute, X)
            0x7D => {
                let (addr, extra_cycle) = self.addr_absolute_x(bus);
                let value = bus.read(addr);
                self.adc(value);
                4 + extra_cycle
            }
            // ROR (absolute, X)
            0x7E => {
                let (addr, _) = self.addr_absolute_x(bus);
                let value = bus.read(addr);
                let result = self.ror(value);
                bus.write(addr, result);
                7
            }
            // STA (indirect, X)
            0x81 => {
                let (addr, _) = self.addr_indirect_x(bus);
                self.handle_write_with_oamdma(bus, addr, self.a);
                6
            }
            // STY (zero page)
            0x84 => {
                let addr = self.addr_zero_page(bus);
                bus.write(addr, self.y);
                3
            }
            // STA (zero page)
            0x85 => {
                let addr = self.addr_zero_page(bus);
                self.handle_write_with_oamdma(bus, addr, self.a);
                3
            }
            // STX (zero page)
            0x86 => {
                let addr = self.addr_zero_page(bus);
                bus.write(addr, self.x);
                3
            }
            // DEY
            0x88 => {
                self.y = self.y.wrapping_sub(1);
                self.update_zero_negative(self.y);
                2
            }
            // TXA
            0x8A => {
                self.a = self.x;
                self.update_zero_negative(self.a);
                2
            }
            // STY (absolute)
            0x8C => {
                let addr = self.addr_absolute(bus);
                bus.write(addr, self.y);
                4
            }
            // STA (absolute)
            0x8D => {
                let addr = self.addr_absolute(bus);
                self.handle_write_with_oamdma(bus, addr, self.a);
                4
            }
            // STX (absolute)
            0x8E => {
                let addr = self.addr_absolute(bus);
                bus.write(addr, self.x);
                4
            }
            // BCC
            0x90 => self.branch(!self.get_flag(FLAG_C), bus),
            // STA (indirect), Y
            0x91 => {
                let (addr, _) = self.addr_indirect_y(bus);
                self.handle_write_with_oamdma(bus, addr, self.a);
                6
            }
            // STY (zero page, X)
            0x94 => {
                let addr = self.addr_zero_page_x(bus);
                bus.write(addr, self.y);
                4
            }
            // STA (zero page, X)
            0x95 => {
                let addr = self.addr_zero_page_x(bus);
                self.handle_write_with_oamdma(bus, addr, self.a);
                4
            }
            // STX (zero page, Y)
            0x96 => {
                let addr = self.addr_zero_page_y(bus);
                bus.write(addr, self.x);
                4
            }
            // TYA
            0x98 => {
                self.a = self.y;
                self.update_zero_negative(self.a);
                2
            }
            // STA (absolute, Y)
            0x99 => {
                let (addr, _) = self.addr_absolute_y(bus);
                self.handle_write_with_oamdma(bus, addr, self.a);
                5
            }
            // TXS
            0x9A => {
                self.sp = self.x;
                2
            }
            // STA (absolute, X)
            0x9D => {
                let (addr, _) = self.addr_absolute_x(bus);
                self.handle_write_with_oamdma(bus, addr, self.a);
                5
            }
            // LDY (immediate)
            0xA0 => {
                self.y = self.addr_immediate(bus);
                self.update_zero_negative(self.y);
                2
            }
            // LDA (indirect, X)
            0xA1 => {
                let (addr, extra_cycle) = self.addr_indirect_x(bus);
                self.a = bus.read(addr);
                self.update_zero_negative(self.a);
                6 + extra_cycle
            }
            // LDX (immediate)
            0xA2 => {
                self.x = self.addr_immediate(bus);
                self.update_zero_negative(self.x);
                2
            }
            // LDY (zero page)
            0xA4 => {
                let addr = self.addr_zero_page(bus);
                self.y = bus.read(addr);
                self.update_zero_negative(self.y);
                3
            }
            // LDA (zero page)
            0xA5 => {
                let addr = self.addr_zero_page(bus);
                self.a = bus.read(addr);
                self.update_zero_negative(self.a);
                3
            }
            // LDX (zero page)
            0xA6 => {
                let addr = self.addr_zero_page(bus);
                self.x = bus.read(addr);
                self.update_zero_negative(self.x);
                3
            }
            // TAY
            0xA8 => {
                self.y = self.a;
                self.update_zero_negative(self.y);
                2
            }
            // LDA (immediate)
            0xA9 => {
                self.a = self.addr_immediate(bus);
                self.update_zero_negative(self.a);
                2
            }
            // TAX
            0xAA => {
                self.x = self.a;
                self.update_zero_negative(self.x);
                2
            }
            // LDY (absolute)
            0xAC => {
                let addr = self.addr_absolute(bus);
                self.y = bus.read(addr);
                self.update_zero_negative(self.y);
                4
            }
            // LDA (absolute)
            0xAD => {
                let addr = self.addr_absolute(bus);
                self.a = bus.read(addr);
                self.update_zero_negative(self.a);
                4
            }
            // LDX (absolute)
            0xAE => {
                let addr = self.addr_absolute(bus);
                self.x = bus.read(addr);
                self.update_zero_negative(self.x);
                4
            }
            // BCS
            0xB0 => self.branch(self.get_flag(FLAG_C), bus),
            // LDA (indirect), Y
            0xB1 => {
                let (addr, extra_cycle) = self.addr_indirect_y(bus);
                self.a = bus.read(addr);
                self.update_zero_negative(self.a);
                5 + extra_cycle
            }
            // LDY (zero page, X)
            0xB4 => {
                let addr = self.addr_zero_page_x(bus);
                self.y = bus.read(addr);
                self.update_zero_negative(self.y);
                4
            }
            // LDA (zero page, X)
            0xB5 => {
                let addr = self.addr_zero_page_x(bus);
                self.a = bus.read(addr);
                self.update_zero_negative(self.a);
                4
            }
            // LDX (zero page, Y)
            0xB6 => {
                let addr = self.addr_zero_page_y(bus);
                self.x = bus.read(addr);
                self.update_zero_negative(self.x);
                4
            }
            // CLV
            0xB8 => {
                self.set_flag(FLAG_V, false);
                2
            }
            // LDA (absolute, Y)
            0xB9 => {
                let (addr, extra_cycle) = self.addr_absolute_y(bus);
                self.a = bus.read(addr);
                self.update_zero_negative(self.a);
                4 + extra_cycle
            }
            // TSX
            0xBA => {
                self.x = self.sp;
                self.update_zero_negative(self.x);
                2
            }
            // LDY (absolute, X)
            0xBC => {
                let (addr, extra_cycle) = self.addr_absolute_x(bus);
                self.y = bus.read(addr);
                self.update_zero_negative(self.y);
                4 + extra_cycle
            }
            // LDA (absolute, X)
            0xBD => {
                let (addr, extra_cycle) = self.addr_absolute_x(bus);
                self.a = bus.read(addr);
                self.update_zero_negative(self.a);
                4 + extra_cycle
            }
            // LDX (absolute, Y)
            0xBE => {
                let (addr, extra_cycle) = self.addr_absolute_y(bus);
                self.x = bus.read(addr);
                self.update_zero_negative(self.x);
                4 + extra_cycle
            }
            // CPY (immediate)
            0xC0 => {
                let value = self.addr_immediate(bus);
                self.cpy(value);
                2
            }
            // CMP (indirect, X)
            0xC1 => {
                let (addr, extra_cycle) = self.addr_indirect_x(bus);
                let value = bus.read(addr);
                self.cmp(value);
                6 + extra_cycle
            }
            // CPY (zero page)
            0xC4 => {
                let addr = self.addr_zero_page(bus);
                let value = bus.read(addr);
                self.cpy(value);
                3
            }
            // CMP (zero page)
            0xC5 => {
                let addr = self.addr_zero_page(bus);
                let value = bus.read(addr);
                self.cmp(value);
                3
            }
            // DEC (zero page)
            0xC6 => {
                let addr = self.addr_zero_page(bus);
                let value = bus.read(addr).wrapping_sub(1);
                bus.write(addr, value);
                self.update_zero_negative(value);
                5
            }
            // INY
            0xC8 => {
                self.y = self.y.wrapping_add(1);
                self.update_zero_negative(self.y);
                2
            }
            // CMP (immediate)
            0xC9 => {
                let value = self.addr_immediate(bus);
                self.cmp(value);
                2
            }
            // DEX
            0xCA => {
                self.x = self.x.wrapping_sub(1);
                self.update_zero_negative(self.x);
                2
            }
            // CPY (absolute)
            0xCC => {
                let addr = self.addr_absolute(bus);
                let value = bus.read(addr);
                self.cpy(value);
                4
            }
            // CMP (absolute)
            0xCD => {
                let addr = self.addr_absolute(bus);
                let value = bus.read(addr);
                self.cmp(value);
                4
            }
            // DEC (absolute)
            0xCE => {
                let addr = self.addr_absolute(bus);
                let value = bus.read(addr).wrapping_sub(1);
                bus.write(addr, value);
                self.update_zero_negative(value);
                6
            }
            // BNE
            0xD0 => self.branch(!self.get_flag(FLAG_Z), bus),
            // CMP (indirect), Y
            0xD1 => {
                let (addr, extra_cycle) = self.addr_indirect_y(bus);
                let value = bus.read(addr);
                self.cmp(value);
                5 + extra_cycle
            }
            // CMP (zero page, X)
            0xD5 => {
                let addr = self.addr_zero_page_x(bus);
                let value = bus.read(addr);
                self.cmp(value);
                4
            }
            // DEC (zero page, X)
            0xD6 => {
                let addr = self.addr_zero_page_x(bus);
                let value = bus.read(addr).wrapping_sub(1);
                bus.write(addr, value);
                self.update_zero_negative(value);
                6
            }
            // CLD
            0xD8 => {
                self.set_flag(FLAG_D, false);
                2
            }
            // CMP (absolute, Y)
            0xD9 => {
                let (addr, extra_cycle) = self.addr_absolute_y(bus);
                let value = bus.read(addr);
                self.cmp(value);
                4 + extra_cycle
            }
            // CMP (absolute, X)
            0xDD => {
                let (addr, extra_cycle) = self.addr_absolute_x(bus);
                let value = bus.read(addr);
                self.cmp(value);
                4 + extra_cycle
            }
            // DEC (absolute, X)
            0xDE => {
                let (addr, _) = self.addr_absolute_x(bus);
                let value = bus.read(addr).wrapping_sub(1);
                bus.write(addr, value);
                self.update_zero_negative(value);
                7
            }
            // CPX (immediate)
            0xE0 => {
                let value = self.addr_immediate(bus);
                self.cpx(value);
                2
            }
            // SBC (indirect, X)
            0xE1 => {
                let (addr, extra_cycle) = self.addr_indirect_x(bus);
                let value = bus.read(addr);
                self.sbc(value);
                6 + extra_cycle
            }
            // CPX (zero page)
            0xE4 => {
                let addr = self.addr_zero_page(bus);
                let value = bus.read(addr);
                self.cpx(value);
                3
            }
            // SBC (zero page)
            0xE5 => {
                let addr = self.addr_zero_page(bus);
                let value = bus.read(addr);
                self.sbc(value);
                3
            }
            // INC (zero page)
            0xE6 => {
                let addr = self.addr_zero_page(bus);
                let value = bus.read(addr).wrapping_add(1);
                bus.write(addr, value);
                self.update_zero_negative(value);
                5
            }
            // INX
            0xE8 => {
                self.x = self.x.wrapping_add(1);
                self.update_zero_negative(self.x);
                2
            }
            // SBC (immediate)
            0xE9 => {
                let value = self.addr_immediate(bus);
                self.sbc(value);
                2
            }
            // NOP
            0xEA => 2,
            // CPX (absolute)
            0xEC => {
                let addr = self.addr_absolute(bus);
                let value = bus.read(addr);
                self.cpx(value);
                4
            }
            // SBC (absolute)
            0xED => {
                let addr = self.addr_absolute(bus);
                let value = bus.read(addr);
                self.sbc(value);
                4
            }
            // INC (absolute)
            0xEE => {
                let addr = self.addr_absolute(bus);
                let value = bus.read(addr).wrapping_add(1);
                bus.write(addr, value);
                self.update_zero_negative(value);
                6
            }
            // BEQ
            0xF0 => self.branch(self.get_flag(FLAG_Z), bus),
            // SBC (indirect), Y
            0xF1 => {
                let (addr, extra_cycle) = self.addr_indirect_y(bus);
                let value = bus.read(addr);
                self.sbc(value);
                5 + extra_cycle
            }
            // SBC (zero page, X)
            0xF5 => {
                let addr = self.addr_zero_page_x(bus);
                let value = bus.read(addr);
                self.sbc(value);
                4
            }
            // INC (zero page, X)
            0xF6 => {
                let addr = self.addr_zero_page_x(bus);
                let value = bus.read(addr).wrapping_add(1);
                bus.write(addr, value);
                self.update_zero_negative(value);
                6
            }
            // SED
            0xF8 => {
                self.set_flag(FLAG_D, true);
                2
            }
            // SBC (absolute, Y)
            0xF9 => {
                let (addr, extra_cycle) = self.addr_absolute_y(bus);
                let value = bus.read(addr);
                self.sbc(value);
                4 + extra_cycle
            }
            // SBC (absolute, X)
            0xFD => {
                let (addr, extra_cycle) = self.addr_absolute_x(bus);
                let value = bus.read(addr);
                self.sbc(value);
                4 + extra_cycle
            }
            // INC (absolute, X)
            0xFE => {
                let (addr, _) = self.addr_absolute_x(bus);
                let value = bus.read(addr).wrapping_add(1);
                bus.write(addr, value);
                self.update_zero_negative(value);
                7
            }

            // ============================================
            // UNOFFICIAL/ILLEGAL OPCODES
            // ============================================

            // *SLO - ASL + ORA (Shift Left then OR with Accumulator)
            0x03 => { // (indirect, X)
                let (addr, _) = self.addr_indirect_x(bus);
                let value = bus.read(addr);
                let shifted = self.asl(value);
                bus.write(addr, shifted);
                self.ora(shifted);
                8
            }
            0x07 => { // zero page
                let addr = self.addr_zero_page(bus);
                let value = bus.read(addr);
                let shifted = self.asl(value);
                bus.write(addr, shifted);
                self.ora(shifted);
                5
            }
            0x0F => { // absolute
                let addr = self.addr_absolute(bus);
                let value = bus.read(addr);
                let shifted = self.asl(value);
                bus.write(addr, shifted);
                self.ora(shifted);
                6
            }
            0x13 => { // (indirect), Y
                let (addr, _) = self.addr_indirect_y(bus);
                let value = bus.read(addr);
                let shifted = self.asl(value);
                bus.write(addr, shifted);
                self.ora(shifted);
                8
            }
            0x17 => { // zero page, X
                let addr = self.addr_zero_page_x(bus);
                let value = bus.read(addr);
                let shifted = self.asl(value);
                bus.write(addr, shifted);
                self.ora(shifted);
                6
            }
            0x1B => { // absolute, Y
                let (addr, _) = self.addr_absolute_y(bus);
                let value = bus.read(addr);
                let shifted = self.asl(value);
                bus.write(addr, shifted);
                self.ora(shifted);
                7
            }
            0x1F => { // absolute, X
                let (addr, _) = self.addr_absolute_x(bus);
                let value = bus.read(addr);
                let shifted = self.asl(value);
                bus.write(addr, shifted);
                self.ora(shifted);
                7
            }

            // *RLA - ROL + AND (Rotate Left then AND with Accumulator)
            0x23 => { // (indirect, X)
                let (addr, _) = self.addr_indirect_x(bus);
                let value = bus.read(addr);
                let rotated = self.rol(value);
                bus.write(addr, rotated);
                self.and(rotated);
                8
            }
            0x27 => { // zero page
                let addr = self.addr_zero_page(bus);
                let value = bus.read(addr);
                let rotated = self.rol(value);
                bus.write(addr, rotated);
                self.and(rotated);
                5
            }
            0x2F => { // absolute
                let addr = self.addr_absolute(bus);
                let value = bus.read(addr);
                let rotated = self.rol(value);
                bus.write(addr, rotated);
                self.and(rotated);
                6
            }
            0x33 => { // (indirect), Y
                let (addr, _) = self.addr_indirect_y(bus);
                let value = bus.read(addr);
                let rotated = self.rol(value);
                bus.write(addr, rotated);
                self.and(rotated);
                8
            }
            0x37 => { // zero page, X
                let addr = self.addr_zero_page_x(bus);
                let value = bus.read(addr);
                let rotated = self.rol(value);
                bus.write(addr, rotated);
                self.and(rotated);
                6
            }
            0x3B => { // absolute, Y
                let (addr, _) = self.addr_absolute_y(bus);
                let value = bus.read(addr);
                let rotated = self.rol(value);
                bus.write(addr, rotated);
                self.and(rotated);
                7
            }
            0x3F => { // absolute, X
                let (addr, _) = self.addr_absolute_x(bus);
                let value = bus.read(addr);
                let rotated = self.rol(value);
                bus.write(addr, rotated);
                self.and(rotated);
                7
            }

            // *SRE - LSR + EOR (Shift Right then XOR with Accumulator)
            0x43 => { // (indirect, X)
                let (addr, _) = self.addr_indirect_x(bus);
                let value = bus.read(addr);
                let shifted = self.lsr(value);
                bus.write(addr, shifted);
                self.eor(shifted);
                8
            }
            0x47 => { // zero page
                let addr = self.addr_zero_page(bus);
                let value = bus.read(addr);
                let shifted = self.lsr(value);
                bus.write(addr, shifted);
                self.eor(shifted);
                5
            }
            0x4F => { // absolute
                let addr = self.addr_absolute(bus);
                let value = bus.read(addr);
                let shifted = self.lsr(value);
                bus.write(addr, shifted);
                self.eor(shifted);
                6
            }
            0x53 => { // (indirect), Y
                let (addr, _) = self.addr_indirect_y(bus);
                let value = bus.read(addr);
                let shifted = self.lsr(value);
                bus.write(addr, shifted);
                self.eor(shifted);
                8
            }
            0x57 => { // zero page, X
                let addr = self.addr_zero_page_x(bus);
                let value = bus.read(addr);
                let shifted = self.lsr(value);
                bus.write(addr, shifted);
                self.eor(shifted);
                6
            }
            0x5B => { // absolute, Y
                let (addr, _) = self.addr_absolute_y(bus);
                let value = bus.read(addr);
                let shifted = self.lsr(value);
                bus.write(addr, shifted);
                self.eor(shifted);
                7
            }
            0x5F => { // absolute, X
                let (addr, _) = self.addr_absolute_x(bus);
                let value = bus.read(addr);
                let shifted = self.lsr(value);
                bus.write(addr, shifted);
                self.eor(shifted);
                7
            }

            // *RRA - ROR + ADC (Rotate Right then Add with Carry)
            0x63 => { // (indirect, X)
                let (addr, _) = self.addr_indirect_x(bus);
                let value = bus.read(addr);
                let rotated = self.ror(value);
                bus.write(addr, rotated);
                self.adc(rotated);
                8
            }
            0x67 => { // zero page
                let addr = self.addr_zero_page(bus);
                let value = bus.read(addr);
                let rotated = self.ror(value);
                bus.write(addr, rotated);
                self.adc(rotated);
                5
            }
            0x6F => { // absolute
                let addr = self.addr_absolute(bus);
                let value = bus.read(addr);
                let rotated = self.ror(value);
                bus.write(addr, rotated);
                self.adc(rotated);
                6
            }
            0x73 => { // (indirect), Y
                let (addr, _) = self.addr_indirect_y(bus);
                let value = bus.read(addr);
                let rotated = self.ror(value);
                bus.write(addr, rotated);
                self.adc(rotated);
                8
            }
            0x77 => { // zero page, X
                let addr = self.addr_zero_page_x(bus);
                let value = bus.read(addr);
                let rotated = self.ror(value);
                bus.write(addr, rotated);
                self.adc(rotated);
                6
            }
            0x7B => { // absolute, Y
                let (addr, _) = self.addr_absolute_y(bus);
                let value = bus.read(addr);
                let rotated = self.ror(value);
                bus.write(addr, rotated);
                self.adc(rotated);
                7
            }
            0x7F => { // absolute, X
                let (addr, _) = self.addr_absolute_x(bus);
                let value = bus.read(addr);
                let rotated = self.ror(value);
                bus.write(addr, rotated);
                self.adc(rotated);
                7
            }

            // *SAX - Store A & X (AND A with X, store result)
            0x83 => { // (indirect, X)
                let (addr, _) = self.addr_indirect_x(bus);
                bus.write(addr, self.a & self.x);
                6
            }
            0x87 => { // zero page
                let addr = self.addr_zero_page(bus);
                bus.write(addr, self.a & self.x);
                3
            }
            0x8F => { // absolute
                let addr = self.addr_absolute(bus);
                bus.write(addr, self.a & self.x);
                4
            }
            0x97 => { // zero page, Y
                let addr = self.addr_zero_page_y(bus);
                bus.write(addr, self.a & self.x);
                4
            }

            // *LAX - LDA + LDX (Load A and X with same value)
            0xA3 => { // (indirect, X)
                let (addr, extra_cycle) = self.addr_indirect_x(bus);
                let value = bus.read(addr);
                self.a = value;
                self.x = value;
                self.update_zero_negative(value);
                6 + extra_cycle
            }
            0xA7 => { // zero page
                let addr = self.addr_zero_page(bus);
                let value = bus.read(addr);
                self.a = value;
                self.x = value;
                self.update_zero_negative(value);
                3
            }
            0xAB => { // immediate (unstable)
                let value = self.addr_immediate(bus);
                self.a = value;
                self.x = value;
                self.update_zero_negative(value);
                2
            }
            0xAF => { // absolute
                let addr = self.addr_absolute(bus);
                let value = bus.read(addr);
                self.a = value;
                self.x = value;
                self.update_zero_negative(value);
                4
            }
            0xB3 => { // (indirect), Y
                let (addr, extra_cycle) = self.addr_indirect_y(bus);
                let value = bus.read(addr);
                self.a = value;
                self.x = value;
                self.update_zero_negative(value);
                5 + extra_cycle
            }
            0xB7 => { // zero page, Y
                let addr = self.addr_zero_page_y(bus);
                let value = bus.read(addr);
                self.a = value;
                self.x = value;
                self.update_zero_negative(value);
                4
            }
            0xBF => { // absolute, Y
                let (addr, extra_cycle) = self.addr_absolute_y(bus);
                let value = bus.read(addr);
                self.a = value;
                self.x = value;
                self.update_zero_negative(value);
                4 + extra_cycle
            }

            // *DCP - DEC + CMP (Decrement memory then Compare)
            0xC3 => { // (indirect, X)
                let (addr, _) = self.addr_indirect_x(bus);
                let value = bus.read(addr).wrapping_sub(1);
                bus.write(addr, value);
                self.cmp(value);
                8
            }
            0xC7 => { // zero page
                let addr = self.addr_zero_page(bus);
                let value = bus.read(addr).wrapping_sub(1);
                bus.write(addr, value);
                self.cmp(value);
                5
            }
            0xCF => { // absolute
                let addr = self.addr_absolute(bus);
                let value = bus.read(addr).wrapping_sub(1);
                bus.write(addr, value);
                self.cmp(value);
                6
            }
            0xD3 => { // (indirect), Y
                let (addr, _) = self.addr_indirect_y(bus);
                let value = bus.read(addr).wrapping_sub(1);
                bus.write(addr, value);
                self.cmp(value);
                8
            }
            0xD7 => { // zero page, X
                let addr = self.addr_zero_page_x(bus);
                let value = bus.read(addr).wrapping_sub(1);
                bus.write(addr, value);
                self.cmp(value);
                6
            }
            0xDB => { // absolute, Y
                let (addr, _) = self.addr_absolute_y(bus);
                let value = bus.read(addr).wrapping_sub(1);
                bus.write(addr, value);
                self.cmp(value);
                7
            }
            0xDF => { // absolute, X
                let (addr, _) = self.addr_absolute_x(bus);
                let value = bus.read(addr).wrapping_sub(1);
                bus.write(addr, value);
                self.cmp(value);
                7
            }

            // *ISB/ISC/INS - INC + SBC (Increment memory then Subtract)
            0xE3 => { // (indirect, X)
                let (addr, _) = self.addr_indirect_x(bus);
                let value = bus.read(addr).wrapping_add(1);
                bus.write(addr, value);
                self.sbc(value);
                8
            }
            0xE7 => { // zero page
                let addr = self.addr_zero_page(bus);
                let value = bus.read(addr).wrapping_add(1);
                bus.write(addr, value);
                self.sbc(value);
                5
            }
            0xEB => { // immediate (same as SBC #imm, unofficial)
                let value = self.addr_immediate(bus);
                self.sbc(value);
                2
            }
            0xEF => { // absolute
                let addr = self.addr_absolute(bus);
                let value = bus.read(addr).wrapping_add(1);
                bus.write(addr, value);
                self.sbc(value);
                6
            }
            0xF3 => { // (indirect), Y
                let (addr, _) = self.addr_indirect_y(bus);
                let value = bus.read(addr).wrapping_add(1);
                bus.write(addr, value);
                self.sbc(value);
                8
            }
            0xF7 => { // zero page, X
                let addr = self.addr_zero_page_x(bus);
                let value = bus.read(addr).wrapping_add(1);
                bus.write(addr, value);
                self.sbc(value);
                6
            }
            0xFB => { // absolute, Y
                let (addr, _) = self.addr_absolute_y(bus);
                let value = bus.read(addr).wrapping_add(1);
                bus.write(addr, value);
                self.sbc(value);
                7
            }
            0xFF => { // absolute, X
                let (addr, _) = self.addr_absolute_x(bus);
                let value = bus.read(addr).wrapping_add(1);
                bus.write(addr, value);
                self.sbc(value);
                7
            }

            // *ANC - AND + set Carry to bit 7
            0x0B | 0x2B => {
                let value = self.addr_immediate(bus);
                self.and(value);
                self.set_flag(FLAG_C, (self.a & 0x80) != 0);
                2
            }

            // *ALR/ASR - AND + LSR
            0x4B => {
                let value = self.addr_immediate(bus);
                self.a = self.a & value;
                self.a = self.lsr(self.a);
                2
            }

            // *ARR - AND + ROR (with weird flag behavior)
            0x6B => {
                let value = self.addr_immediate(bus);
                self.a = self.a & value;
                self.a = self.ror(self.a);
                // Special flag handling for ARR
                self.set_flag(FLAG_C, (self.a & 0x40) != 0);
                self.set_flag(FLAG_V, ((self.a & 0x40) ^ ((self.a & 0x20) << 1)) != 0);
                2
            }

            // *AXS/SBX - (A & X) - immediate -> X
            0xCB => {
                let value = self.addr_immediate(bus);
                let temp = (self.a & self.x).wrapping_sub(value);
                self.set_flag(FLAG_C, (self.a & self.x) >= value);
                self.x = temp;
                self.update_zero_negative(self.x);
                2
            }

            // *NOP variants (read and discard)
            0x04 | 0x44 | 0x64 => { // zero page NOP
                let _ = self.addr_zero_page(bus);
                3
            }
            0x0C => { // absolute NOP
                let addr = self.addr_absolute(bus);
                let _ = bus.read(addr);
                4
            }
            0x14 | 0x34 | 0x54 | 0x74 | 0xD4 | 0xF4 => { // zero page, X NOP
                let _ = self.addr_zero_page_x(bus);
                4
            }
            0x1A | 0x3A | 0x5A | 0x7A | 0xDA | 0xFA => { // implied NOP
                2
            }
            0x1C | 0x3C | 0x5C | 0x7C | 0xDC | 0xFC => { // absolute, X NOP
                let (addr, extra_cycle) = self.addr_absolute_x(bus);
                let _ = bus.read(addr);
                4 + extra_cycle
            }
            0x80 | 0x82 | 0x89 | 0xC2 | 0xE2 => { // immediate NOP
                let _ = self.addr_immediate(bus);
                2
            }

            _ => {
                // Anything undocumented and unmodelled runs as a two-cycle no-op.
                2
            }
        }
    }


    // Addressing modes.  Each advances the program counter over its operand
    // bytes and leaves every other register alone; the indexed modes also
    // report the page-cross penalty cycle.
    fn addr_immediate<B: CpuBus>(&mut self, bus: &mut B) -> (value: u8)
        requires
            old(bus).bus_wf(),
        ensures
            final(bus).bus_wf(),
            final(bus).ppu_clock() == old(bus).ppu_clock(),
            *final(self) == (Cpu {
                pc: vstd::wrapping::u16_specs::wrapping_add(old(self).pc, 1),
                ..*old(self)
            }),
    {
        let value = bus.read(self.pc);
        self.pc = self.pc.wrapping_add(1);
        value
    }

    fn addr_zero_page<B: CpuBus>(&mut self, bus: &mut B) -> (addr: u16)
        requires
            old(bus).bus_wf(),
        ensures
            final(bus).bus_wf(),
            final(bus).ppu_clock() == old(bus).ppu_clock(),
            *final(self) == (Cpu {
                pc: vstd::wrapping::u16_specs::wrapping_add(old(self).pc, 1),
                ..*old(self)
            }),
    {
        let addr = bus.read(self.pc) as u16;
        self.pc = self.pc.wrapping_add(1);
        addr
    }

    fn addr_zero_page_x<B: CpuBus>(&mut self, bus: &mut B) -> (addr: u16)
        requires
            old(bus).bus_wf(),
        ensures
            final(bus).bus_wf(),
            final(bus).ppu_clock() == old(bus).ppu_clock(),
            *final(self) == (Cpu {
                pc: vstd::wrapping::u16_specs::wrapping_add(old(self).pc, 1),
                ..*old(self)
            }),
    {
        let base = bus.read(self.pc) as u16;
        self.pc = self.pc.wrapping_add(1);
        (base + self.x as u16) % 0x100
    }

    fn addr_zero_page_y<B: CpuBus>(&mut self, bus: &mut B) -> (addr: u16)
        requires
            old(bus).bus_wf(),
        ensures
            final(bus).bus_wf(),
            final(bus).ppu_clock() == old(bus).ppu_clock(),
            *final(self) == (Cpu {
                pc: vstd::wrapping::u16_specs::wrapping_add(old(self).pc, 1),
                ..*old(self)
            }),
    {
        let base = bus.read(self.pc) as u16;
        self.pc = self.pc.wrapping_add(1);
        (base + self.y as u16) % 0x100
    }

    fn addr_absolute<B: CpuBus>(&mut self, bus: &mut B) -> (addr: u16)
        requires
            old(bus).bus_wf(),
        ensures
            final(bus).bus_wf(),
            final(bus).ppu_clock() == old(bus).ppu_clock(),
            *final(self) == (Cpu {
                pc: vstd::wrapping::u16_specs::wrapping_add(
                    vstd::wrapping::u16_specs::wrapping_add(old(self).pc, 1),
                    1,
                ),
                ..*old(self)
            }),
    {
        let low = bus.read(self.pc) as u16;
        self.pc = self.pc.wrapping_add(1);
        let high = bus.read(self.pc) as u16;
        self.pc = self.pc.wrapping_add(1);
        high * 0x100 + low
    }

    fn addr_absolute_x<B: CpuBus>(&mut self, bus: &mut B) -> (r: (u16, u64))
        requires
            old(bus).bus_wf(),
        ensures
            final(bus).bus_wf(),
            final(bus).ppu_clock() == old(bus).ppu_clock(),
            r.1 <= 1,
            *final(self) == (Cpu {
                pc: final(self).pc,
                ..*old(self)
            }),
    {
        let base = self.addr_absolute(bus);
        let addr = base.wrapping_add(self.x as u16);
        let extra_cycle: u64 = if (base / 0x100) != (addr / 0x100) {
            1
        } else {
            0
        };
        (addr, extra_cycle)
    }

    fn addr_absolute_y<B: CpuBus>(&mut self, bus: &mut B) -> (r: (u16, u64))
        requires
            old(bus).bus_wf(),
        ensures
            final(bus).bus_wf(),
            final(bus).ppu_clock() == old(bus).ppu_clock(),
            r.1 <= 1,
            *final(self) == (Cpu {
                pc: final(self).pc,
                ..*old(self)
            }),
    {
        let base = self.addr_absolute(bus);
        let addr = base.wrapping_add(self.y as u16);
        let extra_cycle: u64 = if (base / 0x100) != (addr / 0x100) {
            1
        } else {
            0
        };
        (addr, extra_cycle)
    }

    fn addr_indirect_x<B: CpuBus>(&mut self, bus: &mut B) -> (r: (u16, u64))
        requires
            old(bus).bus_wf(),
        ensures
            final(bus).bus_wf(),
            final(bus).ppu_clock() == old(bus).ppu_clock(),
            r.1 == 0,
            *final(self) == (Cpu {
                pc: vstd::wrapping::u16_specs::wrapping_add(old(self).pc, 1),
                ..*old(self)
            }),
    {
        let base = bus.read(self.pc) as u16;
        self.pc = self.pc.wrapping_add(1);
        let ptr = (base + self.x as u16) % 0x100;
        let low = bus.read(ptr) as u16;
        let high = bus.read((ptr + 1) % 0x100) as u16;
        (high * 0x100 + low, 0)
    }

    fn addr_indirect_y<B: CpuBus>(&mut self, bus: &mut B) -> (r: (u16, u64))
        requires
            old(bus).bus_wf(),
        ensures
            final(bus).bus_wf(),
            final(bus).ppu_clock() == old(bus).ppu_clock(),
            r.1 <= 1,
            *final(self) == (Cpu {
                pc: vstd::wrapping::u16_specs::wrapping_add(old(self).pc, 1),
                ..*old(self)
            }),
    {
        let base = bus.read(self.pc) as u16;
        self.pc = self.pc.wrapping_add(1);
        let low = bus.read(base) as u16;
        let high = bus.read((base + 1) % 0x100) as u16;
        let indirect = high * 0x100 + low;
        let addr = indirect.wrapping_add(self.y as u16);
        let extra_cycle: u64 = if (indirect / 0x100) != (addr / 0x100) {
            1
        } else {
            0
        };
        (addr, extra_cycle)
    }

    // Stack operations: the stack lives in page one and the pointer wraps
    // within it.
    fn push<B: CpuBus>(&mut self, value: u8, bus: &mut B)
        requires
            old(bus).bus_wf(),
        ensures
            final(bus).bus_wf(),
            final(bus).ppu_clock() == old(bus).ppu_clock(),
            *final(self) == (Cpu {
                sp: vstd::wrapping::u8_specs::wrapping_sub(old(self).sp, 1),
                ..*old(self)
            }),
    {
        bus.write(0x100 + self.sp as u16, value);
        self.sp = self.sp.wrapping_sub(1);
    }

    fn pop<B: CpuBus>(&mut self, bus: &mut B) -> (r: u8)
        requires
            old(bus).bus_wf(),
        ensures
            final(bus).bus_wf(),
            final(bus).ppu_clock() == old(bus).ppu_clock(),
            *final(self) == (Cpu {
                sp: vstd::wrapping::u8_specs::wrapping_add(old(self).sp, 1),
                ..*old(self)
            }),
    {
        self.sp = self.sp.wrapping_add(1);
        bus.read(0x100 + self.sp as u16)
    }

    fn push_word<B: CpuBus>(&mut self, value: u16, bus: &mut B)
        requires
            old(bus).bus_wf(),
        ensures
            final(bus).bus_wf(),
            final(bus).ppu_clock() == old(bus).ppu_clock(),
            *final(self) == (Cpu {
                sp: vstd::wrapping::u8_specs::wrapping_sub(old(self).sp, 2),
                ..*old(self)
            }),
    {
        self.push((value / 0x100) as u8, bus);
        self.push((value % 0x100) as u8, bus);
    }

    fn pop_word<B: CpuBus>(&mut self, bus: &mut B) -> (r: u16)
        requires
            old(bus).bus_wf(),
        ensures
            final(bus).bus_wf(),
            final(bus).ppu_clock() == old(bus).ppu_clock(),
            *final(self) == (Cpu {
                sp: vstd::wrapping::u8_specs::wrapping_add(old(self).sp, 2),
                ..*old(self)
            }),
    {
        let low = self.pop(bus) as u16;
        let high = self.pop(bus) as u16;
        high * 0x100 + low
    }

    /// Reads a little-endian word; the second byte comes from the wrapped
    /// successor address.
    fn read_word<B: CpuBus>(&self, addr: u16, bus: &mut B) -> (r: u16)
        requires
            old(bus).bus_wf(),
        ensures
            final(bus).bus_wf(),
            final(bus).ppu_clock() == old(bus).ppu_clock(),
    {
        let low = bus.read(addr) as u16;
        let high = bus.read(addr.wrapping_add(1)) as u16;
        high * 0x100 + low
    }

    /// A conditional branch: two cycles untaken; taken, one more, and a
    /// second more when the target sits on another page.
    fn branch<B: CpuBus>(&mut self, condition: bool, bus: &mut B) -> (r: u64)
        requires
            old(bus).bus_wf(),
        ensures
            final(bus).bus_wf(),
            final(bus).ppu_clock() == old(bus).ppu_clock(),
            r == 2 || r == 3 || r == 4,
            *final(self) == (Cpu {
                pc: final(self).pc,
                ..*old(self)
            }),
            !condition ==> r == 2 && *final(self) == (Cpu {
                pc: vstd::wrapping::u16_specs::wrapping_add(old(self).pc, 1),
                ..*old(self)
            }),
            condition ==> r == 3 || r == 4,
    {
        if condition {
            let offset = bus.read(self.pc);
            self.pc = self.pc.wrapping_add(1);
            let old_pc = self.pc;
            // The offset is a sign-extended byte.
            let target: u16 = if offset < 0x80 {
                self.pc.wrapping_add(offset as u16)
            } else {
                self.pc.wrapping_add(offset as u16).wrapping_sub(0x100)
            };
            self.pc = target;
            if (old_pc / 0x100) != (self.pc / 0x100) {
                4
            } else {
                3
            }
        } else {
            self.pc = self.pc.wrapping_add(1);
            2
        }
    }

    // Arithmetic and logic.  Each helper states the exact register and flag
    // outcome, with the flags written in the order the hardware sets them.
    fn ora(&mut self, value: u8)
        ensures
            *final(self) == (Cpu {
                a: old(self).a | value,
                status: with_flag(
                    with_flag(old(self).status, FLAG_Z, (old(self).a | value) == 0),
                    FLAG_N,
                    ((old(self).a | value) & FLAG_N) != 0,
                ),
                ..*old(self)
            }),
    {
        self.a = self.a | value;
        let a = self.a;
        self.update_zero_negative(a);
    }

    fn and(&mut self, value: u8)
        ensures
            *final(self) == (Cpu {
                a: old(self).a & value,
                status: with_flag(
                    with_flag(old(self).status, FLAG_Z, (old(self).a & value) == 0),
                    FLAG_N,
                    ((old(self).a & value) & FLAG_N) != 0,
                ),
                ..*old(self)
            }),
    {
        self.a = self.a & value;
        let a = self.a;
        self.update_zero_negative(a);
    }

    fn eor(&mut self, value: u8)
        ensures
            *final(self) == (Cpu {
                a: old(self).a ^ value,
                status: with_flag(
                    with_flag(old(self).status, FLAG_Z, (old(self).a ^ value) == 0),
                    FLAG_N,
                    ((old(self).a ^ value) & FLAG_N) != 0,
                ),
                ..*old(self)
            }),
    {
        self.a = self.a ^ value;
        let a = self.a;
        self.update_zero_negative(a);
    }

    /// Add with carry.  The overflow flag is set when the result's sign
    /// differs from both operands' signs.
    fn adc(&mut self, value: u8)
        ensures
            final(self).a == ((old(self).a + value + (if (old(self).status & FLAG_C) != 0 {
                1int
            } else {
                0int
            })) % 256) as u8,
            final(self).status == with_flag(
                with_flag(
                    with_flag(
                        with_flag(
                            old(self).status,
                            FLAG_C,
                            old(self).a + value + (if (old(self).status & FLAG_C) != 0 {
                                1int
                            } else {
                                0int
                            }) > 0xFF,
                        ),
                        FLAG_V,
                        ((old(self).a ^ final(self).a) & (value ^ final(self).a) & 0x80) != 0,
                    ),
                    FLAG_Z,
                    final(self).a == 0,
                ),
                FLAG_N,
                (final(self).a & FLAG_N) != 0,
            ),
            final(self).pc == old(self).pc,
            final(self).x == old(self).x,
            final(self).y == old(self).y,
            final(self).sp == old(self).sp,
            final(self).cycles == old(self).cycles,
            final(self).stall_cycles == old(self).stall_cycles,
    {
        let carry: u16 = if (self.status & FLAG_C) != 0 {
            1
        } else {
            0
        };
        let sum: u16 = self.a as u16 + value as u16 + carry;
        let result = (sum % 0x100) as u8;
        self.set_flag(FLAG_C, sum > 0xFF);
        self.set_flag(FLAG_V, ((self.a ^ result) & (value ^ result) & 0x80) != 0);
        self.a = result;
        self.update_zero_negative(result);
    }

    /// Subtract with carry (borrow).  The overflow flag is set when the
    /// result's sign differs from the accumulator's and from the inverted
    /// operand's.
    fn sbc(&mut self, value: u8)
        ensures
            final(self).a == (((old(self).a - value - (if (old(self).status & FLAG_C) != 0 {
                0int
            } else {
                1int
            })) % 256 + 256) % 256) as u8,
            final(self).status == with_flag(
                with_flag(
                    with_flag(
                        with_flag(
                            old(self).status,
                            FLAG_C,
                            old(self).a - value - (if (old(self).status & FLAG_C) != 0 {
                                0int
                            } else {
                                1int
                            }) >= 0,
                        ),
                        FLAG_V,
                        ((old(self).a ^ final(self).a) & (!value ^ final(self).a) & 0x80) != 0,
                    ),
                    FLAG_Z,
                    final(self).a == 0,
                ),
                FLAG_N,
                (final(self).a & FLAG_N) != 0,
            ),
            final(self).pc == old(self).pc,
            final(self).x == old(self).x,
            final(self).y == old(self).y,
            final(self).sp == old(self).sp,
            final(self).cycles == old(self).cycles,
            final(self).stall_cycles == old(self).stall_cycles,
    {
        let carry: i32 = if (self.status & FLAG_C) != 0 {
            1
        } else {
            0
        };
        let diff: i32 = self.a as i32 - value as i32 - (1 - carry);
        let result = ((diff % 256 + 256) % 256) as u8;
        self.set_flag(FLAG_C, diff >= 0);
        self.set_flag(FLAG_V, ((self.a ^ result) & (!value ^ result) & 0x80) != 0);
        self.a = result;
        self.update_zero_negative(result);
    }

    fn cmp(&mut self, value: u8)
        ensures
            *final(self) == (Cpu {
                status: with_flag(
                    with_flag(
                        with_flag(old(self).status, FLAG_C, old(self).a >= value),
                        FLAG_Z,
                        vstd::wrapping::u8_specs::wrapping_sub(old(self).a, value) == 0,
                    ),
                    FLAG_N,
                    (vstd::wrapping::u8_specs::wrapping_sub(old(self).a, value) & FLAG_N) != 0,
                ),
                ..*old(self)
            }),
    {
        let diff = self.a.wrapping_sub(value);
        self.set_flag(FLAG_C, self.a >= value);
        self.update_zero_negative(diff);
    }

    fn cpx(&mut self, value: u8)
        ensures
            *final(self) == (Cpu {
                status: with_flag(
                    with_flag(
                        with_flag(old(self).status, FLAG_C, old(self).x >= value),
                        FLAG_Z,
                        vstd::wrapping::u8_specs::wrapping_sub(old(self).x, value) == 0,
                    ),
                    FLAG_N,
                    (vstd::wrapping::u8_specs::wrapping_sub(old(self).x, value) & FLAG_N) != 0,
                ),
                ..*old(self)
            }),
    {
        let diff = self.x.wrapping_sub(value);
        self.set_flag(FLAG_C, self.x >= value);
        self.update_zero_negative(diff);
    }

    fn cpy(&mut self, value: u8)
        ensures
            *final(self) == (Cpu {
                status: with_flag(
                    with_flag(
                        with_flag(old(self).status, FLAG_C, old(self).y >= value),
                        FLAG_Z,
                        vstd::wrapping::u8_specs::wrapping_sub(old(self).y, value) == 0,
                    ),
                    FLAG_N,
                    (vstd::wrapping::u8_specs::wrapping_sub(old(self).y, value) & FLAG_N) != 0,
                ),
                ..*old(self)
            }),
    {
        let diff = self.y.wrapping_sub(value);
        self.set_flag(FLAG_C, self.y >= value);
        self.update_zero_negative(diff);
    }

    /// BIT: the zero flag comes from A AND the operand; the negative and
    /// overflow flags are copied from operand bits 7 and 6.
    fn bit(&mut self, value: u8)
        ensures
            *final(self) == (Cpu {
                status: with_flag(
                    with_flag(
                        with_flag(old(self).status, FLAG_Z, (old(self).a & value) == 0),
                        FLAG_N,
                        (value & FLAG_N) != 0,
                    ),
                    FLAG_V,
                    (value & FLAG_V) != 0,
                ),
                ..*old(self)
            }),
    {
        let result = self.a & value;
        self.set_flag(FLAG_Z, result == 0);
        self.set_flag(FLAG_N, (value & FLAG_N) != 0);
        self.set_flag(FLAG_V, (value & FLAG_V) != 0);
    }

    fn asl(&mut self, value: u8) -> (r: u8)
        ensures
            r == ((value * 2) % 256) as u8,
            *final(self) == (Cpu {
                status: with_flag(
                    with_flag(
                        with_flag(old(self).status, FLAG_C, (value & 0x80) != 0),
                        FLAG_Z,
                        r == 0,
                    ),
                    FLAG_N,
                    (r & FLAG_N) != 0,
                ),
                ..*old(self)
            }),
    {
        self.set_flag(FLAG_C, (value & 0x80) != 0);
        let result = ((value as u16 * 2) % 0x100) as u8;
        self.update_zero_negative(result);
        result
    }

    fn lsr(&mut self, value: u8) -> (r: u8)
        ensures
            r == value / 2,
            *final(self) == (Cpu {
                status: with_flag(
                    with_flag(
                        with_flag(old(self).status, FLAG_C, (value & 0x01) != 0),
                        FLAG_Z,
                        r == 0,
                    ),
                    FLAG_N,
                    (r & FLAG_N) != 0,
                ),
                ..*old(self)
            }),
    {
        self.set_flag(FLAG_C, (value & 0x01) != 0);
        let result = value / 2;
        self.update_zero_negative(result);
        result
    }

    fn rol(&mut self, value: u8) -> (r: u8)
        ensures
            r == ((value * 2) % 256 + (if (old(self).status & FLAG_C) != 0 {
                1int
            } else {
                0int
            })) as u8,
            *final(self) == (Cpu {
                status: with_flag(
                    with_flag(
                        with_flag(old(self).status, FLAG_C, (value & 0x80) != 0),
                        FLAG_Z,
                        r == 0,
                    ),
                    FLAG_N,
                    (r & FLAG_N) != 0,
                ),
                ..*old(self)
            }),
    {
        let carry: u8 = if (self.status & FLAG_C) != 0 {
            1
        } else {
            0
        };
        self.set_flag(FLAG_C, (value & 0x80) != 0);
        let result = ((value as u16 * 2) % 0x100) as u8 + carry;
        self.update_zero_negative(result);
        result
    }

    fn ror(&mut self, value: u8) -> (r: u8)
        ensures
            r == (value / 2 + (if (old(self).status & FLAG_C) != 0 {
                0x80int
            } else {
                0int
            })) as u8,
            *final(self) == (Cpu {
                status: with_flag(
                    with_flag(
                        with_flag(old(self).status, FLAG_C, (value & 0x01) != 0),
                        FLAG_Z,
                        r == 0,
                    ),
                    FLAG_N,
                    (r & FLAG_N) != 0,
                ),
                ..*old(self)
            }),
    {
        let carry: u8 = if (self.status & FLAG_C) != 0 {
            0x80
        } else {
            0
        };
        self.set_flag(FLAG_C, (value & 0x01) != 0);
        let result = value / 2 + carry;
        self.update_zero_negative(result);
        result
    }

    // Flag plumbing.
    fn get_flag(&self, flag: u8) -> (r: bool)
        ensures
            r == ((self.status & flag) != 0),
    {
        (self.status & flag) != 0
    }

    fn set_flag(&mut self, flag: u8, value: bool)
        ensures
            *final(self) == (Cpu { status: with_flag(old(self).status, flag, value), ..*old(self) }),
    {
        if value {
            self.status = self.status | flag;
        } else {
            self.status = self.status & !flag;
        }
    }

    fn update_zero_negative(&mut self, value: u8)
        ensures
            *final(self) == (Cpu {
                status: with_flag(
                    with_flag(old(self).status, FLAG_Z, value == 0),
                    FLAG_N,
                    (value & FLAG_N) != 0,
                ),
                ..*old(self)
            }),
    {
        self.set_flag(FLAG_Z, value == 0);
        self.set_flag(FLAG_N, (value & FLAG_N) != 0);
    }
}

} // verus!

