//! Cartridge model: iNES image parsing and the bank-switching mappers
//! (NROM, MMC1, UxROM, CNROM, MMC3).
//!
//! A mapper translates CPU addresses in 0x8000..=0xFFFF and PPU addresses in
//! 0x0000..0x2000 to offsets into the raw PRG/CHR byte arrays, decides the
//! nametable mirroring, and (for MMC3) raises scanline interrupts.

use vstd::prelude::*;

verus! {

/// How the four nametable slots of the PPU address space alias onto the
/// console's 2 KiB of VRAM.
#[derive(Debug, Clone, Copy, PartialEq, Eq, Structural)]
pub enum Mirroring {
    Horizontal,
    Vertical,
    FourScreen,
    OneScreenLower,
    OneScreenUpper,
}

/// Why a ROM image was rejected.  Loading is the only fallible operation of
/// the core; reading the file itself is the host's business.
#[derive(Debug, Clone, Copy, PartialEq, Eq, Structural)]
pub enum CartridgeError {
    /// Image shorter than 16 bytes, bad magic, or truncated PRG/CHR body.
    InvalidHeader,
    /// The header declares a mapper outside {0, 1, 2, 3, 4}.
    UnsupportedMapper(u8),
}

/// A byte of a ROM, read through an offset that wraps modulo the ROM length;
/// an absent ROM reads as `fallback`.
pub open spec fn rom_byte(rom: Seq<u8>, offset: int, fallback: u8) -> u8 {
    if rom.len() == 0 {
        fallback
    } else {
        rom[offset % rom.len() as int]
    }
}

/// Reads `rom[offset % rom.len()]`, or `fallback` when the ROM is empty.
fn read_rom_byte(rom: &Vec<u8>, offset: usize, fallback: u8) -> (r: u8)
    ensures
        r == rom_byte(rom@, offset as int, fallback),
{
    if rom.len() == 0 {
        fallback
    } else {
        rom[offset % rom.len()]
    }
}

/// Masking zero with any clamp yields zero.
proof fn lemma_zero_masked(c: u8)
    by (bit_vector)
    ensures
        0u8 & c == 0,
{
}

/// The smallest power of two that is at least `n`, reached by doubling `p`.
pub open spec fn pow2_at_least(n: int, p: int) -> int
    decreases (if p < 0x200 {
        0x200 - p
    } else {
        0int
    }),
{
    if p >= n || p >= 0x200 || p < 1 {
        p
    } else {
        pow2_at_least(n, 2 * p)
    }
}

/// The mask MMC1 and MMC3 apply to an incoming bank number for an image of
/// `n` banks: the smallest power of two covering the bank count (capped at
/// a byte's range), minus one.
pub open spec fn bank_mask(n: int) -> u8 {
    (((pow2_at_least(if n > 0x100 {
        0x100int
    } else {
        n
    }, 1) - 1) % 0x100) as u8)
}

/// Smallest power of two that is >= max(n, 1), minus one, truncated to a byte:
/// the mask that MMC1 and MMC3 apply to incoming bank numbers.
fn bank_clamp(n: usize) -> (r: u8)
    ensures
        r == bank_mask(n as int),
{
    let capped: usize = if n > 0x100 {
        0x100
    } else {
        n
    };
    let mut power: usize = 1;
    while power < capped
        invariant
            1 <= power <= 0x200,
            capped <= 0x100,
            pow2_at_least(capped as int, 1) == pow2_at_least(capped as int, power as int),
        decreases 0x200 - power,
    {
        power = power * 2;
    }
    ((power - 1) % 0x100) as u8
}

// ---------------------------------------------------------------------------
// NROM (mapper 0)
// ---------------------------------------------------------------------------

/// Mapper 0: no banking at all; 16 KiB PRG images mirror to fill the window.
pub struct NromMapper {
    pub mirroring: Mirroring,
    pub has_chr_ram: bool,
}

impl NromMapper {
    pub fn new(mirroring: Mirroring, has_chr_ram: bool) -> (r: Self)
        ensures
            r.mirroring() == mirroring,
            r.chr_ram() == has_chr_ram,
    {
        NromMapper { mirroring, has_chr_ram }
    }

    pub open spec fn mirroring(self) -> Mirroring {
        self.mirroring
    }

    pub open spec fn chr_ram(self) -> bool {
        self.has_chr_ram
    }

    pub fn cpu_read(&self, addr: u16, prg_rom: &Vec<u8>) -> (r: u8)
        requires
            0x8000 <= addr,
        ensures
            r == rom_byte(prg_rom@, addr - 0x8000, 0xFF),
    {
        read_rom_byte(prg_rom, (addr - 0x8000) as usize, 0xFF)
    }

    pub fn ppu_read(&self, addr: u16, chr_rom: &Vec<u8>, chr_ram: &Vec<u8>) -> (r: u8)
        requires
            addr < 0x2000,
        ensures
            self.has_chr_ram ==> r == rom_byte(chr_ram@, addr as int, 0),
            !self.has_chr_ram ==> r == rom_byte(chr_rom@, addr as int, 0),
    {
        if self.has_chr_ram {
            read_rom_byte(chr_ram, addr as usize, 0)
        } else {
            read_rom_byte(chr_rom, addr as usize, 0)
        }
    }
}

// ---------------------------------------------------------------------------
// UxROM (mapper 2)
// ---------------------------------------------------------------------------

/// Mapper 2: a write anywhere in 0x8000..=0xFFFF selects the 16 KiB bank
/// mapped at 0x8000; the window at 0xC000 is fixed to the last bank.
pub struct UxromMapper {
    pub mirroring: Mirroring,
    pub has_chr_ram: bool,
    pub prg_bank: u8,
    pub prg_banks: u8,
}

/// The bank that a UxROM register write selects: three bits of the value,
/// wrapped to the installed bank count.
pub open spec fn uxrom_selected_bank(value: u8, prg_banks: u8) -> u8 {
    if prg_banks == 0 {
        0
    } else {
        (((value % 8) as int) % (prg_banks as int)) as u8
    }
}

/// What a CPU write does to a UxROM mapper: a write at or above 0x8000
/// selects the switchable PRG bank; nothing else moves.
pub open spec fn uxrom_write_rel(pre: UxromMapper, post: UxromMapper, addr: u16, value: u8) -> bool {
    &&& post.mirroring == pre.mirroring
    &&& post.has_chr_ram == pre.has_chr_ram
    &&& post.prg_banks == pre.prg_banks
    &&& (addr >= 0x8000 ==> post.prg_bank == uxrom_selected_bank(value, pre.prg_banks))
    &&& (addr < 0x8000 ==> post.prg_bank == pre.prg_bank)
}

impl UxromMapper {
    pub fn new(mirroring: Mirroring, has_chr_ram: bool, prg_rom_size: usize) -> (r: Self)
        ensures
            r.mirroring == mirroring,
            r.has_chr_ram == has_chr_ram,
            r.prg_bank == 0,
            r.prg_banks == ((prg_rom_size / 0x4000) % 0x100) as u8,
    {
        UxromMapper {
            mirroring,
            has_chr_ram,
            prg_bank: 0,
            prg_banks: ((prg_rom_size / 0x4000) % 0x100) as u8,
        }
    }

    pub open spec fn mirroring(self) -> Mirroring {
        self.mirroring
    }

    pub fn cpu_read(&self, addr: u16, prg_rom: &Vec<u8>) -> (r: u8)
        requires
            0x8000 <= addr,
        ensures
            addr < 0xC000 ==> r == rom_byte(
                prg_rom@,
                self.prg_bank * 0x4000 + (addr - 0x8000),
                0xFF,
            ),
            addr >= 0xC000 ==> r == rom_byte(
                prg_rom@,
                (if self.prg_banks > 0 {
                    (self.prg_banks - 1) * 0x4000
                } else {
                    0int
                }) + (addr - 0xC000),
                0xFF,
            ),
    {
        if addr < 0xC000 {
            let offset = (self.prg_bank as usize) * 0x4000 + (addr - 0x8000) as usize;
            read_rom_byte(prg_rom, offset, 0xFF)
        } else {
            let last = if self.prg_banks > 0 {
                (self.prg_banks - 1) as usize * 0x4000
            } else {
                0
            };
            read_rom_byte(prg_rom, last + (addr - 0xC000) as usize, 0xFF)
        }
    }

    pub fn cpu_write(&mut self, addr: u16, value: u8)
        ensures
            uxrom_write_rel(*old(self), *final(self), addr, value),
    {
        if addr >= 0x8000 && self.prg_banks > 0 {
            let selected = (value % 8) as usize;
            self.prg_bank = (selected % self.prg_banks as usize) as u8;
        } else if addr >= 0x8000 {
            self.prg_bank = 0;
        }
    }

    pub fn ppu_read(&self, addr: u16, chr_rom: &Vec<u8>, chr_ram: &Vec<u8>) -> (r: u8)
        requires
            addr < 0x2000,
        ensures
            self.has_chr_ram ==> r == rom_byte(chr_ram@, addr as int, 0),
            !self.has_chr_ram ==> r == rom_byte(chr_rom@, addr as int, 0),
    {
        if self.has_chr_ram {
            read_rom_byte(chr_ram, addr as usize, 0)
        } else {
            read_rom_byte(chr_rom, addr as usize, 0)
        }
    }
}

// ---------------------------------------------------------------------------
// CNROM (mapper 3)
// ---------------------------------------------------------------------------

/// Mapper 3: PRG is fixed; a write anywhere in 0x8000..=0xFFFF selects an
/// 8 KiB CHR bank (two bits when at most four banks are installed, four
/// bits otherwise).
pub struct CnromMapper {
    pub mirroring: Mirroring,
    pub has_chr_ram: bool,
    pub chr_bank: u8,
    pub chr_banks: u8,
}

/// The CHR bank a CNROM register write selects.
pub open spec fn cnrom_selected_bank(value: u8, chr_banks: u8) -> u8 {
    if chr_banks > 4 {
        value & 0x0F
    } else {
        value & 0x03
    }
}

/// What a CPU write does to a CNROM mapper: a write at or above 0x8000
/// selects the CHR bank (unless the board carries CHR RAM); nothing else
/// moves.
pub open spec fn cnrom_write_rel(pre: CnromMapper, post: CnromMapper, addr: u16, value: u8) -> bool {
    &&& post.mirroring == pre.mirroring
    &&& post.has_chr_ram == pre.has_chr_ram
    &&& post.chr_banks == pre.chr_banks
    &&& ((addr >= 0x8000 && !pre.has_chr_ram) ==> post.chr_bank == cnrom_selected_bank(
        value,
        pre.chr_banks,
    ))
    &&& (!(addr >= 0x8000 && !pre.has_chr_ram) ==> post.chr_bank == pre.chr_bank)
}

impl CnromMapper {
    pub fn new(mirroring: Mirroring, has_chr_ram: bool, chr_rom_size: usize) -> (r: Self)
        ensures
            r.mirroring == mirroring,
            r.has_chr_ram == has_chr_ram,
            r.chr_bank == 0,
            has_chr_ram ==> r.chr_banks == 0,
            !has_chr_ram ==> r.chr_banks == ((chr_rom_size / 0x2000) % 0x100) as u8,
    {
        CnromMapper {
            mirroring,
            has_chr_ram,
            chr_bank: 0,
            chr_banks: if has_chr_ram {
                0
            } else {
                ((chr_rom_size / 0x2000) % 0x100) as u8
            },
        }
    }

    pub open spec fn mirroring(self) -> Mirroring {
        self.mirroring
    }

    pub fn cpu_read(&self, addr: u16, prg_rom: &Vec<u8>) -> (r: u8)
        requires
            0x8000 <= addr,
        ensures
            r == rom_byte(prg_rom@, addr - 0x8000, 0xFF),
    {
        read_rom_byte(prg_rom, (addr - 0x8000) as usize, 0xFF)
    }

    pub fn cpu_write(&mut self, addr: u16, value: u8)
        ensures
            cnrom_write_rel(*old(self), *final(self), addr, value),
    {
        if addr >= 0x8000 && !self.has_chr_ram {
            let mask: u8 = if self.chr_banks > 4 {
                0x0F
            } else {
                0x03
            };
            self.chr_bank = value & mask;
        }
    }

    pub fn ppu_read(&self, addr: u16, chr_rom: &Vec<u8>, chr_ram: &Vec<u8>) -> (r: u8)
        requires
            addr < 0x2000,
        ensures
            self.has_chr_ram ==> r == rom_byte(chr_ram@, addr as int, 0),
            !self.has_chr_ram ==> r == rom_byte(
                chr_rom@,
                self.chr_bank * 0x2000 + addr,
                0,
            ),
    {
        if self.has_chr_ram {
            read_rom_byte(chr_ram, addr as usize, 0)
        } else {
            let offset = (self.chr_bank as usize) * 0x2000 + addr as usize;
            read_rom_byte(chr_rom, offset, 0)
        }
    }
}

// ---------------------------------------------------------------------------
// MMC1 (mapper 1)
// ---------------------------------------------------------------------------

/// The power-on value of the MMC1 serial shift register: a single marker bit
/// that reaches bit 0 after exactly five shifts.
pub const MMC1_SHIFT_INIT: u8 = 0x20;

/// One write into the MMC1 serial port: the register shifts right and takes
/// the low bit of the written value as its new bit 5.
pub open spec fn mmc1_shift_step(shift: u8, value: u8) -> u8 {
    (shift >> 1) | ((value & 1) << 5)
}

/// The shift register is full when the marker bit has reached bit 0, which
/// happens on the fifth write after a reset.
pub open spec fn mmc1_shift_full(shift: u8) -> bool {
    shift & 1 != 0
}

/// Mirroring selected by the low two bits of the MMC1 control register.
pub open spec fn mmc1_mirroring(bits: u8) -> Mirroring {
    if bits == 0 {
        Mirroring::OneScreenLower
    } else if bits == 1 {
        Mirroring::OneScreenUpper
    } else if bits == 2 {
        Mirroring::Vertical
    } else {
        Mirroring::Horizontal
    }
}

/// Mapper 1: a 5-bit serial shift register accumulates one bit per write;
/// the fifth write commits the value to the register selected by the
/// address, and a write with bit 7 set resets the shifter.
pub struct Mmc1Mapper {
    pub mirroring: Mirroring,
    pub has_chr_ram: bool,
    pub prg_banks: usize,
    pub chr_banks: usize,
    pub prg_rom_size: usize,
    pub chr_rom_size: usize,
    pub shift_reg: u8,
    pub chr_mode: u8,
    pub prg_mode: u8,
    pub prg_reg: u8,
    pub chr1_reg: u8,
    pub chr2_reg: u8,
    pub prg_clamp: u8,
    pub chr_clamp: u8,
    pub prg_bank1_offset: usize,
    pub prg_bank2_offset: usize,
    pub chr_bank1_offset: usize,
    pub chr_bank2_offset: usize,
    pub mirroring_changed_flag: bool,
}

/// The derived PRG windows of an MMC1 in its fix-last mode: the window at
/// 0x8000 follows the bank register and the window at 0xC000 is pinned to
/// the last bank of a whole-bank image.
pub open spec fn mmc1_prg_layout(m: Mmc1Mapper) -> bool {
    &&& (m.prg_mode == 3 && m.prg_rom_size > 0 ==> m.prg_bank1_offset == (0x4000 * (
    m.prg_reg as int)) % (m.prg_rom_size as int))
    &&& (m.prg_mode == 3 && 0 < m.prg_banks <= 16 && m.prg_rom_size == m.prg_banks * 0x4000
        ==> m.prg_bank2_offset == m.prg_rom_size - 0x4000)
}

/// What a CPU write does to an MMC1 mapper.  A write below 0x8000 is
/// ignored; bit 7 resets the shifter and forces PRG mode 3; otherwise the
/// low bit enters the 5-bit shift register, and only the fifth such write
/// commits the accumulated value to the register selected by the address.
pub open spec fn mmc1_write_rel(pre: Mmc1Mapper, post: Mmc1Mapper, addr: u16, value: u8) -> bool {
    &&& post.wf()
    &&& post.has_chr_ram == pre.has_chr_ram
    &&& post.prg_rom_size == pre.prg_rom_size
    &&& post.chr_rom_size == pre.chr_rom_size
    &&& post.prg_banks == pre.prg_banks
    &&& post.chr_banks == pre.chr_banks
    &&& post.prg_clamp == pre.prg_clamp
    &&& post.chr_clamp == pre.chr_clamp
    &&& (addr < 0x8000 ==> post == (Mmc1Mapper {
        mirroring_changed_flag: false,
        ..pre
    }))
    &&& (addr >= 0x8000 && (value & 0x80) != 0 ==> post.shift_reg == MMC1_SHIFT_INIT
        && post.prg_mode == 3
        && post.prg_reg == pre.prg_reg
        && post.chr1_reg == pre.chr1_reg
        && post.chr2_reg == pre.chr2_reg
        && post.chr_mode == pre.chr_mode
        && post.mirroring == pre.mirroring
        && mmc1_prg_layout(post))
    &&& (addr >= 0x8000 && (value & 0x80) == 0
        && !mmc1_shift_full(mmc1_shift_step(pre.shift_reg, value))
        ==> post.shift_reg == mmc1_shift_step(pre.shift_reg, value)
        && post.routing() == pre.routing()
        && !post.mirroring_changed_flag)
    &&& (addr >= 0x8000 && (value & 0x80) == 0
        && mmc1_shift_full(mmc1_shift_step(pre.shift_reg, value))
        ==> post.shift_reg == MMC1_SHIFT_INIT)
    &&& (addr >= 0x8000 && (value & 0x80) == 0
        && mmc1_shift_full(mmc1_shift_step(pre.shift_reg, value))
        && (addr & 0xE000) == 0x8000
        ==> post.mirroring == mmc1_mirroring((mmc1_shift_step(pre.shift_reg, value) >> 1) & 0x03)
        && post.chr_mode == ((mmc1_shift_step(pre.shift_reg, value) >> 1) >> 4) & 0x01
        && post.prg_mode == ((mmc1_shift_step(pre.shift_reg, value) >> 1) >> 2) & 0x03
        && post.prg_reg == pre.prg_reg
        && post.chr1_reg == pre.chr1_reg
        && post.chr2_reg == pre.chr2_reg
        && mmc1_prg_layout(post))
    &&& (addr >= 0x8000 && (value & 0x80) == 0
        && mmc1_shift_full(mmc1_shift_step(pre.shift_reg, value))
        && (addr & 0xE000) == 0xA000
        ==> post.chr_mode == pre.chr_mode && post.prg_mode == pre.prg_mode && post.mirroring
            == pre.mirroring
        && (pre.has_chr_ram ==> post.prg_reg == ((pre.prg_reg & 0xEF)
            | ((mmc1_shift_step(pre.shift_reg, value) >> 1) & 0x10)) & pre.prg_clamp
            && post.chr1_reg == pre.chr1_reg && post.chr2_reg == pre.chr2_reg)
        && (!pre.has_chr_ram ==> post.chr1_reg == ((mmc1_shift_step(pre.shift_reg, value) >> 1)
            & 0x1F) & pre.chr_clamp && post.prg_reg == pre.prg_reg && post.chr2_reg
            == pre.chr2_reg))
    &&& (addr >= 0x8000 && (value & 0x80) == 0
        && mmc1_shift_full(mmc1_shift_step(pre.shift_reg, value))
        && (addr & 0xE000) == 0xC000
        ==> (pre.chr_mode == 0 ==> post == (Mmc1Mapper {
            shift_reg: MMC1_SHIFT_INIT,
            mirroring_changed_flag: false,
            ..pre
        }))
        && (pre.chr_mode != 0 ==> post.chr_mode == pre.chr_mode && post.prg_mode == pre.prg_mode
            && post.mirroring == pre.mirroring
            && (pre.has_chr_ram ==> post.prg_reg == ((pre.prg_reg & 0xEF)
                | ((mmc1_shift_step(pre.shift_reg, value) >> 1) & 0x10)) & pre.prg_clamp
                && post.chr1_reg == pre.chr1_reg && post.chr2_reg == pre.chr2_reg)
            && (!pre.has_chr_ram ==> post.chr2_reg == ((mmc1_shift_step(pre.shift_reg, value)
                >> 1) & 0x1F) & pre.chr_clamp && post.prg_reg == pre.prg_reg && post.chr1_reg
                == pre.chr1_reg)))
    &&& (addr >= 0x8000 && (value & 0x80) == 0
        && mmc1_shift_full(mmc1_shift_step(pre.shift_reg, value))
        && (addr & 0xE000) == 0xE000
        ==> post.prg_reg == ((pre.prg_reg & 0xF0)
            | ((mmc1_shift_step(pre.shift_reg, value) >> 1) & 0x0F)) & pre.prg_clamp
        && post.chr_mode == pre.chr_mode && post.prg_mode == pre.prg_mode
        && post.mirroring == pre.mirroring
        && post.chr1_reg == pre.chr1_reg && post.chr2_reg == pre.chr2_reg
        && mmc1_prg_layout(post))
    &&& post.mirroring_changed_flag == (post.mirroring != pre.mirroring)
}

impl Mmc1Mapper {
    /// Everything a committed write can route to: the mode bits, the bank
    /// registers, the derived bank offsets and the mirroring.  A write that
    /// only feeds the shift register leaves all of this alone.
    pub open spec fn routing(self) -> (u8, u8, u8, u8, u8, Mirroring, usize, usize, usize, usize) {
        (
            self.chr_mode,
            self.prg_mode,
            self.prg_reg,
            self.chr1_reg,
            self.chr2_reg,
            self.mirroring,
            self.prg_bank1_offset,
            self.prg_bank2_offset,
            self.chr_bank1_offset,
            self.chr_bank2_offset,
        )
    }

    /// Bank offsets stay inside the PRG ROM: the invariant that keeps every
    /// banked read within the image.
    pub open spec fn prg_offsets_in_range(self) -> bool {
        self.prg_rom_size > 0 ==> self.prg_bank1_offset < self.prg_rom_size
            && self.prg_bank2_offset < self.prg_rom_size
    }

    /// Validity of an MMC1 state: the image sizes respect the iNES format
    /// limits (255 banks of PRG, 255 banks of CHR) and the derived bank
    /// offsets are small enough that banked address arithmetic cannot wrap.
    pub open spec fn wf(self) -> bool {
        &&& self.prg_rom_size <= 0x400000
        &&& self.chr_rom_size <= 0x200000
        &&& self.prg_banks <= 0x100
        &&& self.chr_banks <= 0x100
        &&& self.prg_bank1_offset <= 0x400000
        &&& self.prg_bank2_offset <= 0x400000
        &&& self.chr_bank1_offset <= 0x200000
        &&& self.chr_bank2_offset <= 0x200000
        &&& self.prg_offsets_in_range()
    }

    pub fn new(mirroring: Mirroring, has_chr_ram: bool, prg_rom_size: usize, chr_rom_size: usize)
        -> (r: Self)
        requires
            prg_rom_size <= 0x400000,
            chr_rom_size <= 0x200000,
        ensures
            r.wf(),
            r.mirroring == mirroring,
            r.has_chr_ram == has_chr_ram,
            r.shift_reg == MMC1_SHIFT_INIT,
            r.prg_mode == 3,
            r.chr_mode == 0,
            r.prg_reg == 0,
            r.chr1_reg == 0,
            r.chr2_reg == 0,
            r.prg_rom_size == prg_rom_size,
            r.prg_offsets_in_range(),
            r.prg_banks == prg_rom_size / 0x4000,
            r.prg_clamp == bank_mask(prg_rom_size as int / 0x4000),
            // Power-on layout: the first bank at 0x8000, the last at 0xC000.
            prg_rom_size > 0 ==> r.prg_bank1_offset == 0,
            (0x4000 <= prg_rom_size <= 0x40000 && prg_rom_size % 0x4000 == 0)
                ==> r.prg_bank2_offset == prg_rom_size - 0x4000,
    {
        let prg_banks = prg_rom_size / 0x4000;
        let chr_banks = if has_chr_ram {
            0
        } else {
            chr_rom_size / 0x2000
        };
        let prg_clamp = bank_clamp(prg_banks);
        let chr_clamp = bank_clamp(if chr_banks > 0x8000 {
            0x10000
        } else {
            chr_banks * 2
        });
        let mut mapper = Mmc1Mapper {
            mirroring,
            has_chr_ram,
            prg_banks,
            chr_banks,
            prg_rom_size,
            chr_rom_size,
            shift_reg: MMC1_SHIFT_INIT,
            chr_mode: 0,
            prg_mode: 3,
            prg_reg: 0,
            chr1_reg: 0,
            chr2_reg: 0,
            prg_clamp,
            chr_clamp,
            prg_bank1_offset: 0,
            prg_bank2_offset: 0,
            chr_bank1_offset: 0,
            chr_bank2_offset: 0x1000,
            mirroring_changed_flag: false,
        };
        proof {
            if 0x4000 <= prg_rom_size <= 0x40000 && prg_rom_size % 0x4000 == 0 {
                vstd::arithmetic::div_mod::lemma_fundamental_div_mod(
                    prg_rom_size as int,
                    0x4000,
                );
                assert(prg_rom_size == (prg_rom_size / 0x4000) * 0x4000);
            }
        }
        mapper.update_prg_banks();
        mapper.update_chr_banks();
        mapper
    }

    /// Recomputes the two 16 KiB PRG windows from the PRG mode and bank
    /// register, wrapping the offsets into the ROM.
    fn update_prg_banks(&mut self)
        requires
            old(self).prg_rom_size <= 0x400000,
            old(self).prg_banks <= 0x100,
            old(self).prg_bank1_offset <= 0x400000,
            old(self).prg_bank2_offset <= 0x400000,
        ensures
            final(self).prg_bank1_offset <= 0x400000,
            final(self).prg_bank2_offset <= 0x400000,
            *final(self) == (Mmc1Mapper {
                prg_bank1_offset: final(self).prg_bank1_offset,
                prg_bank2_offset: final(self).prg_bank2_offset,
                ..*old(self)
            }),
            final(self).prg_offsets_in_range(),
            // PRG mode 3: the window at 0x8000 follows the bank register and
            // the window at 0xC000 is fixed to the last bank of the image.
            (old(self).prg_mode == 3 && old(self).prg_rom_size > 0)
                ==> final(self).prg_bank1_offset == (0x4000 * (old(self).prg_reg as int)) % (old(self).prg_rom_size as int),
            (old(self).prg_mode == 3 && 0 < old(self).prg_banks <= 16 && old(self).prg_rom_size
                == old(self).prg_banks * 0x4000)
                ==> final(self).prg_bank2_offset == old(self).prg_rom_size - 0x4000,
    {
        if self.prg_mode == 0 || self.prg_mode == 1 {
            let bank_num = (self.prg_reg & 0xFE) as usize;
            self.prg_bank1_offset = 0x4000 * bank_num;
            self.prg_bank2_offset = self.prg_bank1_offset + 0x4000;
        } else if self.prg_mode == 2 {
            self.prg_bank1_offset = 0x4000 * ((self.prg_reg & 0x10) as usize);
            self.prg_bank2_offset = 0x4000 * (self.prg_reg as usize);
        } else if self.prg_mode == 3 {
            self.prg_bank1_offset = 0x4000 * (self.prg_reg as usize);
            if self.prg_banks > 16 {
                let bank256: usize = if (self.prg_reg & 0x10) != 0 {
                    1
                } else {
                    0
                };
                self.prg_bank2_offset = (bank256 + 1) * 0x40000 - 0x4000;
            } else if self.prg_banks > 0 {
                self.prg_bank2_offset = (self.prg_banks - 1) * 0x4000;
            } else {
                self.prg_bank2_offset = 0;
            }
        }
        if self.prg_rom_size > 0 {
            proof {
                if old(self).prg_mode == 3 && 0 < old(self).prg_banks <= 16
                    && old(self).prg_rom_size == old(self).prg_banks * 0x4000 {
                    vstd::arithmetic::div_mod::lemma_small_mod(
                        self.prg_bank2_offset as nat,
                        self.prg_rom_size as nat,
                    );
                }
            }
            self.prg_bank1_offset = self.prg_bank1_offset % self.prg_rom_size;
            self.prg_bank2_offset = self.prg_bank2_offset % self.prg_rom_size;
        }
    }

    /// Recomputes the two 4 KiB CHR windows from the CHR mode and bank
    /// registers, wrapping the offsets into the CHR ROM.
    fn update_chr_banks(&mut self)
        requires
            old(self).chr_rom_size <= 0x200000,
            old(self).chr_bank1_offset <= 0x200000,
            old(self).chr_bank2_offset <= 0x200000,
        ensures
            final(self).chr_bank1_offset <= 0x200000,
            final(self).chr_bank2_offset <= 0x200000,
            *final(self) == (Mmc1Mapper {
                chr_bank1_offset: final(self).chr_bank1_offset,
                chr_bank2_offset: final(self).chr_bank2_offset,
                ..*old(self)
            }),
    {
        if self.has_chr_ram || self.chr_banks == 0 {
            self.chr_bank1_offset = 0;
            self.chr_bank2_offset = 0x1000;
            return ;
        }
        if self.chr_mode == 1 {
            self.chr_bank1_offset = 0x1000 * (self.chr1_reg as usize);
            self.chr_bank2_offset = 0x1000 * (self.chr2_reg as usize);
        } else {
            let bank_num = (self.chr1_reg & 0xFE) as usize;
            self.chr_bank1_offset = 0x1000 * bank_num;
            self.chr_bank2_offset = self.chr_bank1_offset + 0x1000;
        }
        if self.chr_rom_size > 0 {
            self.chr_bank1_offset = self.chr_bank1_offset % self.chr_rom_size;
            self.chr_bank2_offset = self.chr_bank2_offset % self.chr_rom_size;
        }
    }

    pub fn cpu_read(&self, addr: u16, prg_rom: &Vec<u8>) -> (r: u8)
        requires
            0x8000 <= addr,
            self.wf(),
        ensures
            addr < 0xC000 ==> r == rom_byte(
                prg_rom@,
                self.prg_bank1_offset + (addr % 0x4000),
                0xFF,
            ),
            addr >= 0xC000 ==> r == rom_byte(
                prg_rom@,
                self.prg_bank2_offset + (addr % 0x4000),
                0xFF,
            ),
    {
        if addr < 0xC000 {
            read_rom_byte(prg_rom, self.prg_bank1_offset + (addr % 0x4000) as usize, 0xFF)
        } else {
            read_rom_byte(prg_rom, self.prg_bank2_offset + (addr % 0x4000) as usize, 0xFF)
        }
    }

    /// A serial-port write.  Four consecutive writes with bit 7 clear only
    /// shift; the fifth commits and resets the shifter; bit 7 resets the
    /// shifter and forces PRG mode 3.
    pub fn cpu_write(&mut self, addr: u16, value: u8)
        requires
            old(self).wf(),
        ensures
            mmc1_write_rel(*old(self), *final(self), addr, value),
    {
        self.mirroring_changed_flag = false;
        if addr < 0x8000 {
            return ;
        }
        if (value & 0x80) != 0 {
            self.shift_reg = MMC1_SHIFT_INIT;
            self.prg_mode = 3;
            self.update_prg_banks();
            return ;
        }
        let shifted = (self.shift_reg >> 1) | ((value & 1) << 5);
        self.shift_reg = shifted;
        if shifted & 1 == 0 {
            return ;
        }
        let reg_value = shifted >> 1;
        let target = addr & 0xE000;
        if target == 0x8000 {
            let mirroring_bits = reg_value & 0x03;
            let new_mirroring = if mirroring_bits == 0 {
                Mirroring::OneScreenLower
            } else if mirroring_bits == 1 {
                Mirroring::OneScreenUpper
            } else if mirroring_bits == 2 {
                Mirroring::Vertical
            } else {
                Mirroring::Horizontal
            };
            if new_mirroring != self.mirroring {
                self.mirroring = new_mirroring;
                self.mirroring_changed_flag = true;
            }
            self.chr_mode = (reg_value >> 4) & 0x01;
            self.prg_mode = (reg_value >> 2) & 0x03;
            self.update_prg_banks();
            self.update_chr_banks();
        } else if target == 0xA000 {
            if self.has_chr_ram {
                self.prg_reg = ((self.prg_reg & 0xEF) | (reg_value & 0x10)) & self.prg_clamp;
                self.update_prg_banks();
            } else {
                self.chr1_reg = (reg_value & 0x1F) & self.chr_clamp;
                self.update_chr_banks();
            }
        } else if target == 0xC000 {
            if self.chr_mode == 0 {
                self.shift_reg = MMC1_SHIFT_INIT;
                return ;
            }
            if self.has_chr_ram {
                self.prg_reg = ((self.prg_reg & 0xEF) | (reg_value & 0x10)) & self.prg_clamp;
                self.update_prg_banks();
            } else {
                self.chr2_reg = (reg_value & 0x1F) & self.chr_clamp;
                self.update_chr_banks();
            }
        } else if target == 0xE000 {
            self.prg_reg = ((self.prg_reg & 0xF0) | (reg_value & 0x0F)) & self.prg_clamp;
            self.update_prg_banks();
        }
        self.shift_reg = MMC1_SHIFT_INIT;
    }

    pub fn ppu_read(&self, addr: u16, chr_rom: &Vec<u8>, chr_ram: &Vec<u8>) -> (r: u8)
        requires
            addr < 0x2000,
            self.wf(),
        ensures
            self.has_chr_ram ==> r == rom_byte(chr_ram@, addr as int, 0),
            !self.has_chr_ram && addr < 0x1000 ==> r == rom_byte(
                chr_rom@,
                self.chr_bank1_offset + addr,
                0,
            ),
            !self.has_chr_ram && addr >= 0x1000 ==> r == rom_byte(
                chr_rom@,
                self.chr_bank2_offset + (addr % 0x1000),
                0,
            ),
    {
        if self.has_chr_ram {
            read_rom_byte(chr_ram, addr as usize, 0)
        } else if addr < 0x1000 {
            read_rom_byte(chr_rom, self.chr_bank1_offset + addr as usize, 0)
        } else {
            read_rom_byte(chr_rom, self.chr_bank2_offset + (addr % 0x1000) as usize, 0)
        }
    }
}

// ---------------------------------------------------------------------------
// MMC3 (mapper 4)
// ---------------------------------------------------------------------------

/// Mapper 4: eight bank-data slots select 8 KiB PRG and 1/2 KiB CHR windows,
/// and a scanline counter raises an interrupt when it runs down to zero.
pub struct Mmc3Mapper {
    pub mirroring: Mirroring,
    pub has_chr_ram: bool,
    pub prg_rom_size: usize,
    pub chr_rom_size: usize,
    pub prg_bank_offsets: [usize; 4],
    pub chr_bank_offsets: [usize; 8],
    pub bank_select: u8,
    pub prg_mode: bool,
    pub chr_inversion: bool,
    pub bank_data: [u8; 8],
    pub irq_latch: u8,
    pub irq_counter: u8,
    pub irq_reload: bool,
    pub irq_enabled: bool,
    pub irq_pending: bool,
    pub prg_clamp: u8,
    pub chr_clamp: u8,
    pub mirroring_changed_flag: bool,
}

/// The counter value after one scanline clock: a counter that is zero, or
/// whose reload flag is set, takes the latch; any other counter counts down.
pub open spec fn mmc3_counter_after(counter: u8, reload: bool, latch: u8) -> u8 {
    if counter == 0 || reload {
        latch
    } else {
        (counter - 1) as u8
    }
}

impl Mmc3Mapper {
    /// The interrupt-facing registers as one value, so that contracts can say
    /// "the IRQ state did not move".
    pub open spec fn irq_state(self) -> (u8, u8, bool, bool, bool) {
        (self.irq_latch, self.irq_counter, self.irq_reload, self.irq_enabled, self.irq_pending)
    }

    /// Validity of an MMC3 state: sizes respect the iNES limits, the bank
    /// selector is one of the eight slots, and all derived offsets are small
    /// enough that banked address arithmetic cannot wrap.
    pub open spec fn wf(self) -> bool {
        &&& self.prg_rom_size <= 0x400000
        &&& self.chr_rom_size <= 0x200000
        &&& self.bank_select < 8
        &&& self.prg_bank_offsets@[0] <= 0x400000
        &&& self.prg_bank_offsets@[1] <= 0x400000
        &&& self.prg_bank_offsets@[2] <= 0x400000
        &&& self.prg_bank_offsets@[3] <= 0x400000
        &&& self.chr_bank_offsets@[0] <= 0x200000
        &&& self.chr_bank_offsets@[1] <= 0x200000
        &&& self.chr_bank_offsets@[2] <= 0x200000
        &&& self.chr_bank_offsets@[3] <= 0x200000
        &&& self.chr_bank_offsets@[4] <= 0x200000
        &&& self.chr_bank_offsets@[5] <= 0x200000
        &&& self.chr_bank_offsets@[6] <= 0x200000
        &&& self.chr_bank_offsets@[7] <= 0x200000
        &&& (self.prg_rom_size > 0 ==> self.prg_bank_offsets@[0] < self.prg_rom_size
            && self.prg_bank_offsets@[1] < self.prg_rom_size
            && self.prg_bank_offsets@[2] < self.prg_rom_size
            && self.prg_bank_offsets@[3] < self.prg_rom_size)
    }

    pub fn new(mirroring: Mirroring, has_chr_ram: bool, prg_rom_size: usize, chr_rom_size: usize)
        -> (r: Self)
        requires
            prg_rom_size <= 0x400000,
            chr_rom_size <= 0x200000,
        ensures
            r.wf(),
            r.mirroring == mirroring,
            r.has_chr_ram == has_chr_ram,
            r.irq_state() == (0u8, 0u8, false, false, false),
            r.prg_rom_size == prg_rom_size,
            r.prg_clamp == bank_mask(prg_rom_size as int / 0x2000),
            mmc3_chr_layout(r),
            // Power-on layout: the two switchable windows at bank zero, the
            // fixed pair on the last two banks.
            prg_rom_size > 0 ==> r.prg_bank_offsets@[0] == 0 && r.prg_bank_offsets@[1] == 0,
            prg_rom_size >= 0x4000 ==> r.prg_bank_offsets@[2] == prg_rom_size - 0x4000
                && r.prg_bank_offsets@[3] == prg_rom_size - 0x2000,
    {
        let prg_banks_8k = prg_rom_size / 0x2000;
        let chr_banks_1k = if has_chr_ram {
            8
        } else {
            chr_rom_size / 0x400
        };
        let mut mapper = Mmc3Mapper {
            mirroring,
            has_chr_ram,
            prg_rom_size,
            chr_rom_size: if has_chr_ram {
                0x2000
            } else {
                chr_rom_size
            },
            prg_bank_offsets: [0, 0, 0, 0],
            chr_bank_offsets: [0, 0x400, 0x800, 0xC00, 0x1000, 0x1400, 0x1800, 0x1C00],
            bank_select: 0,
            prg_mode: false,
            chr_inversion: false,
            bank_data: [0, 0, 0, 0, 0, 0, 0, 0],
            irq_latch: 0,
            irq_counter: 0,
            irq_reload: false,
            irq_enabled: false,
            irq_pending: false,
            prg_clamp: bank_clamp(prg_banks_8k),
            chr_clamp: bank_clamp(chr_banks_1k),
            mirroring_changed_flag: false,
        };
        proof {
            lemma_zero_masked(mapper.prg_clamp);
        }
        mapper.update_prg_banks();
        mapper.update_chr_banks();
        mapper
    }

    /// Recomputes the four 8 KiB PRG windows: two follow the R6/R7 bank
    /// registers, the other two are fixed to the last and second-last banks,
    /// with the PRG mode deciding which fixed/switchable pair sits at 0x8000.
    #[verifier::rlimit(100)]
    #[verifier::spinoff_prover]
    fn update_prg_banks(&mut self)
        requires
            old(self).prg_rom_size <= 0x400000,
        ensures
            *final(self) == (Mmc3Mapper {
                prg_bank_offsets: final(self).prg_bank_offsets,
                ..*old(self)
            }),
            final(self).prg_bank_offsets@[0] <= 0x400000,
            final(self).prg_bank_offsets@[1] <= 0x400000,
            final(self).prg_bank_offsets@[2] <= 0x400000,
            final(self).prg_bank_offsets@[3] <= 0x400000,
            final(self).prg_rom_size > 0 ==> final(self).prg_bank_offsets@[0] < final(self).prg_rom_size
                && final(self).prg_bank_offsets@[1] < final(self).prg_rom_size
                && final(self).prg_bank_offsets@[2] < final(self).prg_rom_size
                && final(self).prg_bank_offsets@[3] < final(self).prg_rom_size,
            // The fixed windows: the slot at 0xE000 is always the last 8 KiB
            // bank; the second-last bank sits at 0xC000, or at 0x8000 when
            // the PRG mode swaps the pair.
            old(self).prg_rom_size >= 0x4000 ==> final(self).prg_bank_offsets@[3]
                == old(self).prg_rom_size - 0x2000,
            (old(self).prg_rom_size >= 0x4000 && !old(self).prg_mode)
                ==> final(self).prg_bank_offsets@[2] == old(self).prg_rom_size - 0x4000,
            (old(self).prg_rom_size >= 0x4000 && old(self).prg_mode)
                ==> final(self).prg_bank_offsets@[0] == old(self).prg_rom_size - 0x4000,
            // The switchable windows follow R6 and R7 through the clamp.
            old(self).prg_rom_size > 0 ==> final(self).prg_bank_offsets@[1]
                == (((old(self).bank_data@[7] & old(self).prg_clamp) as int) * 0x2000) % (old(self).prg_rom_size as int),
            (old(self).prg_rom_size > 0 && !old(self).prg_mode)
                ==> final(self).prg_bank_offsets@[0]
                == (((old(self).bank_data@[6] & old(self).prg_clamp) as int) * 0x2000) % (old(self).prg_rom_size as int),
            (old(self).prg_rom_size > 0 && old(self).prg_mode)
                ==> final(self).prg_bank_offsets@[2]
                == (((old(self).bank_data@[6] & old(self).prg_clamp) as int) * 0x2000) % (old(self).prg_rom_size as int),
    {
        let second_last: usize = if self.prg_rom_size >= 0x4000 {
            self.prg_rom_size - 0x4000
        } else {
            0
        };
        let last: usize = if self.prg_rom_size >= 0x2000 {
            self.prg_rom_size - 0x2000
        } else {
            0
        };
        let r6 = ((self.bank_data[6] & self.prg_clamp) as usize) * 0x2000;
        let r7 = ((self.bank_data[7] & self.prg_clamp) as usize) * 0x2000;
        if self.prg_mode {
            self.prg_bank_offsets[0] = second_last;
            self.prg_bank_offsets[2] = r6;
        } else {
            self.prg_bank_offsets[0] = r6;
            self.prg_bank_offsets[2] = second_last;
        }
        self.prg_bank_offsets[1] = r7;
        self.prg_bank_offsets[3] = last;
        if self.prg_rom_size > 0 {
            proof {
                if self.prg_rom_size >= 0x4000 {
                    vstd::arithmetic::div_mod::lemma_small_mod(
                        (self.prg_rom_size - 0x2000) as nat,
                        self.prg_rom_size as nat,
                    );
                    vstd::arithmetic::div_mod::lemma_small_mod(
                        (self.prg_rom_size - 0x4000) as nat,
                        self.prg_rom_size as nat,
                    );
                }
            }
            self.prg_bank_offsets[0] = self.prg_bank_offsets[0] % self.prg_rom_size;
            self.prg_bank_offsets[1] = self.prg_bank_offsets[1] % self.prg_rom_size;
            self.prg_bank_offsets[2] = self.prg_bank_offsets[2] % self.prg_rom_size;
            self.prg_bank_offsets[3] = self.prg_bank_offsets[3] % self.prg_rom_size;
        }
    }

    /// Recomputes the eight 1 KiB CHR windows: R0/R1 are 2 KiB banks, R2..R5
    /// are 1 KiB banks, and the CHR inversion bit swaps which half of the
    /// pattern space each group serves.
    fn update_chr_banks(&mut self)
        requires
            old(self).chr_rom_size <= 0x200000,
        ensures
            *final(self) == (Mmc3Mapper {
                chr_bank_offsets: final(self).chr_bank_offsets,
                ..*old(self)
            }),
            final(self).chr_bank_offsets@[0] <= 0x200000,
            final(self).chr_bank_offsets@[1] <= 0x200000,
            final(self).chr_bank_offsets@[2] <= 0x200000,
            final(self).chr_bank_offsets@[3] <= 0x200000,
            final(self).chr_bank_offsets@[4] <= 0x200000,
            final(self).chr_bank_offsets@[5] <= 0x200000,
            final(self).chr_bank_offsets@[6] <= 0x200000,
            final(self).chr_bank_offsets@[7] <= 0x200000,
            mmc3_chr_layout(*final(self)),
    {
        if self.has_chr_ram {
            self.chr_bank_offsets[0] = 0;
            self.chr_bank_offsets[1] = 0x400;
            self.chr_bank_offsets[2] = 0x800;
            self.chr_bank_offsets[3] = 0xC00;
            self.chr_bank_offsets[4] = 0x1000;
            self.chr_bank_offsets[5] = 0x1400;
            self.chr_bank_offsets[6] = 0x1800;
            self.chr_bank_offsets[7] = 0x1C00;
            return ;
        }
        let r0 = ((self.bank_data[0] & 0xFE & self.chr_clamp) as usize) * 0x400;
        let r1 = ((self.bank_data[1] & 0xFE & self.chr_clamp) as usize) * 0x400;
        let r2 = ((self.bank_data[2] & self.chr_clamp) as usize) * 0x400;
        let r3 = ((self.bank_data[3] & self.chr_clamp) as usize) * 0x400;
        let r4 = ((self.bank_data[4] & self.chr_clamp) as usize) * 0x400;
        let r5 = ((self.bank_data[5] & self.chr_clamp) as usize) * 0x400;
        if self.chr_inversion {
            self.chr_bank_offsets[0] = r2;
            self.chr_bank_offsets[1] = r3;
            self.chr_bank_offsets[2] = r4;
            self.chr_bank_offsets[3] = r5;
            self.chr_bank_offsets[4] = r0;
            self.chr_bank_offsets[5] = r0 + 0x400;
            self.chr_bank_offsets[6] = r1;
            self.chr_bank_offsets[7] = r1 + 0x400;
        } else {
            self.chr_bank_offsets[0] = r0;
            self.chr_bank_offsets[1] = r0 + 0x400;
            self.chr_bank_offsets[2] = r1;
            self.chr_bank_offsets[3] = r1 + 0x400;
            self.chr_bank_offsets[4] = r2;
            self.chr_bank_offsets[5] = r3;
            self.chr_bank_offsets[6] = r4;
            self.chr_bank_offsets[7] = r5;
        }
        let chr_size: usize = if self.chr_rom_size == 0 {
            1
        } else {
            self.chr_rom_size
        };
        self.chr_bank_offsets[0] = self.chr_bank_offsets[0] % chr_size;
        self.chr_bank_offsets[1] = self.chr_bank_offsets[1] % chr_size;
        self.chr_bank_offsets[2] = self.chr_bank_offsets[2] % chr_size;
        self.chr_bank_offsets[3] = self.chr_bank_offsets[3] % chr_size;
        self.chr_bank_offsets[4] = self.chr_bank_offsets[4] % chr_size;
        self.chr_bank_offsets[5] = self.chr_bank_offsets[5] % chr_size;
        self.chr_bank_offsets[6] = self.chr_bank_offsets[6] % chr_size;
        self.chr_bank_offsets[7] = self.chr_bank_offsets[7] % chr_size;
    }

    pub fn cpu_read(&self, addr: u16, prg_rom: &Vec<u8>) -> (r: u8)
        requires
            0x8000 <= addr,
            self.wf(),
        ensures
            r == rom_byte(
                prg_rom@,
                self.prg_bank_offsets@[((addr - 0x8000) / 0x2000) as int] + (addr % 0x2000),
                0xFF,
            ),
    {
        let slot = ((addr - 0x8000) / 0x2000) as usize;
        read_rom_byte(prg_rom, self.prg_bank_offsets[slot] + (addr % 0x2000) as usize, 0xFF)
    }

    pub fn ppu_read(&self, addr: u16, chr_rom: &Vec<u8>, chr_ram: &Vec<u8>) -> (r: u8)
        requires
            addr < 0x2000,
            self.wf(),
        ensures
            self.has_chr_ram ==> r == rom_byte(chr_ram@, addr as int, 0),
            !self.has_chr_ram ==> r == rom_byte(
                chr_rom@,
                self.chr_bank_offsets@[(addr / 0x400) as int] + (addr % 0x400),
                0,
            ),
    {
        if self.has_chr_ram {
            read_rom_byte(chr_ram, addr as usize, 0)
        } else {
            let slot = (addr / 0x400) as usize;
            read_rom_byte(chr_rom, self.chr_bank_offsets[slot] + (addr % 0x400) as usize, 0)
        }
    }

    /// One scanline clock of the IRQ counter: reload when empty or forced,
    /// count down otherwise; when the counter lands on zero with interrupts
    /// enabled, the pending flag rises and the call reports it.
    pub fn clock_irq(&mut self) -> (r: bool)
        ensures
            mmc3_clock_rel(*old(self), *final(self), r),
    {
        if self.irq_counter == 0 || self.irq_reload {
            self.irq_counter = self.irq_latch;
            self.irq_reload = false;
        } else {
            self.irq_counter = self.irq_counter - 1;
            self.irq_reload = false;
        }
        if self.irq_counter == 0 && self.irq_enabled {
            self.irq_pending = true;
            true
        } else {
            false
        }
    }

    pub fn irq_pending(&self) -> (r: bool)
        ensures
            r == self.irq_pending,
    {
        self.irq_pending
    }

    pub fn acknowledge_irq(&mut self)
        ensures
            *final(self) == (Mmc3Mapper { irq_pending: false, ..*old(self) }),
    {
        self.irq_pending = false;
    }
}

/// What one scanline clock does to an MMC3 mapper: only the IRQ counter,
/// reload flag and pending flag can move, exactly as the counter rules say.
pub open spec fn mmc3_clocked(pre: Mmc3Mapper, post: Mmc3Mapper) -> bool {
    &&& post == (Mmc3Mapper {
        irq_counter: post.irq_counter,
        irq_reload: false,
        irq_pending: post.irq_pending,
        ..pre
    })
    &&& post.irq_counter == mmc3_counter_after(pre.irq_counter, pre.irq_reload, pre.irq_latch)
    &&& post.irq_pending == (pre.irq_pending || (post.irq_counter == 0 && pre.irq_enabled))
}

/// A scanline clock together with whether it reported an interrupt.
pub open spec fn mmc3_clock_rel(pre: Mmc3Mapper, post: Mmc3Mapper, fired: bool) -> bool {
    &&& mmc3_clocked(pre, post)
    &&& fired == (post.irq_counter == 0 && pre.irq_enabled)
}

/// The derived PRG windows of an MMC3: the slot at 0xE000 is the last 8 KiB
/// bank, the second-last bank sits on the fixed side of the PRG mode, and
/// the switchable slots follow R6 and R7 through the clamp.
pub open spec fn mmc3_prg_layout(m: Mmc3Mapper) -> bool {
    &&& (m.prg_rom_size >= 0x4000 ==> m.prg_bank_offsets@[3] == m.prg_rom_size - 0x2000)
    &&& (m.prg_rom_size >= 0x4000 && !m.prg_mode ==> m.prg_bank_offsets@[2] == m.prg_rom_size
        - 0x4000)
    &&& (m.prg_rom_size >= 0x4000 && m.prg_mode ==> m.prg_bank_offsets@[0] == m.prg_rom_size
        - 0x4000)
    &&& (m.prg_rom_size > 0 ==> m.prg_bank_offsets@[1] == (((m.bank_data@[7] & m.prg_clamp) as int)
        * 0x2000) % (m.prg_rom_size as int))
    &&& (m.prg_rom_size > 0 && !m.prg_mode ==> m.prg_bank_offsets@[0] == (((m.bank_data@[6]
        & m.prg_clamp) as int) * 0x2000) % (m.prg_rom_size as int))
    &&& (m.prg_rom_size > 0 && m.prg_mode ==> m.prg_bank_offsets@[2] == (((m.bank_data@[6]
        & m.prg_clamp) as int) * 0x2000) % (m.prg_rom_size as int))
}

/// The derived CHR windows of an MMC3: R0 and R1 serve 2 KiB pairs, R2..R5
/// serve 1 KiB windows, with the inversion bit swapping which half of the
/// pattern space each group covers; a CHR-RAM board maps the RAM straight
/// through.
pub open spec fn mmc3_chr_layout(m: Mmc3Mapper) -> bool {
    if m.has_chr_ram {
        &&& m.chr_bank_offsets@[0] == 0
        &&& m.chr_bank_offsets@[1] == 0x400
        &&& m.chr_bank_offsets@[2] == 0x800
        &&& m.chr_bank_offsets@[3] == 0xC00
        &&& m.chr_bank_offsets@[4] == 0x1000
        &&& m.chr_bank_offsets@[5] == 0x1400
        &&& m.chr_bank_offsets@[6] == 0x1800
        &&& m.chr_bank_offsets@[7] == 0x1C00
    } else {
        let size = if m.chr_rom_size == 0 {
            1int
        } else {
            m.chr_rom_size as int
        };
        let r0 = ((m.bank_data@[0] & 0xFE & m.chr_clamp) as int) * 0x400;
        let r1 = ((m.bank_data@[1] & 0xFE & m.chr_clamp) as int) * 0x400;
        let r2 = ((m.bank_data@[2] & m.chr_clamp) as int) * 0x400;
        let r3 = ((m.bank_data@[3] & m.chr_clamp) as int) * 0x400;
        let r4 = ((m.bank_data@[4] & m.chr_clamp) as int) * 0x400;
        let r5 = ((m.bank_data@[5] & m.chr_clamp) as int) * 0x400;
        if m.chr_inversion {
            &&& m.chr_bank_offsets@[0] == r2 % size
            &&& m.chr_bank_offsets@[1] == r3 % size
            &&& m.chr_bank_offsets@[2] == r4 % size
            &&& m.chr_bank_offsets@[3] == r5 % size
            &&& m.chr_bank_offsets@[4] == r0 % size
            &&& m.chr_bank_offsets@[5] == (r0 + 0x400) % size
            &&& m.chr_bank_offsets@[6] == r1 % size
            &&& m.chr_bank_offsets@[7] == (r1 + 0x400) % size
        } else {
            &&& m.chr_bank_offsets@[0] == r0 % size
            &&& m.chr_bank_offsets@[1] == (r0 + 0x400) % size
            &&& m.chr_bank_offsets@[2] == r1 % size
            &&& m.chr_bank_offsets@[3] == (r1 + 0x400) % size
            &&& m.chr_bank_offsets@[4] == r2 % size
            &&& m.chr_bank_offsets@[5] == r3 % size
            &&& m.chr_bank_offsets@[6] == r4 % size
            &&& m.chr_bank_offsets@[7] == r5 % size
        }
    }
}

/// What a CPU write does to an MMC3 mapper, register by register.
pub open spec fn mmc3_write_rel(pre: Mmc3Mapper, post: Mmc3Mapper, addr: u16, value: u8) -> bool {
    &&& post.wf()
    &&& post.has_chr_ram == pre.has_chr_ram
    &&& post.prg_rom_size == pre.prg_rom_size
    &&& post.chr_rom_size == pre.chr_rom_size
    &&& (addr < 0x8000 ==> post == (Mmc3Mapper {
        mirroring_changed_flag: false,
        ..pre
    }))
    &&& (addr >= 0x8000 && (addr & 0xE001) == 0x8000 ==> post.bank_select == value % 8
        && post.prg_mode == ((value & 0x40) != 0)
        && post.chr_inversion == ((value & 0x80) != 0)
        && mmc3_prg_layout(post))
    &&& (addr >= 0x8000 && (addr & 0xE001) == 0x8001 ==> post.bank_data@ == pre.bank_data@.update(
        pre.bank_select as int,
        value,
    ))
    &&& (addr >= 0x8000 && (addr & 0xE001) == 0x8000 ==> mmc3_chr_layout(post))
    &&& (addr >= 0x8000 && (addr & 0xE001) == 0x8001 && pre.bank_select >= 6 ==> mmc3_prg_layout(
        post,
    ) && post.chr_bank_offsets == pre.chr_bank_offsets)
    &&& (addr >= 0x8000 && (addr & 0xE001) == 0x8001 && pre.bank_select < 6
        ==> post.prg_bank_offsets == pre.prg_bank_offsets && mmc3_chr_layout(post))
    &&& (addr >= 0x8000 && (addr & 0xE001) != 0x8000 && (addr & 0xE001) != 0x8001
        ==> post.prg_bank_offsets == pre.prg_bank_offsets && post.chr_bank_offsets
            == pre.chr_bank_offsets)
    &&& (addr >= 0x8000 && (addr & 0xE001) == 0xA000 && pre.mirroring != Mirroring::FourScreen
        ==> post.mirroring == (if (value & 0x01) != 0 {
        Mirroring::Horizontal
    } else {
        Mirroring::Vertical
    }))
    &&& (addr >= 0x8000 && (addr & 0xE001) == 0xC000 ==> post.irq_state() == (
        value,
        pre.irq_counter,
        pre.irq_reload,
        pre.irq_enabled,
        pre.irq_pending,
    ))
    &&& (addr >= 0x8000 && (addr & 0xE001) == 0xC001 ==> post.irq_state() == (
        pre.irq_latch,
        0u8,
        true,
        pre.irq_enabled,
        pre.irq_pending,
    ))
    &&& (addr >= 0x8000 && (addr & 0xE001) == 0xE000 ==> post.irq_state() == (
        pre.irq_latch,
        pre.irq_counter,
        pre.irq_reload,
        false,
        false,
    ))
    &&& (addr >= 0x8000 && (addr & 0xE001) == 0xE001 ==> post.irq_state() == (
        pre.irq_latch,
        pre.irq_counter,
        pre.irq_reload,
        true,
        pre.irq_pending,
    ))
    &&& (addr >= 0x8000 && (addr & 0xE001) < 0xC000 ==> post.irq_state() == pre.irq_state())
    &&& ((addr & 0xE001) != 0xA000 ==> post.mirroring == pre.mirroring)
    &&& (post.mirroring_changed_flag ==> post.mirroring != pre.mirroring)
}

impl Mmc3Mapper {
    /// A register write: even addresses in each 8 KiB half select banks,
    /// mirroring or the IRQ latch; odd addresses carry bank data, force an
    /// IRQ reload, or disable/enable the IRQ line.
    #[verifier::rlimit(100)]
    #[verifier::spinoff_prover]
    pub fn cpu_write(&mut self, addr: u16, value: u8)
        requires
            old(self).wf(),
        ensures
            mmc3_write_rel(*old(self), *final(self), addr, value),
    {
        self.mirroring_changed_flag = false;
        if addr < 0x8000 {
            return ;
        }
        let target = addr & 0xE001;
        if target == 0x8000 {
            self.bank_select = value % 8;
            self.prg_mode = (value & 0x40) != 0;
            self.chr_inversion = (value & 0x80) != 0;
            self.update_prg_banks();
            self.update_chr_banks();
        } else if target == 0x8001 {
            let slot = self.bank_select as usize;
            self.bank_data[slot] = value;
            if self.bank_select < 6 {
                self.update_chr_banks();
            } else {
                self.update_prg_banks();
            }
        } else if target == 0xA000 {
            if self.mirroring != Mirroring::FourScreen {
                let new_mirroring = if (value & 0x01) != 0 {
                    Mirroring::Horizontal
                } else {
                    Mirroring::Vertical
                };
                if new_mirroring != self.mirroring {
                    self.mirroring = new_mirroring;
                    self.mirroring_changed_flag = true;
                }
            }
        } else if target == 0xA001 {
            // PRG RAM protection is not modelled: writes to it change nothing.
        } else if target == 0xC000 {
            self.irq_latch = value;
        } else if target == 0xC001 {
            self.irq_counter = 0;
            self.irq_reload = true;
        } else if target == 0xE000 {
            self.irq_enabled = false;
            self.irq_pending = false;
        } else if target == 0xE001 {
            self.irq_enabled = true;
        }
    }
}

/// Law: the MMC1 serial port commits only on the fifth write.  Starting from
/// a reset shift register, four writes with bit 7 clear never fill it — so by
/// the write relation they leave every bank register, mode bit and the
/// mirroring untouched — and the fifth write always fills it, committing the
/// accumulated value and resetting the shifter.
pub proof fn lemma_mmc1_five_writes(
    m0: Mmc1Mapper,
    m1: Mmc1Mapper,
    m2: Mmc1Mapper,
    m3: Mmc1Mapper,
    m4: Mmc1Mapper,
    m5: Mmc1Mapper,
    a1: u16,
    a2: u16,
    a3: u16,
    a4: u16,
    a5: u16,
    v1: u8,
    v2: u8,
    v3: u8,
    v4: u8,
    v5: u8,
)
    requires
        m0.shift_reg == MMC1_SHIFT_INIT,
        a1 >= 0x8000 && a2 >= 0x8000 && a3 >= 0x8000 && a4 >= 0x8000 && a5 >= 0x8000,
        v1 & 0x80 == 0 && v2 & 0x80 == 0 && v3 & 0x80 == 0 && v4 & 0x80 == 0 && v5 & 0x80 == 0,
        mmc1_write_rel(m0, m1, a1, v1),
        mmc1_write_rel(m1, m2, a2, v2),
        mmc1_write_rel(m2, m3, a3, v3),
        mmc1_write_rel(m3, m4, a4, v4),
        mmc1_write_rel(m4, m5, a5, v5),
    ensures
        m1.routing() == m0.routing(),
        m2.routing() == m0.routing(),
        m3.routing() == m0.routing(),
        m4.routing() == m0.routing(),
        mmc1_shift_full(mmc1_shift_step(m4.shift_reg, v5)),
        m5.shift_reg == MMC1_SHIFT_INIT,
{
    assert(!mmc1_shift_full(mmc1_shift_step(0x20u8, v1))) by (bit_vector);
    assert(!mmc1_shift_full(mmc1_shift_step(mmc1_shift_step(0x20u8, v1), v2))) by (bit_vector);
    assert(!mmc1_shift_full(
        mmc1_shift_step(mmc1_shift_step(mmc1_shift_step(0x20u8, v1), v2), v3),
    )) by (bit_vector);
    assert(!mmc1_shift_full(
        mmc1_shift_step(mmc1_shift_step(mmc1_shift_step(mmc1_shift_step(0x20u8, v1), v2), v3), v4),
    )) by (bit_vector);
    assert(mmc1_shift_full(
        mmc1_shift_step(
            mmc1_shift_step(
                mmc1_shift_step(mmc1_shift_step(mmc1_shift_step(0x20u8, v1), v2), v3),
                v4,
            ),
            v5,
        ),
    )) by (bit_vector);
}

/// The state a write to the MMC3 reload port (0xC001) leaves behind, with
/// the interrupt line enabled and nothing pending yet.
pub open spec fn mmc3_armed(m: Mmc3Mapper, latch: u8) -> bool {
    &&& m.irq_counter == 0
    &&& m.irq_reload
    &&& m.irq_enabled
    &&& !m.irq_pending
    &&& m.irq_latch == latch
}

/// The states an armed MMC3 passes through under scanline clocks: clock k
/// (for 1 <= k <= latch + 1) leaves the counter at latch - (k - 1), and the
/// pending flag is up exactly from clock latch + 1 on.
#[verifier::rlimit(100)]
#[verifier::spinoff_prover]
proof fn mmc3_chain_state(ss: Seq<Mmc3Mapper>, latch: u8, k: int)
    requires
        ss.len() >= 1,
        mmc3_armed(ss[0], latch),
        forall|i: int| 0 <= i < ss.len() - 1 ==> mmc3_clocked(#[trigger] ss[i], ss[i + 1]),
        0 <= k < ss.len(),
    ensures
        ss[k].irq_latch == latch,
        ss[k].irq_enabled,
        k >= 1 ==> !ss[k].irq_reload,
        1 <= k <= latch + 1 ==> ss[k].irq_counter == latch - (k - 1),
        ss[k].irq_pending <==> k >= latch + 1,
    decreases k,
{
    if k > 0 {
        mmc3_chain_state(ss, latch, k - 1);
        assert(mmc3_clocked(ss[k - 1], ss[k]));
    }
}

/// Law: with latch L loaded and the interrupt enabled, a pending MMC3
/// interrupt first appears after exactly L + 1 scanline clocks following a
/// forced reload — no earlier clock raises it, and every later state keeps
/// it until acknowledged.
pub proof fn lemma_mmc3_irq_timing(ss: Seq<Mmc3Mapper>, latch: u8)
    requires
        ss.len() >= 1,
        mmc3_armed(ss[0], latch),
        forall|i: int| 0 <= i < ss.len() - 1 ==> mmc3_clocked(#[trigger] ss[i], ss[i + 1]),
    ensures
        forall|k: int| 0 <= k < ss.len() ==> ((#[trigger] ss[k].irq_pending) <==> k >= latch + 1),
{
    assert forall|k: int| 0 <= k < ss.len() implies ((#[trigger] ss[k].irq_pending) <==> k >= latch
        + 1) by {
        mmc3_chain_state(ss, latch, k);
    }
}

// ---------------------------------------------------------------------------
// The mapper sum type
// ---------------------------------------------------------------------------

/// The mapper of a loaded cartridge: one tagged variant per supported board,
/// dispatched with a single match per bus access.
pub enum Mapper {
    Nrom(NromMapper),
    Uxrom(UxromMapper),
    Cnrom(CnromMapper),
    Mmc1(Mmc1Mapper),
    Mmc3(Mmc3Mapper),
}

impl Mapper {
    pub open spec fn wf(self) -> bool {
        match self {
            Mapper::Mmc1(m) => m.wf(),
            Mapper::Mmc3(m) => m.wf(),
            _ => true,
        }
    }

    /// The nametable mirroring the mapper currently reports.
    pub open spec fn mirroring_of(self) -> Mirroring {
        match self {
            Mapper::Nrom(m) => m.mirroring,
            Mapper::Uxrom(m) => m.mirroring,
            Mapper::Cnrom(m) => m.mirroring,
            Mapper::Mmc1(m) => m.mirroring,
            Mapper::Mmc3(m) => m.mirroring,
        }
    }

    /// Whether the board carries CHR RAM instead of CHR ROM.
    pub open spec fn uses_chr_ram(self) -> bool {
        match self {
            Mapper::Nrom(m) => m.has_chr_ram,
            Mapper::Uxrom(m) => m.has_chr_ram,
            Mapper::Cnrom(m) => m.has_chr_ram,
            Mapper::Mmc1(m) => m.has_chr_ram,
            Mapper::Mmc3(m) => m.has_chr_ram,
        }
    }

    /// Whether the last register write changed the mirroring.
    pub open spec fn changed_flag(self) -> bool {
        match self {
            Mapper::Mmc1(m) => m.mirroring_changed_flag,
            Mapper::Mmc3(m) => m.mirroring_changed_flag,
            _ => false,
        }
    }

    /// Whether the mapper holds a pending scanline interrupt.
    pub open spec fn pending(self) -> bool {
        match self {
            Mapper::Mmc3(m) => m.irq_pending,
            _ => false,
        }
    }

    /// The byte a CPU read in 0x8000..=0xFFFF lands on, for each board.
    pub open spec fn spec_cpu_read(self, prg: Seq<u8>, addr: u16) -> u8 {
        match self {
            Mapper::Nrom(_) => rom_byte(prg, addr - 0x8000, 0xFF),
            Mapper::Cnrom(_) => rom_byte(prg, addr - 0x8000, 0xFF),
            Mapper::Uxrom(m) => if addr < 0xC000 {
                rom_byte(prg, m.prg_bank * 0x4000 + (addr - 0x8000), 0xFF)
            } else {
                rom_byte(
                    prg,
                    (if m.prg_banks > 0 {
                        (m.prg_banks - 1) * 0x4000
                    } else {
                        0int
                    }) + (addr - 0xC000),
                    0xFF,
                )
            },
            Mapper::Mmc1(m) => if addr < 0xC000 {
                rom_byte(prg, m.prg_bank1_offset + (addr % 0x4000), 0xFF)
            } else {
                rom_byte(prg, m.prg_bank2_offset + (addr % 0x4000), 0xFF)
            },
            Mapper::Mmc3(m) => rom_byte(
                prg,
                m.prg_bank_offsets@[((addr - 0x8000) / 0x2000) as int] + (addr % 0x2000),
                0xFF,
            ),
        }
    }

    /// The byte a PPU pattern-table read lands on, for each board.
    pub open spec fn spec_ppu_read(self, chr_rom: Seq<u8>, chr_ram: Seq<u8>, addr: u16) -> u8 {
        if self.uses_chr_ram() {
            rom_byte(chr_ram, addr as int, 0)
        } else {
            match self {
                Mapper::Nrom(_) => rom_byte(chr_rom, addr as int, 0),
                Mapper::Uxrom(_) => rom_byte(chr_rom, addr as int, 0),
                Mapper::Cnrom(m) => rom_byte(chr_rom, m.chr_bank * 0x2000 + addr, 0),
                Mapper::Mmc1(m) => if addr < 0x1000 {
                    rom_byte(chr_rom, m.chr_bank1_offset + addr, 0)
                } else {
                    rom_byte(chr_rom, m.chr_bank2_offset + (addr % 0x1000), 0)
                },
                Mapper::Mmc3(m) => rom_byte(
                    chr_rom,
                    m.chr_bank_offsets@[(addr / 0x400) as int] + (addr % 0x400),
                    0,
                ),
            }
        }
    }

    pub fn mirroring(&self) -> (r: Mirroring)
        ensures
            r == self.mirroring_of(),
    {
        match self {
            Mapper::Nrom(m) => m.mirroring,
            Mapper::Uxrom(m) => m.mirroring,
            Mapper::Cnrom(m) => m.mirroring,
            Mapper::Mmc1(m) => m.mirroring,
            Mapper::Mmc3(m) => m.mirroring,
        }
    }

    pub fn mirroring_changed(&self) -> (r: bool)
        ensures
            r == self.changed_flag(),
    {
        match self {
            Mapper::Mmc1(m) => m.mirroring_changed_flag,
            Mapper::Mmc3(m) => m.mirroring_changed_flag,
            _ => false,
        }
    }

    pub fn has_chr_ram(&self) -> (r: bool)
        ensures
            r == self.uses_chr_ram(),
    {
        match self {
            Mapper::Nrom(m) => m.has_chr_ram,
            Mapper::Uxrom(m) => m.has_chr_ram,
            Mapper::Cnrom(m) => m.has_chr_ram,
            Mapper::Mmc1(m) => m.has_chr_ram,
            Mapper::Mmc3(m) => m.has_chr_ram,
        }
    }

    pub fn cpu_read(&self, addr: u16, prg_rom: &Vec<u8>) -> (r: u8)
        requires
            0x8000 <= addr,
            self.wf(),
        ensures
            r == self.spec_cpu_read(prg_rom@, addr),
    {
        match self {
            Mapper::Nrom(m) => m.cpu_read(addr, prg_rom),
            Mapper::Uxrom(m) => m.cpu_read(addr, prg_rom),
            Mapper::Cnrom(m) => m.cpu_read(addr, prg_rom),
            Mapper::Mmc1(m) => m.cpu_read(addr, prg_rom),
            Mapper::Mmc3(m) => m.cpu_read(addr, prg_rom),
        }
    }

    pub fn ppu_read(&self, addr: u16, chr_rom: &Vec<u8>, chr_ram: &Vec<u8>) -> (r: u8)
        requires
            addr < 0x2000,
            self.wf(),
        ensures
            r == self.spec_ppu_read(chr_rom@, chr_ram@, addr),
    {
        match self {
            Mapper::Nrom(m) => m.ppu_read(addr, chr_rom, chr_ram),
            Mapper::Uxrom(m) => m.ppu_read(addr, chr_rom, chr_ram),
            Mapper::Cnrom(m) => m.ppu_read(addr, chr_rom, chr_ram),
            Mapper::Mmc1(m) => m.ppu_read(addr, chr_rom, chr_ram),
            Mapper::Mmc3(m) => m.ppu_read(addr, chr_rom, chr_ram),
        }
    }

    pub fn cpu_write(&mut self, addr: u16, value: u8)
        requires
            old(self).wf(),
        ensures
            final(self).wf(),
            final(self).uses_chr_ram() == old(self).uses_chr_ram(),
            (*old(self) is Nrom ==> *final(self) == *old(self)),
            (*old(self) matches Mapper::Uxrom(m0) ==> (*final(self) matches Mapper::Uxrom(m1)
                && uxrom_write_rel(m0, m1, addr, value))),
            (*old(self) matches Mapper::Cnrom(m0) ==> (*final(self) matches Mapper::Cnrom(m1)
                && cnrom_write_rel(m0, m1, addr, value))),
            (*old(self) matches Mapper::Mmc1(m0) ==> (*final(self) matches Mapper::Mmc1(m1)
                && mmc1_write_rel(m0, m1, addr, value))),
            (*old(self) matches Mapper::Mmc3(m0) ==> (*final(self) matches Mapper::Mmc3(m1)
                && mmc3_write_rel(m0, m1, addr, value))),
            (final(self).changed_flag() ==> final(self).mirroring_of() != old(self).mirroring_of()),
            (!(*old(self) is Mmc1 || *old(self) is Mmc3) ==> final(self).mirroring_of() == old(
                self,
            ).mirroring_of()),
    {
        match self {
            Mapper::Nrom(_) => {},
            Mapper::Uxrom(m) => m.cpu_write(addr, value),
            Mapper::Cnrom(m) => m.cpu_write(addr, value),
            Mapper::Mmc1(m) => m.cpu_write(addr, value),
            Mapper::Mmc3(m) => m.cpu_write(addr, value),
        }
    }

    pub fn clock_scanline(&mut self) -> (r: bool)
        ensures
            (!(*old(self) is Mmc3) ==> *final(self) == *old(self) && r == false),
            (*old(self) matches Mapper::Mmc3(m0) ==> (*final(self) matches Mapper::Mmc3(m1)
                && mmc3_clock_rel(m0, m1, r))),
    {
        match self {
            Mapper::Mmc3(m) => m.clock_irq(),
            _ => false,
        }
    }

    pub fn irq_pending(&self) -> (r: bool)
        ensures
            r == self.pending(),
    {
        match self {
            Mapper::Mmc3(m) => m.irq_pending,
            _ => false,
        }
    }

    pub fn acknowledge_irq(&mut self)
        ensures
            !final(self).pending(),
            (!(*old(self) is Mmc3) ==> *final(self) == *old(self)),
            (*old(self) matches Mapper::Mmc3(m0) ==> *final(self) == Mapper::Mmc3(
                Mmc3Mapper { irq_pending: false, ..m0 },
            )),
            final(self).wf() == old(self).wf(),
            final(self).mirroring_of() == old(self).mirroring_of(),
    {
        match self {
            Mapper::Mmc3(m) => m.acknowledge_irq(),
            _ => {},
        }
    }
}

// ---------------------------------------------------------------------------
// The cartridge and the iNES format
// ---------------------------------------------------------------------------

/// The first sixteen bytes carry the magic "NES\x1A".
pub open spec fn ines_magic_ok(d: Seq<u8>) -> bool {
    d.len() >= 16 && d[0] == 0x4E && d[1] == 0x45 && d[2] == 0x53 && d[3] == 0x1A
}

/// PRG ROM length in bytes: header byte 4 counts 16 KiB units.
pub open spec fn ines_prg_size(d: Seq<u8>) -> int {
    d[4] * 0x4000
}

/// CHR ROM length in bytes: header byte 5 counts 8 KiB units.
pub open spec fn ines_chr_size(d: Seq<u8>) -> int {
    d[5] * 0x2000
}

/// Mapper number: high nibble of flags 7, then high nibble of flags 6.
pub open spec fn ines_mapper_id(d: Seq<u8>) -> u8 {
    (d[7] & 0xF0) | (d[6] >> 4)
}

/// Mirroring: the four-screen bit overrides; otherwise bit 0 of flags 6
/// selects vertical (1) or horizontal (0).
pub open spec fn ines_mirroring(d: Seq<u8>) -> Mirroring {
    if d[6] & 0x08 != 0 {
        Mirroring::FourScreen
    } else if d[6] & 0x01 == 0 {
        Mirroring::Horizontal
    } else {
        Mirroring::Vertical
    }
}

/// Bytes before the PRG ROM: the header, plus a 512-byte trainer when flags 6
/// bit 2 is set.
pub open spec fn ines_header_size(d: Seq<u8>) -> int {
    if d[6] & 0x04 != 0 {
        528
    } else {
        16
    }
}

/// The image is long enough to hold everything the header declares.
pub open spec fn ines_body_ok(d: Seq<u8>) -> bool {
    d.len() >= ines_header_size(d) + ines_prg_size(d) + ines_chr_size(d)
}

/// An image this library accepts: intact header and body, and a mapper among
/// the five supported boards.
pub open spec fn ines_ok(d: Seq<u8>) -> bool {
    ines_magic_ok(d) && ines_body_ok(d) && ines_mapper_id(d) <= 4
}

/// Copies `data[start..end]` into a fresh vector.
fn copy_range(data: &Vec<u8>, start: usize, end: usize) -> (r: Vec<u8>)
    requires
        start <= end <= data.len(),
    ensures
        r@ == data@.subrange(start as int, end as int),
{
    let mut out: Vec<u8> = Vec::new();
    let mut i = start;
    while i < end
        invariant
            start <= i <= end <= data.len(),
            out@ == data@.subrange(start as int, i as int),
        decreases end - i,
    {
        out.push(data[i]);
        proof {
            assert(data@.subrange(start as int, (i + 1) as int) =~= data@.subrange(
                start as int,
                i as int,
            ).push(data@[i as int]));
        }
        i = i + 1;
    }
    out
}

/// A vector of `len` copies of `value`.
pub fn filled(len: usize, value: u8) -> (r: Vec<u8>)
    ensures
        r@ == Seq::new(len as nat, |i: int| value),
{
    let mut out: Vec<u8> = Vec::new();
    let mut i: usize = 0;
    while i < len
        invariant
            i <= len,
            out@ == Seq::new(i as nat, |j: int| value),
        decreases len - i,
    {
        out.push(value);
        proof {
            assert(Seq::new((i + 1) as nat, |j: int| value) =~= Seq::new(i as nat, |j: int| value)
                .push(value));
        }
        i = i + 1;
    }
    out
}

/// A loaded ROM: the raw PRG and CHR images and the board's mapper.  Created
/// once per image and immutable afterwards except for the mapper state.
pub struct Cartridge {
    pub prg_rom: Vec<u8>,
    pub chr_rom: Vec<u8>,
    pub mapper: Mapper,
    pub mapper_id: u8,
    pub has_ram: bool,
    pub mirroring: Mirroring,
}

impl Cartridge {
    pub open spec fn wf(self) -> bool {
        self.mapper.wf()
    }

    /// Parses an iNES image.  Returns `InvalidHeader` for a short image, bad
    /// magic or truncated body, and `UnsupportedMapper` for a mapper outside
    /// the five supported boards; otherwise the cartridge fields are exactly
    /// what the header declares.
    pub fn load(data: &Vec<u8>) -> (r: Result<Cartridge, CartridgeError>)
        ensures
            ((r is Ok) <==> ines_ok(data@)),
            !ines_magic_ok(data@) ==> r == Err::<Cartridge, CartridgeError>(
                CartridgeError::InvalidHeader,
            ),
            ines_magic_ok(data@) && !ines_body_ok(data@) ==> r == Err::<Cartridge, CartridgeError>(
                CartridgeError::InvalidHeader,
            ),
            ines_magic_ok(data@) && ines_body_ok(data@) && ines_mapper_id(data@) > 4 ==> r == Err::<
                Cartridge,
                CartridgeError,
            >(CartridgeError::UnsupportedMapper(ines_mapper_id(data@))),
            (r matches Ok(c) ==> c.wf() && c.mapper_id == ines_mapper_id(data@) && c.has_ram == ((
            data@[6] & 0x02) != 0) && c.mirroring == ines_mirroring(data@)
                && c.mapper.mirroring_of() == ines_mirroring(data@) && c.prg_rom@
                == data@.subrange(ines_header_size(data@), ines_header_size(data@) + ines_prg_size(data@))
                && (ines_chr_size(data@) > 0 ==> c.chr_rom@ == data@.subrange(
                ines_header_size(data@) + ines_prg_size(data@),
                ines_header_size(data@) + ines_prg_size(data@) + ines_chr_size(data@),
            )) && (ines_chr_size(data@) == 0 ==> c.chr_rom@ == Seq::new(0x2000nat, |i: int| 0u8))
                && c.mapper.uses_chr_ram() == (ines_chr_size(data@) == 0) && ((c.mapper is Nrom)
                <==> ines_mapper_id(data@) == 0) && ((c.mapper is Mmc1) <==> ines_mapper_id(data@)
                == 1) && ((c.mapper is Uxrom) <==> ines_mapper_id(data@) == 2) && ((
            c.mapper is Cnrom) <==> ines_mapper_id(data@) == 3) && ((c.mapper is Mmc3)
                <==> ines_mapper_id(data@) == 4)),
    {
        if data.len() < 16 {
            return Err(CartridgeError::InvalidHeader);
        }
        if !(data[0] == 0x4E && data[1] == 0x45 && data[2] == 0x53 && data[3] == 0x1A) {
            return Err(CartridgeError::InvalidHeader);
        }
        let prg_rom_size = (data[4] as usize) * 0x4000;
        let chr_rom_size = (data[5] as usize) * 0x2000;
        let flags6 = data[6];
        let flags7 = data[7];
        let mapper_id = (flags7 & 0xF0) | (flags6 >> 4);
        let mirroring = if flags6 & 0x08 != 0 {
            Mirroring::FourScreen
        } else if flags6 & 0x01 == 0 {
            Mirroring::Horizontal
        } else {
            Mirroring::Vertical
        };
        let has_ram = (flags6 & 0x02) != 0;
        let has_chr_ram = chr_rom_size == 0;
        let header_size: usize = if flags6 & 0x04 != 0 {
            528
        } else {
            16
        };
        if data.len() < header_size + prg_rom_size + chr_rom_size {
            return Err(CartridgeError::InvalidHeader);
        }
        if mapper_id > 4 {
            return Err(CartridgeError::UnsupportedMapper(mapper_id));
        }
        let prg_start = header_size;
        let prg_end = prg_start + prg_rom_size;
        let chr_end = prg_end + chr_rom_size;
        let prg_rom = copy_range(data, prg_start, prg_end);
        let chr_rom = if has_chr_ram {
            filled(0x2000, 0)
        } else {
            copy_range(data, prg_end, chr_end)
        };
        let mapper = if mapper_id == 0 {
            Mapper::Nrom(NromMapper::new(mirroring, has_chr_ram))
        } else if mapper_id == 1 {
            Mapper::Mmc1(Mmc1Mapper::new(mirroring, has_chr_ram, prg_rom_size, chr_rom_size))
        } else if mapper_id == 2 {
            Mapper::Uxrom(UxromMapper::new(mirroring, has_chr_ram, prg_rom_size))
        } else if mapper_id == 3 {
            Mapper::Cnrom(CnromMapper::new(mirroring, has_chr_ram, chr_rom_size))
        } else {
            Mapper::Mmc3(Mmc3Mapper::new(mirroring, has_chr_ram, prg_rom_size, chr_rom_size))
        };
        Ok(Cartridge { prg_rom, chr_rom, mapper, mapper_id, has_ram, mirroring })
    }

    /// A CPU read of cartridge space, banked by the mapper.
    pub fn cpu_read(&self, addr: u16) -> (r: u8)
        requires
            0x8000 <= addr,
            self.wf(),
        ensures
            r == self.mapper.spec_cpu_read(self.prg_rom@, addr),
    {
        self.mapper.cpu_read(addr, &self.prg_rom)
    }

    /// A CPU write into cartridge space: feeds the mapper's registers and
    /// reports whether the nametable mirroring changed.
    pub fn cpu_write(&mut self, addr: u16, value: u8) -> (r: bool)
        requires
            old(self).wf(),
        ensures
            final(self).wf(),
            final(self).prg_rom == old(self).prg_rom,
            final(self).chr_rom == old(self).chr_rom,
            final(self).mapper_id == old(self).mapper_id,
            final(self).has_ram == old(self).has_ram,
            final(self).mirroring == old(self).mirroring,
            (old(self).mapper matches Mapper::Uxrom(m0) ==> (final(self).mapper matches Mapper::Uxrom(m1)
                && uxrom_write_rel(m0, m1, addr, value))),
            (old(self).mapper matches Mapper::Cnrom(m0) ==> (final(self).mapper matches Mapper::Cnrom(m1)
                && cnrom_write_rel(m0, m1, addr, value))),
            (old(self).mapper matches Mapper::Mmc1(m0) ==> (final(self).mapper matches Mapper::Mmc1(m1)
                && mmc1_write_rel(m0, m1, addr, value))),
            (old(self).mapper matches Mapper::Mmc3(m0) ==> (final(self).mapper matches Mapper::Mmc3(m1)
                && mmc3_write_rel(m0, m1, addr, value))),
            (old(self).mapper is Nrom ==> final(self).mapper == old(self).mapper),
            r == (final(self).mapper.mirroring_of() != old(self).mapper.mirroring_of()
                || final(self).mapper.changed_flag()),
    {
        let old_mirroring = self.mapper.mirroring();
        self.mapper.cpu_write(addr, value);
        let new_mirroring = self.mapper.mirroring();
        new_mirroring != old_mirroring || self.mapper.mirroring_changed()
    }

    /// A PPU pattern-table read, banked by the mapper.
    pub fn ppu_read(&self, addr: u16, chr_ram: &Vec<u8>) -> (r: u8)
        requires
            addr < 0x2000,
            self.wf(),
        ensures
            r == self.mapper.spec_ppu_read(self.chr_rom@, chr_ram@, addr),
    {
        self.mapper.ppu_read(addr, &self.chr_rom, chr_ram)
    }

    /// A PPU pattern-table write: lands in CHR RAM when the board has it,
    /// and is dropped on CHR ROM boards.
    pub fn ppu_write(&mut self, addr: u16, value: u8, chr_ram: &mut Vec<u8>)
        requires
            addr < 0x2000,
        ensures
            *final(self) == *old(self),
            old(self).mapper.uses_chr_ram() && old(chr_ram).len() > 0 ==> final(chr_ram)@ == old(
                chr_ram,
            )@.update(addr as int % old(chr_ram)@.len() as int, value),
            !(old(self).mapper.uses_chr_ram() && old(chr_ram).len() > 0) ==> final(chr_ram)@ == old(
                chr_ram,
            )@,
    {
        if self.mapper.has_chr_ram() && chr_ram.len() > 0 {
            let i = (addr as usize) % chr_ram.len();
            chr_ram[i] = value;
        }
    }

    /// Clocks the mapper's scanline counter; true when an MMC3 interrupt
    /// fires on this clock.
    pub fn clock_scanline(&mut self) -> (r: bool)
        ensures
            final(self).prg_rom == old(self).prg_rom,
            final(self).chr_rom == old(self).chr_rom,
            (!(old(self).mapper is Mmc3) ==> *final(self) == *old(self) && r == false),
            (old(self).mapper matches Mapper::Mmc3(m0) ==> (final(self).mapper matches Mapper::Mmc3(m1)
                && mmc3_clock_rel(m0, m1, r))),
    {
        self.mapper.clock_scanline()
    }

    /// Whether the mapper holds a pending interrupt.
    pub fn irq_pending(&self) -> (r: bool)
        ensures
            r == self.mapper.pending(),
    {
        self.mapper.irq_pending()
    }

    /// Clears the mapper's pending interrupt; nothing else of the mapper
    /// state moves.
    pub fn acknowledge_irq(&mut self)
        ensures
            !final(self).mapper.pending(),
            *final(self) == (Cartridge { mapper: final(self).mapper, ..*old(self) }),
            (!(old(self).mapper is Mmc3) ==> *final(self) == *old(self)),
            (old(self).mapper matches Mapper::Mmc3(m0) ==> final(self).mapper == Mapper::Mmc3(
                Mmc3Mapper { irq_pending: false, ..m0 },
            )),
            final(self).wf() == old(self).wf(),
            final(self).mapper.mirroring_of() == old(self).mapper.mirroring_of(),
    {
        self.mapper.acknowledge_irq()
    }
}

} // verus!
