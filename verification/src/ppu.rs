//! The picture processing unit: a per-dot simulation of the NTSC PPU.
//!
//! Each call to [`Ppu::step`] advances exactly one dot of the 341 x 262 frame
//! grid, fetching background tiles, evaluating sprites and compositing one
//! pixel of the 256 x 240 framebuffer of 6-bit palette indices.  The eight
//! memory-mapped registers and their side effects on the internal scroll
//! state (v, t, fine-x, the write toggle w and the read buffer) are specified
//! exactly.

use crate::cartridge::Cartridge;
use crate::cartridge::Mirroring;
use vstd::prelude::*;

verus! {

/// Dots per scanline.
pub const DOTS_PER_SCANLINE: u32 = 341;

/// Scanlines per frame, the pre-render line included.
pub const SCANLINES_PER_FRAME: u32 = 262;

/// Where a nametable access lands in the console's 2 KiB VRAM, given the
/// current mirroring.  The address may come from anywhere in
/// 0x2000..=0x3EFF; bit 12 is ignored and the rest is folded through the
/// four nametable slots.
pub open spec fn nt_index(m: Mirroring, addr: u16) -> int {
    let nt = if addr >= 0x3000 {
        addr - 0x1000
    } else {
        addr as int
    };
    let base = nt % 0x400;
    match m {
        Mirroring::Horizontal => if nt >= 0x2800 {
            base + 0x400
        } else {
            base
        },
        Mirroring::FourScreen => if nt >= 0x2800 {
            base + 0x400
        } else {
            base
        },
        Mirroring::Vertical => if nt % 0x800 >= 0x400 {
            base + 0x400
        } else {
            base
        },
        Mirroring::OneScreenLower => base,
        Mirroring::OneScreenUpper => base + 0x400,
    }
}

/// Where a palette access lands in the 32 bytes of palette RAM: the address
/// wraps every 32 bytes, and the four transparent entries 0x10/14/18/1C are
/// aliases of 0x00/04/08/0C.
pub open spec fn palette_index(addr: u16) -> int {
    let idx = (addr % 0x20) as int;
    if idx % 4 == 0 {
        idx % 0x10
    } else {
        idx
    }
}

/// Palette RAM after a write: the addressed entry changes, and a write to a
/// transparent background entry also lands in its sprite-side mirror.
pub open spec fn palette_after_write(p: Seq<u8>, addr: u16, value: u8) -> Seq<u8> {
    let i = palette_index(addr);
    if addr % 0x20 % 4 == 0 {
        p.update(i, value).update(i + 0x10, value)
    } else {
        p.update(i, value)
    }
}

/// Law: the four transparent palette entries are write-mirrors.  Writing a
/// transparent entry (one whose offset is a multiple of four) lands the byte
/// in both aliases, so reading the entry back through either address — for
/// example writing 0x3F10 and reading 0x3F00 — returns the written byte.
pub proof fn lemma_palette_write_mirror(p: Seq<u8>, addr: u16, value: u8)
    requires
        p.len() == 32,
        addr % 0x20 % 4 == 0,
    ensures
        palette_after_write(p, addr, value)[palette_index(addr)] == value,
        palette_after_write(p, addr, value)[palette_index(addr) + 0x10] == value,
        palette_index(addr) < 0x10,
        palette_index((addr % 0x20) as u16) == palette_index(((addr % 0x20) + 0x10) as u16),
{
}

/// The VRAM address after a PPUDATA access: it grows by 1 or by 32 according
/// to PPUCTRL bit 2, wrapping inside the 15-bit register.
pub open spec fn vram_addr_after_access(v: u16, ctrl: u8) -> u16 {
    let inc: int = if ctrl & 0x04 != 0 {
        32
    } else {
        1
    };
    (((v + inc) % 0x8000) as u16)
}

/// The cycle-accurate PPU state.
pub struct Ppu {
    // The eight memory-mapped registers.
    pub ctrl: u8,
    pub mask: u8,
    pub status: u8,
    pub oam_addr: u8,
    pub oam_data: u8,
    pub scroll: u8,
    pub addr: u8,
    pub data: u8,
    // Memories.
    pub vram: [u8; 0x800],
    pub palette: [u8; 0x20],
    pub mirroring: Mirroring,
    pub oam: [u8; 0x100],
    pub secondary_oam: [u8; 0x20],
    pub vram_read_buffer: u8,
    // Frame position.
    pub scanline: i32,
    pub cycle: u32,
    pub frame: u64,
    pub nmi_occurred: bool,
    pub nmi_output: bool,
    // Internal scroll state.
    pub vram_addr_temp: u16,
    pub vram_addr: u16,
    pub fine_x: u8,
    pub write_toggle: bool,
    // Background fetch pipeline.
    pub next_tile_id: u8,
    pub next_tile_attr: u8,
    pub next_tile_low: u8,
    pub next_tile_high: u8,
    pub tile_id: u8,
    pub tile_attr: u8,
    pub tile_low: u8,
    pub tile_high: u8,
    pub shift_pattern_low: u16,
    pub shift_pattern_high: u16,
    pub shift_attr_low: u16,
    pub shift_attr_high: u16,
    // Sprite latches for the current scanline.
    pub sprite_count: u8,
    pub sprite_indices: [u8; 8],
    pub sprite_positions: [u8; 8],
    pub sprite_patterns_low: [u8; 8],
    pub sprite_patterns_high: [u8; 8],
    pub sprite_attributes: [u8; 8],
    // One byte per pixel, a 6-bit palette index each.
    pub framebuffer: [u8; 61440],
}

impl Ppu {
    /// Validity of a PPU state: the frame position lies on the dot grid and
    /// at most eight sprites are latched.
    pub open spec fn wf(self) -> bool {
        &&& -1 <= self.scanline <= 260
        &&& self.cycle <= 340
        &&& self.sprite_count <= 8
    }

    /// The value this state would read from PPU address space, before any
    /// side effect: pattern tables come banked through the cartridge,
    /// nametables from VRAM through the mirroring, and the palette from
    /// palette RAM.
    pub open spec fn spec_read_vram(self, cart: Cartridge, chr_ram: Seq<u8>, addr: u16) -> u8 {
        let a = addr % 0x4000;
        if a < 0x2000 {
            cart.mapper.spec_ppu_read(cart.chr_rom@, chr_ram, a)
        } else if a < 0x3F00 {
            self.vram@[nt_index(self.mirroring, a)]
        } else {
            self.palette@[palette_index(a)]
        }
    }

    pub fn new() -> (r: Self)
        ensures
            r.wf(),
            r.scanline == -1,
            r.cycle == 0,
            r.frame == 0,
            r.status == 0,
            r.ctrl == 0,
            r.mask == 0,
            !r.write_toggle,
            r.vram_addr == 0,
            r.vram_addr_temp == 0,
            r.fine_x == 0,
            !r.nmi_output,
            r.oam@ == Seq::new(256nat, |i: int| 0u8),
            r.vram_read_buffer == 0xFF,
            r.mirroring == Mirroring::Horizontal,
            r.framebuffer@ == Seq::new(61440nat, |i: int| 0u8),
            r.palette@ == Seq::new(32nat, |i: int| 0xFFu8),
            r.vram@ == Seq::new(0x800nat, |i: int| 0xFFu8),
    {
        Ppu {
            ctrl: 0,
            mask: 0,
            status: 0,
            oam_addr: 0,
            oam_data: 0,
            scroll: 0,
            addr: 0,
            data: 0,
            // Power-on memory reads as set bits, which some titles rely on.
            vram: [0xFF; 0x800],
            palette: [0xFF; 0x20],
            mirroring: Mirroring::Horizontal,
            oam: [0; 0x100],
            secondary_oam: [0; 0x20],
            vram_read_buffer: 0xFF,
            scanline: -1,
            cycle: 0,
            frame: 0,
            nmi_occurred: false,
            nmi_output: false,
            vram_addr_temp: 0,
            vram_addr: 0,
            fine_x: 0,
            write_toggle: false,
            next_tile_id: 0,
            next_tile_attr: 0,
            next_tile_low: 0,
            next_tile_high: 0,
            tile_id: 0,
            tile_attr: 0,
            tile_low: 0,
            tile_high: 0,
            shift_pattern_low: 0,
            shift_pattern_high: 0,
            shift_attr_low: 0,
            shift_attr_high: 0,
            sprite_count: 0,
            sprite_indices: [0; 8],
            sprite_positions: [0; 8],
            sprite_patterns_low: [0; 8],
            sprite_patterns_high: [0; 8],
            sprite_attributes: [0; 8],
            framebuffer: [0; 61440],
        }
    }

    /// Adopts a mirroring change announced by the mapper; it takes effect on
    /// the next nametable access.
    pub fn set_mirroring(&mut self, mirroring: Mirroring)
        ensures
            *final(self) == (Ppu { mirroring, ..*old(self) }),
    {
        self.mirroring = mirroring;
    }

    /// A read of PPU address space without side effects.
    pub fn read_vram(&self, addr: u16, cart: &Cartridge, chr_ram: &Vec<u8>) -> (r: u8)
        requires
            cart.wf(),
        ensures
            r == self.spec_read_vram(*cart, chr_ram@, addr),
    {
        let a = addr % 0x4000;
        if a < 0x2000 {
            cart.ppu_read(a, chr_ram)
        } else if a < 0x3F00 {
            self.vram[self.nt_slot(a)]
        } else {
            self.palette[self.palette_slot(a)]
        }
    }

    /// The VRAM slot of a nametable access, as executable code.
    fn nt_slot(&self, addr: u16) -> (r: usize)
        requires
            0x2000 <= addr % 0x4000,
            addr < 0x4000,
        ensures
            r == nt_index(self.mirroring, addr),
            r < 0x800,
    {
        let nt = if addr >= 0x3000 {
            addr - 0x1000
        } else {
            addr
        };
        let base = (nt % 0x400) as usize;
        match self.mirroring {
            Mirroring::Horizontal => if nt >= 0x2800 {
                base + 0x400
            } else {
                base
            },
            Mirroring::FourScreen => if nt >= 0x2800 {
                base + 0x400
            } else {
                base
            },
            Mirroring::Vertical => if nt % 0x800 >= 0x400 {
                base + 0x400
            } else {
                base
            },
            Mirroring::OneScreenLower => base,
            Mirroring::OneScreenUpper => base + 0x400,
        }
    }

    /// The palette RAM slot of a palette access, as executable code.
    fn palette_slot(&self, addr: u16) -> (r: usize)
        ensures
            r == palette_index(addr),
            r < 0x20,
    {
        let idx = (addr % 0x20) as usize;
        if idx % 4 == 0 {
            idx % 0x10
        } else {
            idx
        }
    }

    /// A write into PPU address space.  Nametable and palette writes land in
    /// the PPU's own memories; a pattern-table write is handed back to the
    /// caller, which owns the CHR RAM.
    pub fn write_vram(&mut self, addr: u16, value: u8) -> (r: Option<(u16, u8)>)
        ensures
            final(self).vram_addr == old(self).vram_addr,
            final(self).status == old(self).status,
            final(self).write_toggle == old(self).write_toggle,
            final(self).vram_read_buffer == old(self).vram_read_buffer,
            addr % 0x4000 < 0x2000 ==> *final(self) == *old(self) && r == Some((addr % 0x4000, value)),
            0x2000 <= addr % 0x4000 < 0x3F00 ==> (*final(self) == (Ppu {
                vram: final(self).vram,
                ..*old(self)
            }) && final(self).vram@ == old(self).vram@.update(
                nt_index(old(self).mirroring, addr % 0x4000),
                value,
            ) && r is None),
            addr % 0x4000 >= 0x3F00 ==> (*final(self) == (Ppu {
                palette: final(self).palette,
                ..*old(self)
            }) && final(self).palette@ == palette_after_write(
                old(self).palette@,
                addr % 0x4000,
                value,
            ) && r is None),
    {
        let a = addr % 0x4000;
        if a < 0x2000 {
            Some((a, value))
        } else if a < 0x3F00 {
            let slot = self.nt_slot(a);
            self.vram[slot] = value;
            None
        } else {
            let slot = self.palette_slot(a);
            self.palette[slot] = value;
            if slot % 4 == 0 {
                self.palette[slot + 0x10] = value;
            }
            None
        }
    }

    /// Advances the VRAM address after a PPUDATA access.
    fn increment_vram_addr(&mut self)
        ensures
            *final(self) == (Ppu {
                vram_addr: vram_addr_after_access(old(self).vram_addr, old(self).ctrl),
                ..*old(self)
            }),
    {
        let increment: u32 = if (self.ctrl & 0x04) != 0 {
            32
        } else {
            1
        };
        self.vram_addr = (((self.vram_addr as u32 + increment) % 0x8000) as u16);
    }

    /// A CPU read of a PPU register.  Reading PPUSTATUS clears the VBlank
    /// bit and the write toggle; reading PPUDATA returns the buffered byte
    /// for non-palette addresses and the palette immediately, refills the
    /// buffer, and bumps the VRAM address.
    pub fn read_register(&mut self, addr: u16, cart: &Cartridge, chr_ram: &Vec<u8>) -> (r: u8)
        requires
            cart.wf(),
        ensures
            final(self).wf() == old(self).wf(),
            addr % 8 == 2 ==> (*final(self) == (Ppu {
                status: (old(self).status & 0x7F) as u8,
                write_toggle: false,
                ..*old(self)
            }) && r == old(self).status),
            addr % 8 == 4 ==> *final(self) == *old(self) && r == old(self).oam_data,
            addr % 8 == 7 && old(self).vram_addr % 0x4000 >= 0x3F00 ==> (*final(self) == (Ppu {
                vram_read_buffer: old(self).spec_read_vram(
                    *cart,
                    chr_ram@,
                    (old(self).vram_addr % 0x4000 - 0x1000) as u16,
                ),
                vram_addr: vram_addr_after_access(old(self).vram_addr, old(self).ctrl),
                ..*old(self)
            }) && r == old(self).palette@[palette_index(old(self).vram_addr % 0x4000)]),
            addr % 8 == 7 && old(self).vram_addr % 0x4000 < 0x3F00 ==> (*final(self) == (Ppu {
                vram_read_buffer: old(self).spec_read_vram(
                    *cart,
                    chr_ram@,
                    old(self).vram_addr % 0x4000,
                ),
                vram_addr: vram_addr_after_access(old(self).vram_addr, old(self).ctrl),
                ..*old(self)
            }) && r == old(self).vram_read_buffer),
            !(addr % 8 == 2 || addr % 8 == 4 || addr % 8 == 7) ==> *final(self) == *old(self) && r
                == 0,
    {
        let reg = addr % 8;
        if reg == 2 {
            let value = self.status;
            self.status = self.status & 0x7F;
            self.write_toggle = false;
            value
        } else if reg == 4 {
            self.oam_data
        } else if reg == 7 {
            let a = self.vram_addr % 0x4000;
            let result: u8;
            if a >= 0x3F00 {
                let palette_value = self.palette[self.palette_slot(a)];
                self.vram_read_buffer = self.read_vram(a - 0x1000, cart, chr_ram);
                result = palette_value;
            } else {
                result = self.vram_read_buffer;
                self.vram_read_buffer = self.read_vram(a, cart, chr_ram);
            }
            self.increment_vram_addr();
            result
        } else {
            0
        }
    }

    /// A CPU write to a PPU register, with the exact side effects on the
    /// internal scroll state: PPUCTRL feeds the nametable bits of t,
    /// PPUSCROLL and PPUADDR share the two-phase write toggle, and PPUDATA
    /// writes through the current VRAM address and then bumps it.  A
    /// pattern-table write comes back to the caller, which owns the CHR RAM.
    pub fn write_register(&mut self, addr: u16, value: u8) -> (r: Option<(u16, u8)>)
        ensures
            final(self).wf() == old(self).wf(),
            addr % 8 == 0 ==> *final(self) == (Ppu {
                ctrl: value,
                vram_addr_temp: (old(self).vram_addr_temp & 0xF3FF) | (((value & 0x03) as u16)
                    << 10),
                ..*old(self)
            }) && r is None,
            addr % 8 == 1 ==> *final(self) == (Ppu { mask: value, ..*old(self) }) && r is None,
            addr % 8 == 3 ==> *final(self) == (Ppu { oam_addr: value, ..*old(self) }) && r is None,
            addr % 8 == 4 ==> (*final(self) == (Ppu {
                oam: final(self).oam,
                oam_addr: vstd::wrapping::u8_specs::wrapping_add(old(self).oam_addr, 1),
                ..*old(self)
            }) && final(self).oam@ == old(self).oam@.update(old(self).oam_addr as int, value) && (
            r is None)),
            addr % 8 == 5 && !old(self).write_toggle ==> *final(self) == (Ppu {
                fine_x: (value & 0x07) as u8,
                vram_addr_temp: (old(self).vram_addr_temp & 0xFFE0) | ((value >> 3) as u16),
                write_toggle: true,
                ..*old(self)
            }) && r is None,
            addr % 8 == 5 && old(self).write_toggle ==> *final(self) == (Ppu {
                vram_addr_temp: (old(self).vram_addr_temp & 0x8C1F) | (((value & 0x07) as u16)
                    << 12) | (((value >> 3) as u16) << 5),
                write_toggle: false,
                ..*old(self)
            }) && r is None,
            addr % 8 == 6 && !old(self).write_toggle ==> *final(self) == (Ppu {
                vram_addr_temp: (old(self).vram_addr_temp & 0x00FF) | (((value & 0x3F) as u16)
                    << 8),
                write_toggle: true,
                ..*old(self)
            }) && r is None,
            addr % 8 == 6 && old(self).write_toggle ==> *final(self) == (Ppu {
                vram_addr_temp: (old(self).vram_addr_temp & 0xFF00) | (value as u16),
                vram_addr: (old(self).vram_addr_temp & 0xFF00) | (value as u16),
                write_toggle: false,
                ..*old(self)
            }) && r is None,
            addr % 8 == 2 ==> *final(self) == *old(self) && r is None,
            addr % 8 == 7 && old(self).vram_addr % 0x4000 < 0x2000 ==> *final(self) == (Ppu {
                vram_addr: vram_addr_after_access(old(self).vram_addr, old(self).ctrl),
                ..*old(self)
            }) && r == Some((old(self).vram_addr % 0x4000, value)),
            addr % 8 == 7 && 0x2000 <= old(self).vram_addr % 0x4000 < 0x3F00 ==> (*final(self)
                == (Ppu {
                vram_addr: vram_addr_after_access(old(self).vram_addr, old(self).ctrl),
                vram: final(self).vram,
                ..*old(self)
            }) && final(self).vram@ == old(self).vram@.update(
                nt_index(old(self).mirroring, old(self).vram_addr % 0x4000),
                value,
            ) && r is None),
            addr % 8 == 7 && old(self).vram_addr % 0x4000 >= 0x3F00 ==> (*final(self) == (Ppu {
                vram_addr: vram_addr_after_access(old(self).vram_addr, old(self).ctrl),
                palette: final(self).palette,
                ..*old(self)
            }) && final(self).palette@ == palette_after_write(
                old(self).palette@,
                old(self).vram_addr % 0x4000,
                value,
            ) && r is None),
    {
        let reg = addr % 8;
        if reg == 0 {
            self.ctrl = value;
            self.vram_addr_temp = (self.vram_addr_temp & 0xF3FF) | (((value & 0x03) as u16) << 10);
            None
        } else if reg == 1 {
            self.mask = value;
            None
        } else if reg == 3 {
            self.oam_addr = value;
            None
        } else if reg == 4 {
            let slot = self.oam_addr as usize;
            self.oam[slot] = value;
            self.oam_addr = self.oam_addr.wrapping_add(1);
            None
        } else if reg == 5 {
            if !self.write_toggle {
                self.fine_x = value & 0x07;
                self.vram_addr_temp = (self.vram_addr_temp & 0xFFE0) | ((value >> 3) as u16);
            } else {
                self.vram_addr_temp = (self.vram_addr_temp & 0x8C1F) | (((value & 0x07) as u16)
                    << 12) | (((value >> 3) as u16) << 5);
            }
            self.write_toggle = !self.write_toggle;
            None
        } else if reg == 6 {
            if !self.write_toggle {
                self.vram_addr_temp = (self.vram_addr_temp & 0x00FF) | (((value & 0x3F) as u16)
                    << 8);
            } else {
                self.vram_addr_temp = (self.vram_addr_temp & 0xFF00) | (value as u16);
                self.vram_addr = self.vram_addr_temp;
            }
            self.write_toggle = !self.write_toggle;
            None
        } else if reg == 7 {
            let a = self.vram_addr % 0x4000;
            let chr_write = self.write_vram(a, value);
            self.increment_vram_addr();
            chr_write
        } else {
            None
        }
    }
}

// ---------------------------------------------------------------------------
// Scroll arithmetic
// ---------------------------------------------------------------------------

/// Coarse X stepping: the low five bits count up, and on wrap the horizontal
/// nametable bit flips.
pub open spec fn coarse_x_incremented(v: u16) -> u16 {
    if v & 0x001F == 0x001F {
        (v & 0xFFE0) ^ 0x0400
    } else {
        (v + 1) as u16
    }
}

/// Fine/coarse Y stepping: fine Y counts up within a tile row; on wrap,
/// coarse Y advances, flipping the vertical nametable bit when it leaves
/// the visible 30 rows.
pub open spec fn y_incremented(v: u16) -> u16 {
    if v & 0x7000 != 0x7000 {
        (v + 0x1000) as u16
    } else {
        let base = v & 0x8FFF;
        let y = (base / 32) % 32;
        if y == 29 {
            (base & 0xFC1F) ^ 0x0800
        } else if y == 31 {
            base & 0xFC1F
        } else {
            (base & 0xFC1F) | (((y + 1) as u16) << 5)
        }
    }
}

/// The horizontal scroll bits copied from t into v at the end of a line.
pub open spec fn x_copied(v: u16, t: u16) -> u16 {
    (v & 0xFBE0) | (t & 0x041F)
}

/// The vertical scroll bits copied from t into v during pre-render.
pub open spec fn y_copied(v: u16, t: u16) -> u16 {
    (v & 0x841F) | (t & 0x7BE0)
}

/// The scroll address after the last visible dot of a rendered line: the
/// per-pixel coarse-X step, when dot 256 lands on the last sub-pixel of a
/// tile, followed by the fine-Y step.
pub open spec fn dot256_vram_addr(v: u16, mask: u8, fine_x: u8) -> u16 {
    if mask & 0x08 != 0 && (fine_x + 255) % 8 == 7 {
        y_incremented(coarse_x_incremented(v))
    } else {
        y_incremented(v)
    }
}

/// A value whose low five bits are not all ones is not the all-ones word.
proof fn lemma_coarse_x_room(v: u16)
    by (bit_vector)
    ensures
        v & 0x001F != 0x001F ==> v != 0xFFFF,
{
}

/// A value whose fine-Y bits are not all ones has room to take another
/// 0x1000 step.
proof fn lemma_fine_y_room(v: u16)
    by (bit_vector)
    ensures
        v & 0x7000 != 0x7000 ==> v <= 0xEFFF,
{
}

/// With both layer bits of PPUMASK clear, the background bit alone is also
/// clear.
proof fn lemma_mask_bg_bit(m: u8)
    by (bit_vector)
    ensures
        m & 0x18 == 0 ==> m & 0x08 == 0,
{
}

impl Ppu {
    /// Advances coarse X in v.
    fn increment_x(&mut self)
        ensures
            *final(self) == (Ppu {
                vram_addr: coarse_x_incremented(old(self).vram_addr),
                ..*old(self)
            }),
    {
        if (self.vram_addr & 0x001F) == 0x001F {
            self.vram_addr = (self.vram_addr & 0xFFE0) ^ 0x0400;
        } else {
            proof {
                lemma_coarse_x_room(self.vram_addr);
            }
            self.vram_addr = self.vram_addr + 1;
        }
    }

    /// Advances fine and coarse Y in v.
    fn increment_y(&mut self)
        ensures
            *final(self) == (Ppu { vram_addr: y_incremented(old(self).vram_addr), ..*old(self) }),
    {
        if (self.vram_addr & 0x7000) != 0x7000 {
            proof {
                lemma_fine_y_room(self.vram_addr);
            }
            self.vram_addr = self.vram_addr + 0x1000;
        } else {
            self.vram_addr = self.vram_addr & 0x8FFF;
            let y = (self.vram_addr / 32) % 32;
            if y == 29 {
                self.vram_addr = (self.vram_addr & 0xFC1F) ^ 0x0800;
            } else if y == 31 {
                self.vram_addr = self.vram_addr & 0xFC1F;
            } else {
                self.vram_addr = (self.vram_addr & 0xFC1F) | ((y + 1) << 5);
            }
        }
    }

    /// Copies the horizontal scroll bits from t into v.
    fn copy_x(&mut self)
        ensures
            *final(self) == (Ppu {
                vram_addr: x_copied(old(self).vram_addr, old(self).vram_addr_temp),
                ..*old(self)
            }),
    {
        self.vram_addr = (self.vram_addr & 0xFBE0) | (self.vram_addr_temp & 0x041F);
    }

    /// Copies the vertical scroll bits from t into v.
    fn copy_y(&mut self)
        ensures
            *final(self) == (Ppu {
                vram_addr: y_copied(old(self).vram_addr, old(self).vram_addr_temp),
                ..*old(self)
            }),
    {
        self.vram_addr = (self.vram_addr & 0x841F) | (self.vram_addr_temp & 0x7BE0);
    }

    /// Shifts the background pipeline left by one pixel; the attribute
    /// shifters refill from their own low bit.
    fn shift_registers(&mut self)
        ensures
            *final(self) == (Ppu {
                shift_pattern_low: (old(self).shift_pattern_low << 1) as u16,
                shift_pattern_high: (old(self).shift_pattern_high << 1) as u16,
                shift_attr_low: ((old(self).shift_attr_low << 1) | (old(self).shift_attr_low
                    & 0x01)) as u16,
                shift_attr_high: ((old(self).shift_attr_high << 1) | (old(self).shift_attr_high
                    & 0x01)) as u16,
                ..*old(self)
            }),
    {
        self.shift_pattern_low = self.shift_pattern_low << 1;
        self.shift_pattern_high = self.shift_pattern_high << 1;
        self.shift_attr_low = (self.shift_attr_low << 1) | (self.shift_attr_low & 0x01);
        self.shift_attr_high = (self.shift_attr_high << 1) | (self.shift_attr_high & 0x01);
    }
}

// ---------------------------------------------------------------------------
// Rendering
// ---------------------------------------------------------------------------

/// A byte with its bit order reversed, for horizontally flipped sprites.
fn reverse_byte(b: u8) -> u8 {
    (b % 2) * 128 + ((b / 2) % 2) * 64 + ((b / 4) % 2) * 32 + ((b / 8) % 2) * 16 + ((b / 16) % 2)
        * 8 + ((b / 32) % 2) * 4 + ((b / 64) % 2) * 2 + (b / 128)
}

impl Ppu {
    /// The nametable fetch pipeline: four reads on the odd phases of each
    /// eight-dot group, the last of which reloads the shift registers.
    /// Only the fetch latches and shift registers move.
    fn fetch_tile_data(&mut self, cart: &Cartridge, chr_ram: &Vec<u8>)
        requires
            old(self).wf(),
            cart.wf(),
            old(self).cycle >= 1,
        ensures
            *final(self) == (Ppu {
                next_tile_id: final(self).next_tile_id,
                next_tile_attr: final(self).next_tile_attr,
                next_tile_low: final(self).next_tile_low,
                next_tile_high: final(self).next_tile_high,
                tile_id: final(self).tile_id,
                tile_attr: final(self).tile_attr,
                tile_low: final(self).tile_low,
                tile_high: final(self).tile_high,
                shift_pattern_low: final(self).shift_pattern_low,
                shift_pattern_high: final(self).shift_pattern_high,
                shift_attr_low: final(self).shift_attr_low,
                shift_attr_high: final(self).shift_attr_high,
                ..*old(self)
            }),
    {
        let phase = (self.cycle - 1) % 8;
        if phase == 1 {
            // Nametable byte: the tile id under v.
            let addr = 0x2000 + (self.vram_addr % 0x1000);
            self.next_tile_id = self.read_vram(addr, cart, chr_ram);
        } else if phase == 3 {
            // Attribute byte: one quadrant of the 32x32 attribute cell.
            let nt_sel = (self.vram_addr / 0x400) % 4;
            let attr_addr = 0x23C0 + nt_sel * 0x400 + ((self.vram_addr / 0x80) % 8) * 8 + ((
            self.vram_addr / 4) % 8);
            let attr = self.read_vram(attr_addr, cart, chr_ram);
            let shift = ((self.vram_addr / 16) % 8 / 4) * 4 + (self.vram_addr % 4 / 2) * 2;
            self.next_tile_attr = ((attr as u32 >> shift as u32) % 4) as u8;
        } else if phase == 5 {
            // Pattern low plane.
            let bg_pt_base: u16 = if (self.ctrl & 0x10) != 0 {
                0x1000
            } else {
                0x0000
            };
            let fine_y = (self.vram_addr / 0x1000) % 8;
            let addr = bg_pt_base + (self.next_tile_id as u16) * 16 + fine_y;
            self.next_tile_low = cart.ppu_read(addr, chr_ram);
        } else if phase == 7 {
            // Pattern high plane, then reload the shift registers.
            let bg_pt_base: u16 = if (self.ctrl & 0x10) != 0 {
                0x1000
            } else {
                0x0000
            };
            let fine_y = (self.vram_addr / 0x1000) % 8;
            let addr = bg_pt_base + (self.next_tile_id as u16) * 16 + fine_y + 8;
            self.next_tile_high = cart.ppu_read(addr, chr_ram);
            self.tile_id = self.next_tile_id;
            self.tile_attr = self.next_tile_attr;
            self.tile_low = self.next_tile_low;
            self.tile_high = self.next_tile_high;
            self.shift_pattern_low = (self.shift_pattern_low & 0x00FF) | ((self.tile_low as u16)
                << 8);
            self.shift_pattern_high = (self.shift_pattern_high & 0x00FF) | ((self.tile_high as u16)
                << 8);
            let attr_low: u16 = if (self.tile_attr & 0x01) != 0 {
                0xFF
            } else {
                0x00
            };
            let attr_high: u16 = if (self.tile_attr & 0x02) != 0 {
                0xFF
            } else {
                0x00
            };
            self.shift_attr_low = (self.shift_attr_low & 0x00FF) | (attr_low << 8);
            self.shift_attr_high = (self.shift_attr_high & 0x00FF) | (attr_high << 8);
        }
    }

    /// Latches one sprite's pattern bytes, position and attributes from
    /// secondary OAM for the coming scanline.
    fn fetch_sprite_data(&mut self, cart: &Cartridge, chr_ram: &Vec<u8>, sprite_idx: usize, phase: u32)
        requires
            old(self).wf(),
            cart.wf(),
            sprite_idx < 8,
        ensures
            *final(self) == (Ppu {
                sprite_positions: final(self).sprite_positions,
                sprite_patterns_low: final(self).sprite_patterns_low,
                sprite_patterns_high: final(self).sprite_patterns_high,
                sprite_attributes: final(self).sprite_attributes,
                ..*old(self)
            }),
    {
        if sprite_idx >= self.sprite_count as usize {
            return ;
        }
        let sprite_y_oam = self.secondary_oam[sprite_idx * 4] as i32;
        let sprite_tile = self.secondary_oam[sprite_idx * 4 + 1];
        let sprite_attr = self.secondary_oam[sprite_idx * 4 + 2];
        let flip_vertical = (sprite_attr & 0x80) != 0;
        let sprite_y: u32 = if self.scanline >= sprite_y_oam {
            (self.scanline - sprite_y_oam) as u32
        } else {
            0
        };
        let sprite_row: u16 = if flip_vertical {
            (7 - (sprite_y % 8)) as u16
        } else {
            (sprite_y % 8) as u16
        };
        if phase == 0 || phase == 4 {
            let plane: u16 = if phase == 0 {
                0
            } else {
                8
            };
            let addr: u16 = if (self.ctrl & 0x20) != 0 {
                // 8x16 sprites: the tile's own low bit picks the pattern table.
                ((sprite_tile as u16) / 2) * 32 + ((sprite_tile as u16) % 2) * 0x1000 + sprite_row
                    + plane
            } else {
                let sprite_pt_base: u16 = if (self.ctrl & 0x08) != 0 {
                    0x1000
                } else {
                    0x0000
                };
                sprite_pt_base + (sprite_tile as u16) * 16 + sprite_row + plane
            };
            let mut pattern = cart.ppu_read(addr % 0x2000, chr_ram);
            if (sprite_attr & 0x40) != 0 {
                pattern = reverse_byte(pattern);
            }
            if phase == 0 {
                self.sprite_patterns_low[sprite_idx] = pattern;
            } else {
                self.sprite_patterns_high[sprite_idx] = pattern;
                self.sprite_positions[sprite_idx] = self.secondary_oam[sprite_idx * 4 + 3];
                self.sprite_attributes[sprite_idx] = sprite_attr;
            }
        }
    }

    /// Scans primary OAM once per scanline (at dot 65): up to eight sprites
    /// covering the line are copied to secondary OAM, and a ninth match sets
    /// the overflow flag.
    fn evaluate_sprites_cycle(&mut self)
        requires
            old(self).wf(),
            0 <= old(self).scanline < 240,
        ensures
            *final(self) == (Ppu {
                secondary_oam: final(self).secondary_oam,
                sprite_count: final(self).sprite_count,
                sprite_indices: final(self).sprite_indices,
                status: final(self).status,
                ..*old(self)
            }),
            final(self).sprite_count <= 8,
            final(self).status == old(self).status || final(self).status == (old(self).status
                | 0x20),
    {
        if self.cycle != 65 {
            return ;
        }
        self.sprite_count = 0;
        let scanline = self.scanline as u32;
        let sprite_height: u32 = if (self.ctrl & 0x20) != 0 {
            16
        } else {
            8
        };
        let mut overflowed = false;
        let mut i: usize = 0;
        while i < 64
            invariant
                i <= 64,
                self.sprite_count <= 8,
                sprite_height == 8 || sprite_height == 16,
                *self == (Ppu {
                    secondary_oam: self.secondary_oam,
                    sprite_count: self.sprite_count,
                    sprite_indices: self.sprite_indices,
                    ..*old(self)
                }),
            decreases 64 - i,
        {
            let y = self.oam[i * 4] as u32;
            if y < 240 && scanline >= y && scanline < y + sprite_height {
                if self.sprite_count < 8 {
                    let idx = (self.sprite_count as usize) * 4;
                    self.secondary_oam[idx] = self.oam[i * 4];
                    self.secondary_oam[idx + 1] = self.oam[i * 4 + 1];
                    self.secondary_oam[idx + 2] = self.oam[i * 4 + 2];
                    self.secondary_oam[idx + 3] = self.oam[i * 4 + 3];
                    self.sprite_indices[self.sprite_count as usize] = i as u8;
                    self.sprite_count = self.sprite_count + 1;
                } else {
                    // A ninth sprite on the line only raises the overflow flag.
                    overflowed = true;
                }
            }
            i = i + 1;
        }
        if overflowed {
            self.status = self.status | 0x20;
        }
    }

    /// Composites one visible pixel: the background sub-pixel is fetched
    /// under v, the first opaque sprite covering the dot competes with it
    /// under the priority bit, and an opaque overlap with sprite zero sets
    /// the sprite-0-hit flag.  Returns a 6-bit palette index.
    #[verifier::rlimit(100)]
    #[verifier::spinoff_prover]
    fn render_pixel(&mut self, cart: &Cartridge, chr_ram: &Vec<u8>) -> (r: u8)
        requires
            old(self).wf(),
            cart.wf(),
            0 <= old(self).scanline < 240,
            1 <= old(self).cycle <= 256,
        ensures
            *final(self) == (Ppu { status: final(self).status, ..*old(self) }),
            final(self).status == old(self).status || final(self).status == (old(self).status
                | 0x40),
            (old(self).mask & 0x18) != 0x18 ==> final(self).status == old(self).status,
            r <= 0x3F,
    {
        let cycle_x = self.cycle - 1;
        let mut bg_pixel: Option<u8> = Option::None;
        if (self.mask & 0x08) != 0 {
            let fine_x = ((self.fine_x as u32 + cycle_x) % 8) as u16;
            let left_masked = cycle_x < 8 && (self.mask & 0x02) == 0;
            if !left_masked {
                let tile_addr = 0x2000 + (self.vram_addr % 0x1000);
                let tile_id = self.read_vram(tile_addr, cart, chr_ram);
                let nt_sel = (self.vram_addr / 0x400) % 4;
                let attr_addr = 0x23C0 + nt_sel * 0x400 + ((self.vram_addr / 0x80) % 8) * 8 + ((
                self.vram_addr / 4) % 8);
                let bg_pt_base: u16 = if (self.ctrl & 0x10) != 0 {
                    0x1000
                } else {
                    0x0000
                };
                let fine_y = (self.vram_addr / 0x1000) % 8;
                let pattern_addr = bg_pt_base + (tile_id as u16) * 16 + fine_y;
                let pattern_low = cart.ppu_read(pattern_addr, chr_ram);
                let pattern_high = cart.ppu_read(pattern_addr + 8, chr_ram);
                let bit_pos = (7 - fine_x) as u32;
                let palette_addr = ((pattern_low as u32 >> bit_pos) % 2 + ((pattern_high as u32
                    >> bit_pos) % 2) * 2) as u8;
                if palette_addr != 0 {
                    let attr = self.read_vram(attr_addr, cart, chr_ram);
                    let shift = ((self.vram_addr / 16) % 8 / 4) * 4 + (self.vram_addr % 4 / 2) * 2;
                    let attr_bits = ((attr as u32 >> shift as u32) % 4) as u8;
                    bg_pixel = Option::Some(attr_bits * 4 + palette_addr);
                }
            }
        }
        let mut sprite_result: Option<u8> = Option::None;
        let mut sprite0_hit = false;
        if (self.mask & 0x10) != 0 {
            let mut i: usize = 0;
            while i < self.sprite_count as usize && sprite_result.is_none()
                invariant
                    self.sprite_count <= 8,
                    *self == *old(self),
                    cycle_x <= 255,
                    (sprite_result matches Option::Some(p) ==> p <= 0x3F),
                    (old(self).mask & 0x18) != 0x18 ==> !sprite0_hit,
                decreases self.sprite_count as int - i as int,
            {
                let sprite_x = self.sprite_positions[i] as u32;
                if cycle_x >= sprite_x && cycle_x < sprite_x + 8 {
                    let shift = (7 - (cycle_x - sprite_x)) as u32;
                    let pattern_bit = ((self.sprite_patterns_high[i] as u32 >> shift) % 2) * 2 + ((
                    self.sprite_patterns_low[i] as u32 >> shift) % 2);
                    if pattern_bit != 0 {
                        let attr = self.sprite_attributes[i];
                        let priority = (attr & 0x20) == 0;
                        let palette_idx = ((attr as u32 % 4) * 4 + pattern_bit) as u8;
                        if i == 0 && bg_pixel.is_some() && cycle_x < 256 {
                            let left_masked = cycle_x < 8 && (self.mask & 0x06) != 0x06;
                            if !left_masked && (self.mask & 0x18) == 0x18 {
                                sprite0_hit = true;
                            }
                        }
                        if bg_pixel.is_none() || priority {
                            let palette_addr = 0x10 + palette_idx as usize;
                            sprite_result = Option::Some(self.palette[palette_addr % 0x20] % 0x40);
                        }
                    }
                }
                i = i + 1;
            }
        }
        if sprite0_hit {
            self.status = self.status | 0x40;
        }
        match sprite_result {
            Option::Some(p) => p,
            Option::None => {
                match bg_pixel {
                    Option::Some(bg) => self.palette[bg as usize % 0x20] % 0x40,
                    Option::None => self.palette[0] % 0x40,
                }
            },
        }
    }
}

/// Rendering is on when either the background or the sprites are enabled.
pub open spec fn rendering_on(mask: u8) -> bool {
    mask & 0x18 != 0
}

/// The dot index of a frame position: 0 at the first dot of the pre-render
/// line, 89341 at the last dot of line 260.
pub open spec fn dot_of(scanline: i32, cycle: u32) -> int {
    (scanline + 1) * 341 + cycle
}

/// The odd-frame skip fires at the next-to-last dot of the pre-render line,
/// when rendering is on and the frame number is odd.
pub open spec fn skips_dot(s: Ppu) -> bool {
    s.scanline == -1 && s.cycle == 339 && rendering_on(s.mask) && s.frame % 2 == 1
}

impl Ppu {
    /// Advances the PPU by exactly one dot.  Returns true on the rising edge
    /// of the NMI output.
    ///
    /// The contract pins down the frame geometry: the dot index moves
    /// forward by one, wrapping after 89342 dots, except that on odd frames
    /// with rendering enabled the last pre-render dot is skipped and the
    /// index moves by two.  It also pins the flag work at the two corners of
    /// the frame: entering VBlank at (241, 1) sets bit 7 of PPUSTATUS, and
    /// the pre-render dot (-1, 1) clears the VBlank, sprite-0 and overflow
    /// bits.  Registers, memories and scroll state that a dot does not touch
    /// stay put, and the framebuffer can change only on a visible dot.
    #[verifier::rlimit(100)]
    #[verifier::spinoff_prover]
    pub fn step(&mut self, cart: &Cartridge, chr_ram: &Vec<u8>) -> (r: bool)
        requires
            old(self).wf(),
            cart.wf(),
        ensures
            final(self).wf(),
            skips_dot(*old(self)) ==> dot_of(final(self).scanline, final(self).cycle) == (dot_of(
                old(self).scanline,
                old(self).cycle,
            ) + 2) % 89342,
            !skips_dot(*old(self)) ==> dot_of(final(self).scanline, final(self).cycle) == (dot_of(
                old(self).scanline,
                old(self).cycle,
            ) + 1) % 89342,
            old(self).scanline == 260 && old(self).cycle == 340 ==> final(self).frame
                == vstd::wrapping::u64_specs::wrapping_add(old(self).frame, 1),
            !(old(self).scanline == 260 && old(self).cycle == 340)
                ==> final(self).frame == old(self).frame,
            old(self).scanline == 241 && old(self).cycle == 1
                ==> final(self).status == (old(self).status | 0x80),
            old(self).scanline == -1 && old(self).cycle == 1
                ==> final(self).status == (old(self).status & 0x1F),
            r == (final(self).nmi_output && !old(self).nmi_output),
            old(self).scanline == 241 && old(self).cycle == 1 ==> (r == ((old(self).ctrl & 0x80)
                != 0 && !old(self).nmi_output)),
            final(self).ctrl == old(self).ctrl,
            final(self).mask == old(self).mask,
            final(self).oam_addr == old(self).oam_addr,
            final(self).vram_addr_temp == old(self).vram_addr_temp,
            final(self).fine_x == old(self).fine_x,
            final(self).write_toggle == old(self).write_toggle,
            final(self).vram_read_buffer == old(self).vram_read_buffer,
            final(self).palette == old(self).palette,
            final(self).oam == old(self).oam,
            final(self).vram == old(self).vram,
            final(self).mirroring == old(self).mirroring,
            !(0 <= old(self).scanline < 240 && 1 <= old(self).cycle <= 256)
                ==> final(self).framebuffer == old(self).framebuffer,
            // A visible dot writes exactly its own pixel; with rendering off
            // that pixel is the backdrop colour.
            (0 <= old(self).scanline < 240 && 1 <= old(self).cycle <= 256) ==> forall|j: int|
                0 <= j < 61440 && j != old(self).scanline * 256 + old(self).cycle - 1
                    ==> final(self).framebuffer@[j] == old(self).framebuffer@[j],
            (0 <= old(self).scanline < 240 && 1 <= old(self).cycle <= 256 && (old(self).mask
                & 0x18) == 0)
                ==> final(self).framebuffer@[old(self).scanline * 256 + old(self).cycle - 1]
                == old(self).palette@[0] % 0x40,
            // The scroll schedule: fine-Y steps at dot 256, the horizontal
            // bits copy at dot 257, and the vertical bits copy during the
            // pre-render window, all only while rendering is on.
            !rendering_on(old(self).mask) ==> final(self).vram_addr == old(self).vram_addr,
            (0 <= old(self).scanline < 240 && old(self).cycle == 256 && rendering_on(
                old(self).mask,
            )) ==> final(self).vram_addr == dot256_vram_addr(
                old(self).vram_addr,
                old(self).mask,
                old(self).fine_x,
            ),
            (old(self).scanline == -1 && old(self).cycle == 256 && rendering_on(old(self).mask))
                ==> final(self).vram_addr == y_incremented(old(self).vram_addr),
            ((old(self).scanline == -1 || 0 <= old(self).scanline < 240) && old(self).cycle == 257
                && rendering_on(old(self).mask)) ==> final(self).vram_addr == x_copied(
                old(self).vram_addr,
                old(self).vram_addr_temp,
            ),
            (old(self).scanline == -1 && 280 <= old(self).cycle <= 304 && rendering_on(
                old(self).mask,
            )) ==> final(self).vram_addr == y_copied(old(self).vram_addr, old(self).vram_addr_temp),
            // Status flag discipline away from the frame corners: a visible
            // dot can only raise sprite overflow and, with both layers on,
            // sprite-0 hit; every other dot leaves the byte alone.
            0 <= old(self).scanline < 240 ==> final(self).status == old(self).status
                || final(self).status == (old(self).status | 0x20)
                || final(self).status == (old(self).status | 0x40)
                || final(self).status == ((old(self).status | 0x20) | 0x40),
            (0 <= old(self).scanline < 240 && (old(self).mask & 0x18) != 0x18)
                ==> final(self).status == old(self).status
                || final(self).status == (old(self).status | 0x20),
            (old(self).scanline >= 240 && !(old(self).scanline == 241 && old(self).cycle == 1))
                ==> final(self).status == old(self).status,
            (old(self).scanline == -1 && old(self).cycle != 1)
                ==> final(self).status == old(self).status,
            !(old(self).scanline == 241 && old(self).cycle == 1) ==> !final(self).nmi_output && !r,
    {
        proof {
            lemma_mask_bg_bit(self.mask);
        }
        let nmi_before = self.nmi_output;
        self.nmi_occurred = false;
        if self.scanline == -1 {
            // Pre-render line: clear the frame flags, run the background
            // pipeline without producing pixels, and copy the scroll bits.
            if self.cycle == 1 {
                self.status = self.status & 0x1F;
                self.nmi_output = false;
            }
            if self.cycle >= 1 && self.cycle <= 256 {
                if (self.mask & 0x08) != 0 {
                    if self.cycle < 256 {
                        self.fetch_tile_data(cart, chr_ram);
                    }
                    self.shift_registers();
                }
                if self.cycle == 256 && (self.mask & 0x18) != 0 {
                    self.increment_y();
                }
            } else if self.cycle == 257 {
                if (self.mask & 0x18) != 0 {
                    self.copy_x();
                }
            } else if self.cycle >= 280 && self.cycle <= 304 {
                if (self.mask & 0x18) != 0 {
                    self.copy_y();
                }
            } else if self.cycle >= 321 && self.cycle <= 336 {
                if (self.mask & 0x08) != 0 {
                    self.fetch_tile_data(cart, chr_ram);
                    self.shift_registers();
                }
            }
        } else if self.scanline < 240 {
            // Visible lines: sprite evaluation, pixel production and the
            // background pipeline for the next line.
            if self.cycle == 1 {
                self.secondary_oam = [0xFF; 0x20];
                self.sprite_count = 0;
            }
            if self.cycle >= 65 && self.cycle <= 256 {
                self.evaluate_sprites_cycle();
            }
            if self.cycle >= 1 && self.cycle <= 256 {
                let x = self.cycle - 1;
                let y = self.scanline as u32;
                let idx = (y * 256 + x) as usize;
                if (self.mask & 0x18) != 0 {
                    let pixel = self.render_pixel(cart, chr_ram);
                    self.framebuffer[idx] = pixel;
                } else {
                    self.framebuffer[idx] = self.palette[0] % 0x40;
                }
                if (self.mask & 0x08) != 0 {
                    let fine_x = (self.fine_x as u32 + x) % 8;
                    if fine_x == 7 {
                        self.increment_x();
                    }
                }
                if self.cycle == 256 && (self.mask & 0x18) != 0 {
                    self.increment_y();
                }
            } else if self.cycle == 257 {
                if (self.mask & 0x18) != 0 {
                    self.copy_x();
                }
            } else if self.cycle >= 259 && self.cycle <= 320 {
                let sprite_cycle = self.cycle - 257;
                let sprite_idx = (sprite_cycle / 8) as usize;
                let sprite_phase = sprite_cycle % 8;
                if sprite_idx < self.sprite_count as usize {
                    if sprite_phase == 0 || sprite_phase == 4 {
                        self.fetch_sprite_data(cart, chr_ram, sprite_idx, sprite_phase);
                    }
                }
            } else if self.cycle >= 321 && self.cycle <= 336 {
                if (self.mask & 0x08) != 0 {
                    self.fetch_tile_data(cart, chr_ram);
                    self.shift_registers();
                }
            }
        } else if self.scanline == 241 && self.cycle == 1 {
            // Entering VBlank.
            self.status = self.status | 0x80;
            if (self.ctrl & 0x80) != 0 {
                self.nmi_occurred = true;
            }
        }
        self.cycle = self.cycle + 1;
        let rendering_enabled = (self.mask & 0x18) != 0;
        let is_odd_frame = self.frame % 2 == 1;
        let skip_cycle = self.scanline == -1 && self.cycle == 340 && rendering_enabled
            && is_odd_frame;
        if skip_cycle {
            self.cycle = 0;
            self.scanline = self.scanline + 1;
        } else if self.cycle > 340 {
            self.cycle = 0;
            self.scanline = self.scanline + 1;
        }
        if self.scanline > 260 {
            self.scanline = -1;
            self.frame = self.frame.wrapping_add(1);
        }
        self.nmi_output = self.nmi_occurred && (self.ctrl & 0x80) != 0;
        self.nmi_output && !nmi_before
    }

    /// Fills a caller-supplied framebuffer with the backdrop colour: the
    /// coarse whole-frame fallback for hosts that do not consume the
    /// per-dot framebuffer.
    pub fn build_framebuffer(&mut self, framebuffer: &mut Vec<u8>)
        ensures
            *final(self) == *old(self),
            final(framebuffer).len() == old(framebuffer).len(),
            forall|i: int|
                0 <= i < final(framebuffer)@.len() ==> final(framebuffer)@[i] == (if i < 61440 {
                    (old(self).palette@[0] % 0x40) as u8
                } else {
                    old(framebuffer)@[i]
                }),
    {
        let backdrop = self.palette[0] % 0x40;
        let mut i: usize = 0;
        while i < framebuffer.len() && i < 61440
            invariant
                i <= framebuffer.len(),
                i <= 61440,
                framebuffer@.len() == old(framebuffer)@.len(),
                forall|j: int| 0 <= j < i ==> framebuffer@[j] == backdrop,
                forall|j: int| i <= j < framebuffer@.len() ==> framebuffer@[j] == old(
                    framebuffer,
                )@[j],
                backdrop == old(self).palette@[0] % 0x40,
                *self == *old(self),
            decreases framebuffer.len() - i,
        {
            framebuffer[i] = backdrop;
            i = i + 1;
        }
        proof {
            assert(i >= framebuffer@.len() || i >= 61440);
        }
    }

    /// Renders one pixel into a caller-supplied framebuffer from the current
    /// shift registers and sprite latches.  Out-of-frame coordinates and
    /// short buffers change nothing.
    pub fn render_pixel_to_buffer(&mut self, framebuffer: &mut Vec<u8>, x: u32, y: u32)
        requires
            old(self).wf(),
        ensures
            final(self).wf(),
            *final(self) == (Ppu { status: final(self).status, ..*old(self) }),
            final(self).status == old(self).status || final(self).status == (old(self).status
                | 0x40),
            final(framebuffer).len() == old(framebuffer).len(),
            x >= 256 || y >= 240 || y * 256 + x >= old(framebuffer).len() ==> final(framebuffer)@
                == old(framebuffer)@,
            forall|j: int|
                0 <= j < final(framebuffer)@.len() && j != y * 256 + x ==> final(framebuffer)@[j]
                    == old(framebuffer)@[j],
    {
        if y >= 240 || x >= 256 {
            return ;
        }
        let idx = (y * 256 + x) as usize;
        if idx >= framebuffer.len() {
            return ;
        }
        if (self.mask & 0x08) == 0 && (self.mask & 0x10) == 0 {
            framebuffer[idx] = self.palette[0] % 0x40;
            return ;
        }
        let mut bg_pixel: Option<u8> = Option::None;
        if (self.mask & 0x08) != 0 && self.scanline >= 0 && self.scanline < 240 {
            let shift_amt = (15 - (self.fine_x as u32 % 8) - (x % 8)) as u32;
            let pattern = ((self.shift_pattern_high as u32 >> shift_amt) % 2) * 2 + ((
            self.shift_pattern_low as u32 >> shift_amt) % 2);
            let attr = ((self.shift_attr_high as u32 >> shift_amt) % 2) * 2 + ((
            self.shift_attr_low as u32 >> shift_amt) % 2);
            if pattern != 0 {
                bg_pixel = Option::Some((attr * 4 + pattern) as u8);
            }
        }
        let mut sprite_result: Option<u8> = Option::None;
        let mut sprite0_hit = false;
        if (self.mask & 0x10) != 0 && self.scanline >= 0 && self.scanline < 240 {
            let mut i: usize = 0;
            while i < self.sprite_count as usize && sprite_result.is_none()
                invariant
                    self.sprite_count <= 8,
                    *self == *old(self),
                    x <= 255,
                    (sprite_result matches Option::Some(p) ==> p <= 0x3F),
                decreases self.sprite_count as int - i as int,
            {
                let sprite_x = self.sprite_positions[i] as u32;
                if x >= sprite_x && x < sprite_x + 8 {
                    let shift = (7 - (x - sprite_x)) as u32;
                    let pattern = ((self.sprite_patterns_high[i] as u32 >> shift) % 2) * 2 + ((
                    self.sprite_patterns_low[i] as u32 >> shift) % 2);
                    if pattern != 0 {
                        let attr = self.sprite_attributes[i];
                        let priority = (attr & 0x20) == 0;
                        let palette_idx = ((attr as u32 % 4) * 4 + pattern) as u8;
                        if i == 0 && bg_pixel.is_some() && x != 255 {
                            sprite0_hit = true;
                        }
                        if bg_pixel.is_none() || priority {
                            sprite_result = Option::Some(
                                self.palette[(0x10 + palette_idx as usize) % 0x20] % 0x40,
                            );
                        }
                    }
                }
                i = i + 1;
            }
        }
        if sprite0_hit {
            self.status = self.status | 0x40;
        }
        match sprite_result {
            Option::Some(p) => {
                framebuffer[idx] = p;
            },
            Option::None => {
                match bg_pixel {
                    Option::Some(bg) => {
                        framebuffer[idx] = self.palette[bg as usize % 0x20] % 0x40;
                    },
                    Option::None => {
                        framebuffer[idx] = self.palette[0] % 0x40;
                    },
                }
            },
        }
    }
}

} // verus!
