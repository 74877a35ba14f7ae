//! The PPU register file as seen from the CPU bus: eight memory-mapped
//! registers with the PPUADDR write latch and the PPUDATA port into video
//! memory and the palettes.  Only the register traffic is modelled here;
//! rendering is a frontend concern.

use vstd::prelude::*;

verus! {

/// Ghost image of [`PPURegisters`].
pub ghost struct PpuSpec {
    pub ppuctrl: u8,
    pub ppumask: u8,
    pub ppustatus: u8,
    pub oamaddr: u8,
    pub ppuscroll: u16,
    pub ppuaddr: u16,
    pub ppudata_buffer: u8,
    pub w: bool,
    pub draw_nametable: u8,
    pub draw_attr_table: u8,
    pub draw_pattern_table_lo: u8,
    pub draw_pattern_table_hi: u8,
    pub nametable_latch: u8,
    pub attr_table_latch: u8,
    pub pattern_table_lo_latch: u8,
    pub pattern_table_hi_latch: u8,
}

pub struct PPURegisters {
    pub ppuctrl: u8,
    pub ppumask: u8,
    pub ppustatus: u8,
    pub oamaddr: u8,
    pub ppuscroll: u16,
    pub ppuaddr: u16,
    pub ppudata_buffer: u8,
    pub w: bool,
    pub draw_nametable: u8,
    pub draw_attr_table: u8,
    pub draw_pattern_table_lo: u8,
    pub draw_pattern_table_hi: u8,
    pub nametable_latch: u8,
    pub attr_table_latch: u8,
    pub pattern_table_lo_latch: u8,
    pub pattern_table_hi_latch: u8,
}

impl View for PPURegisters {
    type V = PpuSpec;

    open spec fn view(&self) -> PpuSpec {
        PpuSpec {
            ppuctrl: self.ppuctrl,
            ppumask: self.ppumask,
            ppustatus: self.ppustatus,
            oamaddr: self.oamaddr,
            ppuscroll: self.ppuscroll,
            ppuaddr: self.ppuaddr,
            ppudata_buffer: self.ppudata_buffer,
            w: self.w,
            draw_nametable: self.draw_nametable,
            draw_attr_table: self.draw_attr_table,
            draw_pattern_table_lo: self.draw_pattern_table_lo,
            draw_pattern_table_hi: self.draw_pattern_table_hi,
            nametable_latch: self.nametable_latch,
            attr_table_latch: self.attr_table_latch,
            pattern_table_lo_latch: self.pattern_table_lo_latch,
            pattern_table_hi_latch: self.pattern_table_hi_latch,
        }
    }
}

/// The power-on register file.
pub open spec fn ppu_reset() -> PpuSpec {
    PpuSpec {
        ppuctrl: 0,
        ppumask: 0,
        ppustatus: 0xA0,
        oamaddr: 0,
        ppuscroll: 0,
        ppuaddr: 0,
        ppudata_buffer: 0,
        w: false,
        draw_nametable: 0,
        draw_attr_table: 0,
        draw_pattern_table_lo: 0,
        draw_pattern_table_hi: 0,
        nametable_latch: 0,
        attr_table_latch: 0,
        pattern_table_lo_latch: 0,
        pattern_table_hi_latch: 0,
    }
}

/// Register write: what a store at `address` (already reduced by the caller
/// or not; only `address % 8` matters) does to the register file, the video
/// memory and the palettes.
pub open spec fn ppu_wr(r: PpuSpec, address: u16, value: u8, vram: Seq<u8>, palettes: Seq<u8>) -> (
    PpuSpec,
    Seq<u8>,
    Seq<u8>,
) {
    let reg = address as int % 8;
    if reg == 0 {
        (PpuSpec { ppuctrl: value, ..r }, vram, palettes)
    } else if reg == 1 {
        (PpuSpec { ppumask: value, ..r }, vram, palettes)
    } else if reg == 6 {
        if !r.w {
            (
                PpuSpec { ppuaddr: (r.ppuaddr & 0x0F) | ((value as u16) << 8), w: true, ..r },
                vram,
                palettes,
            )
        } else {
            (PpuSpec { ppuaddr: (r.ppuaddr & 0xF0) | (value as u16), w: false, ..r }, vram, palettes)
        }
    } else if reg == 7 {
        let stepped = PpuSpec {
            ppuaddr: vstd::wrapping::u16_specs::wrapping_add(
                r.ppuaddr,
                if r.ppuctrl & 0x04 != 0 {
                    32
                } else {
                    1
                },
            ),
            ..r
        };
        if 0x2000 <= r.ppuaddr < 0x3000 {
            (stepped, vram.update((r.ppuaddr - 0x2000) as int % 2048, value), palettes)
        } else if 0x3F00 <= r.ppuaddr < 0x4000 {
            (stepped, vram, palettes.update((r.ppuaddr - 0x3F00) as int % 32, value))
        } else {
            (stepped, vram, palettes)
        }
    } else {
        // Registers 2..5 ignore stores in this model.
        (r, vram, palettes)
    }
}

/// Register read: the returned byte and the register file afterwards.
/// Reading PPUSTATUS clears the vblank bit; every other register reads 0.
pub open spec fn ppu_rd(r: PpuSpec, address: u16) -> (PpuSpec, u8) {
    if address as int % 8 == 2 {
        (PpuSpec { ppustatus: r.ppustatus & 0x7F, ..r }, r.ppustatus)
    } else {
        (r, 0)
    }
}

impl PPURegisters {
    pub fn new() -> (r: PPURegisters)
        ensures
            r@ == ppu_reset(),
    {
        PPURegisters {
            ppuctrl: 0,
            ppumask: 0,
            ppustatus: 0b1010_0000,
            oamaddr: 0,
            ppuscroll: 0,
            ppuaddr: 0,
            ppudata_buffer: 0,
            w: false,
            draw_nametable: 0,
            draw_attr_table: 0,
            draw_pattern_table_lo: 0,
            draw_pattern_table_hi: 0,
            nametable_latch: 0,
            attr_table_latch: 0,
            pattern_table_lo_latch: 0,
            pattern_table_hi_latch: 0,
        }
    }

    pub fn get_ppuctrl_increment_mode(&self) -> (r: bool)
        ensures
            r == (self.ppuctrl & 0x04 != 0),
    {
        self.ppuctrl & 0b0000_0100 != 0
    }

    pub fn set_ppustatus_vblank(&mut self, value: bool)
        ensures
            value ==> final(self)@ == (PpuSpec {
                ppustatus: old(self).ppustatus | 0x80,
                ..old(self)@
            }),
            !value ==> final(self)@ == (PpuSpec {
                ppustatus: old(self).ppustatus & 0x7F,
                ..old(self)@
            }),
    {
        if value {
            self.ppustatus |= 0b1000_0000;
        } else {
            self.ppustatus &= 0b0111_1111;
        }
    }

    pub fn set(&mut self, address: u16, value: u8, vram: &mut Vec<u8>, palettes: &mut Vec<u8>)
        requires
            old(vram)@.len() == 2048,
            old(palettes)@.len() == 32,
        ensures
            (final(self)@, final(vram)@, final(palettes)@) == ppu_wr(
                old(self)@,
                address,
                value,
                old(vram)@,
                old(palettes)@,
            ),
            final(vram)@.len() == 2048,
            final(palettes)@.len() == 32,
    {
        let reg = address % 8;
        if reg == 0 {
            self.ppuctrl = value;
        } else if reg == 1 {
            self.ppumask = value;
        } else if reg == 6 {
            if !self.w {
                self.ppuaddr &= 0x0F;
                self.ppuaddr |= (value as u16) << 8;
                self.w = true;
            } else {
                self.ppuaddr &= 0xF0;
                self.ppuaddr |= value as u16;
                self.w = false;
            }
        } else if reg == 7 {
            if 0x2000 <= self.ppuaddr && self.ppuaddr < 0x3000 {
                let idx = ((self.ppuaddr - 0x2000) % 2048) as usize;
                vram.set(idx, value);
            } else if 0x3F00 <= self.ppuaddr && self.ppuaddr < 0x4000 {
                let idx = ((self.ppuaddr - 0x3F00) % 32) as usize;
                palettes.set(idx, value);
            }
            if self.get_ppuctrl_increment_mode() {
                self.ppuaddr = self.ppuaddr.wrapping_add(32);
            } else {
                self.ppuaddr = self.ppuaddr.wrapping_add(1);
            }
        }
    }

    pub fn get(&mut self, address: u16) -> (r: u8)
        ensures
            (final(self)@, r) == ppu_rd(old(self)@, address),
    {
        if address % 8 == 2 {
            let ret_value = self.ppustatus;
            self.set_ppustatus_vblank(false);
            ret_value
        } else {
            0
        }
    }
}

} // verus!
