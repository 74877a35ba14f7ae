//! The memory bus the CPU core drives: 2 KiB of internal RAM mirrored up to
//! 0x1FFF, the PPU register window at 0x2000..0x3FFF, the APU and input
//! registers at 0x4000..0x401F, and PRG ROM mirrored through 0x8000..0xFFFF.
//!
//! Reads are passive: the byte a read returns is a pure function of the bus
//! state (`rd`), so the core may fetch, resolve operands and trace without
//! disturbing the machine.  Writes into the PPU window go through the
//! register file's write latch.  The unmapped span 0x4020..0x7FFF behaves as
//! open bus: reads return 0 and writes are ignored.

use vstd::prelude::*;

use crate::ppu_reg::{ppu_wr, PPURegisters, PpuSpec};

verus! {

/// Ghost image of [`Memory`].
pub ghost struct MemSpec {
    pub ram: Seq<u8>,
    pub ppu: PpuSpec,
    pub apu: Seq<u8>,
    pub prg: Seq<u8>,
    pub chr: Seq<u8>,
    pub vram: Seq<u8>,
    pub pal: Seq<u8>,
}

impl MemSpec {
    /// Well-formed bus: every backing store has its hardware size and there
    /// is at least one PRG ROM byte to mirror.
    pub open spec fn wf(self) -> bool {
        &&& self.ram.len() == 0x800
        &&& self.apu.len() == 32
        &&& self.prg.len() >= 1
        &&& self.vram.len() == 2048
        &&& self.pal.len() == 32
    }
}

/// The byte a CPU read at `a` returns.
pub open spec fn rd(m: MemSpec, a: u16) -> u8 {
    if a < 0x2000 {
        m.ram[a as int % 0x800]
    } else if a < 0x4000 {
        if a as int % 8 == 2 {
            m.ppu.ppustatus
        } else {
            0
        }
    } else if a < 0x4020 {
        m.apu[a - 0x4000]
    } else if a < 0x8000 {
        0
    } else {
        m.prg[(a - 0x8000) as int % m.prg.len() as int]
    }
}

/// The bus state after a CPU write of `v` at `a`.
pub open spec fn wr(m: MemSpec, a: u16, v: u8) -> MemSpec {
    if a < 0x2000 {
        MemSpec { ram: m.ram.update(a as int % 0x800, v), ..m }
    } else if a < 0x4000 {
        let (ppu, vram, pal) = ppu_wr(m.ppu, a, v, m.vram, m.pal);
        MemSpec { ppu: ppu, vram: vram, pal: pal, ..m }
    } else if a < 0x4020 {
        MemSpec { apu: m.apu.update(a - 0x4000, v), ..m }
    } else {
        m
    }
}

pub struct Memory {
    pub ram: Vec<u8>,
    pub ppu_registers: PPURegisters,
    pub apu_io: Vec<u8>,
    pub prg_rom: Vec<u8>,
    pub chr_rom: Vec<u8>,
    pub vram: Vec<u8>,
    pub palettes: Vec<u8>,
}

impl View for Memory {
    type V = MemSpec;

    open spec fn view(&self) -> MemSpec {
        MemSpec {
            ram: self.ram@,
            ppu: self.ppu_registers@,
            apu: self.apu_io@,
            prg: self.prg_rom@,
            chr: self.chr_rom@,
            vram: self.vram@,
            pal: self.palettes@,
        }
    }
}

impl Memory {
    pub open spec fn wf(self) -> bool {
        self@.wf()
    }

    pub fn new(
        ram: Vec<u8>,
        ppu_registers: PPURegisters,
        apu_io: [u8; 32],
        prg_rom: Vec<u8>,
        chr_rom: Vec<u8>,
    ) -> (r: Memory)
        requires
            ram@.len() == 0x800,
            prg_rom@.len() >= 1,
        ensures
            r.wf(),
            r@ == (MemSpec {
                ram: ram@,
                ppu: ppu_registers@,
                apu: apu_io@,
                prg: prg_rom@,
                chr: chr_rom@,
                vram: Seq::new(2048, |i: int| 0u8),
                pal: Seq::new(32, |i: int| 0u8),
            }),
    {
        let mut apu: Vec<u8> = Vec::new();
        let mut i: usize = 0;
        while i < 32
            invariant
                i <= 32,
                apu@ == apu_io@.subrange(0, i as int),
            decreases 32 - i,
        {
            apu.push(apu_io[i]);
            i += 1;
        }
        proof {
            assert(apu@ =~= apu_io@);
        }
        let mut vram: Vec<u8> = Vec::new();
        let mut j: usize = 0;
        while j < 2048
            invariant
                j <= 2048,
                vram@ == Seq::new(j as nat, |i: int| 0u8),
            decreases 2048 - j,
        {
            vram.push(0);
            proof {
                assert(vram@ =~= Seq::new(j as nat + 1, |i: int| 0u8));
            }
            j += 1;
        }
        let mut palettes: Vec<u8> = Vec::new();
        let mut k: usize = 0;
        while k < 32
            invariant
                k <= 32,
                palettes@ == Seq::new(k as nat, |i: int| 0u8),
            decreases 32 - k,
        {
            palettes.push(0);
            proof {
                assert(palettes@ =~= Seq::new(k as nat + 1, |i: int| 0u8));
            }
            k += 1;
        }
        Memory { ram, ppu_registers, apu_io: apu, prg_rom, chr_rom, vram, palettes }
    }

    /// A CPU read.  The bus is passive, so this borrows the memory shared
    /// and returns exactly the byte `rd` describes.
    pub fn get(&self, address: u16) -> (v: u8)
        requires
            self.wf(),
        ensures
            v == rd(self@, address),
    {
        if address < 0x2000 {
            self.ram[(address % 0x800) as usize]
        } else if address < 0x4000 {
            if address % 8 == 2 {
                self.ppu_registers.ppustatus
            } else {
                0
            }
        } else if address < 0x4020 {
            self.apu_io[(address - 0x4000) as usize]
        } else if address < 0x8000 {
            0
        } else {
            self.prg_rom[((address - 0x8000) as usize) % self.prg_rom.len()]
        }
    }

    /// A CPU write.
    pub fn set(&mut self, address: u16, value: u8)
        requires
            old(self).wf(),
        ensures
            final(self).wf(),
            final(self)@ == wr(old(self)@, address, value),
    {
        if address < 0x2000 {
            let idx = (address % 0x800) as usize;
            self.ram.set(idx, value);
        } else if address < 0x4000 {
            self.ppu_registers.set(address, value, &mut self.vram, &mut self.palettes);
        } else if address < 0x4020 {
            let idx = (address - 0x4000) as usize;
            self.apu_io.set(idx, value);
        }
    }

    /// A read on the PPU's own bus: pattern tables from CHR ROM, then the
    /// nametables in video memory, then the palettes.  Addresses past the
    /// palette window, or pattern-table reads without CHR ROM, return 0.
    pub fn ppu_get(&self, address: u16) -> (v: u8)
        requires
            self.wf(),
        ensures
            v == ppu_bus_rd(self@, address),
    {
        if address < 0x2000 {
            if (address as usize) < self.chr_rom.len() {
                self.chr_rom[address as usize]
            } else {
                0
            }
        } else if address < 0x3F00 {
            self.vram[((address - 0x2000) % 2048) as usize]
        } else if address < 0x4000 {
            self.palettes[(address % 32) as usize]
        } else {
            0
        }
    }
}

/// The byte a PPU-bus read at `a` returns.
pub open spec fn ppu_bus_rd(m: MemSpec, a: u16) -> u8 {
    if a < 0x2000 {
        if a < m.chr.len() {
            m.chr[a as int]
        } else {
            0
        }
    } else if a < 0x3F00 {
        m.vram[(a - 0x2000) as int % 2048]
    } else if a < 0x4000 {
        m.pal[a as int % 32]
    } else {
        0
    }
}

} // verus!
