//! The memory bus map and the iNES image decoding.

use nes_cpu::memory::Memory;
use nes_cpu::ppu_reg::PPURegisters;
use nes_cpu::rom_reader::{flat_prg_image, iNES, iNES_header, ines_well_formed, parse_ines};

fn bus(prg: Vec<u8>) -> Memory {
    Memory::new(vec![0u8; 0x800], PPURegisters::new(), [0u8; 32], prg, vec![])
}

#[test]
fn ram_is_mirrored_through_0x1fff() {
    let mut m = bus(vec![0u8; 0x8000]);
    m.set(0x0005, 0xAB);
    assert_eq!(m.get(0x0005), 0xAB);
    assert_eq!(m.get(0x0805), 0xAB);
    assert_eq!(m.get(0x1005), 0xAB);
    assert_eq!(m.get(0x1805), 0xAB);
    m.set(0x1806, 0xCD);
    assert_eq!(m.get(0x0006), 0xCD);
}

#[test]
fn prg_rom_is_mirrored_and_write_protected() {
    let mut prg = vec![0u8; 0x4000];
    prg[0x0000] = 0x11;
    prg[0x3FFF] = 0x22;
    let mut m = bus(prg);
    assert_eq!(m.get(0x8000), 0x11);
    assert_eq!(m.get(0xC000), 0x11, "16 KiB bank mirrored");
    assert_eq!(m.get(0xBFFF), 0x22);
    assert_eq!(m.get(0xFFFF), 0x22);
    m.set(0x8000, 0x99);
    assert_eq!(m.get(0x8000), 0x11, "ROM ignores writes");
}

#[test]
fn apu_io_registers_hold_bytes() {
    let mut m = bus(vec![0u8; 0x8000]);
    m.set(0x4000, 0x3C);
    m.set(0x401F, 0x77);
    assert_eq!(m.get(0x4000), 0x3C);
    assert_eq!(m.get(0x401F), 0x77);
}

#[test]
fn unmapped_span_reads_zero() {
    let mut m = bus(vec![0u8; 0x8000]);
    m.set(0x5000, 0x55);
    assert_eq!(m.get(0x5000), 0x00, "open bus");
}

#[test]
fn ppustatus_read_through_the_bus() {
    let m = bus(vec![0u8; 0x8000]);
    assert_eq!(m.get(0x2002), 0xA0, "power-on status");
    assert_eq!(m.get(0x2000), 0x00, "other registers read zero");
}

#[test]
fn ppu_register_file_read_clears_vblank() {
    let mut r = PPURegisters::new();
    assert_eq!(r.get(2), 0xA0);
    assert_eq!(r.get(2), 0x20, "vblank cleared by the first read");
    assert_eq!(r.get(0), 0, "other registers read zero");
}

#[test]
fn ppu_data_port_writes_vram_and_increments() {
    let mut r = PPURegisters::new();
    let mut vram = vec![0u8; 2048];
    let mut palettes = vec![0u8; 32];
    r.ppuaddr = 0x2005;
    r.set(7, 0x42, &mut vram, &mut palettes);
    assert_eq!(vram[5], 0x42);
    assert_eq!(r.ppuaddr, 0x2006, "increment by one");
    r.ppuctrl = 0x04;
    r.set(7, 0x43, &mut vram, &mut palettes);
    assert_eq!(vram[6], 0x43);
    assert_eq!(r.ppuaddr, 0x2026, "increment by 32 in column mode");
}

#[test]
fn ppu_data_port_writes_palettes() {
    let mut r = PPURegisters::new();
    let mut vram = vec![0u8; 2048];
    let mut palettes = vec![0u8; 32];
    r.ppuaddr = 0x3F11;
    r.set(7, 0x2A, &mut vram, &mut palettes);
    assert_eq!(palettes[0x11], 0x2A);
}

#[test]
fn ppu_bus_read_covers_chr_vram_and_palettes() {
    let mut chr = vec![0u8; 0x2000];
    chr[0x0123] = 0x77;
    let mut m = Memory::new(vec![0u8; 0x800], PPURegisters::new(), [0u8; 32], vec![0u8; 0x8000], chr);
    assert_eq!(m.ppu_get(0x0123), 0x77);
    m.vram[7] = 0x88;
    assert_eq!(m.ppu_get(0x2007), 0x88);
    m.palettes[3] = 0x99;
    assert_eq!(m.ppu_get(0x3F03), 0x99);
    assert_eq!(m.ppu_get(0x4000), 0x00);
}

#[test]
fn parse_ines_extracts_header_and_banks() {
    let mut file = vec![0u8; 16 + 16384 + 8192];
    file[0] = b'N';
    file[1] = b'E';
    file[2] = b'S';
    file[3] = 0x1A;
    file[4] = 1;
    file[5] = 1;
    for i in 0..16384usize {
        file[16 + i] = (i % 251) as u8;
    }
    for i in 0..8192usize {
        file[16 + 16384 + i] = (i % 7) as u8;
    }
    assert!(ines_well_formed(&file));
    let ines = parse_ines(&file);
    assert_eq!(ines.header.prg_rom_size, 1);
    assert_eq!(ines.header.chr_rom_size, 1);
    assert!(ines.trainer.is_empty());
    assert_eq!(ines.prg_rom.len(), 16384);
    assert_eq!(ines.chr_rom.len(), 8192);
    assert_eq!(ines.prg_rom[0], 0);
    assert_eq!(ines.prg_rom[500], (500 % 251) as u8);
    assert_eq!(ines.chr_rom[13], 13 % 7);
}

#[test]
fn parse_ines_rejects_bad_magic_and_short_files() {
    assert!(!ines_well_formed(&vec![0u8; 4]));
    let mut file = vec![0u8; 16 + 16384];
    file[0] = b'X';
    file[4] = 1;
    assert!(!ines_well_formed(&file));
    let mut short = vec![0u8; 100];
    short[0] = b'N';
    short[1] = b'E';
    short[2] = b'S';
    short[3] = 0x1A;
    short[4] = 1;
    assert!(!ines_well_formed(&short));
}

#[test]
fn flat_prg_image_places_code_and_reset_vector() {
    let file = vec![0xA9u8, 0x01];
    let img = flat_prg_image(&file);
    assert_eq!(img.len(), 16384);
    assert_eq!(img[0], 0xA9);
    assert_eq!(img[1], 0x01);
    assert_eq!(img[2], 0x00);
    assert_eq!(img[16380], 0x00);
    assert_eq!(img[16381], 0x80);
}

#[test]
fn ines_types_compose() {
    let ines = iNES {
        header: iNES_header { prg_rom_size: 2, chr_rom_size: 1 },
        trainer: vec![],
        prg_rom: vec![0u8; 0x8000],
        chr_rom: vec![0u8; 0x2000],
    };
    assert_eq!(ines.header.prg_rom_size, 2);
    assert_eq!(ines.prg_rom.len(), 0x8000);
}

#[test]
fn ppu_register_window_is_mirrored_for_writes() {
    let mut m = bus(vec![0u8; 0x8000]);
    m.set(0x2000, 0x80);
    assert_eq!(m.ppu_registers.ppuctrl, 0x80);
    m.set(0x3FF9, 0x1F);
    assert_eq!(m.ppu_registers.ppumask, 0x1F, "0x3FF9 mirrors register 1");
}
