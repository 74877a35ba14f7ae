//! iNES cartridge images: the header fields the core cares about and the
//! PRG/CHR banks, parsed from the raw file bytes.  Opening files is the
//! caller's business; this module only decodes bytes already in memory.

use vstd::prelude::*;

verus! {

#[allow(non_camel_case_types)]
pub struct iNES_header {
    pub prg_rom_size: u8,
    pub chr_rom_size: u8,
}

#[allow(non_camel_case_types)]
pub struct iNES {
    pub header: iNES_header,
    pub trainer: Vec<u8>,
    pub prg_rom: Vec<u8>,
    pub chr_rom: Vec<u8>,
}

/// The file starts with the four magic bytes "NES" 0x1A and a full header.
pub open spec fn ines_magic_ok(file: Seq<u8>) -> bool {
    &&& file.len() >= 16
    &&& file[0] == 78
    &&& file[1] == 69
    &&& file[2] == 83
    &&& file[3] == 0x1A
}

/// The banks the header announces all fit inside the file.
pub open spec fn ines_sized_ok(file: Seq<u8>) -> bool {
    ines_magic_ok(file) && 16 + 16384 * (file[4] as int) + 8192 * (file[5] as int) <= file.len()
}

/// Whether `parse_ines` accepts the bytes.
pub fn ines_well_formed(file: &Vec<u8>) -> (r: bool)
    ensures
        r == ines_sized_ok(file@),
{
    if file.len() < 16 {
        return false;
    }
    if !(file[0] == 78 && file[1] == 69 && file[2] == 83 && file[3] == 0x1A) {
        return false;
    }
    let prg: usize = file[4] as usize;
    let chr: usize = file[5] as usize;
    16 + 16384 * prg + 8192 * chr <= file.len()
}

fn copy_range(file: &Vec<u8>, start: usize, count: usize) -> (r: Vec<u8>)
    requires
        start + count <= file@.len(),
    ensures
        r@ == file@.subrange(start as int, start as int + count as int),
{
    let flen: usize = file.len();
    let mut out: Vec<u8> = Vec::new();
    let mut i: usize = 0;
    while i < count
        invariant
            i <= count,
            start + count <= flen,
            flen == file@.len(),
            out@ == file@.subrange(start as int, start as int + i as int),
        decreases count - i,
    {
        out.push(file[start + i]);
        proof {
            assert(out@ =~= file@.subrange(start as int, start as int + i as int + 1));
        }
        i += 1;
    }
    out
}

/// Decode an iNES image: the two size fields, then the PRG bank and the CHR
/// bank straight after the 16-byte header.  (A trainer segment is not
/// supported; the field stays empty.)
pub fn parse_ines(file: &Vec<u8>) -> (r: iNES)
    requires
        ines_sized_ok(file@),
    ensures
        r.header.prg_rom_size == file@[4],
        r.header.chr_rom_size == file@[5],
        r.trainer@ == Seq::<u8>::empty(),
        r.prg_rom@ == file@.subrange(16, 16 + 16384 * (file@[4] as int)),
        r.chr_rom@ == file@.subrange(
            16 + 16384 * (file@[4] as int),
            16 + 16384 * (file@[4] as int) + 8192 * (file@[5] as int),
        ),
        r.prg_rom@.len() == 16384 * (file@[4] as int),
        r.chr_rom@.len() == 8192 * (file@[5] as int),
{
    let prg_size: usize = file[4] as usize;
    let chr_size: usize = file[5] as usize;
    let prg_rom = copy_range(file, 16, 16384 * prg_size);
    let chr_rom = copy_range(file, 16 + 16384 * prg_size, 8192 * chr_size);
    iNES {
        header: iNES_header { prg_rom_size: file[4], chr_rom_size: file[5] },
        trainer: Vec::new(),
        prg_rom,
        chr_rom,
    }
}

/// A 16 KiB flat PRG image from a raw machine-code file: the code at the
/// start, zero elsewhere, and the reset vector pointing at 0x8000.
pub fn flat_prg_image(file: &Vec<u8>) -> (r: Vec<u8>)
    ensures
        r@.len() == 16384,
        r@[16380] == 0,
        r@[16381] == 0x80,
        forall|i: int|
            0 <= i < 16384 && i != 16380 && i != 16381 ==> r@[i] == (if i < file@.len() {
                file@[i]
            } else {
                0u8
            }),
{
    let n: usize = if file.len() < 16384 {
        file.len()
    } else {
        16384
    };
    let mut out: Vec<u8> = Vec::new();
    let mut i: usize = 0;
    while i < n
        invariant
            i <= n,
            n <= 16384,
            n <= file@.len(),
            out@.len() == i,
            forall|j: int| 0 <= j < i ==> out@[j] == file@[j],
        decreases n - i,
    {
        out.push(file[i]);
        i += 1;
    }
    while i < 16384
        invariant
            i <= 16384,
            out@.len() == i,
            n <= i,
            n <= 16384,
            n <= file@.len(),
            n == if file@.len() < 16384 {
                file@.len() as int
            } else {
                16384
            },
            forall|j: int| 0 <= j < n ==> out@[j] == file@[j],
            forall|j: int| n <= j < i ==> out@[j] == 0u8,
        decreases 16384 - i,
    {
        out.push(0);
        i += 1;
    }
    out.set(16380, 0x00);
    out.set(16381, 0x80);
    out
}

} // verus!
