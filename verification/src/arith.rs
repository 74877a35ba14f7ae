//! Wrapping arithmetic shorthands for the 8-bit registers and the 16-bit
//! program counter, written over vstd's wrapping specifications so the
//! executable `wrapping_add`/`wrapping_sub` calls meet them definitionally.

use vstd::prelude::*;

verus! {

pub open spec fn wadd16(x: u16, y: u16) -> u16 {
    vstd::wrapping::u16_specs::wrapping_add(x, y)
}

pub open spec fn wadd8(x: u8, y: u8) -> u8 {
    vstd::wrapping::u8_specs::wrapping_add(x, y)
}

pub open spec fn wsub8(x: u8, y: u8) -> u8 {
    vstd::wrapping::u8_specs::wrapping_sub(x, y)
}

/// The 16-bit word whose low byte is `lo` and high byte is `hi`.
pub open spec fn word(lo: u8, hi: u8) -> u16 {
    (lo + 256 * hi) as u16
}

/// A byte sign-extended to 16 bits.
pub open spec fn sext(b: u8) -> u16 {
    if b < 128 {
        b as u16
    } else {
        (0xFF00 + b) as u16
    }
}

/// The low byte of a word.
pub open spec fn lo8(w: u16) -> u8 {
    (w as int % 256) as u8
}

/// The high byte of a word.
pub open spec fn hi8(w: u16) -> u8 {
    (w as int / 256) as u8
}

} // verus!
