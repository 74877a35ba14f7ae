//! The flag unit: the status register P is a byte whose bits are, from bit 0
//! upward, C (carry), Z (zero), I (interrupt disable), D (decimal), B (break,
//! never set in the live register), U (unused, always 1), V (overflow) and
//! N (negative).

use vstd::prelude::*;

verus! {

pub open spec fn flag_c(p: u8) -> bool {
    p & 0x01 != 0
}

pub open spec fn flag_z(p: u8) -> bool {
    p & 0x02 != 0
}

pub open spec fn flag_i(p: u8) -> bool {
    p & 0x04 != 0
}

pub open spec fn flag_d(p: u8) -> bool {
    p & 0x08 != 0
}

pub open spec fn flag_b(p: u8) -> bool {
    p & 0x10 != 0
}

pub open spec fn flag_u(p: u8) -> bool {
    p & 0x20 != 0
}

pub open spec fn flag_v(p: u8) -> bool {
    p & 0x40 != 0
}

pub open spec fn flag_n(p: u8) -> bool {
    p & 0x80 != 0
}

pub open spec fn with_c(p: u8, on: bool) -> u8 {
    if on {
        p | 0x01
    } else {
        p & 0xFE
    }
}

pub open spec fn with_z(p: u8, on: bool) -> u8 {
    if on {
        p | 0x02
    } else {
        p & 0xFD
    }
}

pub open spec fn with_i(p: u8, on: bool) -> u8 {
    if on {
        p | 0x04
    } else {
        p & 0xFB
    }
}

pub open spec fn with_d(p: u8, on: bool) -> u8 {
    if on {
        p | 0x08
    } else {
        p & 0xF7
    }
}

pub open spec fn with_b(p: u8, on: bool) -> u8 {
    if on {
        p | 0x10
    } else {
        p & 0xEF
    }
}

pub open spec fn with_v(p: u8, on: bool) -> u8 {
    if on {
        p | 0x40
    } else {
        p & 0xBF
    }
}

pub open spec fn with_n(p: u8, on: bool) -> u8 {
    if on {
        p | 0x80
    } else {
        p & 0x7F
    }
}

/// Every register-writing instruction routes its result through this update:
/// Z becomes (value == 0), N becomes bit 7 of the value, nothing else moves.
pub open spec fn with_zn(p: u8, value: u8) -> u8 {
    with_n(with_z(p, value == 0), value & 0x80 != 0)
}

/// A live status byte: U is always set and B is never set outside of bytes
/// pushed on the stack.
pub open spec fn p_ok(p: u8) -> bool {
    flag_u(p) && !flag_b(p)
}

/// Setting C changes C alone.
pub proof fn lemma_with_c(p: u8, on: bool)
    ensures
        flag_c(with_c(p, on)) == on,
        flag_z(with_c(p, on)) == flag_z(p),
        flag_i(with_c(p, on)) == flag_i(p),
        flag_d(with_c(p, on)) == flag_d(p),
        flag_b(with_c(p, on)) == flag_b(p),
        flag_u(with_c(p, on)) == flag_u(p),
        flag_v(with_c(p, on)) == flag_v(p),
        flag_n(with_c(p, on)) == flag_n(p),
{
    assert((if on {
        p | 0x01
    } else {
        p & 0xFE
    }) & 0x01 == (if on {
        1u8
    } else {
        0u8
    }) && {
        let q = if on {
            p | 0x01
        } else {
            p & 0xFE
        };
        q & 0x02 == p & 0x02 && q & 0x04 == p & 0x04 && q & 0x08 == p & 0x08 && q & 0x10 == p
            & 0x10 && q & 0x20 == p & 0x20 && q & 0x40 == p & 0x40 && q & 0x80 == p & 0x80
    }) by (bit_vector);
}

/// Setting Z changes Z alone.
pub proof fn lemma_with_z(p: u8, on: bool)
    ensures
        flag_c(with_z(p, on)) == flag_c(p),
        flag_z(with_z(p, on)) == on,
        flag_i(with_z(p, on)) == flag_i(p),
        flag_d(with_z(p, on)) == flag_d(p),
        flag_b(with_z(p, on)) == flag_b(p),
        flag_u(with_z(p, on)) == flag_u(p),
        flag_v(with_z(p, on)) == flag_v(p),
        flag_n(with_z(p, on)) == flag_n(p),
{
    assert({
        let q = if on {
            p | 0x02
        } else {
            p & 0xFD
        };
        q & 0x02 == (if on {
            2u8
        } else {
            0u8
        }) && q & 0x01 == p & 0x01 && q & 0x04 == p & 0x04 && q & 0x08 == p & 0x08 && q & 0x10 == p
            & 0x10 && q & 0x20 == p & 0x20 && q & 0x40 == p & 0x40 && q & 0x80 == p & 0x80
    }) by (bit_vector);
}

/// Setting I changes I alone.
pub proof fn lemma_with_i(p: u8, on: bool)
    ensures
        flag_c(with_i(p, on)) == flag_c(p),
        flag_z(with_i(p, on)) == flag_z(p),
        flag_i(with_i(p, on)) == on,
        flag_d(with_i(p, on)) == flag_d(p),
        flag_b(with_i(p, on)) == flag_b(p),
        flag_u(with_i(p, on)) == flag_u(p),
        flag_v(with_i(p, on)) == flag_v(p),
        flag_n(with_i(p, on)) == flag_n(p),
{
    assert({
        let q = if on {
            p | 0x04
        } else {
            p & 0xFB
        };
        q & 0x04 == (if on {
            4u8
        } else {
            0u8
        }) && q & 0x01 == p & 0x01 && q & 0x02 == p & 0x02 && q & 0x08 == p & 0x08 && q & 0x10 == p
            & 0x10 && q & 0x20 == p & 0x20 && q & 0x40 == p & 0x40 && q & 0x80 == p & 0x80
    }) by (bit_vector);
}

/// Setting D changes D alone.
pub proof fn lemma_with_d(p: u8, on: bool)
    ensures
        flag_c(with_d(p, on)) == flag_c(p),
        flag_z(with_d(p, on)) == flag_z(p),
        flag_i(with_d(p, on)) == flag_i(p),
        flag_d(with_d(p, on)) == on,
        flag_b(with_d(p, on)) == flag_b(p),
        flag_u(with_d(p, on)) == flag_u(p),
        flag_v(with_d(p, on)) == flag_v(p),
        flag_n(with_d(p, on)) == flag_n(p),
{
    assert({
        let q = if on {
            p | 0x08
        } else {
            p & 0xF7
        };
        q & 0x08 == (if on {
            8u8
        } else {
            0u8
        }) && q & 0x01 == p & 0x01 && q & 0x02 == p & 0x02 && q & 0x04 == p & 0x04 && q & 0x10 == p
            & 0x10 && q & 0x20 == p & 0x20 && q & 0x40 == p & 0x40 && q & 0x80 == p & 0x80
    }) by (bit_vector);
}

/// Setting V changes V alone.
pub proof fn lemma_with_v(p: u8, on: bool)
    ensures
        flag_c(with_v(p, on)) == flag_c(p),
        flag_z(with_v(p, on)) == flag_z(p),
        flag_i(with_v(p, on)) == flag_i(p),
        flag_d(with_v(p, on)) == flag_d(p),
        flag_b(with_v(p, on)) == flag_b(p),
        flag_u(with_v(p, on)) == flag_u(p),
        flag_v(with_v(p, on)) == on,
        flag_n(with_v(p, on)) == flag_n(p),
{
    assert({
        let q = if on {
            p | 0x40
        } else {
            p & 0xBF
        };
        q & 0x40 == (if on {
            0x40u8
        } else {
            0u8
        }) && q & 0x01 == p & 0x01 && q & 0x02 == p & 0x02 && q & 0x04 == p & 0x04 && q & 0x08 == p
            & 0x08 && q & 0x10 == p & 0x10 && q & 0x20 == p & 0x20 && q & 0x80 == p & 0x80
    }) by (bit_vector);
}

/// Setting N changes N alone.
pub proof fn lemma_with_n(p: u8, on: bool)
    ensures
        flag_c(with_n(p, on)) == flag_c(p),
        flag_z(with_n(p, on)) == flag_z(p),
        flag_i(with_n(p, on)) == flag_i(p),
        flag_d(with_n(p, on)) == flag_d(p),
        flag_b(with_n(p, on)) == flag_b(p),
        flag_u(with_n(p, on)) == flag_u(p),
        flag_v(with_n(p, on)) == flag_v(p),
        flag_n(with_n(p, on)) == on,
{
    assert({
        let q = if on {
            p | 0x80
        } else {
            p & 0x7F
        };
        q & 0x80 == (if on {
            0x80u8
        } else {
            0u8
        }) && q & 0x01 == p & 0x01 && q & 0x02 == p & 0x02 && q & 0x04 == p & 0x04 && q & 0x08 == p
            & 0x08 && q & 0x10 == p & 0x10 && q & 0x20 == p & 0x20 && q & 0x40 == p & 0x40
    }) by (bit_vector);
}

/// After `with_zn`, Z holds exactly when the value was zero, N mirrors bit 7
/// of the value, and every other flag keeps its place.
pub proof fn lemma_with_zn(p: u8, value: u8)
    ensures
        flag_z(with_zn(p, value)) == (value == 0),
        flag_n(with_zn(p, value)) == (value & 0x80 != 0),
        flag_c(with_zn(p, value)) == flag_c(p),
        flag_i(with_zn(p, value)) == flag_i(p),
        flag_d(with_zn(p, value)) == flag_d(p),
        flag_b(with_zn(p, value)) == flag_b(p),
        flag_u(with_zn(p, value)) == flag_u(p),
        flag_v(with_zn(p, value)) == flag_v(p),
{
    lemma_with_z(p, value == 0);
    lemma_with_n(with_z(p, value == 0), value & 0x80 != 0);
}

} // verus!
