//! Splitting packed message parameters.
//!
//! The native message loop delivers cursor coordinates and selection data
//! packed into single machine words. These helpers take the word as an
//! unsigned machine integer (the callback's raw parameter, reinterpreted as
//! unsigned) and extract the halves exactly as the platform documents:
//! the low and high 16 bits of the low 32 bits, and the signed reading of
//! each half for screen coordinates.

use vstd::prelude::*;

verus! {

/// The low 16 bits of the low 32 bits of a packed parameter word.
pub fn loword(val: usize) -> (r: u32)
    ensures
        r == val % 0x10000,
        r < 0x10000,
{
    proof {
        assert((val & 0xffff) == val % 0x10000 && (val & 0xffff) < 0x10000) by (bit_vector);
    }
    (val & 0xffff) as u32
}

/// The high 16 bits of the low 32 bits of a packed parameter word.
pub fn hiword(val: usize) -> (r: u32)
    ensures
        r == (val as int % 0x100000000) / 0x10000,
        r < 0x10000,
{
    proof {
        assert(((val as u32 >> 16) & 0xffff) == (val as int % 0x100000000) / 0x10000
            && ((val as u32 >> 16) & 0xffff) < 0x10000) by (bit_vector);
    }
    ((val as u32) >> 16) & 0xffff
}

/// The signed value a 16-bit half encodes, as two's complement.
pub open spec fn signed16(w: int) -> int {
    if w < 0x8000 {
        w
    } else {
        w - 0x10000
    }
}

/// The x screen coordinate packed into the low half of a parameter word.
pub fn get_x(val: usize) -> (r: i32)
    ensures
        r == signed16(val as int % 0x10000),
{
    let w = loword(val);
    if w < 0x8000 {
        w as i32
    } else {
        (w as i32) - 0x10000
    }
}

/// The y screen coordinate packed into the high half of a parameter word.
pub fn get_y(val: usize) -> (r: i32)
    ensures
        r == signed16((val as int % 0x100000000) / 0x10000),
{
    let w = hiword(val);
    if w < 0x8000 {
        w as i32
    } else {
        (w as i32) - 0x10000
    }
}

} // verus!
