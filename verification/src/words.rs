//! Packing and wrapping helpers for 8- and 16-bit machine words.

use vstd::prelude::*;

verus! {

/// The high byte of a 16-bit word.
pub open spec fn hi_byte(v: u16) -> u8 {
    (v / 256) as u8
}

/// The low byte of a 16-bit word.
pub open spec fn lo_byte(v: u16) -> u8 {
    (v % 256) as u8
}

/// The 16-bit word with the given high and low bytes.
pub open spec fn word_of(hi: u8, lo: u8) -> u16 {
    (hi * 256 + lo) as u16
}

/// Reduction of an integer into the 16-bit range, as wrapping
/// arithmetic leaves it.
pub open spec fn wrap16(n: int) -> u16 {
    (n % 0x10000) as u16
}

/// Reduction of an integer into the 8-bit range, as wrapping
/// arithmetic leaves it.
pub open spec fn wrap8(n: int) -> u8 {
    (n % 0x100) as u8
}

} // verus!
