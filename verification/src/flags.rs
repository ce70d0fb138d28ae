//! The four condition flags and their packed byte form.
//!
//! The flags occupy the top nibble of the flag byte — zero, subtract,
//! half-carry and carry at bits 7 down to 4 — and the low nibble is
//! always zero.

use vstd::prelude::*;

verus! {

/// The four condition flags of the processor.
#[derive(Debug, Clone, Copy, PartialEq, Eq, Structural)]
pub struct Flags {
    pub zero: bool,
    pub subtract: bool,
    pub half_carry: bool,
    pub carry: bool,
}

/// The packed byte of a flag set: zero at bit 7, subtract at bit 6,
/// half-carry at bit 5, carry at bit 4; the low nibble is zero.
pub open spec fn flags_to_byte(f: Flags) -> u8 {
    ((if f.zero { 128int } else { 0int })
        + (if f.subtract { 64int } else { 0int })
        + (if f.half_carry { 32int } else { 0int })
        + (if f.carry { 16int } else { 0int })) as u8
}

/// The flag set read out of a packed byte; the low nibble is ignored.
pub open spec fn flags_from_byte(b: u8) -> Flags {
    Flags {
        zero: b / 128 % 2 == 1,
        subtract: b / 64 % 2 == 1,
        half_carry: b / 32 % 2 == 1,
        carry: b / 16 % 2 == 1,
    }
}

impl From<Flags> for u8 {
    fn from(f: Flags) -> (b: u8) {
        let mut b: u8 = 0;
        if f.zero {
            b += 128;
        }
        if f.subtract {
            b += 64;
        }
        if f.half_carry {
            b += 32;
        }
        if f.carry {
            b += 16;
        }
        b
    }
}

impl vstd::std_specs::convert::FromSpecImpl<Flags> for u8 {
    open spec fn obeys_from_spec() -> bool {
        true
    }

    open spec fn from_spec(f: Flags) -> u8 {
        flags_to_byte(f)
    }
}

impl From<u8> for Flags {
    fn from(b: u8) -> (f: Flags) {
        Flags {
            zero: b / 128 % 2 == 1,
            subtract: b / 64 % 2 == 1,
            half_carry: b / 32 % 2 == 1,
            carry: b / 16 % 2 == 1,
        }
    }
}

impl vstd::std_specs::convert::FromSpecImpl<u8> for Flags {
    open spec fn obeys_from_spec() -> bool {
        true
    }

    open spec fn from_spec(b: u8) -> Flags {
        flags_from_byte(b)
    }
}

impl Flags {
    /// The all-clear flag set, the start of the builder chain.
    pub fn new() -> (f: Flags)
        ensures
            f == (Flags { zero: false, subtract: false, half_carry: false, carry: false }),
    {
        Flags { zero: false, subtract: false, half_carry: false, carry: false }
    }

    /// Builder step: the same flag set with zero raised.
    pub fn set_zero(self) -> (f: Flags)
        ensures
            f == (Flags { zero: true, ..self }),
    {
        Flags { zero: true, ..self }
    }

    /// Builder step: the same flag set with subtract raised.
    pub fn set_subtract(self) -> (f: Flags)
        ensures
            f == (Flags { subtract: true, ..self }),
    {
        Flags { subtract: true, ..self }
    }

    /// Builder step: the same flag set with half-carry raised.
    pub fn set_half_carry(self) -> (f: Flags)
        ensures
            f == (Flags { half_carry: true, ..self }),
    {
        Flags { half_carry: true, ..self }
    }

    /// Builder step: the same flag set with carry raised.
    pub fn set_carry(self) -> (f: Flags)
        ensures
            f == (Flags { carry: true, ..self }),
    {
        Flags { carry: true, ..self }
    }
}

/// Law: packing is a right inverse of unpacking on every byte whose low
/// nibble is zero — decoding such a byte and re-encoding it gives the
/// byte back.
pub proof fn lemma_byte_roundtrip(b: u8)
    requires
        b % 16 == 0,
    ensures
        flags_to_byte(flags_from_byte(b)) == b,
{
    assert(flags_to_byte(flags_from_byte(b)) == b) by (bit_vector)
        requires
            b % 16 == 0,
    ;
}

/// Law: unpacking is a left inverse of packing — every flag set survives
/// a trip through its packed byte unchanged.
pub proof fn lemma_flags_roundtrip(f: Flags)
    ensures
        flags_from_byte(flags_to_byte(f)) == f,
{
}

/// Law: building a flag set incrementally — starting from all-clear and
/// raising exactly the flags that are set in `f`, in the fixed
/// zero/subtract/half-carry/carry order — packs to the same byte as
/// packing `f` directly.
pub proof fn lemma_builder_matches_direct(f: Flags)
    ensures
        ({
            let start = Flags { zero: false, subtract: false, half_carry: false, carry: false };
            let b1 = if f.zero { Flags { zero: true, ..start } } else { start };
            let b2 = if f.subtract { Flags { subtract: true, ..b1 } } else { b1 };
            let b3 = if f.half_carry { Flags { half_carry: true, ..b2 } } else { b2 };
            let b4 = if f.carry { Flags { carry: true, ..b3 } } else { b3 };
            flags_to_byte(b4) == flags_to_byte(f)
        }),
{
}

} // verus!
