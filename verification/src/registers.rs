//! The register file: eight single-byte registers and the composite
//! 16-bit register pairs.
//!
//! A pair packs two single registers with the first-named register in
//! the low byte: AF is `(F << 8) | A`, BC is `(C << 8) | B`, and so on.
//! Every accessor is total — a 16-bit store into a pair is split into
//! its two bytes, never rejected.

use vstd::prelude::*;

use crate::flags::{flags_from_byte, flags_to_byte, Flags};
use crate::words::{hi_byte, lo_byte, word_of};

verus! {

/// A name for one of the seven single-byte general registers.
#[derive(Debug, Clone, Copy, PartialEq, Eq, Structural)]
pub enum Reg {
    A,
    B,
    C,
    D,
    E,
    H,
    L,
}

/// A name for one of the four composite 16-bit register pairs.
#[derive(Debug, Clone, Copy, PartialEq, Eq, Structural)]
pub enum Pair {
    AF,
    BC,
    DE,
    HL,
}

/// The eight single-byte registers: seven general ones and the flag
/// byte F, kept in decoded form.
#[derive(Debug, Clone, Copy, PartialEq, Eq, Structural)]
pub struct Registers {
    pub a: u8,
    pub b: u8,
    pub c: u8,
    pub d: u8,
    pub e: u8,
    pub f: Flags,
    pub h: u8,
    pub l: u8,
}

/// The value of the named single register.
pub open spec fn spec_get8(r: Registers, n: Reg) -> u8 {
    match n {
        Reg::A => r.a,
        Reg::B => r.b,
        Reg::C => r.c,
        Reg::D => r.d,
        Reg::E => r.e,
        Reg::H => r.h,
        Reg::L => r.l,
    }
}

/// The register file after a store into the named single register.
pub open spec fn spec_set8(r: Registers, n: Reg, v: u8) -> Registers {
    match n {
        Reg::A => Registers { a: v, ..r },
        Reg::B => Registers { b: v, ..r },
        Reg::C => Registers { c: v, ..r },
        Reg::D => Registers { d: v, ..r },
        Reg::E => Registers { e: v, ..r },
        Reg::H => Registers { h: v, ..r },
        Reg::L => Registers { l: v, ..r },
    }
}

/// The value of the named register pair: the second-listed register
/// holds the high byte, the first-listed one the low byte.
pub open spec fn spec_pair_get(r: Registers, p: Pair) -> u16 {
    match p {
        Pair::AF => word_of(flags_to_byte(r.f), r.a),
        Pair::BC => word_of(r.c, r.b),
        Pair::DE => word_of(r.e, r.d),
        Pair::HL => word_of(r.l, r.h),
    }
}

/// The register file after a 16-bit store into the named pair.
pub open spec fn spec_pair_set(r: Registers, p: Pair, v: u16) -> Registers {
    match p {
        Pair::AF => Registers { f: flags_from_byte(hi_byte(v)), a: lo_byte(v), ..r },
        Pair::BC => Registers { c: hi_byte(v), b: lo_byte(v), ..r },
        Pair::DE => Registers { e: hi_byte(v), d: lo_byte(v), ..r },
        Pair::HL => Registers { l: hi_byte(v), h: lo_byte(v), ..r },
    }
}

impl Registers {
    /// The documented power-on register state.
    pub fn new() -> (r: Registers)
        ensures
            r == (Registers {
                a: 0x01,
                b: 0x00,
                c: 0x13,
                d: 0x00,
                e: 0xD8,
                f: flags_from_byte(0xB0),
                h: 0x01,
                l: 0x4D,
            }),
    {
        Registers {
            a: 0x01,
            b: 0x00,
            c: 0x13,
            d: 0x00,
            e: 0xD8,
            f: Flags::from(0xB0u8),
            h: 0x01,
            l: 0x4D,
        }
    }

    /// The value of the named single register.
    pub fn get8(&self, n: Reg) -> (v: u8)
        ensures
            v == spec_get8(*self, n),
    {
        match n {
            Reg::A => self.a,
            Reg::B => self.b,
            Reg::C => self.c,
            Reg::D => self.d,
            Reg::E => self.e,
            Reg::H => self.h,
            Reg::L => self.l,
        }
    }

    /// Stores into the named single register.
    pub fn set8(&mut self, n: Reg, v: u8)
        ensures
            *final(self) == spec_set8(*old(self), n, v),
    {
        match n {
            Reg::A => self.a = v,
            Reg::B => self.b = v,
            Reg::C => self.c = v,
            Reg::D => self.d = v,
            Reg::E => self.e = v,
            Reg::H => self.h = v,
            Reg::L => self.l = v,
        }
    }

    /// First 16-bit register pair.
    pub fn af(&self) -> (v: u16)
        ensures
            v == spec_pair_get(*self, Pair::AF),
    {
        (u8::from(self.f) as u16) * 256 + self.a as u16
    }

    pub fn set_af(&mut self, v: u16)
        ensures
            *final(self) == spec_pair_set(*old(self), Pair::AF, v),
    {
        self.f = Flags::from((v / 256) as u8);
        self.a = (v % 256) as u8;
    }

    /// Second 16-bit register pair.
    pub fn bc(&self) -> (v: u16)
        ensures
            v == spec_pair_get(*self, Pair::BC),
    {
        (self.c as u16) * 256 + self.b as u16
    }

    pub fn set_bc(&mut self, v: u16)
        ensures
            *final(self) == spec_pair_set(*old(self), Pair::BC, v),
    {
        self.c = (v / 256) as u8;
        self.b = (v % 256) as u8;
    }

    /// Third 16-bit register pair.
    pub fn de(&self) -> (v: u16)
        ensures
            v == spec_pair_get(*self, Pair::DE),
    {
        (self.e as u16) * 256 + self.d as u16
    }

    pub fn set_de(&mut self, v: u16)
        ensures
            *final(self) == spec_pair_set(*old(self), Pair::DE, v),
    {
        self.e = (v / 256) as u8;
        self.d = (v % 256) as u8;
    }

    /// Fourth 16-bit register pair.
    pub fn hl(&self) -> (v: u16)
        ensures
            v == spec_pair_get(*self, Pair::HL),
    {
        (self.l as u16) * 256 + self.h as u16
    }

    pub fn set_hl(&mut self, v: u16)
        ensures
            *final(self) == spec_pair_set(*old(self), Pair::HL, v),
    {
        self.l = (v / 256) as u8;
        self.h = (v % 256) as u8;
    }

    /// The value of the register pair with the given name.
    pub fn pair_get(&self, p: Pair) -> (v: u16)
        ensures
            v == spec_pair_get(*self, p),
    {
        match p {
            Pair::AF => self.af(),
            Pair::BC => self.bc(),
            Pair::DE => self.de(),
            Pair::HL => self.hl(),
        }
    }

    /// A 16-bit store into the register pair with the given name; both
    /// halves are written together.
    pub fn pair_set(&mut self, p: Pair, v: u16)
        ensures
            *final(self) == spec_pair_set(*old(self), p, v),
    {
        match p {
            Pair::AF => self.set_af(v),
            Pair::BC => self.set_bc(v),
            Pair::DE => self.set_de(v),
            Pair::HL => self.set_hl(v),
        }
    }
}

/// Law: storing a word into a register pair and reading the pair back
/// gives the word again, for any register file and any of the four
/// pairs.  AF is the one pair that cannot hold an arbitrary word: its
/// high byte lands in the flag byte, whose low nibble is hard-wired to
/// zero, so the word's bits 8 to 11 must be clear for the round trip
/// to close.
pub proof fn lemma_pair_roundtrip(r: Registers, p: Pair, v: u16)
    requires
        p == Pair::AF ==> v / 256 % 16 == 0,
    ensures
        spec_pair_get(spec_pair_set(r, p, v), p) == v,
{
    if p == Pair::AF {
        assert(hi_byte(v) % 16 == 0);
        crate::flags::lemma_byte_roundtrip(hi_byte(v));
    }
}

} // verus!
