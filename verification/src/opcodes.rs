//! The instruction decoder: from a raw opcode byte to a structured
//! instruction descriptor.
//!
//! Decoding is a pure function of the opcode byte and — only for the
//! one escape opcode that selects the secondary bit-manipulation table —
//! of the byte that follows it.  The decoder covers all 256 primary
//! entries and never fails: an opcode with no table entry at all
//! decodes to the [`Mnemonic::Nyi`] sentinel, and one that decodes but
//! whose routine is not wired decodes to [`Mnemonic::Unimplemented`];
//! both defer their failure to execution time.  The decoder never
//! advances a program counter.

use vstd::prelude::*;

use crate::registers::{Pair, Reg};

verus! {

/// The condition of a conditional control transfer.
#[derive(Debug, Clone, Copy, PartialEq, Eq, Structural)]
pub enum Cond {
    /// Transfer unconditionally.
    Always,
    /// Transfer when the zero flag is clear.
    NotZero,
    /// Transfer when the carry flag is set.
    Carry,
}

/// The operation of a decoded instruction, with its typed operands.
#[derive(Debug, Clone, Copy, PartialEq, Eq, Structural)]
pub enum Mnemonic {
    /// No operation.
    Nop,
    /// Add a single register into the accumulator.
    AddAReg(Reg),
    /// Add an immediate byte into the accumulator.
    AddAImm,
    /// Subtract a single register from the accumulator.
    SubAReg(Reg),
    /// Compare an immediate byte against the accumulator: subtract
    /// flags, accumulator untouched.
    CpAImm,
    /// Bitwise-or a single register into the accumulator.
    OrAReg(Reg),
    /// Copy one single register into another (destination first).
    LdRegReg(Reg, Reg),
    /// Load an immediate byte into a single register.
    LdRegImm(Reg),
    /// Load the accumulator from the address in DE.
    LdAMemDe,
    /// Load the accumulator from an immediate 16-bit address.
    LdAMemImm,
    /// Store the accumulator at an immediate 16-bit address.
    LdMemImmA,
    /// Store the accumulator at the address in HL, then increment HL.
    LdMemHlIncA,
    /// Load an immediate 16-bit word into a register pair.
    LdPairImm(Pair),
    /// Increment a register pair, wrapping at 16 bits; no flags.
    IncPair(Pair),
    /// Decrement a single register, wrapping at 8 bits; no flags.
    DecReg(Reg),
    /// Decrement a register pair, wrapping at 16 bits; no flags.
    DecPair(Pair),
    /// Absolute jump to an immediate 16-bit address, under a condition.
    Jp(Cond),
    /// Restart: push the return address on the memory stack and jump to
    /// the fixed target.
    Rst(u16),
    /// The escape opcode with its selector byte from the secondary
    /// bit-manipulation table; decodable, with no routine wired.
    Prefix(u8),
    /// A valid opcode whose execution routine is not wired yet;
    /// executing it is a recoverable error.
    Unimplemented,
    /// An opcode with no table entry at all; executing it is fatal.
    Nyi,
}

/// One decoded instruction: the raw opcode, its operation, how many
/// operand bytes follow the opcode (0, 1 or 2), and its cycle cost.
#[derive(Debug, Clone, Copy, PartialEq, Eq, Structural)]
pub struct Instruction {
    pub code: u8,
    pub mnemonic: Mnemonic,
    pub length: u8,
    pub cycles: u8,
}

/// The eleven opcode bytes that have no table entry at all.
pub open spec fn illegal_opcode(op: u8) -> bool {
    op == 0xD3 || op == 0xDB || op == 0xDD || op == 0xE3 || op == 0xE4 || op == 0xEB || op == 0xEC
        || op == 0xED || op == 0xF4 || op == 0xFC || op == 0xFD
}

/// How many operand bytes follow the opcode in the instruction stream.
pub open spec fn spec_extra_len(op: u8) -> u8 {
    if op == 0x01 || op == 0x08 || op == 0x11 || op == 0x21 || op == 0x31 || op == 0xC2 || op
        == 0xC3 || op == 0xC4 || op == 0xCA || op == 0xCC || op == 0xCD || op == 0xD2 || op == 0xD4
        || op == 0xDA || op == 0xDC || op == 0xEA || op == 0xFA {
        2
    } else if op == 0x06 || op == 0x0E || op == 0x10 || op == 0x16 || op == 0x18 || op == 0x1E
        || op == 0x20 || op == 0x26 || op == 0x28 || op == 0x2E || op == 0x30 || op == 0x36 || op
        == 0x38 || op == 0x3E || op == 0xC6 || op == 0xCB || op == 0xCE || op == 0xD6 || op == 0xDE
        || op == 0xE0 || op == 0xE6 || op == 0xE8 || op == 0xEE || op == 0xF0 || op == 0xF6 || op
        == 0xF8 || op == 0xFE {
        1
    } else {
        0
    }
}

/// The operation selected by an opcode byte; `next` is the byte after
/// the opcode and matters only for the escape opcode 0xCB.
pub open spec fn spec_mnemonic(op: u8, next: u8) -> Mnemonic {
    if op == 0x00 {
        Mnemonic::Nop
    } else if op == 0x01 {
        Mnemonic::LdPairImm(Pair::BC)
    } else if op == 0x05 {
        Mnemonic::DecReg(Reg::B)
    } else if op == 0x0B {
        Mnemonic::DecPair(Pair::BC)
    } else if op == 0x11 {
        Mnemonic::LdPairImm(Pair::DE)
    } else if op == 0x13 {
        Mnemonic::IncPair(Pair::DE)
    } else if op == 0x1A {
        Mnemonic::LdAMemDe
    } else if op == 0x21 {
        Mnemonic::LdPairImm(Pair::HL)
    } else if op == 0x22 {
        Mnemonic::LdMemHlIncA
    } else if op == 0x26 {
        Mnemonic::LdRegImm(Reg::H)
    } else if op == 0x3E {
        Mnemonic::LdRegImm(Reg::A)
    } else if op == 0x44 {
        Mnemonic::LdRegReg(Reg::B, Reg::H)
    } else if op == 0x55 {
        Mnemonic::LdRegReg(Reg::D, Reg::L)
    } else if op == 0x6B {
        Mnemonic::LdRegReg(Reg::L, Reg::E)
    } else if op == 0x78 {
        Mnemonic::LdRegReg(Reg::A, Reg::B)
    } else if op == 0x7D {
        Mnemonic::LdRegReg(Reg::A, Reg::L)
    } else if op == 0x80 {
        Mnemonic::AddAReg(Reg::B)
    } else if op == 0x81 {
        Mnemonic::AddAReg(Reg::C)
    } else if op == 0x82 {
        Mnemonic::AddAReg(Reg::D)
    } else if op == 0x83 {
        Mnemonic::AddAReg(Reg::E)
    } else if op == 0x84 {
        Mnemonic::AddAReg(Reg::H)
    } else if op == 0x85 {
        Mnemonic::AddAReg(Reg::L)
    } else if op == 0x87 {
        Mnemonic::AddAReg(Reg::A)
    } else if op == 0x90 {
        Mnemonic::SubAReg(Reg::B)
    } else if op == 0x93 {
        Mnemonic::SubAReg(Reg::E)
    } else if op == 0x95 {
        Mnemonic::SubAReg(Reg::L)
    } else if op == 0xB1 {
        Mnemonic::OrAReg(Reg::C)
    } else if op == 0xC2 {
        Mnemonic::Jp(Cond::NotZero)
    } else if op == 0xC3 {
        Mnemonic::Jp(Cond::Always)
    } else if op == 0xC6 {
        Mnemonic::AddAImm
    } else if op == 0xC7 {
        Mnemonic::Rst(0x0000)
    } else if op == 0xCB {
        Mnemonic::Prefix(next)
    } else if op == 0xCF {
        Mnemonic::Rst(0x0008)
    } else if op == 0xD7 {
        Mnemonic::Rst(0x0010)
    } else if op == 0xDA {
        Mnemonic::Jp(Cond::Carry)
    } else if op == 0xDF {
        Mnemonic::Rst(0x0018)
    } else if op == 0xE7 {
        Mnemonic::Rst(0x0020)
    } else if op == 0xEA {
        Mnemonic::LdMemImmA
    } else if op == 0xEF {
        Mnemonic::Rst(0x0028)
    } else if op == 0xF7 {
        Mnemonic::Rst(0x0030)
    } else if op == 0xFA {
        Mnemonic::LdAMemImm
    } else if op == 0xFE {
        Mnemonic::CpAImm
    } else if op == 0xFF {
        Mnemonic::Rst(0x0038)
    } else if illegal_opcode(op) {
        Mnemonic::Nyi
    } else {
        Mnemonic::Unimplemented
    }
}

/// The cycle cost carried by a descriptor.  Conditional jumps carry the
/// cost of the taken branch; the two sentinels carry the bare fetch
/// cost, since no routine of theirs ever runs to completion.
pub open spec fn cycle_of(m: Mnemonic) -> u8 {
    match m {
        Mnemonic::Nop => 4,
        Mnemonic::AddAReg(_) => 4,
        Mnemonic::AddAImm => 8,
        Mnemonic::SubAReg(_) => 4,
        Mnemonic::CpAImm => 8,
        Mnemonic::OrAReg(_) => 4,
        Mnemonic::LdRegReg(_, _) => 4,
        Mnemonic::LdRegImm(_) => 8,
        Mnemonic::LdAMemDe => 8,
        Mnemonic::LdAMemImm => 16,
        Mnemonic::LdMemImmA => 16,
        Mnemonic::LdMemHlIncA => 8,
        Mnemonic::LdPairImm(_) => 12,
        Mnemonic::IncPair(_) => 8,
        Mnemonic::DecReg(_) => 4,
        Mnemonic::DecPair(_) => 8,
        Mnemonic::Jp(_) => 16,
        Mnemonic::Rst(_) => 16,
        Mnemonic::Prefix(sel) => if sel % 8 == 6 {
            if 0x40 <= sel && sel < 0x80 {
                12
            } else {
                16
            }
        } else {
            8
        },
        Mnemonic::Unimplemented => 4,
        Mnemonic::Nyi => 4,
    }
}

/// The descriptor that `decode` produces for an opcode byte and the
/// byte that follows it.
pub open spec fn spec_decode(op: u8, next: u8) -> Instruction {
    Instruction {
        code: op,
        mnemonic: spec_mnemonic(op, next),
        length: spec_extra_len(op),
        cycles: cycle_of(spec_mnemonic(op, next)),
    }
}

/// How many operand bytes follow the opcode.
fn extra_len(op: u8) -> (n: u8)
    ensures
        n == spec_extra_len(op),
{
    match op {
        0x01 | 0x08 | 0x11 | 0x21 | 0x31 | 0xC2 | 0xC3 | 0xC4 | 0xCA | 0xCC | 0xCD | 0xD2 | 0xD4
            | 0xDA | 0xDC | 0xEA | 0xFA => 2,
        0x06 | 0x0E | 0x10 | 0x16 | 0x18 | 0x1E | 0x20 | 0x26 | 0x28 | 0x2E | 0x30 | 0x36 | 0x38
            | 0x3E | 0xC6 | 0xCB | 0xCE | 0xD6 | 0xDE | 0xE0 | 0xE6 | 0xE8 | 0xEE | 0xF0 | 0xF6
            | 0xF8 | 0xFE => 1,
        _ => 0,
    }
}

/// The cycle cost of a decoded operation.
fn cycles_of(m: &Mnemonic) -> (n: u8)
    ensures
        n == cycle_of(*m),
{
    match m {
        Mnemonic::Nop => 4,
        Mnemonic::AddAReg(_) => 4,
        Mnemonic::AddAImm => 8,
        Mnemonic::SubAReg(_) => 4,
        Mnemonic::CpAImm => 8,
        Mnemonic::OrAReg(_) => 4,
        Mnemonic::LdRegReg(_, _) => 4,
        Mnemonic::LdRegImm(_) => 8,
        Mnemonic::LdAMemDe => 8,
        Mnemonic::LdAMemImm => 16,
        Mnemonic::LdMemImmA => 16,
        Mnemonic::LdMemHlIncA => 8,
        Mnemonic::LdPairImm(_) => 12,
        Mnemonic::IncPair(_) => 8,
        Mnemonic::DecReg(_) => 4,
        Mnemonic::DecPair(_) => 8,
        Mnemonic::Jp(_) => 16,
        Mnemonic::Rst(_) => 16,
        Mnemonic::Prefix(sel) => {
            if *sel % 8 == 6 {
                if 0x40 <= *sel && *sel < 0x80 {
                    12
                } else {
                    16
                }
            } else {
                8
            }
        },
        Mnemonic::Unimplemented => 4,
        Mnemonic::Nyi => 4,
    }
}

/// Decodes one opcode byte into an instruction descriptor.  `next` is
/// the byte following the opcode in the instruction stream; it is
/// consulted only for the escape opcode of the secondary table.
pub fn decode(opcode: u8, next: u8) -> (i: Instruction)
    ensures
        i == spec_decode(opcode, next),
{
    let mnemonic: Mnemonic = match opcode {
        0x00 => Mnemonic::Nop,
        0x01 => Mnemonic::LdPairImm(Pair::BC),
        0x05 => Mnemonic::DecReg(Reg::B),
        0x0B => Mnemonic::DecPair(Pair::BC),
        0x11 => Mnemonic::LdPairImm(Pair::DE),
        0x13 => Mnemonic::IncPair(Pair::DE),
        0x1A => Mnemonic::LdAMemDe,
        0x21 => Mnemonic::LdPairImm(Pair::HL),
        0x22 => Mnemonic::LdMemHlIncA,
        0x26 => Mnemonic::LdRegImm(Reg::H),
        0x3E => Mnemonic::LdRegImm(Reg::A),
        0x44 => Mnemonic::LdRegReg(Reg::B, Reg::H),
        0x55 => Mnemonic::LdRegReg(Reg::D, Reg::L),
        0x6B => Mnemonic::LdRegReg(Reg::L, Reg::E),
        0x78 => Mnemonic::LdRegReg(Reg::A, Reg::B),
        0x7D => Mnemonic::LdRegReg(Reg::A, Reg::L),
        0x80 => Mnemonic::AddAReg(Reg::B),
        0x81 => Mnemonic::AddAReg(Reg::C),
        0x82 => Mnemonic::AddAReg(Reg::D),
        0x83 => Mnemonic::AddAReg(Reg::E),
        0x84 => Mnemonic::AddAReg(Reg::H),
        0x85 => Mnemonic::AddAReg(Reg::L),
        0x87 => Mnemonic::AddAReg(Reg::A),
        0x90 => Mnemonic::SubAReg(Reg::B),
        0x93 => Mnemonic::SubAReg(Reg::E),
        0x95 => Mnemonic::SubAReg(Reg::L),
        0xB1 => Mnemonic::OrAReg(Reg::C),
        0xC2 => Mnemonic::Jp(Cond::NotZero),
        0xC3 => Mnemonic::Jp(Cond::Always),
        0xC6 => Mnemonic::AddAImm,
        0xC7 => Mnemonic::Rst(0x0000),
        0xCB => Mnemonic::Prefix(next),
        0xCF => Mnemonic::Rst(0x0008),
        0xD7 => Mnemonic::Rst(0x0010),
        0xDA => Mnemonic::Jp(Cond::Carry),
        0xDF => Mnemonic::Rst(0x0018),
        0xE7 => Mnemonic::Rst(0x0020),
        0xEA => Mnemonic::LdMemImmA,
        0xEF => Mnemonic::Rst(0x0028),
        0xF7 => Mnemonic::Rst(0x0030),
        0xFA => Mnemonic::LdAMemImm,
        0xFE => Mnemonic::CpAImm,
        0xFF => Mnemonic::Rst(0x0038),
        0xD3 | 0xDB | 0xDD | 0xE3 | 0xE4 | 0xEB | 0xEC | 0xED | 0xF4 | 0xFC | 0xFD => Mnemonic::Nyi,
        _ => Mnemonic::Unimplemented,
    };
    let length = extra_len(opcode);
    let cycles = cycles_of(&mnemonic);
    Instruction { code: opcode, mnemonic, length, cycles }
}

} // verus!
