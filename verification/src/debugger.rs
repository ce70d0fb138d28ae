//! The debugger core: breakpoints, the step gate, and the hex preview
//! of upcoming instruction bytes.
//!
//! The interactive front end around it owns the terminal: it shows the
//! trace, reads keys, and flips `stop` accordingly.  Everything that
//! decides or computes — whether a breakpoint fired, whether the next
//! step may execute, and what the byte preview says — lives here.

use vstd::prelude::*;
use vstd::string::*;

use crate::bus::MemoryBus;
use crate::cpu::{spec_decode_at, step_spec, CpuView, ExecError, CPU};
use crate::registers::Registers;
use crate::words::wrap16;

verus! {

/// The hexadecimal digit of a value below 16, upper case.
pub open spec fn hex_digit_char(n: u8) -> char {
    if n == 0 {
        '0'
    } else if n == 1 {
        '1'
    } else if n == 2 {
        '2'
    } else if n == 3 {
        '3'
    } else if n == 4 {
        '4'
    } else if n == 5 {
        '5'
    } else if n == 6 {
        '6'
    } else if n == 7 {
        '7'
    } else if n == 8 {
        '8'
    } else if n == 9 {
        '9'
    } else if n == 10 {
        'A'
    } else if n == 11 {
        'B'
    } else if n == 12 {
        'C'
    } else if n == 13 {
        'D'
    } else if n == 14 {
        'E'
    } else {
        'F'
    }
}

/// A byte in upper-case hexadecimal without a leading zero: one digit
/// below 16, two digits from 16 up.
pub open spec fn hex_byte_chars(b: u8) -> Seq<char> {
    if b < 16 {
        seq![hex_digit_char(b)]
    } else {
        seq![hex_digit_char(b / 16), hex_digit_char(b % 16)]
    }
}

/// Hexadecimal bytes joined with a comma and a space.
pub open spec fn hex_join(bytes: Seq<u8>) -> Seq<char>
    decreases bytes.len(),
{
    if bytes.len() == 0 {
        Seq::empty()
    } else if bytes.len() == 1 {
        hex_byte_chars(bytes[0])
    } else {
        hex_join(bytes.drop_last()) + seq![',', ' '] + hex_byte_chars(bytes.last())
    }
}

/// The `n` bytes that follow the byte at `pc`, addresses wrapping at
/// 16 bits.
pub open spec fn bytes_after(mem: Seq<u8>, pc: u16, n: nat) -> Seq<u8> {
    Seq::new(n, |i: int| mem[wrap16(pc + 1 + i) as int])
}

/// Appends one hexadecimal digit.
fn push_hex_digit(s: &mut String, n: u8)
    requires
        n < 16,
    ensures
        final(s)@ == old(s)@ + seq![hex_digit_char(n)],
{
    let d: &str = match n {
        0 => "0",
        1 => "1",
        2 => "2",
        3 => "3",
        4 => "4",
        5 => "5",
        6 => "6",
        7 => "7",
        8 => "8",
        9 => "9",
        10 => "A",
        11 => "B",
        12 => "C",
        13 => "D",
        14 => "E",
        _ => "F",
    };
    proof {
        reveal_strlit("0");
        reveal_strlit("1");
        reveal_strlit("2");
        reveal_strlit("3");
        reveal_strlit("4");
        reveal_strlit("5");
        reveal_strlit("6");
        reveal_strlit("7");
        reveal_strlit("8");
        reveal_strlit("9");
        reveal_strlit("A");
        reveal_strlit("B");
        reveal_strlit("C");
        reveal_strlit("D");
        reveal_strlit("E");
        reveal_strlit("F");
        assert(d@ =~= seq![hex_digit_char(n)]);
    }
    s.append(d);
}

/// Appends one byte in hexadecimal, without a leading zero.
fn push_hex_byte(s: &mut String, b: u8)
    ensures
        final(s)@ == old(s)@ + hex_byte_chars(b),
{
    if b >= 16 {
        push_hex_digit(s, b / 16);
    }
    push_hex_digit(s, b % 16);
    proof {
        assert(final(s)@ =~= old(s)@ + hex_byte_chars(b));
    }
}

/// The debugger: the engine it steps, the breakpoint list, and the two
/// gates of the interactive loop.
pub struct Debugger {
    pub cpu: CPU,
    pub debugging: bool,
    pub breakpoints: Vec<u16>,
    pub stop: bool,
}

impl Debugger {
    /// A debugger over a fresh engine on the given bus, with the
    /// default breakpoint list armed.
    pub fn new(memory: MemoryBus) -> (d: Debugger)
        ensures
            d.cpu@ == (CpuView {
                regs: Registers {
                    a: 0x01,
                    b: 0x00,
                    c: 0x13,
                    d: 0x00,
                    e: 0xD8,
                    f: crate::flags::flags_from_byte(0xB0),
                    h: 0x01,
                    l: 0x4D,
                },
                pc: 0,
                sp: 0xFFFE,
                mem: memory@,
            }),
            d.debugging,
            !d.stop,
            d.breakpoints@ == seq![0x100u16, 0x150u16, 0x152u16],
    {
        let cpu = CPU::new(memory);
        Debugger { cpu, debugging: true, breakpoints: vec![0x100, 0x150, 0x152], stop: false }
    }

    /// Arms the stop gate when the engine stands on a breakpoint; an
    /// already armed gate stays armed.
    pub fn check_breakpoints(&mut self)
        ensures
            final(self).stop == (old(self).stop || old(self).breakpoints@.contains(
                old(self).cpu.pc,
            )),
            final(self).cpu == old(self).cpu,
            final(self).debugging == old(self).debugging,
            final(self).breakpoints == old(self).breakpoints,
    {
        let n = self.breakpoints.len();
        let mut i: usize = 0;
        let mut hit = false;
        while i < n
            invariant
                *self == *old(self),
                n == self.breakpoints@.len(),
                i <= n,
                hit == exists|j: int| 0 <= j < i && self.breakpoints@[j] == self.cpu.pc,
            decreases n - i,
        {
            if self.breakpoints[i] == self.cpu.pc {
                hit = true;
            }
            i += 1;
        }
        if hit {
            self.stop = true;
        }
    }

    /// One turn of the run loop's decision: steps the engine unless
    /// debugging has armed the stop gate, in which case nothing moves.
    pub fn advance(&mut self) -> (r: Option<Result<(), ExecError>>)
        ensures
            old(self).debugging && old(self).stop ==> r is None && *final(self) == *old(self),
            !(old(self).debugging && old(self).stop) ==> ({
                let outcome = step_spec(old(self).cpu@, spec_decode_at(old(self).cpu@));
                &&& r == Some(outcome.result)
                &&& final(self).cpu@ == outcome.post
                &&& final(self).debugging == old(self).debugging
                &&& final(self).stop == old(self).stop
                &&& final(self).breakpoints == old(self).breakpoints
            }),
    {
        if !self.debugging || !self.stop {
            Some(self.cpu.step())
        } else {
            None
        }
    }

    /// The given number of bytes after the one the engine stands on,
    /// in upper-case hexadecimal, joined with a comma and a space.
    pub fn get_next_bytes(&self, nbytes: u8) -> (s: String)
        ensures
            s@ == hex_join(bytes_after(self.cpu@.mem, self.cpu.pc, nbytes as nat)),
    {
        let ghost all = bytes_after(self.cpu@.mem, self.cpu.pc, nbytes as nat);
        let mut bytes_str = String::new();
        let mut pc = self.cpu.pc;
        let mut k: u8 = 0;
        while k < nbytes
            invariant
                k <= nbytes,
                pc == wrap16(self.cpu.pc + k),
                all == bytes_after(self.cpu@.mem, self.cpu.pc, nbytes as nat),
                bytes_str@ == hex_join(all.take(k as int)),
            decreases nbytes - k,
        {
            pc = pc.wrapping_add(1);
            let b = self.cpu.memory.read(pc);
            proof {
                assert(pc == wrap16(self.cpu.pc + 1 + k));
                assert(b == all[k as int]);
            }
            if k > 0 {
                let sep: &str = ", ";
                proof {
                    reveal_strlit(", ");
                    assert(sep@ =~= seq![',', ' ']);
                }
                bytes_str.append(sep);
            }
            push_hex_byte(&mut bytes_str, b);
            k += 1;
            proof {
                assert(all.take(k as int).drop_last() =~= all.take(k as int - 1));
                assert(all.take(k as int).last() == all[k as int - 1]);
                assert(bytes_str@ =~= hex_join(all.take(k as int)));
            }
        }
        proof {
            assert(all.take(nbytes as int) =~= all);
        }
        bytes_str
    }
}

} // verus!
