//! The execution engine: fetch, decode, execute, one instruction per
//! step.
//!
//! The engine owns the register file, the program counter, the stack
//! pointer and the memory bus.  One step reads the opcode at PC,
//! decodes it, advances PC past the opcode and past each operand byte
//! as it is consumed, applies the semantic effect and recomputes the
//! flags the operation specifies.  The call stack is the memory itself:
//! a restart pushes the return address at SP-2/SP-1 and decrements SP
//! by two.  All register and counter arithmetic wraps at its width and
//! is never rejected.
//!
//! The whole step semantics is captured by [`step_spec`], a function
//! from the machine model and a decoded instruction to the next model
//! and the step's result; `execute` and `step` are proved against it.

use vstd::prelude::*;

use crate::bus::{MemoryBus, BUS_SIZE};
use crate::flags::Flags;
use crate::opcodes::{decode, spec_decode, Cond, Instruction, Mnemonic};
use crate::registers::{spec_get8, spec_pair_get, spec_pair_set, spec_set8, Pair, Reg, Registers};
use crate::words::{hi_byte, lo_byte, word_of, wrap16, wrap8};

verus! {

/// The two ways an execution step can fail.
///
/// A `Fatal` error means the opcode has no table entry at all: the run
/// must stop, and the error carries the offending byte and the address
/// it was fetched from.  An `Unimplemented` error means the opcode
/// decoded but its routine is not wired: the program counter has
/// already advanced past the instruction's bytes, and the caller may
/// log and continue or halt at its own discretion.
#[derive(Debug, Clone, Copy, PartialEq, Eq, Structural)]
pub enum ExecError {
    Fatal { opcode: u8, address: u16 },
    Unimplemented { opcode: u8 },
}

/// The mathematical model of the whole machine: register file, program
/// counter, stack pointer and memory image.
#[verifier::ext_equal]
pub ghost struct CpuView {
    pub regs: Registers,
    pub pc: u16,
    pub sp: u16,
    pub mem: Seq<u8>,
}

/// What one step leaves behind: the next machine model and the step's
/// result.
#[verifier::ext_equal]
pub ghost struct StepOutcome {
    pub post: CpuView,
    pub result: Result<(), ExecError>,
}

/// The byte at an address of the model's memory.
pub open spec fn mem_at(s: CpuView, addr: u16) -> u8 {
    s.mem[addr as int]
}

/// The model with the program counter replaced.
pub open spec fn with_pc(s: CpuView, pc: u16) -> CpuView {
    CpuView { pc, ..s }
}

/// The model with the program counter advanced by `n`, wrapping at 16
/// bits.
pub open spec fn bump_pc(s: CpuView, n: int) -> CpuView {
    CpuView { pc: wrap16(s.pc + n), ..s }
}

/// The immediate byte of a model whose program counter rests on the
/// first operand byte.
pub open spec fn imm8(s: CpuView) -> u8 {
    mem_at(s, s.pc)
}

/// The immediate 16-bit word of such a model, in little-endian operand
/// order: the low byte first, the high byte second.
pub open spec fn imm16(s: CpuView) -> u16 {
    word_of(mem_at(s, wrap16(s.pc + 1)), mem_at(s, s.pc))
}

/// The flags of an 8-bit addition: zero iff the wrapped result is zero,
/// subtract clear, half-carry iff bit 3 overflowed into bit 4, carry
/// iff the unsigned sum passed the 8-bit boundary.
pub open spec fn add_flags(a: u8, v: u8) -> Flags {
    Flags {
        zero: (a + v) % 256 == 0,
        subtract: false,
        half_carry: a % 16 + v % 16 > 15,
        carry: a + v > 255,
    }
}

/// The flags of an 8-bit subtraction: zero iff the operands are equal,
/// subtract set, half-carry iff the low nibble borrowed, carry iff the
/// whole subtraction borrowed.
pub open spec fn sub_flags(a: u8, v: u8) -> Flags {
    Flags { zero: a == v, subtract: true, half_carry: a % 16 < v % 16, carry: a < v }
}

/// The flags of a logical operation: zero reflects the result, the
/// other three are cleared.
pub open spec fn logic_flags(result: u8) -> Flags {
    Flags { zero: result == 0, subtract: false, half_carry: false, carry: false }
}

/// The model after adding `v` into the accumulator.
pub open spec fn spec_add_a(s: CpuView, v: u8) -> CpuView {
    CpuView {
        regs: Registers { a: wrap8(s.regs.a + v), f: add_flags(s.regs.a, v), ..s.regs },
        ..s
    }
}

/// The model after subtracting `v` from the accumulator.
pub open spec fn spec_sub_a(s: CpuView, v: u8) -> CpuView {
    CpuView {
        regs: Registers { a: wrap8(s.regs.a - v), f: sub_flags(s.regs.a, v), ..s.regs },
        ..s
    }
}

/// The model after pushing a 16-bit word on the memory stack: SP drops
/// by two and the word lands at the new SP, low byte first.
pub open spec fn spec_push16(s: CpuView, v: u16) -> CpuView {
    let sp2 = wrap16(s.sp - 2);
    CpuView {
        sp: sp2,
        mem: s.mem.update(sp2 as int, lo_byte(v)).update(wrap16(sp2 + 1) as int, hi_byte(v)),
        ..s
    }
}

/// Whether a control-transfer condition holds of a flag set.
pub open spec fn spec_cond(c: Cond, f: Flags) -> bool {
    match c {
        Cond::Always => true,
        Cond::NotZero => !f.zero,
        Cond::Carry => f.carry,
    }
}

/// A step that succeeded.
pub open spec fn ok_step(s: CpuView) -> StepOutcome {
    StepOutcome { post: s, result: Ok(()) }
}

/// The semantics of one execution step on a machine model, given the
/// already-decoded instruction.  The opcode byte has been fetched, so
/// the step begins by moving PC past it; every consumed operand byte
/// moves PC further.  A conditional jump that does not fire still
/// consumes its address bytes.  A fatal opcode leaves the machine as it
/// stood after the opcode fetch; an unimplemented one advances PC past
/// the instruction's operand bytes and changes nothing else.
pub open spec fn step_spec(pre: CpuView, instr: Instruction) -> StepOutcome {
    let s = bump_pc(pre, 1);
    match instr.mnemonic {
        Mnemonic::Nop => ok_step(s),
        Mnemonic::AddAReg(r) => ok_step(spec_add_a(s, spec_get8(s.regs, r))),
        Mnemonic::AddAImm => ok_step(spec_add_a(bump_pc(s, 1), imm8(s))),
        Mnemonic::SubAReg(r) => ok_step(spec_sub_a(s, spec_get8(s.regs, r))),
        Mnemonic::CpAImm => {
            let s2 = bump_pc(s, 1);
            ok_step(CpuView { regs: Registers { f: sub_flags(s.regs.a, imm8(s)), ..s2.regs }, ..s2 })
        },
        Mnemonic::OrAReg(r) => {
            let result = s.regs.a | spec_get8(s.regs, r);
            ok_step(CpuView { regs: Registers { a: result, f: logic_flags(result), ..s.regs }, ..s })
        },
        Mnemonic::LdRegReg(dst, src) => ok_step(
            CpuView { regs: spec_set8(s.regs, dst, spec_get8(s.regs, src)), ..s },
        ),
        Mnemonic::LdRegImm(dst) => {
            let s2 = bump_pc(s, 1);
            ok_step(CpuView { regs: spec_set8(s2.regs, dst, imm8(s)), ..s2 })
        },
        Mnemonic::LdAMemDe => ok_step(
            CpuView {
                regs: Registers { a: mem_at(s, spec_pair_get(s.regs, Pair::DE)), ..s.regs },
                ..s
            },
        ),
        Mnemonic::LdAMemImm => {
            let s2 = bump_pc(s, 2);
            ok_step(CpuView { regs: Registers { a: mem_at(s, imm16(s)), ..s2.regs }, ..s2 })
        },
        Mnemonic::LdMemImmA => {
            let s2 = bump_pc(s, 2);
            ok_step(CpuView { mem: s.mem.update(imm16(s) as int, s.regs.a), ..s2 })
        },
        Mnemonic::LdMemHlIncA => {
            let hl = spec_pair_get(s.regs, Pair::HL);
            ok_step(
                CpuView {
                    mem: s.mem.update(hl as int, s.regs.a),
                    regs: spec_pair_set(s.regs, Pair::HL, wrap16(hl + 1)),
                    ..s
                },
            )
        },
        Mnemonic::LdPairImm(p) => {
            let s2 = bump_pc(s, 2);
            ok_step(CpuView { regs: spec_pair_set(s2.regs, p, imm16(s)), ..s2 })
        },
        Mnemonic::IncPair(p) => ok_step(
            CpuView { regs: spec_pair_set(s.regs, p, wrap16(spec_pair_get(s.regs, p) + 1)), ..s },
        ),
        Mnemonic::DecReg(r) => ok_step(
            CpuView { regs: spec_set8(s.regs, r, wrap8(spec_get8(s.regs, r) - 1)), ..s },
        ),
        Mnemonic::DecPair(p) => ok_step(
            CpuView { regs: spec_pair_set(s.regs, p, wrap16(spec_pair_get(s.regs, p) - 1)), ..s },
        ),
        Mnemonic::Jp(c) => {
            let s2 = bump_pc(s, 2);
            if spec_cond(c, s.regs.f) {
                ok_step(with_pc(s2, imm16(s)))
            } else {
                ok_step(s2)
            }
        },
        Mnemonic::Rst(target) => ok_step(with_pc(spec_push16(s, s.pc), target)),
        Mnemonic::Prefix(_) => StepOutcome {
            post: bump_pc(s, instr.length as int),
            result: Err(ExecError::Unimplemented { opcode: instr.code }),
        },
        Mnemonic::Unimplemented => StepOutcome {
            post: bump_pc(s, instr.length as int),
            result: Err(ExecError::Unimplemented { opcode: instr.code }),
        },
        Mnemonic::Nyi => StepOutcome {
            post: s,
            result: Err(ExecError::Fatal { opcode: instr.code, address: pre.pc }),
        },
    }
}

/// The instruction that decoding the bytes at the model's program
/// counter yields.
pub open spec fn spec_decode_at(s: CpuView) -> Instruction {
    spec_decode(mem_at(s, s.pc), mem_at(s, wrap16(s.pc + 1)))
}

/// The execution engine.
pub struct CPU {
    pub registers: Registers,
    pub pc: u16,
    pub sp: u16,
    pub memory: MemoryBus,
}

impl View for CPU {
    type V = CpuView;

    open spec fn view(&self) -> CpuView {
        CpuView { regs: self.registers, pc: self.pc, sp: self.sp, mem: self.memory@ }
    }
}

impl CPU {
    /// An engine over the given bus, with the documented power-on
    /// register state, PC at zero and SP at the top of memory.  Callers
    /// that need the platform's entry point set PC themselves before
    /// running.
    pub fn new(memory: MemoryBus) -> (cpu: CPU)
        ensures
            cpu@ == (CpuView {
                regs: Registers {
                    a: 0x01,
                    b: 0x00,
                    c: 0x13,
                    d: 0x00,
                    e: 0xD8,
                    f: crate::flags::flags_from_byte(0xB0),
                    h: 0x01,
                    l: 0x4D,
                },
                pc: 0,
                sp: 0xFFFE,
                mem: memory@,
            }),
    {
        CPU { registers: Registers::new(), pc: 0, sp: 0xFFFE, memory }
    }

    /// Reads one byte off the bus.
    fn read_addr(&self, addr: u16) -> (b: u8)
        ensures
            b == mem_at(self@, addr),
            self@.mem.len() == BUS_SIZE,
    {
        self.memory.read(addr)
    }

    /// Writes one byte to the bus.
    fn write_addr(&mut self, addr: u16, value: u8)
        ensures
            final(self)@ == (CpuView { mem: old(self)@.mem.update(addr as int, value), ..old(self)@ }),
    {
        self.memory.write(addr, value);
    }

    /// Consumes the byte at PC and moves PC past it.
    fn next(&mut self) -> (b: u8)
        ensures
            b == imm8(old(self)@),
            final(self)@ == bump_pc(old(self)@, 1),
    {
        let next = self.read_addr(self.pc);
        self.pc = self.pc.wrapping_add(1);
        next
    }

    /// Consumes a 16-bit operand in little-endian order — low byte
    /// first — and moves PC past both bytes.
    fn next_16b(&mut self) -> (v: u16)
        ensures
            v == imm16(old(self)@),
            final(self)@ == bump_pc(old(self)@, 2),
    {
        let last = self.next();
        let first = self.next();
        (first as u16) * 256 + (last as u16)
    }

    /// Adds a byte into the accumulator, wrapping at 8 bits, and sets
    /// all four flags of the addition.
    fn add_8b(&mut self, digit: u8)
        ensures
            final(self)@ == spec_add_a(old(self)@, digit),
    {
        let sum: u16 = (self.registers.a as u16) + (digit as u16);
        let new_value: u8 = (sum % 256) as u8;
        self.registers.f = Flags {
            zero: new_value == 0,
            subtract: false,
            half_carry: (self.registers.a % 16) + (digit % 16) > 15,
            carry: sum > 255,
        };
        self.registers.a = new_value;
    }

    /// Subtracts a byte from the accumulator, wrapping at 8 bits, and
    /// sets all four flags of the subtraction.
    fn sub_8b(&mut self, digit: u8)
        ensures
            final(self)@ == spec_sub_a(old(self)@, digit),
    {
        let new_value: u8 = self.registers.a.wrapping_sub(digit);
        self.registers.f = Flags {
            zero: self.registers.a == digit,
            subtract: true,
            half_carry: (self.registers.a % 16) < (digit % 16),
            carry: self.registers.a < digit,
        };
        self.registers.a = new_value;
    }

    /// Pushes the current PC on the memory stack and transfers control
    /// to the fixed target address.
    fn restart(&mut self, address: u16)
        ensures
            final(self)@ == with_pc(spec_push16(old(self)@, old(self).pc), address),
    {
        self.sp = self.sp.wrapping_sub(2);
        let lo: u8 = (self.pc % 256) as u8;
        let hi: u8 = (self.pc / 256) as u8;
        self.write_addr(self.sp, lo);
        self.write_addr(self.sp.wrapping_add(1), hi);
        self.pc = address;
    }

    /// Replaces PC with the target address.
    fn jump(&mut self, address: u16)
        ensures
            final(self)@ == with_pc(old(self)@, address),
    {
        self.pc = address;
    }

    /// Increments a register pair, wrapping at 16 bits; no flags move.
    fn inc_pair(&mut self, p: Pair)
        ensures
            final(self)@ == (CpuView {
                regs: spec_pair_set(
                    old(self)@.regs,
                    p,
                    wrap16(spec_pair_get(old(self)@.regs, p) + 1),
                ),
                ..old(self)@
            }),
    {
        let v = self.registers.pair_get(p);
        self.registers.pair_set(p, v.wrapping_add(1));
    }

    /// Decrements a single register, wrapping at 8 bits; no flags move.
    fn dec_reg(&mut self, r: Reg)
        ensures
            final(self)@ == (CpuView {
                regs: spec_set8(old(self)@.regs, r, wrap8(spec_get8(old(self)@.regs, r) - 1)),
                ..old(self)@
            }),
    {
        let v = self.registers.get8(r);
        self.registers.set8(r, v.wrapping_sub(1));
    }

    /// Decrements a register pair, wrapping at 16 bits; no flags move.
    fn dec_pair(&mut self, p: Pair)
        ensures
            final(self)@ == (CpuView {
                regs: spec_pair_set(
                    old(self)@.regs,
                    p,
                    wrap16(spec_pair_get(old(self)@.regs, p) - 1),
                ),
                ..old(self)@
            }),
    {
        let v = self.registers.pair_get(p);
        self.registers.pair_set(p, v.wrapping_sub(1));
    }

    /// Executes the arithmetic and logic operations.
    #[verifier::rlimit(100)]
    fn execute_alu(&mut self, instruction: Instruction) -> (r: Result<(), ExecError>)
        requires
            instruction.mnemonic is AddAReg || instruction.mnemonic is AddAImm
                || instruction.mnemonic is SubAReg || instruction.mnemonic is CpAImm
                || instruction.mnemonic is OrAReg,
        ensures
            final(self)@ == step_spec(old(self)@, instruction).post,
            r == step_spec(old(self)@, instruction).result,
    {
        self.pc = self.pc.wrapping_add(1);
        match instruction.mnemonic {
            Mnemonic::AddAReg(r) => {
                let v = self.registers.get8(r);
                self.add_8b(v);
            },
            Mnemonic::AddAImm => {
                let v = self.next();
                self.add_8b(v);
            },
            Mnemonic::SubAReg(r) => {
                let v = self.registers.get8(r);
                self.sub_8b(v);
            },
            Mnemonic::CpAImm => {
                let digit = self.next();
                self.registers.f = Flags {
                    zero: self.registers.a == digit,
                    subtract: true,
                    half_carry: (self.registers.a % 16) < (digit % 16),
                    carry: self.registers.a < digit,
                };
            },
            _ => {
                let v = match instruction.mnemonic {
                    Mnemonic::OrAReg(r) => self.registers.get8(r),
                    _ => 0,
                };
                let new_value = self.registers.a | v;
                self.registers.f = Flags {
                    zero: new_value == 0,
                    subtract: false,
                    half_carry: false,
                    carry: false,
                };
                self.registers.a = new_value;
            },
        }
        Ok(())
    }

    /// Executes the data-movement operations.
    #[verifier::rlimit(100)]
    fn execute_load(&mut self, instruction: Instruction) -> (r: Result<(), ExecError>)
        requires
            instruction.mnemonic is LdRegReg || instruction.mnemonic is LdRegImm
                || instruction.mnemonic is LdAMemDe || instruction.mnemonic is LdAMemImm
                || instruction.mnemonic is LdMemImmA || instruction.mnemonic is LdMemHlIncA
                || instruction.mnemonic is LdPairImm,
        ensures
            final(self)@ == step_spec(old(self)@, instruction).post,
            r == step_spec(old(self)@, instruction).result,
    {
        self.pc = self.pc.wrapping_add(1);
        match instruction.mnemonic {
            Mnemonic::LdRegReg(dst, src) => {
                let v = self.registers.get8(src);
                self.registers.set8(dst, v);
            },
            Mnemonic::LdRegImm(dst) => {
                let v = self.next();
                self.registers.set8(dst, v);
            },
            Mnemonic::LdAMemDe => {
                let addr = self.registers.de();
                self.registers.a = self.read_addr(addr);
            },
            Mnemonic::LdAMemImm => {
                let addr = self.next_16b();
                self.registers.a = self.read_addr(addr);
            },
            Mnemonic::LdMemImmA => {
                let addr = self.next_16b();
                let a = self.registers.a;
                self.write_addr(addr, a);
            },
            Mnemonic::LdMemHlIncA => {
                let hl = self.registers.hl();
                let a = self.registers.a;
                self.write_addr(hl, a);
                self.registers.set_hl(hl.wrapping_add(1));
            },
            _ => {
                let p = match instruction.mnemonic {
                    Mnemonic::LdPairImm(p) => p,
                    _ => Pair::BC,
                };
                let v = self.next_16b();
                self.registers.pair_set(p, v);
            },
        }
        Ok(())
    }

    /// Executes a register-pair increment.
    #[verifier::rlimit(100)]
    #[verifier::spinoff_prover]
    fn execute_inc_pair(&mut self, instruction: Instruction) -> (r: Result<(), ExecError>)
        requires
            instruction.mnemonic is IncPair,
        ensures
            final(self)@ == step_spec(old(self)@, instruction).post,
            r == step_spec(old(self)@, instruction).result,
    {
        self.pc = self.pc.wrapping_add(1);
        let p = match instruction.mnemonic {
            Mnemonic::IncPair(p) => p,
            _ => Pair::BC,
        };
        self.inc_pair(p);
        Ok(())
    }

    /// Executes a single-register decrement.
    #[verifier::rlimit(100)]
    #[verifier::spinoff_prover]
    fn execute_dec_reg(&mut self, instruction: Instruction) -> (r: Result<(), ExecError>)
        requires
            instruction.mnemonic is DecReg,
        ensures
            final(self)@ == step_spec(old(self)@, instruction).post,
            r == step_spec(old(self)@, instruction).result,
    {
        self.pc = self.pc.wrapping_add(1);
        let n = match instruction.mnemonic {
            Mnemonic::DecReg(n) => n,
            _ => Reg::B,
        };
        self.dec_reg(n);
        Ok(())
    }

    /// Executes a register-pair decrement.
    #[verifier::rlimit(100)]
    #[verifier::spinoff_prover]
    fn execute_dec_pair(&mut self, instruction: Instruction) -> (r: Result<(), ExecError>)
        requires
            instruction.mnemonic is DecPair,
        ensures
            final(self)@ == step_spec(old(self)@, instruction).post,
            r == step_spec(old(self)@, instruction).result,
    {
        self.pc = self.pc.wrapping_add(1);
        let p = match instruction.mnemonic {
            Mnemonic::DecPair(p) => p,
            _ => Pair::BC,
        };
        self.dec_pair(p);
        Ok(())
    }

    /// Executes the control transfers and the two sentinels.
    #[verifier::rlimit(100)]
    #[verifier::spinoff_prover]
    fn execute_control(&mut self, instruction: Instruction) -> (r: Result<(), ExecError>)
        requires
            instruction.mnemonic is Nop || instruction.mnemonic is Jp || instruction.mnemonic
                is Rst || instruction.mnemonic is Prefix || instruction.mnemonic is Unimplemented
                || instruction.mnemonic is Nyi,
        ensures
            final(self)@ == step_spec(old(self)@, instruction).post,
            r == step_spec(old(self)@, instruction).result,
    {
        let fetch_pc = self.pc;
        self.pc = self.pc.wrapping_add(1);
        match instruction.mnemonic {
            Mnemonic::Jp(c) => {
                let address = self.next_16b();
                let fire = match c {
                    Cond::Always => true,
                    Cond::NotZero => !self.registers.f.zero,
                    Cond::Carry => self.registers.f.carry,
                };
                if fire {
                    self.jump(address);
                }
            },
            Mnemonic::Rst(target) => {
                self.restart(target);
            },
            Mnemonic::Prefix(_) | Mnemonic::Unimplemented => {
                self.pc = self.pc.wrapping_add(instruction.length as u16);
                return Err(ExecError::Unimplemented { opcode: instruction.code });
            },
            Mnemonic::Nyi => {
                return Err(ExecError::Fatal { opcode: instruction.code, address: fetch_pc });
            },
            _ => {},
        }
        Ok(())
    }

    /// Executes one already-decoded instruction: the semantic effect,
    /// the flag updates and the PC moves of [`step_spec`], exactly.
    pub fn execute(&mut self, instruction: Instruction) -> (r: Result<(), ExecError>)
        ensures
            final(self)@ == step_spec(old(self)@, instruction).post,
            r == step_spec(old(self)@, instruction).result,
    {
        match instruction.mnemonic {
            Mnemonic::AddAReg(_) | Mnemonic::AddAImm | Mnemonic::SubAReg(_) | Mnemonic::CpAImm
                | Mnemonic::OrAReg(_) => self.execute_alu(instruction),
            Mnemonic::LdRegReg(_, _) | Mnemonic::LdRegImm(_) | Mnemonic::LdAMemDe
                | Mnemonic::LdAMemImm | Mnemonic::LdMemImmA | Mnemonic::LdMemHlIncA
                | Mnemonic::LdPairImm(_) => self.execute_load(instruction),
            Mnemonic::IncPair(_) => self.execute_inc_pair(instruction),
            Mnemonic::DecReg(_) => self.execute_dec_reg(instruction),
            Mnemonic::DecPair(_) => self.execute_dec_pair(instruction),
            Mnemonic::Nop | Mnemonic::Jp(_) | Mnemonic::Rst(_) | Mnemonic::Prefix(_)
                | Mnemonic::Unimplemented | Mnemonic::Nyi => self.execute_control(instruction),
        }
    }

    /// One full step: fetch the opcode at PC off the bus, decode it and
    /// execute it.
    #[verifier::rlimit(100)]
    pub fn step(&mut self) -> (r: Result<(), ExecError>)
        ensures
            final(self)@ == step_spec(old(self)@, spec_decode_at(old(self)@)).post,
            r == step_spec(old(self)@, spec_decode_at(old(self)@)).result,
    {
        let opcode = self.read_addr(self.pc);
        let next_byte = self.read_addr(self.pc.wrapping_add(1));
        let instruction = decode(opcode, next_byte);
        self.execute(instruction)
    }
}

} // verus!
