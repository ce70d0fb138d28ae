use gb_core::bus::MemoryBus;
use gb_core::cpu::{ExecError, CPU};
use gb_core::opcodes::decode;

/// An engine whose memory starts with the given program bytes at
/// address zero and is zero elsewhere, with PC at zero.
fn cpu_with_program(program: &[u8]) -> CPU {
    let mut bus = MemoryBus::new();
    for (i, &b) in program.iter().enumerate() {
        bus.write(i as u16, b);
    }
    CPU::new(bus)
}

#[test]
fn add_a_a_sets_half_carry() {
    // ADD A,A with A = 0x0F: 0x0F + 0x0F = 0x1E, low nibbles overflow.
    let mut cpu = cpu_with_program(&[0x87]);
    cpu.registers.a = 0x0F;
    assert_eq!(cpu.step(), Ok(()));
    assert_eq!(cpu.registers.a, 0x1E);
    assert!(!cpu.registers.f.zero);
    assert!(cpu.registers.f.half_carry);
    assert!(!cpu.registers.f.carry);
    assert!(!cpu.registers.f.subtract);
    assert_eq!(cpu.pc, 1);
}

#[test]
fn add_a_imm_wraps_and_carries() {
    // ADD A,n8 with A = 0xFF and immediate 0x01 wraps to zero.
    let mut cpu = cpu_with_program(&[0xC6, 0x01]);
    cpu.registers.a = 0xFF;
    assert_eq!(cpu.step(), Ok(()));
    assert_eq!(cpu.registers.a, 0x00);
    assert!(cpu.registers.f.zero);
    assert!(cpu.registers.f.carry);
    assert!(cpu.registers.f.half_carry);
    assert!(!cpu.registers.f.subtract);
    assert_eq!(cpu.pc, 2);
}

#[test]
fn sub_a_b_to_zero() {
    // SUB A,B with A = B = 0x05.
    let mut cpu = cpu_with_program(&[0x90]);
    cpu.registers.a = 0x05;
    cpu.registers.b = 0x05;
    assert_eq!(cpu.step(), Ok(()));
    assert_eq!(cpu.registers.a, 0x00);
    assert!(cpu.registers.f.zero);
    assert!(cpu.registers.f.subtract);
    assert!(!cpu.registers.f.carry);
    assert!(!cpu.registers.f.half_carry);
}

#[test]
fn cp_a_imm_borrows_and_keeps_a() {
    // CP A,n8 with A = 0x10 against 0x20: flags of the subtraction,
    // accumulator untouched.
    let mut cpu = cpu_with_program(&[0xFE, 0x20]);
    cpu.registers.a = 0x10;
    assert_eq!(cpu.step(), Ok(()));
    assert!(!cpu.registers.f.zero);
    assert!(cpu.registers.f.subtract);
    assert!(cpu.registers.f.carry);
    assert_eq!(cpu.registers.a, 0x10);
    assert_eq!(cpu.pc, 2);
}

#[test]
fn jp_nz_does_not_fire_on_set_zero_flag() {
    // JP NZ,a16 with the zero flag set: the address bytes are still
    // consumed, nothing else moves.
    let mut cpu = cpu_with_program(&[0xC2, 0x34, 0x12]);
    cpu.registers.f.zero = true;
    let regs_before = cpu.registers;
    assert_eq!(cpu.step(), Ok(()));
    assert_eq!(cpu.pc, 3);
    assert_eq!(cpu.registers, regs_before);
}

#[test]
fn jp_nz_fires_on_clear_zero_flag() {
    let mut cpu = cpu_with_program(&[0xC2, 0x34, 0x12]);
    cpu.registers.f.zero = false;
    assert_eq!(cpu.step(), Ok(()));
    assert_eq!(cpu.pc, 0x1234);
}

#[test]
fn jp_unconditional() {
    let mut cpu = cpu_with_program(&[0xC3, 0xCD, 0xAB]);
    assert_eq!(cpu.step(), Ok(()));
    assert_eq!(cpu.pc, 0xABCD);
}

#[test]
fn jp_c_follows_carry() {
    let mut cpu = cpu_with_program(&[0xDA, 0x00, 0x40]);
    cpu.registers.f.carry = true;
    assert_eq!(cpu.step(), Ok(()));
    assert_eq!(cpu.pc, 0x4000);

    let mut cpu = cpu_with_program(&[0xDA, 0x00, 0x40]);
    cpu.registers.f.carry = false;
    assert_eq!(cpu.step(), Ok(()));
    assert_eq!(cpu.pc, 3);
}

#[test]
fn ld_bc_n16_is_little_endian() {
    // LD BC,n16 with bytes [0x34, 0x12] after the opcode.
    let mut cpu = cpu_with_program(&[0x01, 0x34, 0x12]);
    assert_eq!(cpu.step(), Ok(()));
    assert_eq!(cpu.registers.bc(), 0x1234);
    assert_eq!(cpu.pc, 3);
}

#[test]
fn undecodable_opcode_is_fatal() {
    // 0xD3 has no table entry at all.
    let mut cpu = cpu_with_program(&[0xD3]);
    assert_eq!(cpu.step(), Err(ExecError::Fatal { opcode: 0xD3, address: 0 }));
    assert_eq!(cpu.pc, 1);
}

#[test]
fn unwired_opcode_is_recoverable_and_consumes_operands() {
    // 0x36 (a store of an immediate through HL) decodes with one
    // operand byte but has no routine wired: the error names it and PC
    // stands past the operand.
    let mut cpu = cpu_with_program(&[0x36, 0x55]);
    let regs_before = cpu.registers;
    assert_eq!(cpu.step(), Err(ExecError::Unimplemented { opcode: 0x36 }));
    assert_eq!(cpu.pc, 2);
    assert_eq!(cpu.registers, regs_before);
}

#[test]
fn escape_opcode_is_recoverable_and_two_bytes_long() {
    let mut cpu = cpu_with_program(&[0xCB, 0x11]);
    assert_eq!(cpu.step(), Err(ExecError::Unimplemented { opcode: 0xCB }));
    assert_eq!(cpu.pc, 2);
}

#[test]
fn rst_pushes_return_address_on_memory_stack() {
    // RST 0x08 at address 0x0150: the return address 0x0151 lands at
    // SP-2 low byte first, SP drops by two, PC becomes the target.
    let mut cpu = cpu_with_program(&[]);
    cpu.memory.write(0x0150, 0xCF);
    cpu.pc = 0x0150;
    assert_eq!(cpu.sp, 0xFFFE);
    assert_eq!(cpu.step(), Ok(()));
    assert_eq!(cpu.sp, 0xFFFC);
    assert_eq!(cpu.memory.read(0xFFFC), 0x51);
    assert_eq!(cpu.memory.read(0xFFFD), 0x01);
    assert_eq!(cpu.pc, 0x0008);
}

#[test]
fn ld_a16_a_stores_accumulator() {
    let mut cpu = cpu_with_program(&[0xEA, 0x00, 0x80]);
    cpu.registers.a = 0x5A;
    assert_eq!(cpu.step(), Ok(()));
    assert_eq!(cpu.memory.read(0x8000), 0x5A);
    assert_eq!(cpu.pc, 3);
}

#[test]
fn ld_a_de_loads_indirect() {
    let mut cpu = cpu_with_program(&[0x1A]);
    cpu.registers.set_de(0x2000);
    cpu.memory.write(0x2000, 0x77);
    assert_eq!(cpu.step(), Ok(()));
    assert_eq!(cpu.registers.a, 0x77);
}

#[test]
fn ld_a_a16_loads_absolute() {
    let mut cpu = cpu_with_program(&[0xFA, 0x00, 0x90]);
    cpu.memory.write(0x9000, 0x42);
    assert_eq!(cpu.step(), Ok(()));
    assert_eq!(cpu.registers.a, 0x42);
    assert_eq!(cpu.pc, 3);
}

#[test]
fn ld_hl_inc_a_stores_and_bumps_hl() {
    let mut cpu = cpu_with_program(&[0x22]);
    cpu.registers.set_hl(0x8000);
    cpu.registers.a = 0x99;
    assert_eq!(cpu.step(), Ok(()));
    assert_eq!(cpu.memory.read(0x8000), 0x99);
    assert_eq!(cpu.registers.hl(), 0x8001);
}

#[test]
fn ld_between_registers() {
    let mut cpu = cpu_with_program(&[0x44]);  // LD B,H
    cpu.registers.h = 0xAB;
    assert_eq!(cpu.step(), Ok(()));
    assert_eq!(cpu.registers.b, 0xAB);

    let mut cpu = cpu_with_program(&[0x78]);  // LD A,B
    cpu.registers.b = 0x12;
    assert_eq!(cpu.step(), Ok(()));
    assert_eq!(cpu.registers.a, 0x12);
}

#[test]
fn ld_immediate_into_register() {
    let mut cpu = cpu_with_program(&[0x3E, 0x7F]);  // LD A,n8
    assert_eq!(cpu.step(), Ok(()));
    assert_eq!(cpu.registers.a, 0x7F);
    assert_eq!(cpu.pc, 2);

    let mut cpu = cpu_with_program(&[0x26, 0x80]);  // LD H,n8
    assert_eq!(cpu.step(), Ok(()));
    assert_eq!(cpu.registers.h, 0x80);
}

#[test]
fn inc_de_wraps_at_16_bits() {
    let mut cpu = cpu_with_program(&[0x13]);
    cpu.registers.set_de(0xFFFF);
    assert_eq!(cpu.step(), Ok(()));
    assert_eq!(cpu.registers.de(), 0x0000);
}

#[test]
fn dec_b_wraps_at_8_bits() {
    let mut cpu = cpu_with_program(&[0x05]);
    cpu.registers.b = 0;
    assert_eq!(cpu.step(), Ok(()));
    assert_eq!(cpu.registers.b, 0xFF);
}

#[test]
fn dec_bc_wraps_at_16_bits() {
    let mut cpu = cpu_with_program(&[0x0B]);
    cpu.registers.set_bc(0x0000);
    assert_eq!(cpu.step(), Ok(()));
    assert_eq!(cpu.registers.bc(), 0xFFFF);
}

#[test]
fn or_a_c_sets_zero_and_clears_the_rest() {
    let mut cpu = cpu_with_program(&[0xB1]);
    cpu.registers.a = 0x00;
    cpu.registers.c = 0x00;
    cpu.registers.f.subtract = true;
    cpu.registers.f.carry = true;
    cpu.registers.f.half_carry = true;
    assert_eq!(cpu.step(), Ok(()));
    assert_eq!(cpu.registers.a, 0x00);
    assert!(cpu.registers.f.zero);
    assert!(!cpu.registers.f.subtract);
    assert!(!cpu.registers.f.half_carry);
    assert!(!cpu.registers.f.carry);

    let mut cpu = cpu_with_program(&[0xB1]);
    cpu.registers.a = 0xF0;
    cpu.registers.c = 0x0F;
    assert_eq!(cpu.step(), Ok(()));
    assert_eq!(cpu.registers.a, 0xFF);
    assert!(!cpu.registers.f.zero);
}

#[test]
fn nop_only_advances_pc() {
    let mut cpu = cpu_with_program(&[0x00]);
    let regs_before = cpu.registers;
    assert_eq!(cpu.step(), Ok(()));
    assert_eq!(cpu.pc, 1);
    assert_eq!(cpu.registers, regs_before);
}

#[test]
fn execute_takes_an_already_decoded_instruction() {
    let mut cpu = cpu_with_program(&[0x00, 0x02]);
    cpu.registers.a = 0x10;
    let instruction = decode(0x87, 0x00);  // ADD A,A, decoded by hand
    assert_eq!(cpu.execute(instruction), Ok(()));
    assert_eq!(cpu.registers.a, 0x20);
    assert_eq!(cpu.pc, 1);
}

#[test]
fn engine_starts_at_the_documented_power_on_state() {
    let cpu = cpu_with_program(&[]);
    assert_eq!(cpu.pc, 0x0000);
    assert_eq!(cpu.sp, 0xFFFE);
    assert_eq!(cpu.registers.a, 0x01);
    assert_eq!(cpu.registers.e, 0xD8);
    assert_eq!(u8::from(cpu.registers.f), 0xB0);
}
