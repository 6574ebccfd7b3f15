use sm83_core::cpu::opcodes::Opcode;
use sm83_core::cpu::registers::Flag;
use sm83_core::cpu::sm83::execute_instruction;
use sm83_core::cpu::sm83::CpuError;
use sm83_core::cpu::sm83::SM83;
use sm83_core::gb::GB;
use sm83_core::mmu::MMU;

#[test]
fn sm83_test_nop() {
    let mut cpu = SM83::new();
    let mut mmu = MMU::new();
    let opcode = 0x00u8;
    let operation = cpu.operations.lookup(opcode).unwrap();
    match operation {
        Opcode::Unary(instruction, _) => {
            execute_instruction(&mut cpu.registers, &mut mmu, instruction, 0, 0).unwrap();
        }
        _ => panic!("Expected unary operation"),
    }
}

#[test]
fn nop_costs_one_machine_cycle_and_four_ticks() {
    let mut cpu = SM83::new();
    let mut mmu = MMU::new();
    // A fresh cartridge holds zeroes, so the byte at pc is the no-op opcode.
    assert_eq!(cpu.step(&mut mmu), Ok(()));
    assert_eq!(cpu.registers.m, 1);
    assert_eq!(cpu.registers.t, 4);
    assert_eq!(cpu.registers.pc, 1);
}

#[test]
fn increment_b_overflow_end_to_end() {
    let mut mmu = MMU::new();
    let mut cpu = SM83::new();
    // Opcode 0x04: increment register B.
    mmu.write_byte(0x0000, 0x04);
    cpu.registers.b = 0xFF;

    assert_eq!(cpu.step(&mut mmu), Ok(()));

    // The overflow branch does not store the result: B keeps its value and
    // exactly the Carry flag is set.
    assert_eq!(cpu.registers.b, 0xFF);
    assert!(cpu.registers.flags.check(Flag::Carry));
    assert!(!cpu.registers.flags.check(Flag::Zero));
    assert!(!cpu.registers.flags.check(Flag::Subtract));
    assert!(!cpu.registers.flags.check(Flag::HalfCarry));
    assert_eq!(cpu.registers.pc, 1);
    assert_eq!(cpu.registers.m, 1);
    assert_eq!(cpu.registers.t, 4);
}

#[test]
fn increment_b_without_overflow_end_to_end() {
    let mut mmu = MMU::new();
    let mut cpu = SM83::new();
    mmu.write_byte(0x0000, 0x04);
    cpu.registers.b = 0x41;

    assert_eq!(cpu.step(&mut mmu), Ok(()));
    assert_eq!(cpu.registers.b, 0x42);
    assert!(!cpu.registers.flags.check(Flag::Carry));
    assert!(!cpu.registers.flags.check(Flag::Zero));
}

#[test]
fn unknown_opcode_is_fatal_for_a_partial_table() {
    let mut mmu = MMU::new();
    let mut cpu = SM83::new();
    cpu.operations.remove(0xD3);
    mmu.write_byte(0x0000, 0xD3);

    let r = cpu.run(&mut mmu, 10);
    assert_eq!(r, Err(CpuError::UnknownOpcode(0xD3)));
    // No progress was made past the fatal condition.
    assert_eq!(cpu.registers.pc, 0);
}

#[test]
fn fetch_from_the_unusable_range_is_fatal() {
    let mut mmu = MMU::new();
    let mut cpu = SM83::new();
    cpu.registers.pc = 0xFEA0;
    assert_eq!(cpu.step(&mut mmu), Err(CpuError::InvalidAddress(0xFEA0)));
    assert_eq!(cpu.registers.pc, 0xFEA0);
}

#[test]
fn binary_opcode_consumes_one_immediate() {
    let mut mmu = MMU::new();
    let mut cpu = SM83::new();
    // Opcode 0x06: load the immediate byte into B.
    mmu.write_byte(0x0000, 0x06);
    mmu.write_byte(0x0001, 0x42);

    assert_eq!(cpu.step(&mut mmu), Ok(()));
    assert_eq!(cpu.registers.b, 0x42);
    assert_eq!(cpu.registers.pc, 2);
}

#[test]
fn ternary_opcode_consumes_two_immediates() {
    let mut mmu = MMU::new();
    let mut cpu = SM83::new();
    // Opcode 0x01: load the two immediate bytes into BC.
    mmu.write_byte(0x0000, 0x01);
    mmu.write_byte(0x0001, 0x34);
    mmu.write_byte(0x0002, 0x12);

    assert_eq!(cpu.step(&mut mmu), Ok(()));
    assert_eq!(cpu.registers.b, 0x34);
    assert_eq!(cpu.registers.c, 0x12);
    assert_eq!(cpu.registers.pc, 3);
}

#[test]
fn store_a_through_bc_reaches_memory() {
    let mut mmu = MMU::new();
    let mut cpu = SM83::new();
    // Opcode 0x02: store A at the address BC holds (B low byte, C high).
    mmu.write_byte(0x0000, 0x02);
    cpu.registers.a = 0x77;
    cpu.registers.b = 0x00;
    cpu.registers.c = 0xC0;

    assert_eq!(cpu.step(&mut mmu), Ok(()));
    assert_eq!(mmu.read_byte(0xC000), Some(0x77));
    assert_eq!(cpu.registers.pc, 1);
}

#[test]
fn store_against_the_unusable_range_is_fatal() {
    let mut mmu = MMU::new();
    let mut cpu = SM83::new();
    mmu.write_byte(0x0000, 0x02);
    cpu.registers.b = 0xA0;
    cpu.registers.c = 0xFE;

    assert_eq!(cpu.step(&mut mmu), Err(CpuError::InvalidAddress(0xFEA0)));
    assert_eq!(cpu.registers.pc, 0);
}

#[test]
fn run_executes_the_requested_number_of_steps() {
    let mut mmu = MMU::new();
    let mut cpu = SM83::new();
    // Three increments of B in a row.
    mmu.write_byte(0x0000, 0x04);
    mmu.write_byte(0x0001, 0x04);
    mmu.write_byte(0x0002, 0x04);

    assert_eq!(cpu.run(&mut mmu, 3), Ok(()));
    assert_eq!(cpu.registers.b, 3);
    assert_eq!(cpu.registers.pc, 3);
}

#[test]
fn reset_does_nothing_yet() {
    let mut cpu = SM83::new();
    cpu.registers.b = 7;
    cpu.reset();
    assert_eq!(cpu.registers.b, 7);
}

#[test]
fn gb_wires_the_cpu_to_its_own_memory() {
    let mut gb = GB::new();
    gb.mmu.write_byte(0x0000, 0x04);
    gb.mmu.write_byte(0x0001, 0x05);

    // Increment B, then decrement it back to zero: the Zero flag ends set.
    assert_eq!(gb.run(2), Ok(()));
    assert_eq!(gb.cpu.registers.b, 0);
    assert!(gb.cpu.registers.flags.check(Flag::Zero));
    assert_eq!(gb.cpu.registers.pc, 2);
}
