//! The opcode table and the instruction semantics.
//!
//! Every opcode byte maps to exactly one descriptor: the instruction it
//! names, how many immediate operand bytes follow the opcode (its arity,
//! encoded by the `Unary`/`Binary`/`Ternary` variants), and its fixed cycle
//! cost. The full 256-entry table is built once, immutably; slots whose
//! instruction is not implemented yet hold a no-op placeholder.
//!
//! Arithmetic handlers follow one uniform policy: clear all flags, compute
//! with checked arithmetic over the operand's native width, and on overflow
//! or underflow set Carry and leave the destination unmodified; on a zero
//! result set Zero and store zero; otherwise store the result with no flag
//! set. This saturating policy is a defining characteristic of these
//! semantics, not the wraparound a real SM83 performs.

use vstd::prelude::*;

use crate::cpu::registers::get8;
use crate::cpu::registers::get_pair;
use crate::cpu::registers::pair_high;
use crate::cpu::registers::pair_low;
use crate::cpu::registers::with8;
use crate::cpu::registers::with_flags;
use crate::cpu::registers::with_pair;
use crate::cpu::registers::BankView;
use crate::cpu::registers::Flag;
use crate::cpu::registers::Reg8;
use crate::cpu::registers::RegPair;
use crate::cpu::registers::SM83RegisterBank;
use crate::cpu::sm83::CpuError;
use crate::mmu::in_unusable_range;
use crate::mmu::is_unusable;
use crate::mmu::spec_read_byte;
use crate::mmu::spec_write_byte;
use crate::mmu::MemView;
use crate::mmu::MMU;

verus! {

/// What one opcode does, as a named operation over the register bank and
/// the memory. This is the tagged form of the handler a descriptor carries.
#[derive(Debug, Clone, Copy, PartialEq, Eq, Structural)]
pub enum Instruction {
    /// Do nothing; also the placeholder for unimplemented opcode slots.
    Nop,
    /// Checked increment of one 8-bit register.
    Increment8(Reg8),
    /// Checked increment of a register pair.
    Increment16(RegPair),
    /// Checked decrement of one 8-bit register.
    Decrement8(Reg8),
    /// Checked decrement of a register pair.
    Decrement16(RegPair),
    /// Add HL to HL (the named pair is not read), storing into HL.
    AddPairToHl(RegPair),
    /// Copy the immediate byte into one 8-bit register.
    LoadImmediate8(Reg8),
    /// Copy the two immediate bytes into a pair's low and high cells.
    LoadImmediate16(RegPair),
    /// Store a register's byte at the address a pair holds.
    StoreToPairAddress(Reg8, RegPair),
    /// Checked increment of the byte at the address HL holds.
    IncrementHlAddr,
    /// Not implemented yet: does nothing.
    RotateALeftWithCarry,
    /// Not implemented yet: does nothing.
    LoadSpIntoImmediateAddress,
    /// Not implemented yet: does nothing.
    Stop,
}

/// An individual instruction descriptor for the SM83.
///
/// The first element of each variant is the instruction, and the second is
/// the number of machine cycles the operation takes. The variant states the
/// arity: a `Unary` opcode consumes no byte beyond the opcode itself, a
/// `Binary` one immediate byte, a `Ternary` two.
#[derive(Debug, Clone, Copy, PartialEq, Eq, Structural)]
pub enum Opcode {
    Unary(Instruction, u8),
    Binary(Instruction, u8),
    Ternary(Instruction, u8),
}

/// The fixed cycle cost a descriptor carries.
pub open spec fn spec_cycle_count(op: Opcode) -> u8 {
    match op {
        Opcode::Unary(_, cycles) => cycles,
        Opcode::Binary(_, cycles) => cycles,
        Opcode::Ternary(_, cycles) => cycles,
    }
}

/// How many immediate operand bytes follow the opcode byte.
pub open spec fn spec_arity(op: Opcode) -> u8 {
    match op {
        Opcode::Unary(_, _) => 0,
        Opcode::Binary(_, _) => 1,
        Opcode::Ternary(_, _) => 2,
    }
}

/// The instruction a descriptor carries.
pub open spec fn spec_instruction(op: Opcode) -> Instruction {
    match op {
        Opcode::Unary(instruction, _) => instruction,
        Opcode::Binary(instruction, _) => instruction,
        Opcode::Ternary(instruction, _) => instruction,
    }
}

/// How many immediate bytes an instruction consumes.
pub open spec fn instruction_arity(instruction: Instruction) -> u8 {
    match instruction {
        Instruction::LoadImmediate8(_) => 1,
        Instruction::Stop => 1,
        Instruction::LoadImmediate16(_) => 2,
        Instruction::LoadSpIntoImmediateAddress => 2,
        _ => 0,
    }
}

/// A descriptor is well formed when its variant matches its instruction's
/// arity and its cycle cost is small enough that four clock ticks per cycle
/// still fit in the 8-bit clock register.
pub open spec fn opcode_wf(op: Opcode) -> bool {
    &&& spec_arity(op) == instruction_arity(spec_instruction(op))
    &&& spec_cycle_count(op) <= 63
}

impl Opcode {
    /// The fixed cycle cost of this operation.
    pub fn cycle_count(&self) -> (r: u8)
        ensures
            r == spec_cycle_count(*self),
    {
        match self {
            Opcode::Unary(_, cycles) => *cycles,
            Opcode::Binary(_, cycles) => *cycles,
            Opcode::Ternary(_, cycles) => *cycles,
        }
    }

    /// How many immediate operand bytes follow the opcode byte.
    pub fn arity(&self) -> (r: u8)
        ensures
            r == spec_arity(*self),
    {
        match self {
            Opcode::Unary(_, _) => 0,
            Opcode::Binary(_, _) => 1,
            Opcode::Ternary(_, _) => 2,
        }
    }

    /// The instruction this descriptor carries.
    pub fn instruction(&self) -> (r: Instruction)
        ensures
            r == spec_instruction(*self),
    {
        match self {
            Opcode::Unary(instruction, _) => *instruction,
            Opcode::Binary(instruction, _) => *instruction,
            Opcode::Ternary(instruction, _) => *instruction,
        }
    }
}

/// The bank after a checked 8-bit increment: on overflow exactly Carry is
/// set and the cell keeps its value; otherwise the cell takes the successor
/// and the flags are all clear (a successor is never zero).
pub open spec fn spec_increment8(bank: BankView, reg: Reg8) -> BankView {
    let value = get8(bank, reg);
    if value == 0xFF {
        with_flags(bank, 0x10)
    } else {
        let next = (value + 1) as u8;
        let flags: u8 = if next == 0 {
            0x80
        } else {
            0
        };
        with8(with_flags(bank, flags), reg, next)
    }
}

/// The bank after a checked 8-bit decrement: on underflow exactly Carry is
/// set and the cell keeps its value; on a zero result exactly Zero is set;
/// otherwise the flags are all clear.
pub open spec fn spec_decrement8(bank: BankView, reg: Reg8) -> BankView {
    let value = get8(bank, reg);
    if value == 0 {
        with_flags(bank, 0x10)
    } else {
        let next = (value - 1) as u8;
        let flags: u8 = if next == 0 {
            0x80
        } else {
            0
        };
        with8(with_flags(bank, flags), reg, next)
    }
}

/// The bank after a checked increment of a register pair, under the same
/// policy as the 8-bit form.
pub open spec fn spec_increment16(bank: BankView, pair: RegPair) -> BankView {
    let value = get_pair(bank, pair);
    if value == 0xFFFF {
        with_flags(bank, 0x10)
    } else {
        let next = (value + 1) as u16;
        let flags: u8 = if next == 0 {
            0x80
        } else {
            0
        };
        with_pair(with_flags(bank, flags), pair, next)
    }
}

/// The bank after a checked decrement of a register pair, under the same
/// policy as the 8-bit form.
pub open spec fn spec_decrement16(bank: BankView, pair: RegPair) -> BankView {
    let value = get_pair(bank, pair);
    if value == 0 {
        with_flags(bank, 0x10)
    } else {
        let next = (value - 1) as u16;
        let flags: u8 = if next == 0 {
            0x80
        } else {
            0
        };
        with_pair(with_flags(bank, flags), pair, next)
    }
}

/// The bank after "add register pair to HL": HL is added to itself — the
/// named pair is deliberately not read, a fixed quirk of these instruction
/// semantics — and the sum is stored into HL under the checked policy.
pub open spec fn spec_add_pair_to_hl(bank: BankView, pair: RegPair) -> BankView {
    let value = get_pair(bank, RegPair::HL);
    if value + value > 0xFFFF {
        with_flags(bank, 0x10)
    } else {
        let next = (value + value) as u16;
        let flags: u8 = if next == 0 {
            0x80
        } else {
            0
        };
        with_pair(with_flags(bank, flags), RegPair::HL, next)
    }
}

/// The bank after an immediate load into one 8-bit register: an
/// unconditional copy with no flag effect.
pub open spec fn spec_load_immediate8(bank: BankView, reg: Reg8, immediate: u8) -> BankView {
    with8(bank, reg, immediate)
}

/// The bank after an immediate load into a register pair: the first
/// immediate byte goes to the pair's low cell, the second to its high cell,
/// with no flag effect.
pub open spec fn spec_load_immediate16(bank: BankView, pair: RegPair, a: u8, b: u8) -> BankView {
    with8(with8(bank, pair_low(pair), a), pair_high(pair), b)
}

/// The memory after a register's byte is stored at the address a pair
/// holds; an address in the unusable range is a fatal error.
pub open spec fn spec_store_to_pair_address(
    bank: BankView,
    mem: MemView,
    source: Reg8,
    dest: RegPair,
) -> Result<MemView, CpuError> {
    let addr = get_pair(bank, dest);
    if in_unusable_range(addr) {
        Err(CpuError::InvalidAddress(addr))
    } else {
        Ok(spec_write_byte(mem, addr, get8(bank, source)))
    }
}

/// Bank and memory after a checked increment of the byte at the address HL
/// holds, under the same policy as the 8-bit register form; an address in
/// the unusable range is a fatal error.
pub open spec fn spec_increment_hl_addr(bank: BankView, mem: MemView) -> Result<
    (BankView, MemView),
    CpuError,
> {
    let addr = get_pair(bank, RegPair::HL);
    if in_unusable_range(addr) {
        Err(CpuError::InvalidAddress(addr))
    } else {
        let value = spec_read_byte(mem, addr);
        if value == 0xFF {
            Ok((with_flags(bank, 0x10), mem))
        } else {
            let next = (value + 1) as u8;
            let flags: u8 = if next == 0 {
                0x80
            } else {
                0
            };
            Ok((with_flags(bank, flags), spec_write_byte(mem, addr, next)))
        }
    }
}

/// What executing one instruction does to the register bank and the memory,
/// given the immediate bytes the interpreter fetched for it. The clock
/// counters and the program counter are the interpreter's business and are
/// untouched here.
pub open spec fn spec_instruction_effect(
    instruction: Instruction,
    imm1: u8,
    imm2: u8,
    bank: BankView,
    mem: MemView,
) -> Result<(BankView, MemView), CpuError> {
    match instruction {
        Instruction::Nop => Ok((bank, mem)),
        Instruction::Increment8(reg) => Ok((spec_increment8(bank, reg), mem)),
        Instruction::Increment16(pair) => Ok((spec_increment16(bank, pair), mem)),
        Instruction::Decrement8(reg) => Ok((spec_decrement8(bank, reg), mem)),
        Instruction::Decrement16(pair) => Ok((spec_decrement16(bank, pair), mem)),
        Instruction::AddPairToHl(pair) => Ok((spec_add_pair_to_hl(bank, pair), mem)),
        Instruction::LoadImmediate8(reg) => Ok((spec_load_immediate8(bank, reg, imm1), mem)),
        Instruction::LoadImmediate16(pair) => Ok(
            (spec_load_immediate16(bank, pair, imm1, imm2), mem),
        ),
        Instruction::StoreToPairAddress(source, dest) => match spec_store_to_pair_address(
            bank,
            mem,
            source,
            dest,
        ) {
            Ok(mem2) => Ok((bank, mem2)),
            Err(e) => Err(e),
        },
        Instruction::IncrementHlAddr => spec_increment_hl_addr(bank, mem),
        Instruction::RotateALeftWithCarry => Ok((bank, mem)),
        Instruction::LoadSpIntoImmediateAddress => Ok((bank, mem)),
        Instruction::Stop => Ok((bank, mem)),
    }
}

/// Do nothing.
pub fn nop(_cpu: &mut SM83RegisterBank, _mmu: &MMU)
    ensures
        *final(_cpu) == *old(_cpu),
{
}

/// Checked increment of one 8-bit register under the uniform flag policy.
pub fn increment8(cpu: &mut SM83RegisterBank, reg: Reg8)
    ensures
        final(cpu)@ == spec_increment8(old(cpu)@, reg),
{
    cpu.flags.clear();

    let next = match cpu.reg8(reg).checked_add(1) {
        Some(0) => {
            cpu.flags.set(Flag::Zero);
            0
        },
        Some(val) => val,
        None => {
            cpu.flags.set(Flag::Carry);
            return ;
        },
    };
    cpu.set_reg8(reg, next);
}

/// Checked decrement of one 8-bit register under the uniform flag policy.
pub fn decrement8(cpu: &mut SM83RegisterBank, reg: Reg8)
    ensures
        final(cpu)@ == spec_decrement8(old(cpu)@, reg),
{
    cpu.flags.clear();

    let next = match cpu.reg8(reg).checked_sub(1) {
        Some(0) => {
            cpu.flags.set(Flag::Zero);
            0
        },
        Some(val) => val,
        None => {
            cpu.flags.set(Flag::Carry);
            return ;
        },
    };
    cpu.set_reg8(reg, next);
}

/// Checked increment of a register pair under the uniform flag policy.
pub fn increment16(cpu: &mut SM83RegisterBank, pair: RegPair)
    ensures
        final(cpu)@ == spec_increment16(old(cpu)@, pair),
{
    cpu.flags.clear();

    let combined = cpu.reg_pair(pair);
    let result = match combined.checked_add(1) {
        Some(0) => {
            cpu.flags.set(Flag::Zero);
            0
        },
        Some(val) => val,
        None => {
            cpu.flags.set(Flag::Carry);
            return ;
        },
    };
    cpu.set_reg_pair(pair, result);
}

/// Checked decrement of a register pair under the uniform flag policy.
pub fn decrement16(cpu: &mut SM83RegisterBank, pair: RegPair)
    ensures
        final(cpu)@ == spec_decrement16(old(cpu)@, pair),
{
    cpu.flags.clear();

    let combined = cpu.reg_pair(pair);
    let result = match combined.checked_sub(1) {
        Some(0) => {
            cpu.flags.set(Flag::Zero);
            0
        },
        Some(val) => val,
        None => {
            cpu.flags.set(Flag::Carry);
            return ;
        },
    };
    cpu.set_reg_pair(pair, result);
}

/// Add HL to HL — the named pair is deliberately not read, a fixed quirk of
/// these semantics — and store the sum into HL under the uniform policy.
pub fn add_pair_to_hl(cpu: &mut SM83RegisterBank, pair: RegPair)
    ensures
        final(cpu)@ == spec_add_pair_to_hl(old(cpu)@, pair),
{
    cpu.flags.clear();

    let value = match cpu.hl().checked_add(cpu.hl()) {
        Some(0) => {
            cpu.flags.set(Flag::Zero);
            0
        },
        Some(val) => val,
        None => {
            cpu.flags.set(Flag::Carry);
            return ;
        },
    };

    cpu.set_hl(value);
}

/// Copy the immediate byte into one 8-bit register; no flag effect.
pub fn load_immediate8(cpu: &mut SM83RegisterBank, reg: Reg8, immediate: u8)
    ensures
        final(cpu)@ == spec_load_immediate8(old(cpu)@, reg, immediate),
{
    cpu.set_reg8(reg, immediate);
}

/// Copy the two immediate bytes into a pair's low and high cells; no flag
/// effect.
pub fn load_immediate16(cpu: &mut SM83RegisterBank, pair: RegPair, a: u8, b: u8)
    ensures
        final(cpu)@ == spec_load_immediate16(old(cpu)@, pair, a, b),
{
    cpu.set_reg8(pair.low_cell(), a);
    cpu.set_reg8(pair.high_cell(), b);
}

/// Store a register's byte at the address a pair holds. An address in the
/// unusable range is reported as fatal and nothing changes.
pub fn load_into_pair_address(
    cpu: &SM83RegisterBank,
    mmu: &mut MMU,
    source: Reg8,
    dest: RegPair,
) -> (r: Result<(), CpuError>)
    requires
        old(mmu)@.wf(),
    ensures
        final(mmu)@.wf(),
        match spec_store_to_pair_address(cpu@, old(mmu)@, source, dest) {
            Ok(mem2) => r is Ok && final(mmu)@ == mem2,
            Err(e) => r == Err::<(), CpuError>(e) && final(mmu)@ == old(mmu)@,
        },
{
    let addr = cpu.reg_pair(dest);
    if is_unusable(addr) {
        return Err(CpuError::InvalidAddress(addr));
    }

    mmu.write_byte(addr, cpu.reg8(source));
    Ok(())
}

/// Checked increment of the byte at the address HL holds, under the uniform
/// flag policy. An address in the unusable range is reported as fatal and
/// nothing changes.
pub fn increment_hl_addr(cpu: &mut SM83RegisterBank, mmu: &mut MMU) -> (r: Result<(), CpuError>)
    requires
        old(mmu)@.wf(),
    ensures
        final(mmu)@.wf(),
        match spec_increment_hl_addr(old(cpu)@, old(mmu)@) {
            Ok((bank2, mem2)) => r is Ok && final(cpu)@ == bank2 && final(mmu)@ == mem2,
            Err(e) => r == Err::<(), CpuError>(e) && *final(cpu) == *old(cpu) && final(mmu)@
                == old(mmu)@,
        },
{
    let addr = cpu.hl();
    if is_unusable(addr) {
        return Err(CpuError::InvalidAddress(addr));
    }

    cpu.flags.clear();

    let current = mmu.read_byte(addr).unwrap();
    let next = match current.checked_add(1) {
        Some(0) => {
            cpu.flags.set(Flag::Zero);
            0
        },
        Some(val) => val,
        None => {
            cpu.flags.set(Flag::Carry);
            return Ok(());
        },
    };

    mmu.write_byte(addr, next);
    Ok(())
}

/// Not implemented yet: does nothing.
pub fn rotate_a_left_with_carry(_cpu: &mut SM83RegisterBank, _mmu: &MMU)
    ensures
        *final(_cpu) == *old(_cpu),
{
}

/// Not implemented yet: does nothing.
pub fn load_sp_into_immediate_address(_cpu: &mut SM83RegisterBank, _mmu: &MMU, _a: u8, _b: u8)
    ensures
        *final(_cpu) == *old(_cpu),
{
}

/// Not implemented yet: does nothing.
pub fn stop(_cpu: &mut SM83RegisterBank, _mmu: &MMU, _immediate: u8)
    ensures
        *final(_cpu) == *old(_cpu),
{
}

/// Flag-clear-then-set invariant for the 8-bit increment: one that does not
/// overflow leaves the flag register all-zero with none of the four named
/// bits set (a checked increment never lands on zero, so the Zero flag never
/// arises here); one that overflows sets exactly Carry and leaves the
/// register's value unchanged.
pub proof fn lemma_increment8_flags(bank: BankView, reg: Reg8)
    ensures
        get8(bank, reg) != 0xFF ==> {
            let after = spec_increment8(bank, reg);
            &&& after.flags == 0
            &&& get8(after, reg) == get8(bank, reg) + 1
        },
        get8(bank, reg) == 0xFF ==> {
            let after = spec_increment8(bank, reg);
            &&& after.flags == 0x10
            &&& get8(after, reg) == get8(bank, reg)
        },
{
}

/// Flag-clear-then-set invariant for the 8-bit decrement, where the
/// zero-result case is reachable: a decrement that lands on zero sets
/// exactly Zero; one that neither underflows nor lands on zero leaves the
/// flags all-zero; one that underflows sets exactly Carry and leaves the
/// register's value unchanged.
pub proof fn lemma_decrement8_flags(bank: BankView, reg: Reg8)
    ensures
        get8(bank, reg) > 1 ==> {
            let after = spec_decrement8(bank, reg);
            &&& after.flags == 0
            &&& get8(after, reg) == get8(bank, reg) - 1
        },
        get8(bank, reg) == 1 ==> {
            let after = spec_decrement8(bank, reg);
            &&& after.flags == 0x80
            &&& get8(after, reg) == 0
        },
        get8(bank, reg) == 0 ==> {
            let after = spec_decrement8(bank, reg);
            &&& after.flags == 0x10
            &&& get8(after, reg) == get8(bank, reg)
        },
{
}

/// The descriptor the full table holds for an opcode byte: the implemented
/// instructions at their places, a no-op placeholder everywhere else.
pub open spec fn spec_table_entry(code: u8) -> Opcode {
    if code == 0x00 {
        Opcode::Unary(Instruction::Nop, 1)
    } else if code == 0x01 {
        Opcode::Ternary(Instruction::LoadImmediate16(RegPair::BC), 1)
    } else if code == 0x02 {
        Opcode::Unary(Instruction::StoreToPairAddress(Reg8::A, RegPair::BC), 1)
    } else if code == 0x03 {
        Opcode::Unary(Instruction::Increment16(RegPair::BC), 1)
    } else if code == 0x04 {
        Opcode::Unary(Instruction::Increment8(Reg8::B), 1)
    } else if code == 0x05 {
        Opcode::Unary(Instruction::Decrement8(Reg8::B), 1)
    } else if code == 0x06 {
        Opcode::Binary(Instruction::LoadImmediate8(Reg8::B), 1)
    } else if code == 0x07 {
        Opcode::Unary(Instruction::RotateALeftWithCarry, 1)
    } else if code == 0x08 {
        Opcode::Ternary(Instruction::LoadSpIntoImmediateAddress, 1)
    } else if code == 0x09 {
        Opcode::Unary(Instruction::AddPairToHl(RegPair::BC), 1)
    } else if code == 0x0B {
        Opcode::Unary(Instruction::Decrement16(RegPair::BC), 1)
    } else if code == 0x0C {
        Opcode::Unary(Instruction::Increment8(Reg8::C), 1)
    } else if code == 0x10 {
        Opcode::Binary(Instruction::Stop, 1)
    } else if code == 0x13 {
        Opcode::Unary(Instruction::Increment16(RegPair::DE), 1)
    } else if code == 0x14 {
        Opcode::Unary(Instruction::Increment8(Reg8::D), 1)
    } else if code == 0x19 {
        Opcode::Unary(Instruction::AddPairToHl(RegPair::DE), 1)
    } else if code == 0x1B {
        Opcode::Unary(Instruction::Decrement16(RegPair::DE), 1)
    } else if code == 0x1C {
        Opcode::Unary(Instruction::Increment8(Reg8::E), 1)
    } else if code == 0x23 {
        Opcode::Unary(Instruction::Increment16(RegPair::HL), 1)
    } else if code == 0x24 {
        Opcode::Unary(Instruction::Increment8(Reg8::H), 1)
    } else if code == 0x29 {
        Opcode::Unary(Instruction::AddPairToHl(RegPair::HL), 1)
    } else if code == 0x2B {
        Opcode::Unary(Instruction::Decrement16(RegPair::HL), 1)
    } else if code == 0x2C {
        Opcode::Unary(Instruction::Increment8(Reg8::L), 1)
    } else if code == 0x34 {
        Opcode::Unary(Instruction::IncrementHlAddr, 1)
    } else if code == 0x3C {
        Opcode::Unary(Instruction::Increment8(Reg8::A), 1)
    } else {
        Opcode::Unary(Instruction::Nop, 1)
    }
}

/// A table is well formed when it has one slot per opcode byte and every
/// present descriptor is well formed.
pub open spec fn table_wf(entries: Seq<Option<Opcode>>) -> bool {
    &&& entries.len() == 256
    &&& forall|i: int|
        0 <= i < 256 ==> ((#[trigger] entries[i]) matches Some(op) ==> opcode_wf(op))
}

/// The descriptor the full table holds for an opcode byte.
fn table_entry(code: u8) -> (r: Opcode)
    ensures
        r == spec_table_entry(code),
{
    match code {
        0x00 => Opcode::Unary(Instruction::Nop, 1),
        0x01 => Opcode::Ternary(Instruction::LoadImmediate16(RegPair::BC), 1),
        0x02 => Opcode::Unary(Instruction::StoreToPairAddress(Reg8::A, RegPair::BC), 1),
        0x03 => Opcode::Unary(Instruction::Increment16(RegPair::BC), 1),
        0x04 => Opcode::Unary(Instruction::Increment8(Reg8::B), 1),
        0x05 => Opcode::Unary(Instruction::Decrement8(Reg8::B), 1),
        0x06 => Opcode::Binary(Instruction::LoadImmediate8(Reg8::B), 1),
        0x07 => Opcode::Unary(Instruction::RotateALeftWithCarry, 1),
        0x08 => Opcode::Ternary(Instruction::LoadSpIntoImmediateAddress, 1),
        0x09 => Opcode::Unary(Instruction::AddPairToHl(RegPair::BC), 1),
        0x0B => Opcode::Unary(Instruction::Decrement16(RegPair::BC), 1),
        0x0C => Opcode::Unary(Instruction::Increment8(Reg8::C), 1),
        0x10 => Opcode::Binary(Instruction::Stop, 1),
        0x13 => Opcode::Unary(Instruction::Increment16(RegPair::DE), 1),
        0x14 => Opcode::Unary(Instruction::Increment8(Reg8::D), 1),
        0x19 => Opcode::Unary(Instruction::AddPairToHl(RegPair::DE), 1),
        0x1B => Opcode::Unary(Instruction::Decrement16(RegPair::DE), 1),
        0x1C => Opcode::Unary(Instruction::Increment8(Reg8::E), 1),
        0x23 => Opcode::Unary(Instruction::Increment16(RegPair::HL), 1),
        0x24 => Opcode::Unary(Instruction::Increment8(Reg8::H), 1),
        0x29 => Opcode::Unary(Instruction::AddPairToHl(RegPair::HL), 1),
        0x2B => Opcode::Unary(Instruction::Decrement16(RegPair::HL), 1),
        0x2C => Opcode::Unary(Instruction::Increment8(Reg8::L), 1),
        0x34 => Opcode::Unary(Instruction::IncrementHlAddr, 1),
        0x3C => Opcode::Unary(Instruction::Increment8(Reg8::A), 1),
        _ => Opcode::Unary(Instruction::Nop, 1),
    }
}

/// The immutable mapping from opcode byte to descriptor: one slot per byte
/// value, `None` marking a deliberately missing entry of a partial table.
pub struct OpcodeTable {
    entries: Vec<Option<Opcode>>,
}

impl View for OpcodeTable {
    type V = Seq<Option<Opcode>>;

    closed spec fn view(&self) -> Seq<Option<Opcode>> {
        self.entries@
    }
}

impl OpcodeTable {
    /// The full table: a total mapping from every opcode byte to exactly one
    /// descriptor.
    pub fn new() -> (r: Self)
        ensures
            r@.len() == 256,
            forall|i: int| 0 <= i < 256 ==> r@[i] == Some(spec_table_entry(i as u8)),
            table_wf(r@),
    {
        let mut entries: Vec<Option<Opcode>> = Vec::new();
        let mut code: usize = 0;
        while code < 256
            invariant
                code <= 256,
                entries@.len() == code,
                forall|i: int| 0 <= i < code ==> entries@[i] == Some(spec_table_entry(i as u8)),
            decreases 256 - code,
        {
            entries.push(Some(table_entry(code as u8)));
            code = code + 1;
        }
        OpcodeTable { entries }
    }

    /// Look an opcode byte up; `None` on a missing entry of a partial table.
    pub fn lookup(&self, code: u8) -> (r: Option<Opcode>)
        requires
            self@.len() == 256,
        ensures
            r == self@[code as int],
    {
        self.entries[code as usize]
    }

    /// Take one entry out, leaving a deliberately partial table: looking the
    /// byte up then finds no descriptor, the fatal unknown-opcode condition.
    pub fn remove(&mut self, code: u8)
        requires
            old(self)@.len() == 256,
        ensures
            final(self)@ == old(self)@.update(code as int, None::<Opcode>),
    {
        self.entries[code as usize] = None;
    }
}

} // verus!
