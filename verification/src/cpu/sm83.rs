//! The CPU of the GameBoy, a Sharp SM83: the fetch-decode-execute loop.
//!
//! One step reads the byte at `pc`, looks it up in the opcode table, reads
//! as many immediate bytes as the descriptor's arity asks for, executes the
//! instruction, overwrites the clock counters with the instruction's fixed
//! cost, and advances `pc` past the opcode and its operands. The fatal
//! conditions — an opcode byte with no table entry, or a fetch or store
//! against the unusable address range — end execution with an error instead
//! of making progress.

use vstd::prelude::*;

use crate::cpu::opcodes;
use crate::cpu::opcodes::spec_arity;
use crate::cpu::opcodes::spec_cycle_count;
use crate::cpu::opcodes::spec_instruction;
use crate::cpu::opcodes::spec_instruction_effect;
use crate::cpu::opcodes::table_wf;
use crate::cpu::opcodes::Instruction;
use crate::cpu::opcodes::Opcode;
use crate::cpu::opcodes::OpcodeTable;
use crate::cpu::registers::BankView;
use crate::cpu::registers::SM83RegisterBank;
use crate::mmu::in_unusable_range;
use crate::mmu::is_unusable;
use crate::mmu::spec_read_byte;
use crate::mmu::MemView;
use crate::mmu::MMU;

verus! {

/// A fatal condition of the execution loop: there is no recovery path, so
/// the loop reports it and stops instead of continuing past it.
#[derive(Debug, Clone, Copy, PartialEq, Eq, Structural)]
pub enum CpuError {
    /// The fetched opcode byte has no entry in the table.
    UnknownOpcode(u8),
    /// A fetch or store named an address no region accepts: the unusable
    /// range, or a spot past the end of the address space.
    InvalidAddress(u16),
}

/// What one fetch-decode-execute step does: either the register bank and
/// memory after the step, or the fatal condition that stops execution, with
/// the machine unchanged.
pub open spec fn spec_step(bank: BankView, ops: Seq<Option<Opcode>>, mem: MemView) -> Result<
    (BankView, MemView),
    CpuError,
> {
    if in_unusable_range(bank.pc) {
        Err(CpuError::InvalidAddress(bank.pc))
    } else {
        let code = spec_read_byte(mem, bank.pc);
        match ops[code as int] {
            None => Err(CpuError::UnknownOpcode(code)),
            Some(op) => {
                let arity = spec_arity(op);
                if bank.pc + arity > 0xFFFF {
                    Err(CpuError::InvalidAddress(bank.pc))
                } else if arity >= 1 && in_unusable_range((bank.pc + 1) as u16) {
                    Err(CpuError::InvalidAddress((bank.pc + 1) as u16))
                } else if arity >= 2 && in_unusable_range((bank.pc + 2) as u16) {
                    Err(CpuError::InvalidAddress((bank.pc + 2) as u16))
                } else {
                    let imm1 = if arity >= 1 {
                        spec_read_byte(mem, (bank.pc + 1) as u16)
                    } else {
                        0
                    };
                    let imm2 = if arity >= 2 {
                        spec_read_byte(mem, (bank.pc + 2) as u16)
                    } else {
                        0
                    };
                    match spec_instruction_effect(spec_instruction(op), imm1, imm2, bank, mem) {
                        Err(e) => Err(e),
                        Ok((bank2, mem2)) => {
                            let cycles = spec_cycle_count(op);
                            Ok(
                                (
                                    BankView {
                                        pc: ((bank.pc + 1 + arity) % 0x10000) as u16,
                                        m: cycles,
                                        t: (cycles * 4) as u8,
                                        ..bank2
                                    },
                                    mem2,
                                ),
                            )
                        },
                    }
                }
            },
        }
    }
}

/// What a bounded run does: `fuel` steps, or fewer when a step fails, in
/// which case the error comes with the machine state at the failure.
pub open spec fn spec_run(
    bank: BankView,
    ops: Seq<Option<Opcode>>,
    mem: MemView,
    fuel: nat,
) -> Result<(BankView, MemView), (CpuError, BankView, MemView)>
    decreases fuel,
{
    if fuel == 0 {
        Ok((bank, mem))
    } else {
        match spec_step(bank, ops, mem) {
            Err(e) => Err((e, bank, mem)),
            Ok((bank2, mem2)) => spec_run(bank2, ops, mem2, (fuel - 1) as nat),
        }
    }
}

/// The CPU of the GameBoy, a Sharp SM83.
pub struct SM83 {
    pub registers: SM83RegisterBank,
    pub operations: OpcodeTable,
}

/// Execute one instruction against the register bank and the memory, with
/// the immediate bytes the interpreter fetched for it.
pub fn execute_instruction(
    registers: &mut SM83RegisterBank,
    mmu: &mut MMU,
    instruction: Instruction,
    imm1: u8,
    imm2: u8,
) -> (r: Result<(), CpuError>)
    requires
        old(mmu)@.wf(),
    ensures
        final(mmu)@.wf(),
        match spec_instruction_effect(instruction, imm1, imm2, old(registers)@, old(mmu)@) {
            Ok((bank2, mem2)) => r is Ok && final(registers)@ == bank2 && final(mmu)@ == mem2,
            Err(e) => r == Err::<(), CpuError>(e) && *final(registers) == *old(registers)
                && final(mmu)@ == old(mmu)@,
        },
{
    match instruction {
        Instruction::Nop => {
            opcodes::nop(registers, mmu);
            Ok(())
        },
        Instruction::Increment8(reg) => {
            opcodes::increment8(registers, reg);
            Ok(())
        },
        Instruction::Increment16(pair) => {
            opcodes::increment16(registers, pair);
            Ok(())
        },
        Instruction::Decrement8(reg) => {
            opcodes::decrement8(registers, reg);
            Ok(())
        },
        Instruction::Decrement16(pair) => {
            opcodes::decrement16(registers, pair);
            Ok(())
        },
        Instruction::AddPairToHl(pair) => {
            opcodes::add_pair_to_hl(registers, pair);
            Ok(())
        },
        Instruction::LoadImmediate8(reg) => {
            opcodes::load_immediate8(registers, reg, imm1);
            Ok(())
        },
        Instruction::LoadImmediate16(pair) => {
            opcodes::load_immediate16(registers, pair, imm1, imm2);
            Ok(())
        },
        Instruction::StoreToPairAddress(source, dest) => opcodes::load_into_pair_address(
            registers,
            mmu,
            source,
            dest,
        ),
        Instruction::IncrementHlAddr => opcodes::increment_hl_addr(registers, mmu),
        Instruction::RotateALeftWithCarry => {
            opcodes::rotate_a_left_with_carry(registers, mmu);
            Ok(())
        },
        Instruction::LoadSpIntoImmediateAddress => {
            opcodes::load_sp_into_immediate_address(registers, mmu, imm1, imm2);
            Ok(())
        },
        Instruction::Stop => {
            opcodes::stop(registers, mmu, imm1);
            Ok(())
        },
    }
}

impl SM83 {
    /// A CPU with a zeroed register bank and the full opcode table.
    pub fn new() -> (r: Self)
        ensures
            r.registers@ == crate::cpu::registers::zero_bank(),
            r.operations@.len() == 256,
            forall|i: int|
                0 <= i < 256 ==> r.operations@[i] == Some(opcodes::spec_table_entry(i as u8)),
            table_wf(r.operations@),
    {
        SM83 {
            registers: SM83RegisterBank::new(),
            operations: OpcodeTable::new(),
        }
    }

    /// One fetch-decode-execute step against the given memory: fetch the
    /// opcode byte at `pc` and its immediate operands, execute the
    /// instruction, overwrite the clock counters `m` and `t` with the
    /// instruction's cost, and advance `pc` past what was consumed. A fatal
    /// condition is returned as the error, with the machine unchanged.
    pub fn step(&mut self, mmu: &mut MMU) -> (r: Result<(), CpuError>)
        requires
            table_wf(old(self).operations@),
            old(mmu)@.wf(),
        ensures
            final(self).operations@ == old(self).operations@,
            final(mmu)@.wf(),
            match spec_step(old(self).registers@, old(self).operations@, old(mmu)@) {
                Ok((bank2, mem2)) => r is Ok && final(self).registers@ == bank2 && final(mmu)@
                    == mem2,
                Err(e) => r == Err::<(), CpuError>(e) && *final(self) == *old(self) && final(mmu)@
                    == old(mmu)@,
            },
    {
        let pc = self.registers.pc;
        if is_unusable(pc) {
            return Err(CpuError::InvalidAddress(pc));
        }

        let code = mmu.read_byte(pc).unwrap();

        let opcode = match self.operations.lookup(code) {
            None => {
                return Err(CpuError::UnknownOpcode(code));
            },
            Some(opcode) => opcode,
        };

        let arity = opcode.arity();
        if pc as u32 + arity as u32 > 0xFFFF {
            return Err(CpuError::InvalidAddress(pc));
        }

        let mut imm1: u8 = 0;
        let mut imm2: u8 = 0;
        if arity >= 1 {
            let addr = pc + 1;
            if is_unusable(addr) {
                return Err(CpuError::InvalidAddress(addr));
            }
            imm1 = mmu.read_byte(addr).unwrap();
        }
        if arity >= 2 {
            let addr = pc + 2;
            if is_unusable(addr) {
                return Err(CpuError::InvalidAddress(addr));
            }
            imm2 = mmu.read_byte(addr).unwrap();
        }

        let result = execute_instruction(&mut self.registers, mmu, opcode.instruction(), imm1, imm2);
        if let Err(e) = result {
            return Err(e);
        }

        // increment our clock registers
        let cycles = opcode.cycle_count();
        self.registers.m = cycles;
        self.registers.t = cycles * 4;

        // move past the opcode byte and its immediate operands
        self.registers.pc = ((pc as u32 + 1 + arity as u32) % 0x10000) as u16;

        Ok(())
    }

    /// Run at most `fuel` steps: the explicit stop condition a host needs.
    /// Stops early with the fatal condition of the step that failed, leaving
    /// the machine as it stood before that step.
    pub fn run(&mut self, mmu: &mut MMU, fuel: u64) -> (r: Result<(), CpuError>)
        requires
            table_wf(old(self).operations@),
            old(mmu)@.wf(),
        ensures
            final(self).operations@ == old(self).operations@,
            final(mmu)@.wf(),
            match spec_run(old(self).registers@, old(self).operations@, old(mmu)@, fuel as nat) {
                Ok((bank2, mem2)) => r is Ok && final(self).registers@ == bank2 && final(mmu)@
                    == mem2,
                Err((e, bank2, mem2)) => r == Err::<(), CpuError>(e) && final(self).registers@
                    == bank2 && final(mmu)@ == mem2,
            },
    {
        let mut remaining: u64 = fuel;
        while remaining > 0
            invariant
                table_wf(self.operations@),
                mmu@.wf(),
                self.operations@ == old(self).operations@,
                remaining <= fuel,
                spec_run(old(self).registers@, old(self).operations@, old(mmu)@, fuel as nat)
                    == spec_run(self.registers@, self.operations@, mmu@, remaining as nat),
            decreases remaining,
        {
            let result = self.step(mmu);
            if let Err(e) = result {
                return Err(e);
            }
            remaining = remaining - 1;
        }
        Ok(())
    }

    /// Not implemented yet: does nothing.
    pub fn reset(&mut self)
        ensures
            *final(self) == *old(self),
    {
    }
}

} // verus!
