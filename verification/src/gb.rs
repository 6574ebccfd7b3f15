//! The whole machine: one CPU wired to one address space.

use vstd::prelude::*;

use crate::cpu::opcodes::spec_table_entry;
use crate::cpu::opcodes::table_wf;
use crate::cpu::registers::zero_bank;
use crate::cpu::sm83::spec_run;
use crate::cpu::sm83::CpuError;
use crate::cpu::sm83::SM83;
use crate::mmu::all_zero;
use crate::mmu::MMU;

verus! {

/// A GameBoy: a Sharp SM83 and the memory it executes against.
pub struct GB {
    pub cpu: SM83,
    pub mmu: MMU,
}

impl GB {
    /// A fresh machine: zeroed registers, the full opcode table, and a
    /// zero-initialized address space awaiting a cartridge image.
    pub fn new() -> (r: Self)
        ensures
            r.cpu.registers@ == zero_bank(),
            r.cpu.operations@.len() == 256,
            forall|i: int|
                0 <= i < 256 ==> r.cpu.operations@[i] == Some(spec_table_entry(i as u8)),
            table_wf(r.cpu.operations@),
            r.mmu@.wf(),
            all_zero(r.mmu@.cartridge),
            all_zero(r.mmu@.cartridge_mbc),
            all_zero(r.mmu@.cartridge_ram),
            all_zero(r.mmu@.vram),
            all_zero(r.mmu@.wram),
            all_zero(r.mmu@.oam),
            all_zero(r.mmu@.io),
            all_zero(r.mmu@.hram),
            all_zero(r.mmu@.ie),
    {
        GB { cpu: SM83::new(), mmu: MMU::new() }
    }

    /// Run the CPU against the machine's own memory for at most `fuel`
    /// steps, stopping early on a fatal condition.
    pub fn run(&mut self, fuel: u64) -> (r: Result<(), CpuError>)
        requires
            table_wf(old(self).cpu.operations@),
            old(self).mmu@.wf(),
        ensures
            final(self).cpu.operations@ == old(self).cpu.operations@,
            final(self).mmu@.wf(),
            match spec_run(
                old(self).cpu.registers@,
                old(self).cpu.operations@,
                old(self).mmu@,
                fuel as nat,
            ) {
                Ok((bank2, mem2)) => r is Ok && final(self).cpu.registers@ == bank2
                    && final(self).mmu@ == mem2,
                Err((e, bank2, mem2)) => r == Err::<(), CpuError>(e) && final(self).cpu.registers@
                    == bank2 && final(self).mmu@ == mem2,
            },
    {
        self.cpu.run(&mut self.mmu, fuel)
    }
}

} // verus!
