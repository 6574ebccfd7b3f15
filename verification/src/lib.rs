//! Instruction-execution core of a hardware emulator for the Sharp SM83,
//! the CPU of a well-known 1989 handheld console.
//!
//! The crate models the three coupled pieces of the chip: the register bank
//! with its flag register (`cpu::registers`), the opcode table with the
//! instruction semantics (`cpu::opcodes`), and the memory management unit
//! that decodes a 16-bit address into one of ten physical regions (`mmu`).
//! The fetch-decode-execute loop lives in `cpu::sm83`, and `gb` ties a CPU
//! and an MMU together into one machine.

pub mod cpu;
pub mod gb;
pub mod mmu;
