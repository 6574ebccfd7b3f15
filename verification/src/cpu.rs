//! The CPU: register bank, opcode table, and the interpreter itself.

pub mod opcodes;
pub mod registers;
pub mod sm83;
