//! Instruction-execution core of a Game Boy (Sharp SM83) emulator.
//!
//! The crate models the register file, the memory management unit and the
//! fetch/decode/execute engine. Every executable function carries a contract
//! stated over a mathematical model of the machine: the registers as a plain
//! value and the memory as a map from canonical addresses to bytes.

pub mod alu;
pub mod cartridge;
pub mod cpu;
pub mod fault;
pub mod laws;
pub mod memory;
pub mod opcodes;
pub mod semantics;
