//! The fatal conditions that end a run.

use vstd::prelude::*;

verus! {

/// Why a fetched opcode could not be turned into an instruction.
#[derive(Clone, Copy, Debug, PartialEq, Eq, Structural)]
pub enum DecodeError {
    /// A plain opcode that selects no instruction.
    Unknown(u8),
    /// The `0xCB` prefix followed by a byte that selects no instruction.
    UnknownExtended(u8, u8),
}

/// A fatal condition met while executing a program.
///
/// None of these can be recovered from: the instruction that met the
/// condition has no effect, and the run ends.
#[derive(Clone, Copy, Debug, PartialEq, Eq, Structural)]
pub enum Fault {
    /// The bytes at `pc` select no instruction.
    Decode { pc: u16, error: DecodeError },
    /// The address decodes to no backing store.
    Address(u16),
    /// An instruction was given an operand of a shape it does not support.
    Operand,
}

} // verus!
