//! What can go wrong while the machine runs or an instruction is encoded.

use vstd::prelude::*;

verus! {

/// A condition that ends the current run of the machine.
#[derive(Clone, Copy, Debug, PartialEq, Eq)]
pub enum Fault {
    /// An address outside the 4096 bytes of memory was touched.
    OutOfBoundsAccess { address: u16 },
    /// The two bytes name no instruction.
    InvalidOpcode { opcode: (u8, u8) },
    /// A label placeholder reached the executor.
    UnresolvedSymbol,
    /// An operand lies outside what its instruction admits.
    OperandRange,
    /// A seventeenth return address was pushed.
    StackOverflow,
    /// A return address was taken from an empty stack.
    StackUnderflow,
}

/// Why an instruction has no two-byte form.
#[derive(Clone, Copy, Debug, PartialEq, Eq, Structural)]
pub enum EncodeError {
    /// The instruction is the stand-in for bytes that decode to nothing.
    InvalidOpcode,
    /// The instruction is a label placeholder that the linker has not replaced.
    UnresolvedSymbol,
    /// A register, an address or a size does not fit its field.
    OperandRange,
}

/// How an instruction left the machine when it did not fault.
#[derive(Clone, Copy, Debug, PartialEq, Eq, Structural)]
pub enum Step {
    /// The instruction ran to its end.
    Completed,
    /// The instruction needs a key that has not been pressed yet; nothing changed.
    AwaitingKey,
}

} // verus!
