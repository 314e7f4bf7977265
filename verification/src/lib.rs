//! A CHIP-8 virtual machine and its toolchain: instruction decoding, execution
//! and encoding, an assembler front end with a label linker, a linear
//! disassembler and the commands of a debugger.
//!
//! Every function carries a contract, and Verus proves that its body meets it.
//! Two functions are taken on trust, because their bodies call code that is
//! not verified: the one that appends a character to a `String` and the one
//! that draws a random byte.

pub mod assembler;
pub mod debugger;
pub mod disassembler;
pub mod internals;
