//! The assembler: the front end that turns classified tokens into
//! instructions and a symbol table, and the linker that resolves labels.

pub mod frontend;
pub mod linker;
pub mod literal;
pub mod symbols;

use vstd::prelude::*;
use vstd::string::*;
use crate::internals::fault::{EncodeError, Fault, Step};
use crate::internals::machine::{Machine, Outcome};
use crate::internals::opcode::Opcode;
use crate::internals::processor::Processor;

verus! {

/// A label and the place it marks, counted in bytes from the start of the
/// assembled program.
#[derive(Clone, Debug, PartialEq, Eq)]
pub struct LabelDefinition {
    pub name: String,
    pub addr: u16,
}

/// The stand-in for a jump to a label whose address is not known yet.
#[derive(Clone, Debug, PartialEq, Eq)]
pub struct JmpLabel {
    pub name: String,
}

/// The stand-in for a call of a label whose address is not known yet.
#[derive(Clone, Debug, PartialEq, Eq)]
pub struct CallLabel {
    pub name: String,
}

impl Opcode for JmpLabel {
    open spec fn well_formed(&self) -> bool {
        true
    }

    open spec fn effect(&self, before: Machine, entropy: u8) -> Outcome {
        before.faulted(Fault::UnresolvedSymbol)
    }

    open spec fn alters_pc(&self) -> bool {
        false
    }

    open spec fn encoding(&self) -> Result<(u8, u8), EncodeError> {
        Err(EncodeError::UnresolvedSymbol)
    }

    open spec fn mnemonic(&self) -> Seq<char> {
        "JMP "@ + self.name@
    }

    fn execute(&self, processor: &mut Processor, entropy: u8) -> (result: Result<Step, Fault>) {
        Err(Fault::UnresolvedSymbol)
    }

    fn modified_pc(&self) -> (altered: bool) {
        false
    }

    fn assemble(&self) -> (bytes: Result<(u8, u8), EncodeError>) {
        Err(EncodeError::UnresolvedSymbol)
    }

    fn to_text(&self) -> (text: String) {
        let mut text = String::from_str("JMP ");
        text.append(self.name.as_str());
        text
    }
}

impl Opcode for CallLabel {
    open spec fn well_formed(&self) -> bool {
        true
    }

    open spec fn effect(&self, before: Machine, entropy: u8) -> Outcome {
        before.faulted(Fault::UnresolvedSymbol)
    }

    open spec fn alters_pc(&self) -> bool {
        false
    }

    open spec fn encoding(&self) -> Result<(u8, u8), EncodeError> {
        Err(EncodeError::UnresolvedSymbol)
    }

    open spec fn mnemonic(&self) -> Seq<char> {
        "CALL "@ + self.name@
    }

    fn execute(&self, processor: &mut Processor, entropy: u8) -> (result: Result<Step, Fault>) {
        Err(Fault::UnresolvedSymbol)
    }

    fn modified_pc(&self) -> (altered: bool) {
        false
    }

    fn assemble(&self) -> (bytes: Result<(u8, u8), EncodeError>) {
        Err(EncodeError::UnresolvedSymbol)
    }

    fn to_text(&self) -> (text: String) {
        let mut text = String::from_str("CALL ");
        text.append(self.name.as_str());
        text
    }
}

} // verus!
