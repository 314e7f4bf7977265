//! The linker, which replaces label placeholders by jumps and calls to
//! addresses, and the writer of the program's bytes.

use vstd::prelude::*;
use vstd::string::*;
use crate::assembler::symbols::{offset_in, SymbolTable};
use crate::assembler::LabelDefinition;
use crate::internals::fault::EncodeError;
use crate::internals::opcode::{decode_inverts_encode, decoded, Instruction, Opcode, CALL, JMP};

verus! {

/// Why a program could not be linked.
#[derive(Clone, Debug, PartialEq, Eq)]
pub enum LinkError {
    /// No label of this name is defined.
    UnresolvedSymbol { name: String },
    /// The label of this name lies beyond address `0xFFF` once the program
    /// is loaded.
    AddressRange { name: String },
}

/// Which instruction could not be encoded, counted from zero, and why.
#[derive(Clone, Copy, Debug, PartialEq, Eq, Structural)]
pub struct EncodeFailure {
    pub index: usize,
    pub error: EncodeError,
}

/// The address of the label `name` in a program loaded at `load_offset`.
pub open spec fn label_address(
    labels: Seq<LabelDefinition>,
    name: String,
    load_offset: u16,
) -> Result<u16, LinkError> {
    match offset_in(labels, name@) {
        None => Err(LinkError::UnresolvedSymbol { name }),
        Some(offset) => if offset + load_offset > 0xFFF {
            Err(LinkError::AddressRange { name })
        } else {
            Ok((offset + load_offset) as u16)
        },
    }
}

/// One instruction after linking: a placeholder becomes the jump or the call
/// to its label's address, anything else stays as it is.
pub open spec fn resolved(
    instruction: Instruction,
    labels: Seq<LabelDefinition>,
    load_offset: u16,
) -> Result<Instruction, LinkError> {
    match instruction {
        Instruction::UnresolvedJump(label) => match label_address(labels, label.name, load_offset) {
            Err(error) => Err(error),
            Ok(address) => Ok(Instruction::JMP(JMP { address })),
        },
        Instruction::UnresolvedCall(label) => match label_address(labels, label.name, load_offset) {
            Err(error) => Err(error),
            Ok(address) => Ok(Instruction::CALL(CALL { address })),
        },
        _ => Ok(instruction),
    }
}

/// The bytes of a program: the two bytes of each instruction, in order.
pub open spec fn program_bytes(instructions: Seq<Instruction>) -> Seq<u8> {
    Seq::new(
        instructions.len() * 2,
        |k: int|
            if k % 2 == 0 {
                instructions[k / 2].encoding()->Ok_0.0
            } else {
                instructions[k / 2].encoding()->Ok_0.1
            },
    )
}

/// Finds the address of a label in the loaded program.
fn address_of_label(symbols: &SymbolTable, name: &String, load_offset: u16) -> (address: Result<
    u16,
    LinkError,
>)
    ensures
        address == label_address(symbols.labels@, *name, load_offset),
{
    match symbols.lookup(name.as_str()) {
        None => Err(LinkError::UnresolvedSymbol { name: name.clone() }),
        Some(offset) => {
            if offset > 0xFFF || load_offset > 0xFFF - offset {
                Err(LinkError::AddressRange { name: name.clone() })
            } else {
                Ok(offset + load_offset)
            }
        },
    }
}

/// Links a program that will be loaded at `load_offset`.
///
/// All placeholders are resolved, or none: the first label, in the order of
/// the instructions, that is undefined or out of range is reported, and no
/// program is returned. A linked program holds no placeholder.
pub fn link(instructions: Vec<Instruction>, symbols: &SymbolTable, load_offset: u16) -> (linked:
    Result<Vec<Instruction>, LinkError>)
    ensures
        match linked {
            Ok(program) => {
                &&& program@.len() == instructions@.len()
                &&& forall|k: int|
                    0 <= k < program@.len() ==> resolved(
                        #[trigger] instructions@[k],
                        symbols.labels@,
                        load_offset,
                    ) == Ok::<Instruction, LinkError>(program@[k])
                &&& forall|k: int|
                    0 <= k < program@.len() ==> !(#[trigger] program@[k]).placeholder()
            },
            Err(error) => exists|k: int|
                {
                    &&& 0 <= k < instructions@.len()
                    &&& resolved(#[trigger] instructions@[k], symbols.labels@, load_offset)
                        == Err::<Instruction, LinkError>(error)
                    &&& forall|j: int|
                        0 <= j < k ==> resolved(
                            #[trigger] instructions@[j],
                            symbols.labels@,
                            load_offset,
                        ) is Ok
                },
        },
{
    let mut program: Vec<Instruction> = instructions;
    let mut k: usize = 0;
    while k < program.len()
        invariant
            k <= program@.len(),
            program@.len() == instructions@.len(),
            forall|j: int|
                0 <= j < k ==> resolved(#[trigger] instructions@[j], symbols.labels@, load_offset)
                    == Ok::<Instruction, LinkError>(program@[j]),
            forall|j: int| 0 <= j < k ==> !(#[trigger] program@[j]).placeholder(),
            forall|j: int| k <= j < program@.len() ==> program@[j] == instructions@[j],
        decreases program@.len() - k,
    {
        let replacement: Option<Instruction> = match &program[k] {
            Instruction::UnresolvedJump(label) => {
                match address_of_label(symbols, &label.name, load_offset) {
                    Err(error) => {
                        return Err(error);
                    },
                    Ok(address) => Some(Instruction::JMP(JMP { address })),
                }
            },
            Instruction::UnresolvedCall(label) => {
                match address_of_label(symbols, &label.name, load_offset) {
                    Err(error) => {
                        return Err(error);
                    },
                    Ok(address) => Some(Instruction::CALL(CALL { address })),
                }
            },
            _ => None,
        };
        if let Some(instruction) = replacement {
            program.set(k, instruction);
        }
        k = k + 1;
    }
    Ok(program)
}

/// Writes a program as bytes: the two bytes of each instruction, in order.
///
/// Nothing is written unless every instruction has its two bytes: the first
/// one that has none is reported with its place and the reason.
pub fn encode_program(instructions: &Vec<Instruction>) -> (bytes: Result<Vec<u8>, EncodeFailure>)
    ensures
        match bytes {
            Ok(written) => {
                &&& forall|k: int|
                    0 <= k < instructions@.len() ==> (#[trigger] instructions@[k]).encoding() is Ok
                &&& written@ == program_bytes(instructions@)
            },
            Err(failure) => {
                &&& failure.index < instructions@.len()
                &&& instructions@[failure.index as int].encoding() == Err::<(u8, u8), EncodeError>(
                    failure.error,
                )
                &&& forall|j: int|
                    0 <= j < failure.index ==> (#[trigger] instructions@[j]).encoding() is Ok
            },
        },
{
    let mut written: Vec<u8> = Vec::new();
    let mut k: usize = 0;
    while k < instructions.len()
        invariant
            k <= instructions@.len(),
            written@.len() == k * 2,
            forall|j: int| 0 <= j < k ==> (#[trigger] instructions@[j]).encoding() is Ok,
            forall|j: int|
                0 <= j < written@.len() ==> written@[j] == program_bytes(instructions@)[j],
        decreases instructions@.len() - k,
    {
        match instructions[k].assemble() {
            Err(error) => {
                return Err(EncodeFailure { index: k, error });
            },
            Ok((high, low)) => {
                written.push(high);
                written.push(low);
            },
        }
        k = k + 1;
    }
    assert(written@ =~= program_bytes(instructions@));
    Ok(written)
}

/// The bytes of a program decode, word by word, to the program again.
pub proof fn program_bytes_decode(instructions: Seq<Instruction>, k: int)
    requires
        0 <= k < instructions.len(),
        instructions[k].encoding() is Ok,
    ensures
        program_bytes(instructions).len() == 2 * instructions.len(),
        decoded(program_bytes(instructions)[2 * k], program_bytes(instructions)[2 * k + 1])
            == instructions[k],
{
    decode_inverts_encode(instructions[k]);
}

/// Linking makes an instruction that has its two bytes out of every
/// instruction whose operands fit, unless it stands for undecodable bytes.
pub proof fn resolved_is_encodable(
    instruction: Instruction,
    labels: Seq<LabelDefinition>,
    load_offset: u16,
)
    requires
        instruction.well_formed(),
        !(instruction is Invalid),
    ensures
        resolved(instruction, labels, load_offset) matches Ok(linked) ==> linked.encoding() is Ok,
{
}

} // verus!
