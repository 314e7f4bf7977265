//! The front end of the assembler: from classified tokens to instructions
//! and labels.
//!
//! A statement arrives as its whole text and its tokens: the operator first,
//! then the operands, each with the grammar rule that recognised it.

use vstd::prelude::*;
use vstd::string::*;
use crate::assembler::literal::{
    address_of, constant_of, parse_address, parse_constant, parse_register, register_of,
    same_text, AsmErrorKind,
};
use crate::assembler::symbols::{lemma_offset_in, SymbolTable};
use crate::assembler::{CallLabel, JmpLabel, LabelDefinition};
use crate::internals::opcode::{
    ADDIVx, ADDVxByte, ADDVxVy, ANDVxVy, CALL, CLS, DRW, Instruction, JMP, LDBVx, LDDTVx, LDFVx,
    LDIAddr, LDIVx, LDSTVx, LDVxByte, LDVxDT, LDVxI, LDVxK, LDVxVy, ORVxVy, Opcode, RET,
    SEVxByte,
    SEVxVy, SHLVxVy, SHRVxVy, SNEVxByte, SNEVxVy, SUBNVxVy, SUBVxVy, XORVxVy,
};

verus! {

/// The grammar rule that recognised a token.
#[derive(Clone, Copy, Debug, PartialEq, Eq, Structural)]
pub enum Rule {
    /// The operator `LD`.
    LdOperator,
    /// The operator `CALL`.
    CallOperator,
    /// The operator `JMP`.
    JmpOperator,
    /// One of the operators `SE` and `SNE`.
    Conditionals,
    /// One of the arithmetic operators, such as `ADD` and `SUB`.
    MathOperator,
    /// The operator `LDI`.
    LdiOperator,
    /// The operator `DRW`.
    DrwOperator,
    /// The definition of a label: its name and a colon.
    LabelDefinition,
    /// A general purpose register, such as `VA`.
    Register,
    /// One of the registers that are named by letters, such as `I` and `DT`.
    SpecialRegister,
    /// A number.
    Address,
    /// The name of a label.
    Identifier,
}

/// One token: the rule that recognised it and the text it spans.
#[derive(Clone, Debug, PartialEq, Eq)]
pub struct Token {
    pub rule: Rule,
    pub text: String,
}

/// One statement: the text it spans, and its tokens with the operator first.
#[derive(Clone, Debug, PartialEq, Eq)]
pub struct Statement {
    pub text: String,
    pub tokens: Vec<Token>,
}

/// What went wrong, and in which statement, counted from zero.
#[derive(Clone, Copy, Debug, PartialEq, Eq, Structural)]
pub struct AsmError {
    pub statement: usize,
    pub kind: AsmErrorKind,
}

/// What a statement means: an instruction, or the definition of the label
/// with the given name.
pub enum Meaning {
    Emit(Instruction),
    Define(Seq<char>),
}

/// What a statement was assembled to.
#[derive(Clone, Debug, PartialEq, Eq)]
pub enum Emitted {
    Instruction(Instruction),
    Label(String),
}

impl View for Emitted {
    type V = Meaning;

    open spec fn view(&self) -> Meaning {
        match self {
            Emitted::Instruction(instruction) => Meaning::Emit(*instruction),
            Emitted::Label(name) => Meaning::Define(name@),
        }
    }
}

/// The two registers that two operands name.
pub open spec fn register_pair_of(first: Seq<char>, second: Seq<char>) -> Result<
    (u8, u8),
    AsmErrorKind,
> {
    match register_of(first) {
        Err(kind) => Err(kind),
        Ok(reg_a) => match register_of(second) {
            Err(kind) => Err(kind),
            Ok(reg_b) => Ok((reg_a, reg_b)),
        },
    }
}

/// The register and the byte that two operands name.
pub open spec fn register_and_byte_of(first: Seq<char>, second: Seq<char>) -> Result<
    (u8, u8),
    AsmErrorKind,
> {
    match register_of(first) {
        Err(kind) => Err(kind),
        Ok(reg) => match constant_of(second) {
            Err(kind) => Err(kind),
            Ok(byte) => Ok((reg, byte)),
        },
    }
}

/// `LD` with its two operands.
pub open spec fn ld_meaning(tokens: Seq<Token>) -> Result<Instruction, AsmErrorKind> {
    if tokens.len() != 3 {
        Err(AsmErrorKind::Syntax)
    } else {
        let target = tokens[1].text@;
        let source = tokens[2].text@;
        match (tokens[1].rule, tokens[2].rule) {
            (Rule::Register, Rule::SpecialRegister) => match register_of(target) {
                Err(kind) => Err(kind),
                Ok(reg) => if source == "K"@ {
                    Ok(Instruction::LDVxK(LDVxK { reg }))
                } else if source == "DT"@ {
                    Ok(Instruction::LDVxDT(LDVxDT { reg }))
                } else if source == "I"@ {
                    Ok(Instruction::LDVxI(LDVxI { reg }))
                } else {
                    Err(AsmErrorKind::Syntax)
                },
            },
            (Rule::Register, Rule::Address) => match register_and_byte_of(target, source) {
                Err(kind) => Err(kind),
                Ok((reg, byte)) => Ok(Instruction::LDVxByte(LDVxByte { reg, byte })),
            },
            (Rule::Register, Rule::Register) => match register_pair_of(target, source) {
                Err(kind) => Err(kind),
                Ok((reg_a, reg_b)) => Ok(Instruction::LDVxVy(LDVxVy { reg_a, reg_b })),
            },
            (Rule::SpecialRegister, _) => match register_of(source) {
                Err(kind) => Err(kind),
                Ok(reg) => if target == "B"@ {
                    Ok(Instruction::LDBVx(LDBVx { reg }))
                } else if target == "F"@ {
                    Ok(Instruction::LDFVx(LDFVx { reg }))
                } else if target == "I"@ {
                    Ok(Instruction::LDIVx(LDIVx { reg }))
                } else if target == "DT"@ {
                    Ok(Instruction::LDDTVx(LDDTVx { reg }))
                } else if target == "ST"@ {
                    Ok(Instruction::LDSTVx(LDSTVx { reg }))
                } else {
                    Err(AsmErrorKind::Syntax)
                },
            },
            _ => Err(AsmErrorKind::Syntax),
        }
    }
}

/// `CALL` or, with `jump` set, `JMP`, with an address or the name of a label.
pub open spec fn transfer_meaning(tokens: Seq<Token>, jump: bool) -> Result<
    Instruction,
    AsmErrorKind,
> {
    if tokens.len() != 2 {
        Err(AsmErrorKind::Syntax)
    } else {
        match tokens[1].rule {
            Rule::Address => match address_of(tokens[1].text@) {
                Err(kind) => Err(kind),
                Ok(address) => if jump {
                    Ok(Instruction::JMP(JMP { address }))
                } else {
                    Ok(Instruction::CALL(CALL { address }))
                },
            },
            Rule::Identifier => if jump {
                Ok(Instruction::UnresolvedJump(JmpLabel { name: tokens[1].text }))
            } else {
                Ok(Instruction::UnresolvedCall(CallLabel { name: tokens[1].text }))
            },
            _ => Err(AsmErrorKind::Syntax),
        }
    }
}

/// `SE` or `SNE` with a register and a register or a byte.
pub open spec fn conditional_meaning(tokens: Seq<Token>) -> Result<Instruction, AsmErrorKind> {
    if tokens.len() != 3 {
        Err(AsmErrorKind::Syntax)
    } else {
        let operator = tokens[0].text@;
        let first = tokens[1].text@;
        let second = tokens[2].text@;
        if operator != "SE"@ && operator != "SNE"@ {
            Err(AsmErrorKind::Syntax)
        } else {
            match tokens[2].rule {
                Rule::Register => match register_pair_of(first, second) {
                    Err(kind) => Err(kind),
                    Ok((reg_a, reg_b)) => if operator == "SE"@ {
                        Ok(Instruction::SEVxVy(SEVxVy { reg_a, reg_b }))
                    } else {
                        Ok(Instruction::SNEVxVy(SNEVxVy { reg_a, reg_b }))
                    },
                },
                Rule::Address => match register_and_byte_of(first, second) {
                    Err(kind) => Err(kind),
                    Ok((reg, byte)) => if operator == "SE"@ {
                        Ok(Instruction::SEVxByte(SEVxByte { reg, byte }))
                    } else {
                        Ok(Instruction::SNEVxByte(SNEVxByte { reg, byte }))
                    },
                },
                _ => Err(AsmErrorKind::Syntax),
            }
        }
    }
}

/// `ADD` with its two operands.
pub open spec fn add_meaning(tokens: Seq<Token>) -> Result<Instruction, AsmErrorKind> {
    let first = tokens[1].text@;
    let second = tokens[2].text@;
    match (tokens[1].rule, tokens[2].rule) {
        (Rule::SpecialRegister, _) => if first != "I"@ {
            Err(AsmErrorKind::Syntax)
        } else {
            match register_of(second) {
                Err(kind) => Err(kind),
                Ok(reg) => Ok(Instruction::ADDIVx(ADDIVx { reg })),
            }
        },
        (Rule::Register, Rule::Register) => match register_pair_of(first, second) {
            Err(kind) => Err(kind),
            Ok((reg_a, reg_b)) => Ok(Instruction::ADDVxVy(ADDVxVy { reg_a, reg_b })),
        },
        (Rule::Register, Rule::Address) => match register_and_byte_of(first, second) {
            Err(kind) => Err(kind),
            Ok((reg, byte)) => Ok(Instruction::ADDVxByte(ADDVxByte { reg, byte })),
        },
        _ => Err(AsmErrorKind::Syntax),
    }
}

/// An arithmetic operator with its two operands. All but `ADD` take two
/// registers.
pub open spec fn math_meaning(tokens: Seq<Token>) -> Result<Instruction, AsmErrorKind> {
    if tokens.len() != 3 {
        Err(AsmErrorKind::Syntax)
    } else {
        let operator = tokens[0].text@;
        if operator == "ADD"@ {
            add_meaning(tokens)
        } else if !(operator == "SUB"@ || operator == "SUBN"@ || operator == "OR"@ || operator
            == "AND"@ || operator == "XOR"@ || operator == "SHR"@ || operator == "SHL"@) {
            Err(AsmErrorKind::Syntax)
        } else {
            match register_pair_of(tokens[1].text@, tokens[2].text@) {
                Err(kind) => Err(kind),
                Ok((reg_a, reg_b)) => if operator == "SUB"@ {
                    Ok(Instruction::SUBVxVy(SUBVxVy { reg_a, reg_b }))
                } else if operator == "SUBN"@ {
                    Ok(Instruction::SUBNVxVy(SUBNVxVy { reg_a, reg_b }))
                } else if operator == "OR"@ {
                    Ok(Instruction::ORVxVy(ORVxVy { reg_a, reg_b }))
                } else if operator == "AND"@ {
                    Ok(Instruction::ANDVxVy(ANDVxVy { reg_a, reg_b }))
                } else if operator == "XOR"@ {
                    Ok(Instruction::XORVxVy(XORVxVy { reg_a, reg_b }))
                } else if operator == "SHR"@ {
                    Ok(Instruction::SHRVxVy(SHRVxVy { reg_a, reg_b }))
                } else {
                    Ok(Instruction::SHLVxVy(SHLVxVy { reg_a, reg_b }))
                },
            }
        }
    }
}

/// `LDI` with a register or an address.
pub open spec fn ldi_meaning(tokens: Seq<Token>) -> Result<Instruction, AsmErrorKind> {
    if tokens.len() != 2 {
        Err(AsmErrorKind::Syntax)
    } else {
        match tokens[1].rule {
            Rule::Register => match register_of(tokens[1].text@) {
                Err(kind) => Err(kind),
                Ok(reg) => Ok(Instruction::LDIVx(LDIVx { reg })),
            },
            Rule::Address => match address_of(tokens[1].text@) {
                Err(kind) => Err(kind),
                Ok(address) => Ok(Instruction::LDIAddr(LDIAddr { address })),
            },
            _ => Err(AsmErrorKind::Syntax),
        }
    }
}

/// `DRW` with two registers and the number of rows. Like a register number,
/// a number of rows above `0xF` is clamped to `0xF`.
pub open spec fn drw_meaning(tokens: Seq<Token>) -> Result<Instruction, AsmErrorKind> {
    if tokens.len() != 4 {
        Err(AsmErrorKind::Syntax)
    } else {
        match register_pair_of(tokens[1].text@, tokens[2].text@) {
            Err(kind) => Err(kind),
            Ok((reg_x, reg_y)) => match constant_of(tokens[3].text@) {
                Err(kind) => Err(kind),
                Ok(rows) => Ok(
                    Instruction::DRW(
                        DRW {
                            reg_x,
                            reg_y,
                            size: if rows > 0xF {
                                0xFu8
                            } else {
                                rows
                            },
                        },
                    ),
                ),
            },
        }
    }
}

/// What a statement means.
///
/// `CLS` and `RET` are known by their text. Every other statement is known by
/// the rule of its first token; the definition of a label gives the name
/// that stands before its colon.
pub open spec fn statement_meaning(statement: Statement) -> Result<Meaning, AsmErrorKind> {
    let tokens = statement.tokens@;
    if statement.text@ == "CLS"@ {
        Ok(Meaning::Emit(Instruction::CLS(CLS {  })))
    } else if statement.text@ == "RET"@ {
        Ok(Meaning::Emit(Instruction::RET(RET {  })))
    } else if tokens.len() == 0 {
        Err(AsmErrorKind::Syntax)
    } else if tokens[0].rule == Rule::LabelDefinition {
        if statement.text@.len() == 0 {
            Err(AsmErrorKind::Syntax)
        } else {
            Ok(Meaning::Define(statement.text@.drop_last()))
        }
    } else {
        let instruction = match tokens[0].rule {
            Rule::LdOperator => ld_meaning(tokens),
            Rule::CallOperator => transfer_meaning(tokens, false),
            Rule::JmpOperator => transfer_meaning(tokens, true),
            Rule::Conditionals => conditional_meaning(tokens),
            Rule::MathOperator => math_meaning(tokens),
            Rule::LdiOperator => ldi_meaning(tokens),
            Rule::DrwOperator => drw_meaning(tokens),
            _ => Err(AsmErrorKind::Syntax),
        };
        match instruction {
            Ok(instruction) => Ok(Meaning::Emit(instruction)),
            Err(kind) => Err(kind),
        }
    }
}

/// Reads two register operands.
fn parse_register_pair(first: &str, second: &str) -> (pair: Result<(u8, u8), AsmErrorKind>)
    ensures
        pair == register_pair_of(first@, second@),
{
    match parse_register(first) {
        Err(kind) => Err(kind),
        Ok(reg_a) => match parse_register(second) {
            Err(kind) => Err(kind),
            Ok(reg_b) => Ok((reg_a, reg_b)),
        },
    }
}

/// Reads a register operand and a byte operand.
fn parse_register_and_byte(first: &str, second: &str) -> (pair: Result<(u8, u8), AsmErrorKind>)
    ensures
        pair == register_and_byte_of(first@, second@),
{
    match parse_register(first) {
        Err(kind) => Err(kind),
        Ok(reg) => match parse_constant(second) {
            Err(kind) => Err(kind),
            Ok(byte) => Ok((reg, byte)),
        },
    }
}

fn assemble_ld(tokens: &Vec<Token>) -> (instruction: Result<Instruction, AsmErrorKind>)
    ensures
        instruction == ld_meaning(tokens@),
{
    if tokens.len() != 3 {
        return Err(AsmErrorKind::Syntax);
    }
    let target: &str = tokens[1].text.as_str();
    let source: &str = tokens[2].text.as_str();
    match (tokens[1].rule, tokens[2].rule) {
        (Rule::Register, Rule::SpecialRegister) => match parse_register(target) {
            Err(kind) => Err(kind),
            Ok(reg) => {
                if same_text(source, "K") {
                    Ok(Instruction::LDVxK(LDVxK { reg }))
                } else if same_text(source, "DT") {
                    Ok(Instruction::LDVxDT(LDVxDT { reg }))
                } else if same_text(source, "I") {
                    Ok(Instruction::LDVxI(LDVxI { reg }))
                } else {
                    Err(AsmErrorKind::Syntax)
                }
            },
        },
        (Rule::Register, Rule::Address) => match parse_register_and_byte(target, source) {
            Err(kind) => Err(kind),
            Ok((reg, byte)) => Ok(Instruction::LDVxByte(LDVxByte { reg, byte })),
        },
        (Rule::Register, Rule::Register) => match parse_register_pair(target, source) {
            Err(kind) => Err(kind),
            Ok((reg_a, reg_b)) => Ok(Instruction::LDVxVy(LDVxVy { reg_a, reg_b })),
        },
        (Rule::SpecialRegister, _) => match parse_register(source) {
            Err(kind) => Err(kind),
            Ok(reg) => {
                if same_text(target, "B") {
                    Ok(Instruction::LDBVx(LDBVx { reg }))
                } else if same_text(target, "F") {
                    Ok(Instruction::LDFVx(LDFVx { reg }))
                } else if same_text(target, "I") {
                    Ok(Instruction::LDIVx(LDIVx { reg }))
                } else if same_text(target, "DT") {
                    Ok(Instruction::LDDTVx(LDDTVx { reg }))
                } else if same_text(target, "ST") {
                    Ok(Instruction::LDSTVx(LDSTVx { reg }))
                } else {
                    Err(AsmErrorKind::Syntax)
                }
            },
        },
        _ => Err(AsmErrorKind::Syntax),
    }
}

fn assemble_transfer(tokens: &Vec<Token>, jump: bool) -> (instruction: Result<
    Instruction,
    AsmErrorKind,
>)
    ensures
        instruction == transfer_meaning(tokens@, jump),
{
    if tokens.len() != 2 {
        return Err(AsmErrorKind::Syntax);
    }
    match tokens[1].rule {
        Rule::Address => match parse_address(tokens[1].text.as_str()) {
            Err(kind) => Err(kind),
            Ok(address) => {
                if jump {
                    Ok(Instruction::JMP(JMP { address }))
                } else {
                    Ok(Instruction::CALL(CALL { address }))
                }
            },
        },
        Rule::Identifier => {
            let name: String = tokens[1].text.clone();
            if jump {
                Ok(Instruction::UnresolvedJump(JmpLabel { name }))
            } else {
                Ok(Instruction::UnresolvedCall(CallLabel { name }))
            }
        },
        _ => Err(AsmErrorKind::Syntax),
    }
}

fn assemble_conditional(tokens: &Vec<Token>) -> (instruction: Result<Instruction, AsmErrorKind>)
    ensures
        instruction == conditional_meaning(tokens@),
{
    if tokens.len() != 3 {
        return Err(AsmErrorKind::Syntax);
    }
    let operator: &str = tokens[0].text.as_str();
    let first: &str = tokens[1].text.as_str();
    let second: &str = tokens[2].text.as_str();
    let equal: bool = same_text(operator, "SE");
    if !equal && !same_text(operator, "SNE") {
        return Err(AsmErrorKind::Syntax);
    }
    match tokens[2].rule {
        Rule::Register => match parse_register_pair(first, second) {
            Err(kind) => Err(kind),
            Ok((reg_a, reg_b)) => {
                if equal {
                    Ok(Instruction::SEVxVy(SEVxVy { reg_a, reg_b }))
                } else {
                    Ok(Instruction::SNEVxVy(SNEVxVy { reg_a, reg_b }))
                }
            },
        },
        Rule::Address => match parse_register_and_byte(first, second) {
            Err(kind) => Err(kind),
            Ok((reg, byte)) => {
                if equal {
                    Ok(Instruction::SEVxByte(SEVxByte { reg, byte }))
                } else {
                    Ok(Instruction::SNEVxByte(SNEVxByte { reg, byte }))
                }
            },
        },
        _ => Err(AsmErrorKind::Syntax),
    }
}

fn assemble_add(tokens: &Vec<Token>) -> (instruction: Result<Instruction, AsmErrorKind>)
    requires
        tokens@.len() == 3,
    ensures
        instruction == add_meaning(tokens@),
{
    let first: &str = tokens[1].text.as_str();
    let second: &str = tokens[2].text.as_str();
    match (tokens[1].rule, tokens[2].rule) {
        (Rule::SpecialRegister, _) => {
            if !same_text(first, "I") {
                return Err(AsmErrorKind::Syntax);
            }
            match parse_register(second) {
                Err(kind) => Err(kind),
                Ok(reg) => Ok(Instruction::ADDIVx(ADDIVx { reg })),
            }
        },
        (Rule::Register, Rule::Register) => match parse_register_pair(first, second) {
            Err(kind) => Err(kind),
            Ok((reg_a, reg_b)) => Ok(Instruction::ADDVxVy(ADDVxVy { reg_a, reg_b })),
        },
        (Rule::Register, Rule::Address) => match parse_register_and_byte(first, second) {
            Err(kind) => Err(kind),
            Ok((reg, byte)) => Ok(Instruction::ADDVxByte(ADDVxByte { reg, byte })),
        },
        _ => Err(AsmErrorKind::Syntax),
    }
}

fn assemble_math(tokens: &Vec<Token>) -> (instruction: Result<Instruction, AsmErrorKind>)
    ensures
        instruction == math_meaning(tokens@),
{
    if tokens.len() != 3 {
        return Err(AsmErrorKind::Syntax);
    }
    let operator: &str = tokens[0].text.as_str();
    if same_text(operator, "ADD") {
        return assemble_add(tokens);
    }
    let sub: bool = same_text(operator, "SUB");
    let subn: bool = same_text(operator, "SUBN");
    let or: bool = same_text(operator, "OR");
    let and: bool = same_text(operator, "AND");
    let xor: bool = same_text(operator, "XOR");
    let shr: bool = same_text(operator, "SHR");
    let shl: bool = same_text(operator, "SHL");
    if !(sub || subn || or || and || xor || shr || shl) {
        return Err(AsmErrorKind::Syntax);
    }
    match parse_register_pair(tokens[1].text.as_str(), tokens[2].text.as_str()) {
        Err(kind) => Err(kind),
        Ok((reg_a, reg_b)) => {
            if sub {
                Ok(Instruction::SUBVxVy(SUBVxVy { reg_a, reg_b }))
            } else if subn {
                Ok(Instruction::SUBNVxVy(SUBNVxVy { reg_a, reg_b }))
            } else if or {
                Ok(Instruction::ORVxVy(ORVxVy { reg_a, reg_b }))
            } else if and {
                Ok(Instruction::ANDVxVy(ANDVxVy { reg_a, reg_b }))
            } else if xor {
                Ok(Instruction::XORVxVy(XORVxVy { reg_a, reg_b }))
            } else if shr {
                Ok(Instruction::SHRVxVy(SHRVxVy { reg_a, reg_b }))
            } else {
                Ok(Instruction::SHLVxVy(SHLVxVy { reg_a, reg_b }))
            }
        },
    }
}

fn assemble_ldi(tokens: &Vec<Token>) -> (instruction: Result<Instruction, AsmErrorKind>)
    ensures
        instruction == ldi_meaning(tokens@),
{
    if tokens.len() != 2 {
        return Err(AsmErrorKind::Syntax);
    }
    match tokens[1].rule {
        Rule::Register => match parse_register(tokens[1].text.as_str()) {
            Err(kind) => Err(kind),
            Ok(reg) => Ok(Instruction::LDIVx(LDIVx { reg })),
        },
        Rule::Address => match parse_address(tokens[1].text.as_str()) {
            Err(kind) => Err(kind),
            Ok(address) => Ok(Instruction::LDIAddr(LDIAddr { address })),
        },
        _ => Err(AsmErrorKind::Syntax),
    }
}

fn assemble_drw(tokens: &Vec<Token>) -> (instruction: Result<Instruction, AsmErrorKind>)
    ensures
        instruction == drw_meaning(tokens@),
{
    if tokens.len() != 4 {
        return Err(AsmErrorKind::Syntax);
    }
    match parse_register_pair(tokens[1].text.as_str(), tokens[2].text.as_str()) {
        Err(kind) => Err(kind),
        Ok((reg_x, reg_y)) => match parse_constant(tokens[3].text.as_str()) {
            Err(kind) => Err(kind),
            Ok(rows) => {
                let size: u8 = if rows > 0xF {
                    0xF
                } else {
                    rows
                };
                Ok(Instruction::DRW(DRW { reg_x, reg_y, size }))
            },
        },
    }
}

/// Assembles one statement.
pub fn assemble_statement(statement: &Statement) -> (emitted: Result<Emitted, AsmErrorKind>)
    ensures
        match emitted {
            Ok(what) => statement_meaning(*statement) == Ok::<Meaning, AsmErrorKind>(what@),
            Err(kind) => statement_meaning(*statement) == Err::<Meaning, AsmErrorKind>(kind),
        },
{
    let text: &str = statement.text.as_str();
    if same_text(text, "CLS") {
        return Ok(Emitted::Instruction(Instruction::CLS(CLS {  })));
    }
    if same_text(text, "RET") {
        return Ok(Emitted::Instruction(Instruction::RET(RET {  })));
    }
    let tokens: &Vec<Token> = &statement.tokens;
    if tokens.len() == 0 {
        return Err(AsmErrorKind::Syntax);
    }
    let instruction = match tokens[0].rule {
        Rule::LabelDefinition => {
            let length: usize = text.unicode_len();
            if length == 0 {
                return Err(AsmErrorKind::Syntax);
            }
            let name: &str = text.substring_char(0, length - 1);
            return Ok(Emitted::Label(String::from_str(name)));
        },
        Rule::LdOperator => assemble_ld(tokens),
        Rule::CallOperator => assemble_transfer(tokens, false),
        Rule::JmpOperator => assemble_transfer(tokens, true),
        Rule::Conditionals => assemble_conditional(tokens),
        Rule::MathOperator => assemble_math(tokens),
        Rule::LdiOperator => assemble_ldi(tokens),
        Rule::DrwOperator => assemble_drw(tokens),
        _ => Err(AsmErrorKind::Syntax),
    };
    match instruction {
        Ok(instruction) => Ok(Emitted::Instruction(instruction)),
        Err(kind) => Err(kind),
    }
}

/// What the front end makes of a program: its instructions in order, and its
/// labels in order, each with its name and its offset in bytes from the start
/// of the program.
pub struct Listing {
    pub instructions: Seq<Instruction>,
    pub labels: Seq<(Seq<char>, u16)>,
}

impl Listing {
    /// Whether a label with this name is among the labels.
    pub open spec fn defines(self, name: Seq<char>) -> bool {
        exists|k: int| 0 <= k < self.labels.len() && (#[trigger] self.labels[k]).0 == name
    }
}

/// The listing of a program, or the first thing that is wrong with it.
///
/// Statements are taken in order. An instruction is added behind those before
/// it. A label records twice the number of instructions before it, which is
/// where the next instruction will start, and adds no instruction; a label that
/// was defined before is an error, as is one whose offset would not fit sixteen
/// bits.
pub open spec fn assembled(statements: Seq<Statement>) -> Result<Listing, AsmError>
    decreases statements.len(),
{
    if statements.len() == 0 {
        Ok(Listing { instructions: Seq::empty(), labels: Seq::empty() })
    } else {
        let last = statements.len() - 1;
        match assembled(statements.drop_last()) {
            Err(error) => Err(error),
            Ok(listing) => match statement_meaning(statements[last]) {
                Err(kind) => Err(AsmError { statement: last as usize, kind }),
                Ok(Meaning::Emit(instruction)) => Ok(
                    Listing { instructions: listing.instructions.push(instruction), ..listing },
                ),
                Ok(Meaning::Define(name)) => if listing.defines(name) {
                    Err(AsmError { statement: last as usize, kind: AsmErrorKind::DuplicateLabel })
                } else if listing.instructions.len() * 2 > 0xFFFF {
                    Err(AsmError { statement: last as usize, kind: AsmErrorKind::OperandRange })
                } else {
                    Ok(
                        Listing {
                            labels: listing.labels.push(
                                (name, (listing.instructions.len() * 2) as u16),
                            ),
                            ..listing
                        },
                    )
                },
            },
        }
    }
}

/// Assembles a program: the instructions it holds and the table of its labels.
pub fn assemble(statements: &Vec<Statement>) -> (program: Result<
    (Vec<Instruction>, SymbolTable),
    AsmError,
>)
    ensures
        match program {
            Ok((instructions, table)) => assembled(statements@) == Ok::<Listing, AsmError>(
                Listing { instructions: instructions@, labels: table.entries() },
            ) && table.well_formed(),
            Err(error) => assembled(statements@) == Err::<Listing, AsmError>(error),
        },
{
    let mut instructions: Vec<Instruction> = Vec::new();
    let mut table = SymbolTable::new();
    let mut k: usize = 0;
    proof {
        assert(statements@.subrange(0, 0) =~= Seq::<Statement>::empty());
        assert(table.entries() =~= Seq::<(Seq<char>, u16)>::empty());
    }
    while k < statements.len()
        invariant
            k <= statements@.len(),
            table.well_formed(),
            assembled(statements@.subrange(0, k as int)) == Ok::<Listing, AsmError>(
                Listing { instructions: instructions@, labels: table.entries() },
            ),
        decreases statements@.len() - k,
    {
        let ghost read = statements@.subrange(0, k as int);
        let ghost more = statements@.subrange(0, k + 1);
        let ghost listing = Listing { instructions: instructions@, labels: table.entries() };
        proof {
            assert(more.drop_last() =~= read);
            assert(more[more.len() - 1] == statements@[k as int]);
            lemma_offset_in(table.labels@, statement_label(statements@[k as int]));
            if listing.defines(statement_label(statements@[k as int])) {
                let j = choose|j: int|
                    0 <= j < listing.labels.len() && (#[trigger] listing.labels[j]).0
                        == statement_label(statements@[k as int]);
                assert(table.labels@[j].name@ == statement_label(statements@[k as int]));
            }
            if exists|j: int|
                0 <= j < table.labels@.len() && (#[trigger] table.labels@[j]).name@
                    == statement_label(statements@[k as int]) {
                let j = choose|j: int|
                    0 <= j < table.labels@.len() && (#[trigger] table.labels@[j]).name@
                        == statement_label(statements@[k as int]);
                assert(listing.labels[j].0 == statement_label(statements@[k as int]));
            }
        }
        let failed: Option<AsmErrorKind> = match assemble_statement(&statements[k]) {
            Err(kind) => Some(kind),
            Ok(Emitted::Instruction(instruction)) => {
                instructions.push(instruction);
                None
            },
            Ok(Emitted::Label(name)) => {
                if instructions.len() > 0x7FFF {
                    if table.lookup(name.as_str()).is_some() {
                        Some(AsmErrorKind::DuplicateLabel)
                    } else {
                        Some(AsmErrorKind::OperandRange)
                    }
                } else {
                    let addr: u16 = (instructions.len() * 2) as u16;
                    if table.define(name, addr) {
                        proof {
                            assert(table.entries() =~= listing.labels.push((name@, addr)));
                        }
                        None
                    } else {
                        proof {
                            assert(table.entries() =~= listing.labels);
                        }
                        Some(AsmErrorKind::DuplicateLabel)
                    }
                }
            },
        };
        if let Some(kind) = failed {
            let error = AsmError { statement: k, kind };
            proof {
                assert(assembled(more) == Err::<Listing, AsmError>(error));
                lemma_assembled_error_stays(statements@, k + 1);
            }
            return Err(error);
        }
        k = k + 1;
    }
    proof {
        assert(statements@.subrange(0, k as int) =~= statements@);
    }
    Ok((instructions, table))
}

/// The name that a statement defines if it defines a label, and the empty
/// name otherwise.
pub open spec fn statement_label(statement: Statement) -> Seq<char> {
    match statement_meaning(statement) {
        Ok(Meaning::Define(name)) => name,
        _ => Seq::empty(),
    }
}

/// What is wrong with the start of a program is wrong with the whole of it.
pub proof fn lemma_assembled_error_stays(statements: Seq<Statement>, length: int)
    requires
        0 <= length <= statements.len(),
        assembled(statements.subrange(0, length)) is Err,
    ensures
        assembled(statements) == assembled(statements.subrange(0, length)),
    decreases statements.len() - length,
{
    if length == statements.len() {
        assert(statements.subrange(0, length) =~= statements);
    } else {
        let longer = statements.subrange(0, length + 1);
        assert(longer.drop_last() =~= statements.subrange(0, length));
        lemma_assembled_error_stays(statements, length + 1);
    }
}

/// The front end emits only instructions that have two bytes or will have
/// them once linked: operands that fit, and never the stand-in for undecodable
/// bytes.
pub proof fn emitted_is_well_formed(statement: Statement)
    ensures
        statement_meaning(statement) matches Ok(Meaning::Emit(instruction))
            ==> instruction.well_formed() && !(instruction is Invalid),
{
}

/// Every instruction of an assembled program has operands that fit and is
/// not the stand-in for undecodable bytes; every label lies at twice the
/// number of some prefix of the instructions.
pub proof fn assembled_is_well_formed(statements: Seq<Statement>)
    ensures
        assembled(statements) matches Ok(listing) ==> {
            &&& forall|k: int|
                0 <= k < listing.instructions.len() ==> {
                    &&& (#[trigger] listing.instructions[k]).well_formed()
                    &&& !(listing.instructions[k] is Invalid)
                }
            &&& forall|k: int|
                0 <= k < listing.labels.len() ==> (#[trigger] listing.labels[k]).1 % 2 == 0
                    && listing.labels[k].1 <= 2 * listing.instructions.len()
            &&& forall|j: int, k: int|
                0 <= j < k < listing.labels.len() ==> (#[trigger] listing.labels[j]).0
                    != (#[trigger] listing.labels[k]).0
        },
    decreases statements.len(),
{
    if statements.len() > 0 {
        assembled_is_well_formed(statements.drop_last());
        emitted_is_well_formed(statements[statements.len() - 1]);
    }
}

} // verus!
