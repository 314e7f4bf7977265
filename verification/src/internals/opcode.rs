//! The instruction set: one type for each form of instruction, the trait they
//! share, the sum of them all, and the decoder.

use vstd::prelude::*;
use vstd::string::*;
use crate::assembler::{CallLabel, JmpLabel};
use crate::internals::bits::{
    high_byte, high_nibble, join_bytes, join_nibbles, low_byte, low_nibble,
};
use crate::internals::fault::{EncodeError, Fault, Step};
use crate::internals::machine::{Machine, Outcome};
use crate::internals::processor::Processor;
use crate::internals::text::{hex_text, push_hex};

verus! {

/// What every instruction can do: run on a machine, say whether it sets the
/// program counter itself, and give its two bytes and its text.
pub trait Opcode {
    /// The operands fit the fields that the two-byte form has for them.
    spec fn well_formed(&self) -> bool;

    /// The machine after the instruction ran on `before`, and what it reports.
    /// `entropy` is the random byte handed to the instruction; only `RND` reads it.
    spec fn effect(&self, before: Machine, entropy: u8) -> Outcome;

    /// Whether the instruction sets the program counter itself, so that the
    /// driving loop must not advance it.
    spec fn alters_pc(&self) -> bool;

    /// The two bytes of the instruction, or why it has none.
    spec fn encoding(&self) -> Result<(u8, u8), EncodeError>;

    /// The instruction in assembler syntax.
    spec fn mnemonic(&self) -> Seq<char>;

    /// Runs the instruction on `processor`. A fault leaves the processor as it was.
    fn execute(&self, processor: &mut Processor, entropy: u8) -> (result: Result<Step, Fault>)
        ensures
            self.effect(old(processor)@, entropy) == (final(processor)@, result),
    ;

    /// Whether the instruction sets the program counter itself.
    fn modified_pc(&self) -> (altered: bool)
        ensures
            altered == self.alters_pc(),
    ;

    /// The two bytes of the instruction.
    fn assemble(&self) -> (bytes: Result<(u8, u8), EncodeError>)
        ensures
            bytes == self.encoding(),
    ;

    /// The instruction in assembler syntax.
    fn to_text(&self) -> (text: String)
        ensures
            text@ == self.mnemonic(),
    ;
}

/// Two bytes that name no instruction.
#[derive(Clone, Copy, Debug, PartialEq, Eq)]
pub struct InvalidOpcode {
    pub opcode: (u8, u8),
}

/// `CLS`: darkens every pixel of the screen.
#[derive(Clone, Copy, Debug, PartialEq, Eq, Structural)]
pub struct CLS {}

/// `RET`: returns from a subroutine to the address on top of the stack.
#[derive(Clone, Copy, Debug, PartialEq, Eq, Structural)]
pub struct RET {}

/// `JMP addr`: continues at `address`.
#[derive(Clone, Copy, Debug, PartialEq, Eq, Structural)]
pub struct JMP {
    pub address: u16,
}

/// `CALL addr`: calls the subroutine at `address`; the address of the
/// instruction after the call goes on the stack.
#[derive(Clone, Copy, Debug, PartialEq, Eq, Structural)]
pub struct CALL {
    pub address: u16,
}

/// `SE Vx, byte`: skips the next instruction if `Vx` equals `byte`.
#[derive(Clone, Copy, Debug, PartialEq, Eq, Structural)]
pub struct SEVxByte {
    pub reg: u8,
    pub byte: u8,
}

/// `SNE Vx, byte`: skips the next instruction if `Vx` differs from `byte`.
#[derive(Clone, Copy, Debug, PartialEq, Eq, Structural)]
pub struct SNEVxByte {
    pub reg: u8,
    pub byte: u8,
}

/// `SE Vx, Vy`: skips the next instruction if the two registers are equal.
#[derive(Clone, Copy, Debug, PartialEq, Eq, Structural)]
pub struct SEVxVy {
    pub reg_a: u8,
    pub reg_b: u8,
}

/// `SNE Vx, Vy`: skips the next instruction if the two registers differ.
#[derive(Clone, Copy, Debug, PartialEq, Eq, Structural)]
pub struct SNEVxVy {
    pub reg_a: u8,
    pub reg_b: u8,
}

/// `LD Vx, byte`: puts `byte` into `Vx`.
#[derive(Clone, Copy, Debug, PartialEq, Eq, Structural)]
pub struct LDVxByte {
    pub reg: u8,
    pub byte: u8,
}

/// `ADD Vx, byte`: adds `byte` to `Vx`, keeping the low eight bits. The flag
/// register is left alone.
#[derive(Clone, Copy, Debug, PartialEq, Eq, Structural)]
pub struct ADDVxByte {
    pub reg: u8,
    pub byte: u8,
}

/// `LD Vx, Vy`: copies `Vy` into `Vx`.
#[derive(Clone, Copy, Debug, PartialEq, Eq, Structural)]
pub struct LDVxVy {
    pub reg_a: u8,
    pub reg_b: u8,
}

/// `OR Vx, Vy`: `Vx` becomes the bitwise or of the two registers.
#[derive(Clone, Copy, Debug, PartialEq, Eq, Structural)]
pub struct ORVxVy {
    pub reg_a: u8,
    pub reg_b: u8,
}

/// `AND Vx, Vy`: `Vx` becomes the bitwise and of the two registers.
#[derive(Clone, Copy, Debug, PartialEq, Eq, Structural)]
pub struct ANDVxVy {
    pub reg_a: u8,
    pub reg_b: u8,
}

/// `XOR Vx, Vy`: `Vx` becomes the bitwise exclusive or of the two registers.
#[derive(Clone, Copy, Debug, PartialEq, Eq, Structural)]
pub struct XORVxVy {
    pub reg_a: u8,
    pub reg_b: u8,
}

/// `ADD Vx, Vy`: `VF` becomes 1 if the sum of the two registers exceeds 255,
/// else 0; then `Vx` receives the low eight bits of the sum.
#[derive(Clone, Copy, Debug, PartialEq, Eq, Structural)]
pub struct ADDVxVy {
    pub reg_a: u8,
    pub reg_b: u8,
}

/// `SUB Vx, Vy`: `VF` becomes 1 if `Vy` is larger than `Vx` (a borrow), else
/// 0; then `Vx` receives the difference, or 0 where it would be negative.
#[derive(Clone, Copy, Debug, PartialEq, Eq, Structural)]
pub struct SUBVxVy {
    pub reg_a: u8,
    pub reg_b: u8,
}

/// `SHR Vx`: `VF` becomes the lowest bit of `Vx`; then `Vx` is halved. The
/// second register is carried in the encoding only.
#[derive(Clone, Copy, Debug, PartialEq, Eq, Structural)]
pub struct SHRVxVy {
    pub reg_a: u8,
    pub reg_b: u8,
}

/// `SUBN Vx, Vy`: `VF` becomes 1 if `Vy` is at least `Vx` (no borrow), else 0;
/// then `Vx` receives the low eight bits of `Vy - Vx`.
#[derive(Clone, Copy, Debug, PartialEq, Eq, Structural)]
pub struct SUBNVxVy {
    pub reg_a: u8,
    pub reg_b: u8,
}

/// `SHL Vx`: `VF` becomes the highest bit of `Vx`; then `Vx` is doubled,
/// keeping the low eight bits. The second register is carried in the
/// encoding only.
#[derive(Clone, Copy, Debug, PartialEq, Eq, Structural)]
pub struct SHLVxVy {
    pub reg_a: u8,
    pub reg_b: u8,
}

/// `LD Vx, DT`: the delay timer counts down by one, stopping at zero, and
/// `Vx` receives its new value. The machine has no clock, so reading the timer
/// is what makes it run.
#[derive(Clone, Copy, Debug, PartialEq, Eq, Structural)]
pub struct LDVxDT {
    pub reg: u8,
}

/// `LD Vx, K`: takes the pressed key from the keyboard into `Vx`, or waits
/// for one.
#[derive(Clone, Copy, Debug, PartialEq, Eq, Structural)]
pub struct LDVxK {
    pub reg: u8,
}

/// `LD DT, Vx`: sets the delay timer to `Vx`.
#[derive(Clone, Copy, Debug, PartialEq, Eq, Structural)]
pub struct LDDTVx {
    pub reg: u8,
}

/// `LD ST, Vx`: sets the sound timer to `Vx`.
#[derive(Clone, Copy, Debug, PartialEq, Eq, Structural)]
pub struct LDSTVx {
    pub reg: u8,
}

/// `ADD I, Vx`: adds `Vx` to the index register, keeping the low sixteen bits.
#[derive(Clone, Copy, Debug, PartialEq, Eq, Structural)]
pub struct ADDIVx {
    pub reg: u8,
}

/// `LD F, Vx`: points the index register at the glyph for the digit in `Vx`.
#[derive(Clone, Copy, Debug, PartialEq, Eq, Structural)]
pub struct LDFVx {
    pub reg: u8,
}

/// `LD B, Vx`: writes the hundreds, tens and ones digit of `Vx` to memory at
/// `I`, `I + 1` and `I + 2`.
#[derive(Clone, Copy, Debug, PartialEq, Eq, Structural)]
pub struct LDBVx {
    pub reg: u8,
}

/// `LD I, Vx`: stores the registers `V0` to `Vx` in memory from `I` on.
#[derive(Clone, Copy, Debug, PartialEq, Eq, Structural)]
pub struct LDIVx {
    pub reg: u8,
}

/// `LD Vx, I`: loads the registers `V0` to `Vx` from memory at `I` on.
#[derive(Clone, Copy, Debug, PartialEq, Eq, Structural)]
pub struct LDVxI {
    pub reg: u8,
}

/// `SKP Vx`: skips the next instruction if the key named by `Vx` is down.
#[derive(Clone, Copy, Debug, PartialEq, Eq, Structural)]
pub struct SKPKBRDVx {
    pub reg: u8,
}

/// `SKNP Vx`: skips the next instruction unless the key named by `Vx` is down.
#[derive(Clone, Copy, Debug, PartialEq, Eq, Structural)]
pub struct SKNPBRDVx {
    pub reg: u8,
}

/// `DRW Vx, Vy, n`: draws the sprite of `size` rows found at `I` onto the
/// screen at column `Vx`, row `Vy`.
#[derive(Clone, Copy, Debug, PartialEq, Eq, Structural)]
pub struct DRW {
    pub reg_x: u8,
    pub reg_y: u8,
    pub size: u8,
}

/// `RND Vx, byte`: puts a random byte, masked with `byte`, into `Vx`.
#[derive(Clone, Copy, Debug, PartialEq, Eq, Structural)]
pub struct RNDVxByte {
    pub reg: u8,
    pub byte: u8,
}

/// `LDI addr`: points the index register at `address`.
#[derive(Clone, Copy, Debug, PartialEq, Eq, Structural)]
pub struct LDIAddr {
    pub address: u16,
}

/// `JP V0, addr`: continues at `address` plus `V0`.
#[derive(Clone, Copy, Debug, PartialEq, Eq, Structural)]
pub struct JPV0Offset {
    pub address: u16,
}

impl JMP {
    /// The instruction whose address has `val` as its upper and `low` as its lower byte.
    pub fn new(val: u8, low: u8) -> (jump: JMP)
        ensures
            jump.address == val * 256 + low,
    {
        JMP { address: join_bytes(val, low) }
    }
}

impl CALL {
    /// The instruction whose address has `val` as its upper and `low` as its lower byte.
    pub fn new(val: u8, low: u8) -> (call: CALL)
        ensures
            call.address == val * 256 + low,
    {
        CALL { address: join_bytes(val, low) }
    }
}

impl LDIAddr {
    /// The instruction whose address has `val` as its upper and `low` as its lower byte.
    pub fn new(val: u8, low: u8) -> (load: LDIAddr)
        ensures
            load.address == val * 256 + low,
    {
        LDIAddr { address: join_bytes(val, low) }
    }
}

impl JPV0Offset {
    /// The instruction whose address has `val` as its upper and `low` as its lower byte.
    pub fn new(val: u8, low: u8) -> (jump: JPV0Offset)
        ensures
            jump.address == val * 256 + low,
    {
        JPV0Offset { address: join_bytes(val, low) }
    }
}

/// The two bytes of an instruction with one register and a free second byte:
/// the selector and the register share the first byte.
pub open spec fn register_form(selector: int, reg: u8, low: u8) -> Result<(u8, u8), EncodeError> {
    if reg > 0xF {
        Err(EncodeError::OperandRange)
    } else {
        Ok(((selector * 16 + reg) as u8, low))
    }
}

/// The two bytes of an instruction with two registers: the second register
/// shares the second byte with the nibble `last`.
pub open spec fn register_pair_form(selector: int, reg_a: u8, reg_b: u8, last: int) -> Result<
    (u8, u8),
    EncodeError,
> {
    if reg_a > 0xF || reg_b > 0xF || last > 0xF {
        Err(EncodeError::OperandRange)
    } else {
        Ok(((selector * 16 + reg_a) as u8, (reg_b * 16 + last) as u8))
    }
}

/// The two bytes of an instruction with a twelve-bit address behind the selector.
pub open spec fn address_form(selector: int, address: u16) -> Result<(u8, u8), EncodeError> {
    if address > 0xFFF {
        Err(EncodeError::OperandRange)
    } else {
        Ok(((selector * 16 + address / 256) as u8, (address % 256) as u8))
    }
}

/// Encodes an instruction with one register and a free second byte.
pub(crate) fn encode_register(selector: u8, reg: u8, low: u8) -> (bytes: Result<
    (u8, u8),
    EncodeError,
>)
    requires
        selector <= 0xF,
    ensures
        bytes == register_form(selector as int, reg, low),
{
    if reg > 0xF {
        return Err(EncodeError::OperandRange);
    }
    Ok((join_nibbles(selector, reg), low))
}

/// Encodes an instruction with two registers and a last nibble.
pub(crate) fn encode_register_pair(selector: u8, reg_a: u8, reg_b: u8, last: u8) -> (bytes: Result<
    (u8, u8),
    EncodeError,
>)
    requires
        selector <= 0xF,
    ensures
        bytes == register_pair_form(selector as int, reg_a, reg_b, last as int),
{
    if reg_a > 0xF || reg_b > 0xF || last > 0xF {
        return Err(EncodeError::OperandRange);
    }
    Ok((join_nibbles(selector, reg_a), join_nibbles(reg_b, last)))
}

/// Encodes an instruction with a twelve-bit address.
pub(crate) fn encode_address(selector: u8, address: u16) -> (bytes: Result<(u8, u8), EncodeError>)
    requires
        selector <= 0xF,
    ensures
        bytes == address_form(selector as int, address),
{
    if address > 0xFFF {
        return Err(EncodeError::OperandRange);
    }
    Ok((join_nibbles(selector, high_byte(address)), low_byte(address)))
}

/// The name of a register: `V` and its number in base sixteen.
pub open spec fn register_text(reg: u8) -> Seq<char> {
    "V"@ + hex_text(reg as nat, true)
}

/// A number in base sixteen behind `0x`.
pub open spec fn prefixed_hex(n: nat) -> Seq<char> {
    "0x"@ + hex_text(n, true)
}

/// Appends the name of a register.
pub fn push_register(text: &mut String, reg: u8)
    ensures
        final(text)@ == old(text)@ + register_text(reg),
{
    text.append("V");
    push_hex(text, reg as u16, true);
    assert(text@ =~= old(text)@ + register_text(reg));
}

/// Any instruction: the forms that have two bytes, the stand-in for bytes
/// that decode to nothing, and the two label placeholders that exist only
/// between the assembler's front end and its linker.
#[derive(Clone, Debug, PartialEq, Eq)]

pub enum Instruction {
    Invalid(InvalidOpcode),
    CLS(CLS),
    RET(RET),
    JMP(JMP),
    CALL(CALL),
    SEVxByte(SEVxByte),
    SNEVxByte(SNEVxByte),
    SEVxVy(SEVxVy),
    SNEVxVy(SNEVxVy),
    LDVxByte(LDVxByte),
    ADDVxByte(ADDVxByte),
    LDVxVy(LDVxVy),
    ORVxVy(ORVxVy),
    ANDVxVy(ANDVxVy),
    XORVxVy(XORVxVy),
    ADDVxVy(ADDVxVy),
    SUBVxVy(SUBVxVy),
    SHRVxVy(SHRVxVy),
    SUBNVxVy(SUBNVxVy),
    SHLVxVy(SHLVxVy),
    LDVxDT(LDVxDT),
    LDVxK(LDVxK),
    LDDTVx(LDDTVx),
    LDSTVx(LDSTVx),
    ADDIVx(ADDIVx),
    LDFVx(LDFVx),
    LDBVx(LDBVx),
    LDIVx(LDIVx),
    LDVxI(LDVxI),
    SKPKBRDVx(SKPKBRDVx),
    SKNPBRDVx(SKNPBRDVx),
    DRW(DRW),
    RNDVxByte(RNDVxByte),
    LDIAddr(LDIAddr),
    JPV0Offset(JPV0Offset),
    UnresolvedJump(JmpLabel),
    UnresolvedCall(CallLabel),
}

impl Instruction {
    /// The instruction is one that the machine runs and the encoder writes:
    /// neither the stand-in for undecodable bytes nor a label placeholder.
    pub open spec fn concrete(&self) -> bool {
        !(self is Invalid || self is UnresolvedJump || self is UnresolvedCall)
    }

    /// Whether the instruction is a label placeholder.
    pub open spec fn placeholder(&self) -> bool {
        self is UnresolvedJump || self is UnresolvedCall
    }

    /// Whether the instruction is a label placeholder.
    pub fn is_placeholder(&self) -> (held: bool)
        ensures
            held == self.placeholder(),
    {
        match self {
            Instruction::UnresolvedJump(_) => true,
            Instruction::UnresolvedCall(_) => true,
            _ => false,
        }
    }

    /// Whether the instruction is the stand-in for undecodable bytes.
    pub fn is_invalid(&self) -> (held: bool)
        ensures
            held == (self is Invalid),
    {
        match self {
            Instruction::Invalid(_) => true,
            _ => false,
        }
    }
}

impl Opcode for Instruction {
    open spec fn well_formed(&self) -> bool {
        match self {
            Instruction::Invalid(op) => op.well_formed(),
            Instruction::CLS(op) => op.well_formed(),
            Instruction::RET(op) => op.well_formed(),
            Instruction::JMP(op) => op.well_formed(),
            Instruction::CALL(op) => op.well_formed(),
            Instruction::SEVxByte(op) => op.well_formed(),
            Instruction::SNEVxByte(op) => op.well_formed(),
            Instruction::SEVxVy(op) => op.well_formed(),
            Instruction::SNEVxVy(op) => op.well_formed(),
            Instruction::LDVxByte(op) => op.well_formed(),
            Instruction::ADDVxByte(op) => op.well_formed(),
            Instruction::LDVxVy(op) => op.well_formed(),
            Instruction::ORVxVy(op) => op.well_formed(),
            Instruction::ANDVxVy(op) => op.well_formed(),
            Instruction::XORVxVy(op) => op.well_formed(),
            Instruction::ADDVxVy(op) => op.well_formed(),
            Instruction::SUBVxVy(op) => op.well_formed(),
            Instruction::SHRVxVy(op) => op.well_formed(),
            Instruction::SUBNVxVy(op) => op.well_formed(),
            Instruction::SHLVxVy(op) => op.well_formed(),
            Instruction::LDVxDT(op) => op.well_formed(),
            Instruction::LDVxK(op) => op.well_formed(),
            Instruction::LDDTVx(op) => op.well_formed(),
            Instruction::LDSTVx(op) => op.well_formed(),
            Instruction::ADDIVx(op) => op.well_formed(),
            Instruction::LDFVx(op) => op.well_formed(),
            Instruction::LDBVx(op) => op.well_formed(),
            Instruction::LDIVx(op) => op.well_formed(),
            Instruction::LDVxI(op) => op.well_formed(),
            Instruction::SKPKBRDVx(op) => op.well_formed(),
            Instruction::SKNPBRDVx(op) => op.well_formed(),
            Instruction::DRW(op) => op.well_formed(),
            Instruction::RNDVxByte(op) => op.well_formed(),
            Instruction::LDIAddr(op) => op.well_formed(),
            Instruction::JPV0Offset(op) => op.well_formed(),
            Instruction::UnresolvedJump(op) => op.well_formed(),
            Instruction::UnresolvedCall(op) => op.well_formed(),
        }
    }

    open spec fn effect(&self, before: Machine, entropy: u8) -> Outcome {
        match self {
            Instruction::Invalid(op) => op.effect(before, entropy),
            Instruction::CLS(op) => op.effect(before, entropy),
            Instruction::RET(op) => op.effect(before, entropy),
            Instruction::JMP(op) => op.effect(before, entropy),
            Instruction::CALL(op) => op.effect(before, entropy),
            Instruction::SEVxByte(op) => op.effect(before, entropy),
            Instruction::SNEVxByte(op) => op.effect(before, entropy),
            Instruction::SEVxVy(op) => op.effect(before, entropy),
            Instruction::SNEVxVy(op) => op.effect(before, entropy),
            Instruction::LDVxByte(op) => op.effect(before, entropy),
            Instruction::ADDVxByte(op) => op.effect(before, entropy),
            Instruction::LDVxVy(op) => op.effect(before, entropy),
            Instruction::ORVxVy(op) => op.effect(before, entropy),
            Instruction::ANDVxVy(op) => op.effect(before, entropy),
            Instruction::XORVxVy(op) => op.effect(before, entropy),
            Instruction::ADDVxVy(op) => op.effect(before, entropy),
            Instruction::SUBVxVy(op) => op.effect(before, entropy),
            Instruction::SHRVxVy(op) => op.effect(before, entropy),
            Instruction::SUBNVxVy(op) => op.effect(before, entropy),
            Instruction::SHLVxVy(op) => op.effect(before, entropy),
            Instruction::LDVxDT(op) => op.effect(before, entropy),
            Instruction::LDVxK(op) => op.effect(before, entropy),
            Instruction::LDDTVx(op) => op.effect(before, entropy),
            Instruction::LDSTVx(op) => op.effect(before, entropy),
            Instruction::ADDIVx(op) => op.effect(before, entropy),
            Instruction::LDFVx(op) => op.effect(before, entropy),
            Instruction::LDBVx(op) => op.effect(before, entropy),
            Instruction::LDIVx(op) => op.effect(before, entropy),
            Instruction::LDVxI(op) => op.effect(before, entropy),
            Instruction::SKPKBRDVx(op) => op.effect(before, entropy),
            Instruction::SKNPBRDVx(op) => op.effect(before, entropy),
            Instruction::DRW(op) => op.effect(before, entropy),
            Instruction::RNDVxByte(op) => op.effect(before, entropy),
            Instruction::LDIAddr(op) => op.effect(before, entropy),
            Instruction::JPV0Offset(op) => op.effect(before, entropy),
            Instruction::UnresolvedJump(op) => op.effect(before, entropy),
            Instruction::UnresolvedCall(op) => op.effect(before, entropy),
        }
    }

    open spec fn alters_pc(&self) -> bool {
        match self {
            Instruction::Invalid(op) => op.alters_pc(),
            Instruction::CLS(op) => op.alters_pc(),
            Instruction::RET(op) => op.alters_pc(),
            Instruction::JMP(op) => op.alters_pc(),
            Instruction::CALL(op) => op.alters_pc(),
            Instruction::SEVxByte(op) => op.alters_pc(),
            Instruction::SNEVxByte(op) => op.alters_pc(),
            Instruction::SEVxVy(op) => op.alters_pc(),
            Instruction::SNEVxVy(op) => op.alters_pc(),
            Instruction::LDVxByte(op) => op.alters_pc(),
            Instruction::ADDVxByte(op) => op.alters_pc(),
            Instruction::LDVxVy(op) => op.alters_pc(),
            Instruction::ORVxVy(op) => op.alters_pc(),
            Instruction::ANDVxVy(op) => op.alters_pc(),
            Instruction::XORVxVy(op) => op.alters_pc(),
            Instruction::ADDVxVy(op) => op.alters_pc(),
            Instruction::SUBVxVy(op) => op.alters_pc(),
            Instruction::SHRVxVy(op) => op.alters_pc(),
            Instruction::SUBNVxVy(op) => op.alters_pc(),
            Instruction::SHLVxVy(op) => op.alters_pc(),
            Instruction::LDVxDT(op) => op.alters_pc(),
            Instruction::LDVxK(op) => op.alters_pc(),
            Instruction::LDDTVx(op) => op.alters_pc(),
            Instruction::LDSTVx(op) => op.alters_pc(),
            Instruction::ADDIVx(op) => op.alters_pc(),
            Instruction::LDFVx(op) => op.alters_pc(),
            Instruction::LDBVx(op) => op.alters_pc(),
            Instruction::LDIVx(op) => op.alters_pc(),
            Instruction::LDVxI(op) => op.alters_pc(),
            Instruction::SKPKBRDVx(op) => op.alters_pc(),
            Instruction::SKNPBRDVx(op) => op.alters_pc(),
            Instruction::DRW(op) => op.alters_pc(),
            Instruction::RNDVxByte(op) => op.alters_pc(),
            Instruction::LDIAddr(op) => op.alters_pc(),
            Instruction::JPV0Offset(op) => op.alters_pc(),
            Instruction::UnresolvedJump(op) => op.alters_pc(),
            Instruction::UnresolvedCall(op) => op.alters_pc(),
        }
    }

    open spec fn encoding(&self) -> Result<(u8, u8), EncodeError> {
        match self {
            Instruction::Invalid(op) => op.encoding(),
            Instruction::CLS(op) => op.encoding(),
            Instruction::RET(op) => op.encoding(),
            Instruction::JMP(op) => op.encoding(),
            Instruction::CALL(op) => op.encoding(),
            Instruction::SEVxByte(op) => op.encoding(),
            Instruction::SNEVxByte(op) => op.encoding(),
            Instruction::SEVxVy(op) => op.encoding(),
            Instruction::SNEVxVy(op) => op.encoding(),
            Instruction::LDVxByte(op) => op.encoding(),
            Instruction::ADDVxByte(op) => op.encoding(),
            Instruction::LDVxVy(op) => op.encoding(),
            Instruction::ORVxVy(op) => op.encoding(),
            Instruction::ANDVxVy(op) => op.encoding(),
            Instruction::XORVxVy(op) => op.encoding(),
            Instruction::ADDVxVy(op) => op.encoding(),
            Instruction::SUBVxVy(op) => op.encoding(),
            Instruction::SHRVxVy(op) => op.encoding(),
            Instruction::SUBNVxVy(op) => op.encoding(),
            Instruction::SHLVxVy(op) => op.encoding(),
            Instruction::LDVxDT(op) => op.encoding(),
            Instruction::LDVxK(op) => op.encoding(),
            Instruction::LDDTVx(op) => op.encoding(),
            Instruction::LDSTVx(op) => op.encoding(),
            Instruction::ADDIVx(op) => op.encoding(),
            Instruction::LDFVx(op) => op.encoding(),
            Instruction::LDBVx(op) => op.encoding(),
            Instruction::LDIVx(op) => op.encoding(),
            Instruction::LDVxI(op) => op.encoding(),
            Instruction::SKPKBRDVx(op) => op.encoding(),
            Instruction::SKNPBRDVx(op) => op.encoding(),
            Instruction::DRW(op) => op.encoding(),
            Instruction::RNDVxByte(op) => op.encoding(),
            Instruction::LDIAddr(op) => op.encoding(),
            Instruction::JPV0Offset(op) => op.encoding(),
            Instruction::UnresolvedJump(op) => op.encoding(),
            Instruction::UnresolvedCall(op) => op.encoding(),
        }
    }

    open spec fn mnemonic(&self) -> Seq<char> {
        match self {
            Instruction::Invalid(op) => op.mnemonic(),
            Instruction::CLS(op) => op.mnemonic(),
            Instruction::RET(op) => op.mnemonic(),
            Instruction::JMP(op) => op.mnemonic(),
            Instruction::CALL(op) => op.mnemonic(),
            Instruction::SEVxByte(op) => op.mnemonic(),
            Instruction::SNEVxByte(op) => op.mnemonic(),
            Instruction::SEVxVy(op) => op.mnemonic(),
            Instruction::SNEVxVy(op) => op.mnemonic(),
            Instruction::LDVxByte(op) => op.mnemonic(),
            Instruction::ADDVxByte(op) => op.mnemonic(),
            Instruction::LDVxVy(op) => op.mnemonic(),
            Instruction::ORVxVy(op) => op.mnemonic(),
            Instruction::ANDVxVy(op) => op.mnemonic(),
            Instruction::XORVxVy(op) => op.mnemonic(),
            Instruction::ADDVxVy(op) => op.mnemonic(),
            Instruction::SUBVxVy(op) => op.mnemonic(),
            Instruction::SHRVxVy(op) => op.mnemonic(),
            Instruction::SUBNVxVy(op) => op.mnemonic(),
            Instruction::SHLVxVy(op) => op.mnemonic(),
            Instruction::LDVxDT(op) => op.mnemonic(),
            Instruction::LDVxK(op) => op.mnemonic(),
            Instruction::LDDTVx(op) => op.mnemonic(),
            Instruction::LDSTVx(op) => op.mnemonic(),
            Instruction::ADDIVx(op) => op.mnemonic(),
            Instruction::LDFVx(op) => op.mnemonic(),
            Instruction::LDBVx(op) => op.mnemonic(),
            Instruction::LDIVx(op) => op.mnemonic(),
            Instruction::LDVxI(op) => op.mnemonic(),
            Instruction::SKPKBRDVx(op) => op.mnemonic(),
            Instruction::SKNPBRDVx(op) => op.mnemonic(),
            Instruction::DRW(op) => op.mnemonic(),
            Instruction::RNDVxByte(op) => op.mnemonic(),
            Instruction::LDIAddr(op) => op.mnemonic(),
            Instruction::JPV0Offset(op) => op.mnemonic(),
            Instruction::UnresolvedJump(op) => op.mnemonic(),
            Instruction::UnresolvedCall(op) => op.mnemonic(),
        }
    }

    fn execute(&self, processor: &mut Processor, entropy: u8) -> (result: Result<Step, Fault>) {
        match self {
            Instruction::Invalid(op) => op.execute(processor, entropy),
            Instruction::CLS(op) => op.execute(processor, entropy),
            Instruction::RET(op) => op.execute(processor, entropy),
            Instruction::JMP(op) => op.execute(processor, entropy),
            Instruction::CALL(op) => op.execute(processor, entropy),
            Instruction::SEVxByte(op) => op.execute(processor, entropy),
            Instruction::SNEVxByte(op) => op.execute(processor, entropy),
            Instruction::SEVxVy(op) => op.execute(processor, entropy),
            Instruction::SNEVxVy(op) => op.execute(processor, entropy),
            Instruction::LDVxByte(op) => op.execute(processor, entropy),
            Instruction::ADDVxByte(op) => op.execute(processor, entropy),
            Instruction::LDVxVy(op) => op.execute(processor, entropy),
            Instruction::ORVxVy(op) => op.execute(processor, entropy),
            Instruction::ANDVxVy(op) => op.execute(processor, entropy),
            Instruction::XORVxVy(op) => op.execute(processor, entropy),
            Instruction::ADDVxVy(op) => op.execute(processor, entropy),
            Instruction::SUBVxVy(op) => op.execute(processor, entropy),
            Instruction::SHRVxVy(op) => op.execute(processor, entropy),
            Instruction::SUBNVxVy(op) => op.execute(processor, entropy),
            Instruction::SHLVxVy(op) => op.execute(processor, entropy),
            Instruction::LDVxDT(op) => op.execute(processor, entropy),
            Instruction::LDVxK(op) => op.execute(processor, entropy),
            Instruction::LDDTVx(op) => op.execute(processor, entropy),
            Instruction::LDSTVx(op) => op.execute(processor, entropy),
            Instruction::ADDIVx(op) => op.execute(processor, entropy),
            Instruction::LDFVx(op) => op.execute(processor, entropy),
            Instruction::LDBVx(op) => op.execute(processor, entropy),
            Instruction::LDIVx(op) => op.execute(processor, entropy),
            Instruction::LDVxI(op) => op.execute(processor, entropy),
            Instruction::SKPKBRDVx(op) => op.execute(processor, entropy),
            Instruction::SKNPBRDVx(op) => op.execute(processor, entropy),
            Instruction::DRW(op) => op.execute(processor, entropy),
            Instruction::RNDVxByte(op) => op.execute(processor, entropy),
            Instruction::LDIAddr(op) => op.execute(processor, entropy),
            Instruction::JPV0Offset(op) => op.execute(processor, entropy),
            Instruction::UnresolvedJump(op) => op.execute(processor, entropy),
            Instruction::UnresolvedCall(op) => op.execute(processor, entropy),
        }
    }

    fn modified_pc(&self) -> (altered: bool) {
        match self {
            Instruction::Invalid(op) => op.modified_pc(),
            Instruction::CLS(op) => op.modified_pc(),
            Instruction::RET(op) => op.modified_pc(),
            Instruction::JMP(op) => op.modified_pc(),
            Instruction::CALL(op) => op.modified_pc(),
            Instruction::SEVxByte(op) => op.modified_pc(),
            Instruction::SNEVxByte(op) => op.modified_pc(),
            Instruction::SEVxVy(op) => op.modified_pc(),
            Instruction::SNEVxVy(op) => op.modified_pc(),
            Instruction::LDVxByte(op) => op.modified_pc(),
            Instruction::ADDVxByte(op) => op.modified_pc(),
            Instruction::LDVxVy(op) => op.modified_pc(),
            Instruction::ORVxVy(op) => op.modified_pc(),
            Instruction::ANDVxVy(op) => op.modified_pc(),
            Instruction::XORVxVy(op) => op.modified_pc(),
            Instruction::ADDVxVy(op) => op.modified_pc(),
            Instruction::SUBVxVy(op) => op.modified_pc(),
            Instruction::SHRVxVy(op) => op.modified_pc(),
            Instruction::SUBNVxVy(op) => op.modified_pc(),
            Instruction::SHLVxVy(op) => op.modified_pc(),
            Instruction::LDVxDT(op) => op.modified_pc(),
            Instruction::LDVxK(op) => op.modified_pc(),
            Instruction::LDDTVx(op) => op.modified_pc(),
            Instruction::LDSTVx(op) => op.modified_pc(),
            Instruction::ADDIVx(op) => op.modified_pc(),
            Instruction::LDFVx(op) => op.modified_pc(),
            Instruction::LDBVx(op) => op.modified_pc(),
            Instruction::LDIVx(op) => op.modified_pc(),
            Instruction::LDVxI(op) => op.modified_pc(),
            Instruction::SKPKBRDVx(op) => op.modified_pc(),
            Instruction::SKNPBRDVx(op) => op.modified_pc(),
            Instruction::DRW(op) => op.modified_pc(),
            Instruction::RNDVxByte(op) => op.modified_pc(),
            Instruction::LDIAddr(op) => op.modified_pc(),
            Instruction::JPV0Offset(op) => op.modified_pc(),
            Instruction::UnresolvedJump(op) => op.modified_pc(),
            Instruction::UnresolvedCall(op) => op.modified_pc(),
        }
    }

    fn assemble(&self) -> (bytes: Result<(u8, u8), EncodeError>) {
        match self {
            Instruction::Invalid(op) => op.assemble(),
            Instruction::CLS(op) => op.assemble(),
            Instruction::RET(op) => op.assemble(),
            Instruction::JMP(op) => op.assemble(),
            Instruction::CALL(op) => op.assemble(),
            Instruction::SEVxByte(op) => op.assemble(),
            Instruction::SNEVxByte(op) => op.assemble(),
            Instruction::SEVxVy(op) => op.assemble(),
            Instruction::SNEVxVy(op) => op.assemble(),
            Instruction::LDVxByte(op) => op.assemble(),
            Instruction::ADDVxByte(op) => op.assemble(),
            Instruction::LDVxVy(op) => op.assemble(),
            Instruction::ORVxVy(op) => op.assemble(),
            Instruction::ANDVxVy(op) => op.assemble(),
            Instruction::XORVxVy(op) => op.assemble(),
            Instruction::ADDVxVy(op) => op.assemble(),
            Instruction::SUBVxVy(op) => op.assemble(),
            Instruction::SHRVxVy(op) => op.assemble(),
            Instruction::SUBNVxVy(op) => op.assemble(),
            Instruction::SHLVxVy(op) => op.assemble(),
            Instruction::LDVxDT(op) => op.assemble(),
            Instruction::LDVxK(op) => op.assemble(),
            Instruction::LDDTVx(op) => op.assemble(),
            Instruction::LDSTVx(op) => op.assemble(),
            Instruction::ADDIVx(op) => op.assemble(),
            Instruction::LDFVx(op) => op.assemble(),
            Instruction::LDBVx(op) => op.assemble(),
            Instruction::LDIVx(op) => op.assemble(),
            Instruction::LDVxI(op) => op.assemble(),
            Instruction::SKPKBRDVx(op) => op.assemble(),
            Instruction::SKNPBRDVx(op) => op.assemble(),
            Instruction::DRW(op) => op.assemble(),
            Instruction::RNDVxByte(op) => op.assemble(),
            Instruction::LDIAddr(op) => op.assemble(),
            Instruction::JPV0Offset(op) => op.assemble(),
            Instruction::UnresolvedJump(op) => op.assemble(),
            Instruction::UnresolvedCall(op) => op.assemble(),
        }
    }

    fn to_text(&self) -> (text: String) {
        match self {
            Instruction::Invalid(op) => op.to_text(),
            Instruction::CLS(op) => op.to_text(),
            Instruction::RET(op) => op.to_text(),
            Instruction::JMP(op) => op.to_text(),
            Instruction::CALL(op) => op.to_text(),
            Instruction::SEVxByte(op) => op.to_text(),
            Instruction::SNEVxByte(op) => op.to_text(),
            Instruction::SEVxVy(op) => op.to_text(),
            Instruction::SNEVxVy(op) => op.to_text(),
            Instruction::LDVxByte(op) => op.to_text(),
            Instruction::ADDVxByte(op) => op.to_text(),
            Instruction::LDVxVy(op) => op.to_text(),
            Instruction::ORVxVy(op) => op.to_text(),
            Instruction::ANDVxVy(op) => op.to_text(),
            Instruction::XORVxVy(op) => op.to_text(),
            Instruction::ADDVxVy(op) => op.to_text(),
            Instruction::SUBVxVy(op) => op.to_text(),
            Instruction::SHRVxVy(op) => op.to_text(),
            Instruction::SUBNVxVy(op) => op.to_text(),
            Instruction::SHLVxVy(op) => op.to_text(),
            Instruction::LDVxDT(op) => op.to_text(),
            Instruction::LDVxK(op) => op.to_text(),
            Instruction::LDDTVx(op) => op.to_text(),
            Instruction::LDSTVx(op) => op.to_text(),
            Instruction::ADDIVx(op) => op.to_text(),
            Instruction::LDFVx(op) => op.to_text(),
            Instruction::LDBVx(op) => op.to_text(),
            Instruction::LDIVx(op) => op.to_text(),
            Instruction::LDVxI(op) => op.to_text(),
            Instruction::SKPKBRDVx(op) => op.to_text(),
            Instruction::SKNPBRDVx(op) => op.to_text(),
            Instruction::DRW(op) => op.to_text(),
            Instruction::RNDVxByte(op) => op.to_text(),
            Instruction::LDIAddr(op) => op.to_text(),
            Instruction::JPV0Offset(op) => op.to_text(),
            Instruction::UnresolvedJump(op) => op.to_text(),
            Instruction::UnresolvedCall(op) => op.to_text(),
        }
    }
}

/// The instruction that the bytes `high` and `low` name.
///
/// Two words are matched whole. For the rest the upper nibble of `high` selects
/// the family; its lower nibble is the first register or the top of the
/// address. Families 8, E and F select further by `low`.
pub open spec fn decoded(high: u8, low: u8) -> Instruction {
    let selector = high / 16;
    let reg = (high % 16) as u8;
    let reg_b = (low / 16) as u8;
    let last = low % 16;
    let address = ((high % 16) * 256 + low) as u16;
    let invalid = Instruction::Invalid(InvalidOpcode { opcode: (high, low) });
    if high == 0x00 && low == 0xE0 {
        Instruction::CLS(CLS {  })
    } else if high == 0x00 && low == 0xEE {
        Instruction::RET(RET {  })
    } else if selector == 0x1 {
        Instruction::JMP(JMP { address })
    } else if selector == 0x2 {
        Instruction::CALL(CALL { address })
    } else if selector == 0x3 {
        Instruction::SEVxByte(SEVxByte { reg, byte: low })
    } else if selector == 0x4 {
        Instruction::SNEVxByte(SNEVxByte { reg, byte: low })
    } else if selector == 0x5 {
        Instruction::SEVxVy(SEVxVy { reg_a: reg, reg_b })
    } else if selector == 0x6 {
        Instruction::LDVxByte(LDVxByte { reg, byte: low })
    } else if selector == 0x7 {
        Instruction::ADDVxByte(ADDVxByte { reg, byte: low })
    } else if selector == 0x8 {
        if last == 0x0 {
            Instruction::LDVxVy(LDVxVy { reg_a: reg, reg_b })
        } else if last == 0x1 {
            Instruction::ORVxVy(ORVxVy { reg_a: reg, reg_b })
        } else if last == 0x2 {
            Instruction::ANDVxVy(ANDVxVy { reg_a: reg, reg_b })
        } else if last == 0x3 {
            Instruction::XORVxVy(XORVxVy { reg_a: reg, reg_b })
        } else if last == 0x4 {
            Instruction::ADDVxVy(ADDVxVy { reg_a: reg, reg_b })
        } else if last == 0x5 {
            Instruction::SUBVxVy(SUBVxVy { reg_a: reg, reg_b })
        } else if last == 0x6 {
            Instruction::SHRVxVy(SHRVxVy { reg_a: reg, reg_b })
        } else if last == 0x7 {
            Instruction::SUBNVxVy(SUBNVxVy { reg_a: reg, reg_b })
        } else if last == 0xE {
            Instruction::SHLVxVy(SHLVxVy { reg_a: reg, reg_b })
        } else {
            invalid
        }
    } else if selector == 0x9 {
        Instruction::SNEVxVy(SNEVxVy { reg_a: reg, reg_b })
    } else if selector == 0xA {
        Instruction::LDIAddr(LDIAddr { address })
    } else if selector == 0xB {
        Instruction::JPV0Offset(JPV0Offset { address })
    } else if selector == 0xC {
        Instruction::RNDVxByte(RNDVxByte { reg, byte: low })
    } else if selector == 0xD {
        Instruction::DRW(DRW { reg_x: reg, reg_y: reg_b, size: last as u8 })
    } else if selector == 0xE {
        if low == 0x9E {
            Instruction::SKPKBRDVx(SKPKBRDVx { reg })
        } else if low == 0xA1 {
            Instruction::SKNPBRDVx(SKNPBRDVx { reg })
        } else {
            invalid
        }
    } else if selector == 0xF {
        if low == 0x07 {
            Instruction::LDVxDT(LDVxDT { reg })
        } else if low == 0x0A {
            Instruction::LDVxK(LDVxK { reg })
        } else if low == 0x15 {
            Instruction::LDDTVx(LDDTVx { reg })
        } else if low == 0x18 {
            Instruction::LDSTVx(LDSTVx { reg })
        } else if low == 0x1E {
            Instruction::ADDIVx(ADDIVx { reg })
        } else if low == 0x29 {
            Instruction::LDFVx(LDFVx { reg })
        } else if low == 0x33 {
            Instruction::LDBVx(LDBVx { reg })
        } else if low == 0x55 {
            Instruction::LDIVx(LDIVx { reg })
        } else if low == 0x65 {
            Instruction::LDVxI(LDVxI { reg })
        } else {
            invalid
        }
    } else {
        invalid
    }
}

/// Decodes the two bytes of an instruction word. Every pair of bytes decodes:
/// those that name no instruction give `Instruction::Invalid` with the bytes in it.
pub fn decode(high: u8, low: u8) -> (instruction: Instruction)
    ensures
        instruction == decoded(high, low),
{
    match (high, low) {
        (0x00, 0xE0) => {
            return Instruction::CLS(CLS {  });
        },
        (0x00, 0xEE) => {
            return Instruction::RET(RET {  });
        },
        _ => (),
    }
    let sel: u8 = high_nibble(high);
    let val: u8 = low_nibble(high);
    let reg_b: u8 = high_nibble(low);
    let last: u8 = low_nibble(low);
    let invalid = Instruction::Invalid(InvalidOpcode { opcode: (high, low) });
    match sel {
        0x1 => Instruction::JMP(JMP::new(val, low)),
        0x2 => Instruction::CALL(CALL::new(val, low)),
        0x3 => Instruction::SEVxByte(SEVxByte { reg: val, byte: low }),
        0x4 => Instruction::SNEVxByte(SNEVxByte { reg: val, byte: low }),
        0x5 => Instruction::SEVxVy(SEVxVy { reg_a: val, reg_b }),
        0x6 => Instruction::LDVxByte(LDVxByte { reg: val, byte: low }),
        0x7 => Instruction::ADDVxByte(ADDVxByte { reg: val, byte: low }),
        0x8 => match last {
            0x0 => Instruction::LDVxVy(LDVxVy { reg_a: val, reg_b }),
            0x1 => Instruction::ORVxVy(ORVxVy { reg_a: val, reg_b }),
            0x2 => Instruction::ANDVxVy(ANDVxVy { reg_a: val, reg_b }),
            0x3 => Instruction::XORVxVy(XORVxVy { reg_a: val, reg_b }),
            0x4 => Instruction::ADDVxVy(ADDVxVy { reg_a: val, reg_b }),
            0x5 => Instruction::SUBVxVy(SUBVxVy { reg_a: val, reg_b }),
            0x6 => Instruction::SHRVxVy(SHRVxVy { reg_a: val, reg_b }),
            0x7 => Instruction::SUBNVxVy(SUBNVxVy { reg_a: val, reg_b }),
            0xE => Instruction::SHLVxVy(SHLVxVy { reg_a: val, reg_b }),
            _ => invalid,
        },
        0x9 => Instruction::SNEVxVy(SNEVxVy { reg_a: val, reg_b }),
        0xA => Instruction::LDIAddr(LDIAddr::new(val, low)),
        0xB => Instruction::JPV0Offset(JPV0Offset::new(val, low)),
        0xC => Instruction::RNDVxByte(RNDVxByte { reg: val, byte: low }),
        0xD => Instruction::DRW(DRW { reg_x: val, reg_y: reg_b, size: last }),
        0xE => match low {
            0x9E => Instruction::SKPKBRDVx(SKPKBRDVx { reg: val }),
            0xA1 => Instruction::SKNPBRDVx(SKNPBRDVx { reg: val }),
            _ => invalid,
        },
        0xF => match low {
            0x07 => Instruction::LDVxDT(LDVxDT { reg: val }),
            0x0A => Instruction::LDVxK(LDVxK { reg: val }),
            0x15 => Instruction::LDDTVx(LDDTVx { reg: val }),
            0x18 => Instruction::LDSTVx(LDSTVx { reg: val }),
            0x1E => Instruction::ADDIVx(ADDIVx { reg: val }),
            0x29 => Instruction::LDFVx(LDFVx { reg: val }),
            0x33 => Instruction::LDBVx(LDBVx { reg: val }),
            0x55 => Instruction::LDIVx(LDIVx { reg: val }),
            0x65 => Instruction::LDVxI(LDVxI { reg: val }),
            _ => invalid,
        },
        _ => invalid,
    }
}

/// Encodes an instruction: its two bytes, or why it has none.
pub fn encode(instruction: &Instruction) -> (bytes: Result<(u8, u8), EncodeError>)
    ensures
        bytes == instruction.encoding(),
{
    instruction.assemble()
}

/// An instruction has two bytes exactly when it is concrete and its operands
/// fit; the stand-in for undecodable bytes and the label placeholders are
/// reported, each with its own error.
pub proof fn encoding_defined(instruction: Instruction)
    ensures
        instruction.encoding() is Ok <==> instruction.concrete() && instruction.well_formed(),
        instruction is Invalid ==> instruction.encoding() == Err::<(u8, u8), EncodeError>(
            EncodeError::InvalidOpcode,
        ),
        instruction.placeholder() ==> instruction.encoding() == Err::<(u8, u8), EncodeError>(
            EncodeError::UnresolvedSymbol,
        ),
        instruction.concrete() && !instruction.well_formed() ==> instruction.encoding() == Err::<
            (u8, u8),
            EncodeError,
        >(EncodeError::OperandRange),
{
}

/// Decoding undoes encoding: the two bytes of an instruction decode to that
/// instruction again.
pub proof fn decode_inverts_encode(instruction: Instruction)
    requires
        instruction.encoding() is Ok,
    ensures
        decoded(instruction.encoding()->Ok_0.0, instruction.encoding()->Ok_0.1) == instruction,
{
    let high = instruction.encoding()->Ok_0.0;
    let low = instruction.encoding()->Ok_0.1;
    match instruction {
        Instruction::CLS(op) => {
            assert(decoded(high, low) == instruction);
        },
        Instruction::RET(op) => {
            assert(decoded(high, low) == instruction);
        },
        Instruction::JMP(op) => {
            assert(decoded(high, low) == instruction);
        },
        Instruction::CALL(op) => {
            assert(decoded(high, low) == instruction);
        },
        Instruction::SEVxByte(op) => {
            assert(decoded(high, low) == instruction);
        },
        Instruction::SNEVxByte(op) => {
            assert(decoded(high, low) == instruction);
        },
        Instruction::SEVxVy(op) => {
            assert(decoded(high, low) == instruction);
        },
        Instruction::SNEVxVy(op) => {
            assert(decoded(high, low) == instruction);
        },
        Instruction::LDVxByte(op) => {
            assert(decoded(high, low) == instruction);
        },
        Instruction::ADDVxByte(op) => {
            assert(decoded(high, low) == instruction);
        },
        Instruction::LDVxVy(op) => {
            assert(decoded(high, low) == instruction);
        },
        Instruction::ORVxVy(op) => {
            assert(decoded(high, low) == instruction);
        },
        Instruction::ANDVxVy(op) => {
            assert(decoded(high, low) == instruction);
        },
        Instruction::XORVxVy(op) => {
            assert(decoded(high, low) == instruction);
        },
        Instruction::ADDVxVy(op) => {
            assert(decoded(high, low) == instruction);
        },
        Instruction::SUBVxVy(op) => {
            assert(decoded(high, low) == instruction);
        },
        Instruction::SHRVxVy(op) => {
            assert(decoded(high, low) == instruction);
        },
        Instruction::SUBNVxVy(op) => {
            assert(decoded(high, low) == instruction);
        },
        Instruction::SHLVxVy(op) => {
            assert(decoded(high, low) == instruction);
        },
        Instruction::LDVxDT(op) => {
            assert(decoded(high, low) == instruction);
        },
        Instruction::LDVxK(op) => {
            assert(decoded(high, low) == instruction);
        },
        Instruction::LDDTVx(op) => {
            assert(decoded(high, low) == instruction);
        },
        Instruction::LDSTVx(op) => {
            assert(decoded(high, low) == instruction);
        },
        Instruction::ADDIVx(op) => {
            assert(decoded(high, low) == instruction);
        },
        Instruction::LDFVx(op) => {
            assert(decoded(high, low) == instruction);
        },
        Instruction::LDBVx(op) => {
            assert(decoded(high, low) == instruction);
        },
        Instruction::LDIVx(op) => {
            assert(decoded(high, low) == instruction);
        },
        Instruction::LDVxI(op) => {
            assert(decoded(high, low) == instruction);
        },
        Instruction::SKPKBRDVx(op) => {
            assert(decoded(high, low) == instruction);
        },
        Instruction::SKNPBRDVx(op) => {
            assert(decoded(high, low) == instruction);
        },
        Instruction::DRW(op) => {
            assert(decoded(high, low) == instruction);
        },
        Instruction::RNDVxByte(op) => {
            assert(decoded(high, low) == instruction);
        },
        Instruction::LDIAddr(op) => {
            assert(decoded(high, low) == instruction);
        },
        Instruction::JPV0Offset(op) => {
            assert(decoded(high, low) == instruction);
        },
        Instruction::Invalid(_) => {},
        Instruction::UnresolvedJump(_) => {},
        Instruction::UnresolvedCall(_) => {},
    }
}

/// Every pair of bytes decodes, and to an instruction that can be run: its
/// operands fit, it is no label placeholder, and where the bytes name no
/// instruction the stand-in holds exactly those bytes.
pub proof fn decode_total(high: u8, low: u8)
    ensures
        decoded(high, low).well_formed(),
        !decoded(high, low).placeholder(),
        decoded(high, low) matches Instruction::Invalid(stand_in) ==> stand_in.opcode == (
            high,
            low,
        ),
{
}

/// Encoding undoes decoding up to the bits that the decoder does not read:
/// the bytes of a decoded instruction decode to that instruction again.
pub proof fn encode_after_decode(high: u8, low: u8)
    requires
        !(decoded(high, low) is Invalid),
    ensures
        decoded(high, low).encoding() is Ok,
        decoded(
            decoded(high, low).encoding()->Ok_0.0,
            decoded(high, low).encoding()->Ok_0.1,
        ) == decoded(high, low),
{
    decode_total(high, low);
    decode_inverts_encode(decoded(high, low));
}

} // verus!
