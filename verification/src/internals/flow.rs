//! Instructions that steer the program: jumps, calls, returns and skips.

use vstd::prelude::*;
use vstd::string::*;
use crate::internals::fault::{EncodeError, Fault, Step};
use crate::internals::machine::{Machine, Outcome};
use crate::internals::processor::Processor;
use crate::internals::opcode::{
    address_form, encode_address, encode_register, encode_register_pair, prefixed_hex,
    push_register, register_form, register_pair_form, register_text, Opcode, CALL, CLS,
    InvalidOpcode, JMP, JPV0Offset, RET, SEVxByte, SEVxVy, SKNPBRDVx, SKPKBRDVx, SNEVxByte,
    SNEVxVy,
};
use crate::internals::text::push_prefixed_hex;

verus! {

/// Moves the program counter past the next instruction if `skip` holds.
fn skip_next(processor: &mut Processor, skip: bool) -> (result: Result<Step, Fault>)
    ensures
        old(processor)@.skipping(skip) == (final(processor)@, result),
{
    if processor.memory.registers.pc > 4094 {
        return Err(Fault::OutOfBoundsAccess { address: processor.memory.registers.pc });
    }
    if skip {
        processor.memory.registers.pc = processor.memory.registers.pc + 2;
    }
    assert(processor@ =~= old(processor)@.skipping(skip).0);
    Ok(Step::Completed)
}

/// Whether the key whose number is `key` is held down.
fn key_is_down(processor: &Processor, key: u8) -> (down: bool)
    ensures
        down == processor@.key_down(key),
{
    key <= 0xF && processor.keyboard.keys[key as usize]
}

impl Opcode for InvalidOpcode {
    open spec fn well_formed(&self) -> bool {
        true
    }

    open spec fn effect(&self, before: Machine, entropy: u8) -> Outcome {
        before.faulted(Fault::InvalidOpcode { opcode: self.opcode })
    }

    open spec fn alters_pc(&self) -> bool {
        false
    }

    open spec fn encoding(&self) -> Result<(u8, u8), EncodeError> {
        Err(EncodeError::InvalidOpcode)
    }

    open spec fn mnemonic(&self) -> Seq<char> {
        "INVALID"@
    }

    fn execute(&self, processor: &mut Processor, entropy: u8) -> (result: Result<Step, Fault>) {
        Err(Fault::InvalidOpcode { opcode: self.opcode })
    }

    fn modified_pc(&self) -> (altered: bool) {
        false
    }

    fn assemble(&self) -> (bytes: Result<(u8, u8), EncodeError>) {
        Err(EncodeError::InvalidOpcode)
    }

    fn to_text(&self) -> (text: String) {
        String::from_str("INVALID")
    }
}

impl Opcode for CLS {
    open spec fn well_formed(&self) -> bool {
        true
    }

    open spec fn effect(&self, before: Machine, entropy: u8) -> Outcome {
        Machine { screen: Seq::new(2048, |p: int| false), ..before }.completed()
    }

    open spec fn alters_pc(&self) -> bool {
        false
    }

    open spec fn encoding(&self) -> Result<(u8, u8), EncodeError> {
        Ok((0x00u8, 0xE0u8))
    }

    open spec fn mnemonic(&self) -> Seq<char> {
        "CLS"@
    }

    fn execute(&self, processor: &mut Processor, entropy: u8) -> (result: Result<Step, Fault>) {
        let mut p: usize = 0;
        while p < 2048
            invariant
                p <= 2048,
                processor.memory == old(processor).memory,
                processor.keyboard == old(processor).keyboard,
                forall|q: int| 0 <= q < p ==> !processor.display.screen[q],
            decreases 2048 - p,
        {
            processor.display.screen[p] = false;
            p = p + 1;
        }
        assert(processor@ =~= self.effect(old(processor)@, entropy).0);
        Ok(Step::Completed)
    }

    fn modified_pc(&self) -> (altered: bool) {
        false
    }

    fn assemble(&self) -> (bytes: Result<(u8, u8), EncodeError>) {
        Ok((0x00, 0xE0))
    }

    fn to_text(&self) -> (text: String) {
        String::from_str("CLS")
    }
}

impl Opcode for RET {
    open spec fn well_formed(&self) -> bool {
        true
    }

    open spec fn effect(&self, before: Machine, entropy: u8) -> Outcome {
        if before.sp < 0 {
            before.faulted(Fault::StackUnderflow)
        } else if before.sp > 15 {
            before.faulted(Fault::StackOverflow)
        } else {
            Machine {
                pc: before.stack[before.sp as int],
                sp: (before.sp - 1) as i8,
                ..before
            }.completed()
        }
    }

    open spec fn alters_pc(&self) -> bool {
        true
    }

    open spec fn encoding(&self) -> Result<(u8, u8), EncodeError> {
        Ok((0x00u8, 0xEEu8))
    }

    open spec fn mnemonic(&self) -> Seq<char> {
        "RET"@
    }

    fn execute(&self, processor: &mut Processor, entropy: u8) -> (result: Result<Step, Fault>) {
        match processor.memory.stack_pop() {
            Ok(address) => {
                processor.memory.registers.pc = address;
                assert(processor@ =~= self.effect(old(processor)@, entropy).0);
                Ok(Step::Completed)
            },
            Err(fault) => Err(fault),
        }
    }

    fn modified_pc(&self) -> (altered: bool) {
        true
    }

    fn assemble(&self) -> (bytes: Result<(u8, u8), EncodeError>) {
        Ok((0x00, 0xEE))
    }

    fn to_text(&self) -> (text: String) {
        String::from_str("RET")
    }
}

impl Opcode for JMP {
    open spec fn well_formed(&self) -> bool {
        self.address <= 0xFFF
    }

    open spec fn effect(&self, before: Machine, entropy: u8) -> Outcome {
        if !self.well_formed() {
            before.faulted(Fault::OperandRange)
        } else {
            before.with_pc(self.address as int).completed()
        }
    }

    open spec fn alters_pc(&self) -> bool {
        true
    }

    open spec fn encoding(&self) -> Result<(u8, u8), EncodeError> {
        address_form(1, self.address)
    }

    open spec fn mnemonic(&self) -> Seq<char> {
        "JMP "@ + prefixed_hex(self.address as nat)
    }

    fn execute(&self, processor: &mut Processor, entropy: u8) -> (result: Result<Step, Fault>) {
        if self.address > 0xFFF {
            return Err(Fault::OperandRange);
        }
        processor.memory.registers.pc = self.address;
        assert(processor@ =~= self.effect(old(processor)@, entropy).0);
        Ok(Step::Completed)
    }

    fn modified_pc(&self) -> (altered: bool) {
        true
    }

    fn assemble(&self) -> (bytes: Result<(u8, u8), EncodeError>) {
        encode_address(1, self.address)
    }

    fn to_text(&self) -> (text: String) {
        let mut text = String::from_str("JMP ");
        push_prefixed_hex(&mut text, self.address);
        assert(text@ =~= self.mnemonic());
        text
    }
}

impl Opcode for CALL {
    open spec fn well_formed(&self) -> bool {
        self.address <= 0xFFF
    }

    open spec fn effect(&self, before: Machine, entropy: u8) -> Outcome {
        if !self.well_formed() {
            before.faulted(Fault::OperandRange)
        } else if before.pc > 4094 {
            before.faulted(Fault::OutOfBoundsAccess { address: before.pc })
        } else if before.sp >= 15 {
            before.faulted(Fault::StackOverflow)
        } else if before.sp < -1 {
            before.faulted(Fault::StackUnderflow)
        } else {
            Machine {
                pc: self.address,
                sp: (before.sp + 1) as i8,
                stack: before.stack.update(before.sp + 1, (before.pc + 2) as u16),
                ..before
            }.completed()
        }
    }

    open spec fn alters_pc(&self) -> bool {
        true
    }

    open spec fn encoding(&self) -> Result<(u8, u8), EncodeError> {
        address_form(2, self.address)
    }

    open spec fn mnemonic(&self) -> Seq<char> {
        "CALL "@ + prefixed_hex(self.address as nat)
    }

    fn execute(&self, processor: &mut Processor, entropy: u8) -> (result: Result<Step, Fault>) {
        if self.address > 0xFFF {
            return Err(Fault::OperandRange);
        }
        let pc: u16 = processor.memory.registers.pc;
        if pc > 4094 {
            return Err(Fault::OutOfBoundsAccess { address: pc });
        }
        match processor.memory.stack_push(pc + 2) {
            Ok(()) => {
                processor.memory.registers.pc = self.address;
                assert(processor@ =~= self.effect(old(processor)@, entropy).0);
                Ok(Step::Completed)
            },
            Err(fault) => Err(fault),
        }
    }

    fn modified_pc(&self) -> (altered: bool) {
        true
    }

    fn assemble(&self) -> (bytes: Result<(u8, u8), EncodeError>) {
        encode_address(2, self.address)
    }

    fn to_text(&self) -> (text: String) {
        let mut text = String::from_str("CALL ");
        push_prefixed_hex(&mut text, self.address);
        assert(text@ =~= self.mnemonic());
        text
    }
}

impl Opcode for JPV0Offset {
    open spec fn well_formed(&self) -> bool {
        self.address <= 0xFFF
    }

    open spec fn effect(&self, before: Machine, entropy: u8) -> Outcome {
        if !self.well_formed() {
            before.faulted(Fault::OperandRange)
        } else {
            before.with_pc(self.address + before.v[0]).completed()
        }
    }

    open spec fn alters_pc(&self) -> bool {
        true
    }

    open spec fn encoding(&self) -> Result<(u8, u8), EncodeError> {
        address_form(0xB, self.address)
    }

    open spec fn mnemonic(&self) -> Seq<char> {
        "JPV0Offset "@ + prefixed_hex(self.address as nat)
    }

    fn execute(&self, processor: &mut Processor, entropy: u8) -> (result: Result<Step, Fault>) {
        if self.address > 0xFFF {
            return Err(Fault::OperandRange);
        }
        processor.memory.registers.pc = self.address + processor.memory.registers.v[0] as u16;
        assert(processor@ =~= self.effect(old(processor)@, entropy).0);
        Ok(Step::Completed)
    }

    fn modified_pc(&self) -> (altered: bool) {
        true
    }

    fn assemble(&self) -> (bytes: Result<(u8, u8), EncodeError>) {
        encode_address(0xB, self.address)
    }

    fn to_text(&self) -> (text: String) {
        let mut text = String::from_str("JPV0Offset ");
        push_prefixed_hex(&mut text, self.address);
        assert(text@ =~= self.mnemonic());
        text
    }
}

impl Opcode for SEVxByte {
    open spec fn well_formed(&self) -> bool {
        self.reg <= 0xF
    }

    open spec fn effect(&self, before: Machine, entropy: u8) -> Outcome {
        if !self.well_formed() {
            before.faulted(Fault::OperandRange)
        } else {
            before.skipping(before.v[self.reg as int] == self.byte)
        }
    }

    open spec fn alters_pc(&self) -> bool {
        false
    }

    open spec fn encoding(&self) -> Result<(u8, u8), EncodeError> {
        register_form(3, self.reg, self.byte)
    }

    open spec fn mnemonic(&self) -> Seq<char> {
        "SE "@ + register_text(self.reg) + ", "@ + prefixed_hex(self.byte as nat)
    }

    fn execute(&self, processor: &mut Processor, entropy: u8) -> (result: Result<Step, Fault>) {
        if self.reg > 0xF {
            return Err(Fault::OperandRange);
        }
        let skip: bool = processor.memory.registers.v[self.reg as usize] == self.byte;
        skip_next(processor, skip)
    }

    fn modified_pc(&self) -> (altered: bool) {
        false
    }

    fn assemble(&self) -> (bytes: Result<(u8, u8), EncodeError>) {
        encode_register(3, self.reg, self.byte)
    }

    fn to_text(&self) -> (text: String) {
        let mut text = String::from_str("SE ");
        push_register(&mut text, self.reg);
        text.append(", ");
        push_prefixed_hex(&mut text, self.byte as u16);
        assert(text@ =~= self.mnemonic());
        text
    }
}

impl Opcode for SNEVxByte {
    open spec fn well_formed(&self) -> bool {
        self.reg <= 0xF
    }

    open spec fn effect(&self, before: Machine, entropy: u8) -> Outcome {
        if !self.well_formed() {
            before.faulted(Fault::OperandRange)
        } else {
            before.skipping(before.v[self.reg as int] != self.byte)
        }
    }

    open spec fn alters_pc(&self) -> bool {
        false
    }

    open spec fn encoding(&self) -> Result<(u8, u8), EncodeError> {
        register_form(4, self.reg, self.byte)
    }

    open spec fn mnemonic(&self) -> Seq<char> {
        "SNE "@ + register_text(self.reg) + ", "@ + prefixed_hex(self.byte as nat)
    }

    fn execute(&self, processor: &mut Processor, entropy: u8) -> (result: Result<Step, Fault>) {
        if self.reg > 0xF {
            return Err(Fault::OperandRange);
        }
        let skip: bool = processor.memory.registers.v[self.reg as usize] != self.byte;
        skip_next(processor, skip)
    }

    fn modified_pc(&self) -> (altered: bool) {
        false
    }

    fn assemble(&self) -> (bytes: Result<(u8, u8), EncodeError>) {
        encode_register(4, self.reg, self.byte)
    }

    fn to_text(&self) -> (text: String) {
        let mut text = String::from_str("SNE ");
        push_register(&mut text, self.reg);
        text.append(", ");
        push_prefixed_hex(&mut text, self.byte as u16);
        assert(text@ =~= self.mnemonic());
        text
    }
}

impl Opcode for SEVxVy {
    open spec fn well_formed(&self) -> bool {
        self.reg_a <= 0xF && self.reg_b <= 0xF
    }

    open spec fn effect(&self, before: Machine, entropy: u8) -> Outcome {
        if !self.well_formed() {
            before.faulted(Fault::OperandRange)
        } else {
            before.skipping(before.v[self.reg_a as int] == before.v[self.reg_b as int])
        }
    }

    open spec fn alters_pc(&self) -> bool {
        false
    }

    open spec fn encoding(&self) -> Result<(u8, u8), EncodeError> {
        register_pair_form(5, self.reg_a, self.reg_b, 0)
    }

    open spec fn mnemonic(&self) -> Seq<char> {
        "SE "@ + register_text(self.reg_a) + ", "@ + register_text(self.reg_b)
    }

    fn execute(&self, processor: &mut Processor, entropy: u8) -> (result: Result<Step, Fault>) {
        if self.reg_a > 0xF || self.reg_b > 0xF {
            return Err(Fault::OperandRange);
        }
        let skip: bool = processor.memory.registers.v[self.reg_a as usize]
            == processor.memory.registers.v[self.reg_b as usize];
        skip_next(processor, skip)
    }

    fn modified_pc(&self) -> (altered: bool) {
        false
    }

    fn assemble(&self) -> (bytes: Result<(u8, u8), EncodeError>) {
        encode_register_pair(5, self.reg_a, self.reg_b, 0)
    }

    fn to_text(&self) -> (text: String) {
        let mut text = String::from_str("SE ");
        push_register(&mut text, self.reg_a);
        text.append(", ");
        push_register(&mut text, self.reg_b);
        assert(text@ =~= self.mnemonic());
        text
    }
}

impl Opcode for SNEVxVy {
    open spec fn well_formed(&self) -> bool {
        self.reg_a <= 0xF && self.reg_b <= 0xF
    }

    open spec fn effect(&self, before: Machine, entropy: u8) -> Outcome {
        if !self.well_formed() {
            before.faulted(Fault::OperandRange)
        } else {
            before.skipping(before.v[self.reg_a as int] != before.v[self.reg_b as int])
        }
    }

    open spec fn alters_pc(&self) -> bool {
        false
    }

    open spec fn encoding(&self) -> Result<(u8, u8), EncodeError> {
        register_pair_form(9, self.reg_a, self.reg_b, 0)
    }

    open spec fn mnemonic(&self) -> Seq<char> {
        "SNE "@ + register_text(self.reg_a) + ", "@ + register_text(self.reg_b)
    }

    fn execute(&self, processor: &mut Processor, entropy: u8) -> (result: Result<Step, Fault>) {
        if self.reg_a > 0xF || self.reg_b > 0xF {
            return Err(Fault::OperandRange);
        }
        let skip: bool = processor.memory.registers.v[self.reg_a as usize]
            != processor.memory.registers.v[self.reg_b as usize];
        skip_next(processor, skip)
    }

    fn modified_pc(&self) -> (altered: bool) {
        false
    }

    fn assemble(&self) -> (bytes: Result<(u8, u8), EncodeError>) {
        encode_register_pair(9, self.reg_a, self.reg_b, 0)
    }

    fn to_text(&self) -> (text: String) {
        let mut text = String::from_str("SNE ");
        push_register(&mut text, self.reg_a);
        text.append(", ");
        push_register(&mut text, self.reg_b);
        assert(text@ =~= self.mnemonic());
        text
    }
}

impl Opcode for SKPKBRDVx {
    open spec fn well_formed(&self) -> bool {
        self.reg <= 0xF
    }

    open spec fn effect(&self, before: Machine, entropy: u8) -> Outcome {
        if !self.well_formed() {
            before.faulted(Fault::OperandRange)
        } else {
            before.skipping(before.key_down(before.v[self.reg as int]))
        }
    }

    open spec fn alters_pc(&self) -> bool {
        false
    }

    open spec fn encoding(&self) -> Result<(u8, u8), EncodeError> {
        register_form(0xE, self.reg, 0x9E)
    }

    open spec fn mnemonic(&self) -> Seq<char> {
        "SKP "@ + register_text(self.reg)
    }

    fn execute(&self, processor: &mut Processor, entropy: u8) -> (result: Result<Step, Fault>) {
        if self.reg > 0xF {
            return Err(Fault::OperandRange);
        }
        let skip: bool = key_is_down(processor, processor.memory.registers.v[self.reg as usize]);
        skip_next(processor, skip)
    }

    fn modified_pc(&self) -> (altered: bool) {
        false
    }

    fn assemble(&self) -> (bytes: Result<(u8, u8), EncodeError>) {
        encode_register(0xE, self.reg, 0x9E)
    }

    fn to_text(&self) -> (text: String) {
        let mut text = String::from_str("SKP ");
        push_register(&mut text, self.reg);
        assert(text@ =~= self.mnemonic());
        text
    }
}

impl Opcode for SKNPBRDVx {
    open spec fn well_formed(&self) -> bool {
        self.reg <= 0xF
    }

    open spec fn effect(&self, before: Machine, entropy: u8) -> Outcome {
        if !self.well_formed() {
            before.faulted(Fault::OperandRange)
        } else {
            before.skipping(!before.key_down(before.v[self.reg as int]))
        }
    }

    open spec fn alters_pc(&self) -> bool {
        false
    }

    open spec fn encoding(&self) -> Result<(u8, u8), EncodeError> {
        register_form(0xE, self.reg, 0xA1)
    }

    open spec fn mnemonic(&self) -> Seq<char> {
        "SKNP "@ + register_text(self.reg)
    }

    fn execute(&self, processor: &mut Processor, entropy: u8) -> (result: Result<Step, Fault>) {
        if self.reg > 0xF {
            return Err(Fault::OperandRange);
        }
        let skip: bool = !key_is_down(processor, processor.memory.registers.v[self.reg as usize]);
        skip_next(processor, skip)
    }

    fn modified_pc(&self) -> (altered: bool) {
        false
    }

    fn assemble(&self) -> (bytes: Result<(u8, u8), EncodeError>) {
        encode_register(0xE, self.reg, 0xA1)
    }

    fn to_text(&self) -> (text: String) {
        let mut text = String::from_str("SKNP ");
        push_register(&mut text, self.reg);
        assert(text@ =~= self.mnemonic());
        text
    }
}

/// A call is undone by the return that follows it.
///
/// After `CALL` and `RET` the program counter stands behind the call, the
/// stack pointer is where it was, and nothing has changed but the stack slot
/// that held the return address in between.
pub proof fn return_undoes_call(call: CALL, before: Machine, entropy: u8)
    requires
        before.well_formed(),
        call.well_formed(),
        before.pc <= 4094,
        -1 <= before.sp < 15,
    ensures
        ({
            let (called, first) = call.effect(before, entropy);
            let (returned, second) = (RET {  }).effect(called, entropy);
            &&& first == Ok::<Step, Fault>(Step::Completed)
            &&& second == Ok::<Step, Fault>(Step::Completed)
            &&& called.pc == call.address
            &&& returned == Machine {
                pc: (before.pc + 2) as u16,
                stack: before.stack.update(before.sp + 1, (before.pc + 2) as u16),
                ..before
            }
        }),
{
    let (called, first) = call.effect(before, entropy);
    let (returned, second) = (RET {  }).effect(called, entropy);
    assert(returned =~= Machine {
        pc: (before.pc + 2) as u16,
        stack: before.stack.update(before.sp + 1, (before.pc + 2) as u16),
        ..before
    });
}

} // verus!
