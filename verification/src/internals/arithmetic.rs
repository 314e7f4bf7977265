//! Instructions that compute on the general purpose registers.

use vstd::prelude::*;
use vstd::string::*;
use crate::internals::fault::{EncodeError, Fault, Step};
use crate::internals::machine::{Machine, Outcome};
use crate::internals::processor::Processor;
use crate::internals::opcode::{
    encode_register, encode_register_pair, prefixed_hex, push_register, register_form,
    register_pair_form, register_text, ADDVxByte, ADDVxVy, ANDVxVy, LDVxByte, LDVxVy, ORVxVy,
    Opcode, RNDVxByte, SHLVxVy, SHRVxVy, SUBNVxVy, SUBVxVy, XORVxVy,
};
use crate::internals::text::{hex_text, push_hex, push_prefixed_hex};

verus! {

impl Opcode for LDVxByte {
    open spec fn well_formed(&self) -> bool {
        self.reg <= 0xF
    }

    open spec fn effect(&self, before: Machine, entropy: u8) -> Outcome {
        if !self.well_formed() {
            before.faulted(Fault::OperandRange)
        } else {
            before.with_v(self.reg as int, self.byte as int).completed()
        }
    }

    open spec fn alters_pc(&self) -> bool {
        false
    }

    open spec fn encoding(&self) -> Result<(u8, u8), EncodeError> {
        register_form(6, self.reg, self.byte)
    }

    open spec fn mnemonic(&self) -> Seq<char> {
        "LD "@ + register_text(self.reg) + ", "@ + prefixed_hex(self.byte as nat)
    }

    fn execute(&self, processor: &mut Processor, entropy: u8) -> (result: Result<Step, Fault>) {
        if self.reg > 0xF {
            return Err(Fault::OperandRange);
        }
        processor.memory.registers.v[self.reg as usize] = self.byte;
        assert(processor@ =~= self.effect(old(processor)@, entropy).0);
        Ok(Step::Completed)
    }

    fn modified_pc(&self) -> (altered: bool) {
        false
    }

    fn assemble(&self) -> (bytes: Result<(u8, u8), EncodeError>) {
        encode_register(6, self.reg, self.byte)
    }

    fn to_text(&self) -> (text: String) {
        let mut text = String::from_str("LD ");
        push_register(&mut text, self.reg);
        text.append(", ");
        push_prefixed_hex(&mut text, self.byte as u16);
        assert(text@ =~= self.mnemonic());
        text
    }
}

impl Opcode for ADDVxByte {
    open spec fn well_formed(&self) -> bool {
        self.reg <= 0xF
    }

    open spec fn effect(&self, before: Machine, entropy: u8) -> Outcome {
        if !self.well_formed() {
            before.faulted(Fault::OperandRange)
        } else {
            let sum = before.v[self.reg as int] + self.byte;
            before.with_v(self.reg as int, sum % 256).completed()
        }
    }

    open spec fn alters_pc(&self) -> bool {
        false
    }

    open spec fn encoding(&self) -> Result<(u8, u8), EncodeError> {
        register_form(7, self.reg, self.byte)
    }

    open spec fn mnemonic(&self) -> Seq<char> {
        "ADD "@ + register_text(self.reg) + ", "@ + prefixed_hex(self.byte as nat)
    }

    fn execute(&self, processor: &mut Processor, entropy: u8) -> (result: Result<Step, Fault>) {
        if self.reg > 0xF {
            return Err(Fault::OperandRange);
        }
        let sum: u8 = processor.memory.registers.v[self.reg as usize].wrapping_add(self.byte);
        processor.memory.registers.v[self.reg as usize] = sum;
        assert(processor@ =~= self.effect(old(processor)@, entropy).0);
        Ok(Step::Completed)
    }

    fn modified_pc(&self) -> (altered: bool) {
        false
    }

    fn assemble(&self) -> (bytes: Result<(u8, u8), EncodeError>) {
        encode_register(7, self.reg, self.byte)
    }

    fn to_text(&self) -> (text: String) {
        let mut text = String::from_str("ADD ");
        push_register(&mut text, self.reg);
        text.append(", ");
        push_prefixed_hex(&mut text, self.byte as u16);
        assert(text@ =~= self.mnemonic());
        text
    }
}

impl Opcode for LDVxVy {
    open spec fn well_formed(&self) -> bool {
        self.reg_a <= 0xF && self.reg_b <= 0xF
    }

    open spec fn effect(&self, before: Machine, entropy: u8) -> Outcome {
        if !self.well_formed() {
            before.faulted(Fault::OperandRange)
        } else {
            before.with_v(self.reg_a as int, before.v[self.reg_b as int] as int).completed()
        }
    }

    open spec fn alters_pc(&self) -> bool {
        false
    }

    open spec fn encoding(&self) -> Result<(u8, u8), EncodeError> {
        register_pair_form(8, self.reg_a, self.reg_b, 0)
    }

    open spec fn mnemonic(&self) -> Seq<char> {
        "LD "@ + register_text(self.reg_a) + ", "@ + register_text(self.reg_b)
    }

    fn execute(&self, processor: &mut Processor, entropy: u8) -> (result: Result<Step, Fault>) {
        if self.reg_a > 0xF || self.reg_b > 0xF {
            return Err(Fault::OperandRange);
        }
        processor.memory.registers.v[self.reg_a as usize] =
            processor.memory.registers.v[self.reg_b as usize];
        assert(processor@ =~= self.effect(old(processor)@, entropy).0);
        Ok(Step::Completed)
    }

    fn modified_pc(&self) -> (altered: bool) {
        false
    }

    fn assemble(&self) -> (bytes: Result<(u8, u8), EncodeError>) {
        encode_register_pair(8, self.reg_a, self.reg_b, 0)
    }

    fn to_text(&self) -> (text: String) {
        let mut text = String::from_str("LD ");
        push_register(&mut text, self.reg_a);
        text.append(", ");
        push_register(&mut text, self.reg_b);
        assert(text@ =~= self.mnemonic());
        text
    }
}

impl Opcode for ORVxVy {
    open spec fn well_formed(&self) -> bool {
        self.reg_a <= 0xF && self.reg_b <= 0xF
    }

    open spec fn effect(&self, before: Machine, entropy: u8) -> Outcome {
        if !self.well_formed() {
            before.faulted(Fault::OperandRange)
        } else {
            before.with_v(
                self.reg_a as int,
                (before.v[self.reg_a as int] | before.v[self.reg_b as int]) as int,
            ).completed()
        }
    }

    open spec fn alters_pc(&self) -> bool {
        false
    }

    open spec fn encoding(&self) -> Result<(u8, u8), EncodeError> {
        register_pair_form(8, self.reg_a, self.reg_b, 1)
    }

    open spec fn mnemonic(&self) -> Seq<char> {
        "OR "@ + register_text(self.reg_a) + ", "@ + register_text(self.reg_b)
    }

    fn execute(&self, processor: &mut Processor, entropy: u8) -> (result: Result<Step, Fault>) {
        if self.reg_a > 0xF || self.reg_b > 0xF {
            return Err(Fault::OperandRange);
        }
        processor.memory.registers.v[self.reg_a as usize] =
            processor.memory.registers.v[self.reg_a as usize]
            | processor.memory.registers.v[self.reg_b as usize];
        assert(processor@ =~= self.effect(old(processor)@, entropy).0);
        Ok(Step::Completed)
    }

    fn modified_pc(&self) -> (altered: bool) {
        false
    }

    fn assemble(&self) -> (bytes: Result<(u8, u8), EncodeError>) {
        encode_register_pair(8, self.reg_a, self.reg_b, 1)
    }

    fn to_text(&self) -> (text: String) {
        let mut text = String::from_str("OR ");
        push_register(&mut text, self.reg_a);
        text.append(", ");
        push_register(&mut text, self.reg_b);
        assert(text@ =~= self.mnemonic());
        text
    }
}

impl Opcode for ANDVxVy {
    open spec fn well_formed(&self) -> bool {
        self.reg_a <= 0xF && self.reg_b <= 0xF
    }

    open spec fn effect(&self, before: Machine, entropy: u8) -> Outcome {
        if !self.well_formed() {
            before.faulted(Fault::OperandRange)
        } else {
            before.with_v(
                self.reg_a as int,
                (before.v[self.reg_a as int] & before.v[self.reg_b as int]) as int,
            ).completed()
        }
    }

    open spec fn alters_pc(&self) -> bool {
        false
    }

    open spec fn encoding(&self) -> Result<(u8, u8), EncodeError> {
        register_pair_form(8, self.reg_a, self.reg_b, 2)
    }

    open spec fn mnemonic(&self) -> Seq<char> {
        "AND "@ + register_text(self.reg_a) + ", "@ + register_text(self.reg_b)
    }

    fn execute(&self, processor: &mut Processor, entropy: u8) -> (result: Result<Step, Fault>) {
        if self.reg_a > 0xF || self.reg_b > 0xF {
            return Err(Fault::OperandRange);
        }
        processor.memory.registers.v[self.reg_a as usize] =
            processor.memory.registers.v[self.reg_a as usize]
            & processor.memory.registers.v[self.reg_b as usize];
        assert(processor@ =~= self.effect(old(processor)@, entropy).0);
        Ok(Step::Completed)
    }

    fn modified_pc(&self) -> (altered: bool) {
        false
    }

    fn assemble(&self) -> (bytes: Result<(u8, u8), EncodeError>) {
        encode_register_pair(8, self.reg_a, self.reg_b, 2)
    }

    fn to_text(&self) -> (text: String) {
        let mut text = String::from_str("AND ");
        push_register(&mut text, self.reg_a);
        text.append(", ");
        push_register(&mut text, self.reg_b);
        assert(text@ =~= self.mnemonic());
        text
    }
}

impl Opcode for XORVxVy {
    open spec fn well_formed(&self) -> bool {
        self.reg_a <= 0xF && self.reg_b <= 0xF
    }

    open spec fn effect(&self, before: Machine, entropy: u8) -> Outcome {
        if !self.well_formed() {
            before.faulted(Fault::OperandRange)
        } else {
            before.with_v(
                self.reg_a as int,
                (before.v[self.reg_a as int] ^ before.v[self.reg_b as int]) as int,
            ).completed()
        }
    }

    open spec fn alters_pc(&self) -> bool {
        false
    }

    open spec fn encoding(&self) -> Result<(u8, u8), EncodeError> {
        register_pair_form(8, self.reg_a, self.reg_b, 3)
    }

    open spec fn mnemonic(&self) -> Seq<char> {
        "XOR "@ + register_text(self.reg_a) + ", "@ + register_text(self.reg_b)
    }

    fn execute(&self, processor: &mut Processor, entropy: u8) -> (result: Result<Step, Fault>) {
        if self.reg_a > 0xF || self.reg_b > 0xF {
            return Err(Fault::OperandRange);
        }
        processor.memory.registers.v[self.reg_a as usize] =
            processor.memory.registers.v[self.reg_a as usize]
            ^ processor.memory.registers.v[self.reg_b as usize];
        assert(processor@ =~= self.effect(old(processor)@, entropy).0);
        Ok(Step::Completed)
    }

    fn modified_pc(&self) -> (altered: bool) {
        false
    }

    fn assemble(&self) -> (bytes: Result<(u8, u8), EncodeError>) {
        encode_register_pair(8, self.reg_a, self.reg_b, 3)
    }

    fn to_text(&self) -> (text: String) {
        let mut text = String::from_str("XOR ");
        push_register(&mut text, self.reg_a);
        text.append(", ");
        push_register(&mut text, self.reg_b);
        assert(text@ =~= self.mnemonic());
        text
    }
}

impl Opcode for ADDVxVy {
    open spec fn well_formed(&self) -> bool {
        self.reg_a <= 0xF && self.reg_b <= 0xF
    }

    open spec fn effect(&self, before: Machine, entropy: u8) -> Outcome {
        if !self.well_formed() {
            before.faulted(Fault::OperandRange)
        } else {
            let sum = before.v[self.reg_a as int] + before.v[self.reg_b as int];
            before.with_flag(sum > 255).with_v(self.reg_a as int, sum % 256).completed()
        }
    }

    open spec fn alters_pc(&self) -> bool {
        false
    }

    open spec fn encoding(&self) -> Result<(u8, u8), EncodeError> {
        register_pair_form(8, self.reg_a, self.reg_b, 4)
    }

    open spec fn mnemonic(&self) -> Seq<char> {
        "ADD "@ + register_text(self.reg_a) + ", "@ + register_text(self.reg_b)
    }

    fn execute(&self, processor: &mut Processor, entropy: u8) -> (result: Result<Step, Fault>) {
        if self.reg_a > 0xF || self.reg_b > 0xF {
            return Err(Fault::OperandRange);
        }
        let sum: u16 = processor.memory.registers.v[self.reg_a as usize] as u16
            + processor.memory.registers.v[self.reg_b as usize] as u16;
        if sum > 255 {
            processor.memory.registers.v[0xF] = 1;
        } else {
            processor.memory.registers.v[0xF] = 0;
        }
        processor.memory.registers.v[self.reg_a as usize] = (sum % 256) as u8;
        assert(processor@ =~= self.effect(old(processor)@, entropy).0);
        Ok(Step::Completed)
    }

    fn modified_pc(&self) -> (altered: bool) {
        false
    }

    fn assemble(&self) -> (bytes: Result<(u8, u8), EncodeError>) {
        encode_register_pair(8, self.reg_a, self.reg_b, 4)
    }

    fn to_text(&self) -> (text: String) {
        let mut text = String::from_str("ADD ");
        push_register(&mut text, self.reg_a);
        text.append(", ");
        push_register(&mut text, self.reg_b);
        assert(text@ =~= self.mnemonic());
        text
    }
}

impl Opcode for SUBVxVy {
    open spec fn well_formed(&self) -> bool {
        self.reg_a <= 0xF && self.reg_b <= 0xF
    }

    open spec fn effect(&self, before: Machine, entropy: u8) -> Outcome {
        if !self.well_formed() {
            before.faulted(Fault::OperandRange)
        } else {
            let difference = before.v[self.reg_a as int] - before.v[self.reg_b as int];
            before.with_flag(difference < 0).with_v(
                self.reg_a as int,
                if difference < 0 {
                    0
                } else {
                    difference
                },
            ).completed()
        }
    }

    open spec fn alters_pc(&self) -> bool {
        false
    }

    open spec fn encoding(&self) -> Result<(u8, u8), EncodeError> {
        register_pair_form(8, self.reg_a, self.reg_b, 5)
    }

    open spec fn mnemonic(&self) -> Seq<char> {
        "SUB "@ + register_text(self.reg_a) + ", "@ + register_text(self.reg_b)
    }

    fn execute(&self, processor: &mut Processor, entropy: u8) -> (result: Result<Step, Fault>) {
        if self.reg_a > 0xF || self.reg_b > 0xF {
            return Err(Fault::OperandRange);
        }
        let minuend: u8 = processor.memory.registers.v[self.reg_a as usize];
        let subtrahend: u8 = processor.memory.registers.v[self.reg_b as usize];
        if minuend < subtrahend {
            processor.memory.registers.v[0xF] = 1;
        } else {
            processor.memory.registers.v[0xF] = 0;
        }
        processor.memory.registers.v[self.reg_a as usize] = minuend.saturating_sub(subtrahend);
        assert(processor@ =~= self.effect(old(processor)@, entropy).0);
        Ok(Step::Completed)
    }

    fn modified_pc(&self) -> (altered: bool) {
        false
    }

    fn assemble(&self) -> (bytes: Result<(u8, u8), EncodeError>) {
        encode_register_pair(8, self.reg_a, self.reg_b, 5)
    }

    fn to_text(&self) -> (text: String) {
        let mut text = String::from_str("SUB ");
        push_register(&mut text, self.reg_a);
        text.append(", ");
        push_register(&mut text, self.reg_b);
        assert(text@ =~= self.mnemonic());
        text
    }
}

impl Opcode for SHRVxVy {
    open spec fn well_formed(&self) -> bool {
        self.reg_a <= 0xF && self.reg_b <= 0xF
    }

    open spec fn effect(&self, before: Machine, entropy: u8) -> Outcome {
        if !self.well_formed() {
            before.faulted(Fault::OperandRange)
        } else {
            let value = before.v[self.reg_a as int];
            before.with_flag(value % 2 == 1).with_v(
                self.reg_a as int,
                (value / 2) as int,
            ).completed()
        }
    }

    open spec fn alters_pc(&self) -> bool {
        false
    }

    open spec fn encoding(&self) -> Result<(u8, u8), EncodeError> {
        register_pair_form(8, self.reg_a, self.reg_b, 6)
    }

    open spec fn mnemonic(&self) -> Seq<char> {
        "SHR "@ + register_text(self.reg_a) + ", "@ + register_text(self.reg_b)
    }

    fn execute(&self, processor: &mut Processor, entropy: u8) -> (result: Result<Step, Fault>) {
        if self.reg_a > 0xF || self.reg_b > 0xF {
            return Err(Fault::OperandRange);
        }
        let value: u8 = processor.memory.registers.v[self.reg_a as usize];
        processor.memory.registers.v[0xF] = value % 2;
        processor.memory.registers.v[self.reg_a as usize] = value / 2;
        assert(processor@ =~= self.effect(old(processor)@, entropy).0);
        Ok(Step::Completed)
    }

    fn modified_pc(&self) -> (altered: bool) {
        false
    }

    fn assemble(&self) -> (bytes: Result<(u8, u8), EncodeError>) {
        encode_register_pair(8, self.reg_a, self.reg_b, 6)
    }

    fn to_text(&self) -> (text: String) {
        let mut text = String::from_str("SHR ");
        push_register(&mut text, self.reg_a);
        text.append(", ");
        push_register(&mut text, self.reg_b);
        assert(text@ =~= self.mnemonic());
        text
    }
}

impl Opcode for SUBNVxVy {
    open spec fn well_formed(&self) -> bool {
        self.reg_a <= 0xF && self.reg_b <= 0xF
    }

    open spec fn effect(&self, before: Machine, entropy: u8) -> Outcome {
        if !self.well_formed() {
            before.faulted(Fault::OperandRange)
        } else {
            let difference = before.v[self.reg_b as int] - before.v[self.reg_a as int];
            before.with_flag(difference >= 0).with_v(
                self.reg_a as int,
                difference % 256,
            ).completed()
        }
    }

    open spec fn alters_pc(&self) -> bool {
        false
    }

    open spec fn encoding(&self) -> Result<(u8, u8), EncodeError> {
        register_pair_form(8, self.reg_a, self.reg_b, 7)
    }

    open spec fn mnemonic(&self) -> Seq<char> {
        "SUBN "@ + register_text(self.reg_a) + ", "@ + register_text(self.reg_b)
    }

    fn execute(&self, processor: &mut Processor, entropy: u8) -> (result: Result<Step, Fault>) {
        if self.reg_a > 0xF || self.reg_b > 0xF {
            return Err(Fault::OperandRange);
        }
        let minuend: u8 = processor.memory.registers.v[self.reg_b as usize];
        let subtrahend: u8 = processor.memory.registers.v[self.reg_a as usize];
        if minuend >= subtrahend {
            processor.memory.registers.v[0xF] = 1;
        } else {
            processor.memory.registers.v[0xF] = 0;
        }
        processor.memory.registers.v[self.reg_a as usize] = minuend.wrapping_sub(subtrahend);
        assert(processor@ =~= self.effect(old(processor)@, entropy).0);
        Ok(Step::Completed)
    }

    fn modified_pc(&self) -> (altered: bool) {
        false
    }

    fn assemble(&self) -> (bytes: Result<(u8, u8), EncodeError>) {
        encode_register_pair(8, self.reg_a, self.reg_b, 7)
    }

    fn to_text(&self) -> (text: String) {
        let mut text = String::from_str("SUBN ");
        push_register(&mut text, self.reg_a);
        text.append(", ");
        push_register(&mut text, self.reg_b);
        assert(text@ =~= self.mnemonic());
        text
    }
}

impl Opcode for SHLVxVy {
    open spec fn well_formed(&self) -> bool {
        self.reg_a <= 0xF && self.reg_b <= 0xF
    }

    open spec fn effect(&self, before: Machine, entropy: u8) -> Outcome {
        if !self.well_formed() {
            before.faulted(Fault::OperandRange)
        } else {
            let value = before.v[self.reg_a as int];
            before.with_flag(value >= 128).with_v(self.reg_a as int, (value * 2) % 256).completed()
        }
    }

    open spec fn alters_pc(&self) -> bool {
        false
    }

    open spec fn encoding(&self) -> Result<(u8, u8), EncodeError> {
        register_pair_form(8, self.reg_a, self.reg_b, 0xE)
    }

    open spec fn mnemonic(&self) -> Seq<char> {
        "SHL "@ + register_text(self.reg_a) + ", "@ + register_text(self.reg_b)
    }

    fn execute(&self, processor: &mut Processor, entropy: u8) -> (result: Result<Step, Fault>) {
        if self.reg_a > 0xF || self.reg_b > 0xF {
            return Err(Fault::OperandRange);
        }
        let value: u8 = processor.memory.registers.v[self.reg_a as usize];
        if value >= 128 {
            processor.memory.registers.v[0xF] = 1;
            processor.memory.registers.v[self.reg_a as usize] = (value - 128) * 2;
        } else {
            processor.memory.registers.v[0xF] = 0;
            processor.memory.registers.v[self.reg_a as usize] = value * 2;
        }
        assert(processor@ =~= self.effect(old(processor)@, entropy).0);
        Ok(Step::Completed)
    }

    fn modified_pc(&self) -> (altered: bool) {
        false
    }

    fn assemble(&self) -> (bytes: Result<(u8, u8), EncodeError>) {
        encode_register_pair(8, self.reg_a, self.reg_b, 0xE)
    }

    fn to_text(&self) -> (text: String) {
        let mut text = String::from_str("SHL ");
        push_register(&mut text, self.reg_a);
        text.append(", ");
        push_register(&mut text, self.reg_b);
        assert(text@ =~= self.mnemonic());
        text
    }
}

impl Opcode for RNDVxByte {
    open spec fn well_formed(&self) -> bool {
        self.reg <= 0xF
    }

    open spec fn effect(&self, before: Machine, entropy: u8) -> Outcome {
        if !self.well_formed() {
            before.faulted(Fault::OperandRange)
        } else {
            before.with_v(self.reg as int, (entropy & self.byte) as int).completed()
        }
    }

    open spec fn alters_pc(&self) -> bool {
        false
    }

    open spec fn encoding(&self) -> Result<(u8, u8), EncodeError> {
        register_form(0xC, self.reg, self.byte)
    }

    open spec fn mnemonic(&self) -> Seq<char> {
        "RND "@ + register_text(self.reg) + ", "@ + hex_text(self.byte as nat, true)
    }

    fn execute(&self, processor: &mut Processor, entropy: u8) -> (result: Result<Step, Fault>) {
        if self.reg > 0xF {
            return Err(Fault::OperandRange);
        }
        processor.memory.registers.v[self.reg as usize] = entropy & self.byte;
        assert(processor@ =~= self.effect(old(processor)@, entropy).0);
        Ok(Step::Completed)
    }

    fn modified_pc(&self) -> (altered: bool) {
        false
    }

    fn assemble(&self) -> (bytes: Result<(u8, u8), EncodeError>) {
        encode_register(0xC, self.reg, self.byte)
    }

    fn to_text(&self) -> (text: String) {
        let mut text = String::from_str("RND ");
        push_register(&mut text, self.reg);
        text.append(", ");
        push_hex(&mut text, self.byte as u16, true);
        assert(text@ =~= self.mnemonic());
        text
    }
}

/// Addition loses nothing: the flag and the result together are the sum.
/// This holds unless the sum goes into the flag register itself, where the
/// result replaces the flag.
pub proof fn add_keeps_the_sum(add: ADDVxVy, before: Machine, entropy: u8)
    requires
        before.well_formed(),
        add.well_formed(),
        add.reg_a != 0xF,
    ensures
        ({
            let after = add.effect(before, entropy).0;
            after.v[0xF] * 256 + after.v[add.reg_a as int] == before.v[add.reg_a as int]
                + before.v[add.reg_b as int]
        }),
{
}

/// Subtraction reports a borrow exactly when the result would be negative,
/// and then gives zero; otherwise it gives the difference.
pub proof fn sub_borrows_or_subtracts(sub: SUBVxVy, before: Machine, entropy: u8)
    requires
        before.well_formed(),
        sub.well_formed(),
        sub.reg_a != 0xF,
    ensures
        ({
            let after = sub.effect(before, entropy).0;
            let minuend = before.v[sub.reg_a as int];
            let subtrahend = before.v[sub.reg_b as int];
            if minuend < subtrahend {
                after.v[0xF] == 1 && after.v[sub.reg_a as int] == 0
            } else {
                after.v[0xF] == 0 && after.v[sub.reg_a as int] == minuend - subtrahend
            }
        }),
{
}

} // verus!
