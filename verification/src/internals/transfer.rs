//! Instructions that move values between registers, timers, keyboard and memory.

use vstd::prelude::*;
use vstd::string::*;
use crate::internals::fault::{EncodeError, Fault, Step};
use crate::internals::machine::{first_outside, Machine, Outcome};
use crate::internals::processor::Processor;
use crate::internals::opcode::{
    address_form, encode_address, encode_register, prefixed_hex, push_register, register_form,
    register_text, ADDIVx, LDBVx, LDDTVx, LDFVx, LDIAddr, LDIVx, LDSTVx, LDVxDT, LDVxI, LDVxK,
    Opcode,
};
use crate::internals::text::push_prefixed_hex;

verus! {

/// The fault for a run of bytes from `start` on that does not fit in memory.
fn outside(start: u16) -> (fault: Fault)
    ensures
        fault == (Fault::OutOfBoundsAccess { address: first_outside(start as int) as u16 }),
{
    if start >= 4096 {
        Fault::OutOfBoundsAccess { address: start }
    } else {
        Fault::OutOfBoundsAccess { address: 4096 }
    }
}

impl Opcode for LDVxDT {
    open spec fn well_formed(&self) -> bool {
        self.reg <= 0xF
    }

    open spec fn effect(&self, before: Machine, entropy: u8) -> Outcome {
        if !self.well_formed() {
            before.faulted(Fault::OperandRange)
        } else {
            let timer = if before.dt > 0 {
                before.dt - 1
            } else {
                0
            };
            Machine { dt: timer as u8, ..before }.with_v(self.reg as int, timer).completed()
        }
    }

    open spec fn alters_pc(&self) -> bool {
        false
    }

    open spec fn encoding(&self) -> Result<(u8, u8), EncodeError> {
        register_form(0xF, self.reg, 0x07)
    }

    open spec fn mnemonic(&self) -> Seq<char> {
        "LD "@ + register_text(self.reg) + ", DT"@
    }

    fn execute(&self, processor: &mut Processor, entropy: u8) -> (result: Result<Step, Fault>) {
        if self.reg > 0xF {
            return Err(Fault::OperandRange);
        }
        let timer: u8 = processor.memory.registers.dt.saturating_sub(1);
        processor.memory.registers.dt = timer;
        processor.memory.registers.v[self.reg as usize] = timer;
        assert(processor@ =~= self.effect(old(processor)@, entropy).0);
        Ok(Step::Completed)
    }

    fn modified_pc(&self) -> (altered: bool) {
        false
    }

    fn assemble(&self) -> (bytes: Result<(u8, u8), EncodeError>) {
        encode_register(0xF, self.reg, 0x07)
    }

    fn to_text(&self) -> (text: String) {
        let mut text = String::from_str("LD ");
        push_register(&mut text, self.reg);
        text.append(", DT");
        assert(text@ =~= self.mnemonic());
        text
    }
}

impl Opcode for LDVxK {
    open spec fn well_formed(&self) -> bool {
        self.reg <= 0xF
    }

    open spec fn effect(&self, before: Machine, entropy: u8) -> Outcome {
        if !self.well_formed() {
            before.faulted(Fault::OperandRange)
        } else {
            match before.latch {
                Some(key) => Machine { latch: None, ..before }.with_v(
                    self.reg as int,
                    key as int,
                ).completed(),
                None => before.awaiting_key(),
            }
        }
    }

    open spec fn alters_pc(&self) -> bool {
        false
    }

    open spec fn encoding(&self) -> Result<(u8, u8), EncodeError> {
        register_form(0xF, self.reg, 0x0A)
    }

    open spec fn mnemonic(&self) -> Seq<char> {
        "LD "@ + register_text(self.reg) + ", K"@
    }

    fn execute(&self, processor: &mut Processor, entropy: u8) -> (result: Result<Step, Fault>) {
        if self.reg > 0xF {
            return Err(Fault::OperandRange);
        }
        match processor.keyboard.latch {
            Some(key) => {
                processor.keyboard.latch = None;
                processor.memory.registers.v[self.reg as usize] = key;
                assert(processor@ =~= self.effect(old(processor)@, entropy).0);
                Ok(Step::Completed)
            },
            None => Ok(Step::AwaitingKey),
        }
    }

    fn modified_pc(&self) -> (altered: bool) {
        false
    }

    fn assemble(&self) -> (bytes: Result<(u8, u8), EncodeError>) {
        encode_register(0xF, self.reg, 0x0A)
    }

    fn to_text(&self) -> (text: String) {
        let mut text = String::from_str("LD ");
        push_register(&mut text, self.reg);
        text.append(", K");
        assert(text@ =~= self.mnemonic());
        text
    }
}

impl Opcode for LDDTVx {
    open spec fn well_formed(&self) -> bool {
        self.reg <= 0xF
    }

    open spec fn effect(&self, before: Machine, entropy: u8) -> Outcome {
        if !self.well_formed() {
            before.faulted(Fault::OperandRange)
        } else {
            Machine { dt: before.v[self.reg as int], ..before }.completed()
        }
    }

    open spec fn alters_pc(&self) -> bool {
        false
    }

    open spec fn encoding(&self) -> Result<(u8, u8), EncodeError> {
        register_form(0xF, self.reg, 0x15)
    }

    open spec fn mnemonic(&self) -> Seq<char> {
        "LD DT, "@ + register_text(self.reg)
    }

    fn execute(&self, processor: &mut Processor, entropy: u8) -> (result: Result<Step, Fault>) {
        if self.reg > 0xF {
            return Err(Fault::OperandRange);
        }
        processor.memory.registers.dt = processor.memory.registers.v[self.reg as usize];
        assert(processor@ =~= self.effect(old(processor)@, entropy).0);
        Ok(Step::Completed)
    }

    fn modified_pc(&self) -> (altered: bool) {
        false
    }

    fn assemble(&self) -> (bytes: Result<(u8, u8), EncodeError>) {
        encode_register(0xF, self.reg, 0x15)
    }

    fn to_text(&self) -> (text: String) {
        let mut text = String::from_str("LD DT, ");
        push_register(&mut text, self.reg);
        assert(text@ =~= self.mnemonic());
        text
    }
}

impl Opcode for LDSTVx {
    open spec fn well_formed(&self) -> bool {
        self.reg <= 0xF
    }

    open spec fn effect(&self, before: Machine, entropy: u8) -> Outcome {
        if !self.well_formed() {
            before.faulted(Fault::OperandRange)
        } else {
            Machine { st: before.v[self.reg as int], ..before }.completed()
        }
    }

    open spec fn alters_pc(&self) -> bool {
        false
    }

    open spec fn encoding(&self) -> Result<(u8, u8), EncodeError> {
        register_form(0xF, self.reg, 0x18)
    }

    open spec fn mnemonic(&self) -> Seq<char> {
        "LD ST, "@ + register_text(self.reg)
    }

    fn execute(&self, processor: &mut Processor, entropy: u8) -> (result: Result<Step, Fault>) {
        if self.reg > 0xF {
            return Err(Fault::OperandRange);
        }
        processor.memory.registers.st = processor.memory.registers.v[self.reg as usize];
        assert(processor@ =~= self.effect(old(processor)@, entropy).0);
        Ok(Step::Completed)
    }

    fn modified_pc(&self) -> (altered: bool) {
        false
    }

    fn assemble(&self) -> (bytes: Result<(u8, u8), EncodeError>) {
        encode_register(0xF, self.reg, 0x18)
    }

    fn to_text(&self) -> (text: String) {
        let mut text = String::from_str("LD ST, ");
        push_register(&mut text, self.reg);
        assert(text@ =~= self.mnemonic());
        text
    }
}

impl Opcode for ADDIVx {
    open spec fn well_formed(&self) -> bool {
        self.reg <= 0xF
    }

    open spec fn effect(&self, before: Machine, entropy: u8) -> Outcome {
        if !self.well_formed() {
            before.faulted(Fault::OperandRange)
        } else {
            before.with_i((before.i + before.v[self.reg as int]) % 0x10000).completed()
        }
    }

    open spec fn alters_pc(&self) -> bool {
        false
    }

    open spec fn encoding(&self) -> Result<(u8, u8), EncodeError> {
        register_form(0xF, self.reg, 0x1E)
    }

    open spec fn mnemonic(&self) -> Seq<char> {
        "ADD I, "@ + register_text(self.reg)
    }

    fn execute(&self, processor: &mut Processor, entropy: u8) -> (result: Result<Step, Fault>) {
        if self.reg > 0xF {
            return Err(Fault::OperandRange);
        }
        let sum: u16 = processor.memory.registers.i.wrapping_add(
            processor.memory.registers.v[self.reg as usize] as u16,
        );
        processor.memory.registers.i = sum;
        assert(processor@ =~= self.effect(old(processor)@, entropy).0);
        Ok(Step::Completed)
    }

    fn modified_pc(&self) -> (altered: bool) {
        false
    }

    fn assemble(&self) -> (bytes: Result<(u8, u8), EncodeError>) {
        encode_register(0xF, self.reg, 0x1E)
    }

    fn to_text(&self) -> (text: String) {
        let mut text = String::from_str("ADD I, ");
        push_register(&mut text, self.reg);
        assert(text@ =~= self.mnemonic());
        text
    }
}

impl Opcode for LDFVx {
    open spec fn well_formed(&self) -> bool {
        self.reg <= 0xF
    }

    open spec fn effect(&self, before: Machine, entropy: u8) -> Outcome {
        if !self.well_formed() {
            before.faulted(Fault::OperandRange)
        } else if before.v[self.reg as int] > 0xF {
            before.faulted(Fault::OperandRange)
        } else {
            before.with_i(6 * before.v[self.reg as int]).completed()
        }
    }

    open spec fn alters_pc(&self) -> bool {
        false
    }

    open spec fn encoding(&self) -> Result<(u8, u8), EncodeError> {
        register_form(0xF, self.reg, 0x29)
    }

    open spec fn mnemonic(&self) -> Seq<char> {
        "LD F, "@ + register_text(self.reg)
    }

    fn execute(&self, processor: &mut Processor, entropy: u8) -> (result: Result<Step, Fault>) {
        if self.reg > 0xF {
            return Err(Fault::OperandRange);
        }
        let digit: u8 = processor.memory.registers.v[self.reg as usize];
        if digit > 0xF {
            return Err(Fault::OperandRange);
        }
        processor.memory.registers.i = 6 * (digit as u16);
        assert(processor@ =~= self.effect(old(processor)@, entropy).0);
        Ok(Step::Completed)
    }

    fn modified_pc(&self) -> (altered: bool) {
        false
    }

    fn assemble(&self) -> (bytes: Result<(u8, u8), EncodeError>) {
        encode_register(0xF, self.reg, 0x29)
    }

    fn to_text(&self) -> (text: String) {
        let mut text = String::from_str("LD F, ");
        push_register(&mut text, self.reg);
        assert(text@ =~= self.mnemonic());
        text
    }
}

impl Opcode for LDBVx {
    open spec fn well_formed(&self) -> bool {
        self.reg <= 0xF
    }

    open spec fn effect(&self, before: Machine, entropy: u8) -> Outcome {
        if !self.well_formed() {
            before.faulted(Fault::OperandRange)
        } else {
            let value = before.v[self.reg as int];
            if before.i + 2 > 4095 {
                before.faulted(
                    Fault::OutOfBoundsAccess { address: first_outside(before.i as int) as u16 },
                )
            } else {
                Machine {
                    ram: before.ram.update(before.i as int, (value / 100) as u8).update(
                        before.i + 1,
                        ((value / 10) % 10) as u8,
                    ).update(before.i + 2, (value % 10) as u8),
                    ..before
                }.completed()
            }
        }
    }

    open spec fn alters_pc(&self) -> bool {
        false
    }

    open spec fn encoding(&self) -> Result<(u8, u8), EncodeError> {
        register_form(0xF, self.reg, 0x33)
    }

    open spec fn mnemonic(&self) -> Seq<char> {
        "LD B, "@ + register_text(self.reg)
    }

    fn execute(&self, processor: &mut Processor, entropy: u8) -> (result: Result<Step, Fault>) {
        if self.reg > 0xF {
            return Err(Fault::OperandRange);
        }
        let value: u8 = processor.memory.registers.v[self.reg as usize];
        let start: u16 = processor.memory.registers.i;
        if start > 4093 {
            return Err(outside(start));
        }
        let at: usize = start as usize;
        processor.memory.ram[at] = value / 100;
        processor.memory.ram[at + 1] = (value / 10) % 10;
        processor.memory.ram[at + 2] = value % 10;
        assert(processor@ =~= self.effect(old(processor)@, entropy).0);
        Ok(Step::Completed)
    }

    fn modified_pc(&self) -> (altered: bool) {
        false
    }

    fn assemble(&self) -> (bytes: Result<(u8, u8), EncodeError>) {
        encode_register(0xF, self.reg, 0x33)
    }

    fn to_text(&self) -> (text: String) {
        let mut text = String::from_str("LD B, ");
        push_register(&mut text, self.reg);
        assert(text@ =~= self.mnemonic());
        text
    }
}

impl Opcode for LDIVx {
    open spec fn well_formed(&self) -> bool {
        self.reg <= 0xF
    }

    open spec fn effect(&self, before: Machine, entropy: u8) -> Outcome {
        if !self.well_formed() {
            before.faulted(Fault::OperandRange)
        } else if before.i + self.reg > 4095 {
            before.faulted(
                Fault::OutOfBoundsAccess { address: first_outside(before.i as int) as u16 },
            )
        } else {
            Machine {
                ram: Seq::new(
                    4096,
                    |address: int|
                        if before.i <= address <= before.i + self.reg {
                            before.v[address - before.i]
                        } else {
                            before.ram[address]
                        },
                ),
                ..before
            }.completed()
        }
    }

    open spec fn alters_pc(&self) -> bool {
        false
    }

    open spec fn encoding(&self) -> Result<(u8, u8), EncodeError> {
        register_form(0xF, self.reg, 0x55)
    }

    open spec fn mnemonic(&self) -> Seq<char> {
        "LD I, "@ + register_text(self.reg)
    }

    fn execute(&self, processor: &mut Processor, entropy: u8) -> (result: Result<Step, Fault>) {
        if self.reg > 0xF {
            return Err(Fault::OperandRange);
        }
        let start: u16 = processor.memory.registers.i;
        if start > 4095 - self.reg as u16 {
            return Err(outside(start));
        }
        let at: usize = start as usize;
        let count: usize = self.reg as usize + 1;
        let mut x: usize = 0;
        while x < count
            invariant
                x <= count,
                count == self.reg + 1,
                count <= 16,
                at == old(processor).memory.registers.i,
                at + count <= 4096,
                processor.memory.registers == old(processor).memory.registers,
                processor.memory.stack == old(processor).memory.stack,
                processor.keyboard == old(processor).keyboard,
                processor.display == old(processor).display,
                forall|address: int|
                    0 <= address < 4096 ==> processor.memory.ram[address] == (if at <= address < at
                        + x {
                        old(processor).memory.registers.v[address - at]
                    } else {
                        old(processor).memory.ram[address]
                    }),
            decreases count - x,
        {
            processor.memory.ram[at + x] = processor.memory.registers.v[x];
            x = x + 1;
        }
        assert(processor@ =~= self.effect(old(processor)@, entropy).0);
        Ok(Step::Completed)
    }

    fn modified_pc(&self) -> (altered: bool) {
        false
    }

    fn assemble(&self) -> (bytes: Result<(u8, u8), EncodeError>) {
        encode_register(0xF, self.reg, 0x55)
    }

    fn to_text(&self) -> (text: String) {
        let mut text = String::from_str("LD I, ");
        push_register(&mut text, self.reg);
        assert(text@ =~= self.mnemonic());
        text
    }
}

impl Opcode for LDVxI {
    open spec fn well_formed(&self) -> bool {
        self.reg <= 0xF
    }

    open spec fn effect(&self, before: Machine, entropy: u8) -> Outcome {
        if !self.well_formed() {
            before.faulted(Fault::OperandRange)
        } else if before.i + self.reg > 4095 {
            before.faulted(
                Fault::OutOfBoundsAccess { address: first_outside(before.i as int) as u16 },
            )
        } else {
            Machine {
                v: Seq::new(
                    16,
                    |x: int|
                        if x <= self.reg {
                            before.ram[before.i + x]
                        } else {
                            before.v[x]
                        },
                ),
                ..before
            }.completed()
        }
    }

    open spec fn alters_pc(&self) -> bool {
        false
    }

    open spec fn encoding(&self) -> Result<(u8, u8), EncodeError> {
        register_form(0xF, self.reg, 0x65)
    }

    open spec fn mnemonic(&self) -> Seq<char> {
        "LD "@ + register_text(self.reg) + ", I"@
    }

    fn execute(&self, processor: &mut Processor, entropy: u8) -> (result: Result<Step, Fault>) {
        if self.reg > 0xF {
            return Err(Fault::OperandRange);
        }
        let start: u16 = processor.memory.registers.i;
        if start > 4095 - self.reg as u16 {
            return Err(outside(start));
        }
        let at: usize = start as usize;
        let count: usize = self.reg as usize + 1;
        let mut x: usize = 0;
        while x < count
            invariant
                x <= count,
                count == self.reg + 1,
                count <= 16,
                at == old(processor).memory.registers.i,
                at + count <= 4096,
                processor.memory.registers.pc == old(processor).memory.registers.pc,
                processor.memory.registers.sp == old(processor).memory.registers.sp,
                processor.memory.registers.i == old(processor).memory.registers.i,
                processor.memory.registers.dt == old(processor).memory.registers.dt,
                processor.memory.registers.st == old(processor).memory.registers.st,
                processor.memory.ram == old(processor).memory.ram,
                processor.memory.stack == old(processor).memory.stack,
                processor.keyboard == old(processor).keyboard,
                processor.display == old(processor).display,
                forall|y: int|
                    0 <= y < 16 ==> processor.memory.registers.v[y] == (if y < x {
                        old(processor).memory.ram[at + y]
                    } else {
                        old(processor).memory.registers.v[y]
                    }),
            decreases count - x,
        {
            processor.memory.registers.v[x] = processor.memory.ram[at + x];
            x = x + 1;
        }
        assert(processor@ =~= self.effect(old(processor)@, entropy).0);
        Ok(Step::Completed)
    }

    fn modified_pc(&self) -> (altered: bool) {
        false
    }

    fn assemble(&self) -> (bytes: Result<(u8, u8), EncodeError>) {
        encode_register(0xF, self.reg, 0x65)
    }

    fn to_text(&self) -> (text: String) {
        let mut text = String::from_str("LD ");
        push_register(&mut text, self.reg);
        text.append(", I");
        assert(text@ =~= self.mnemonic());
        text
    }
}

impl Opcode for LDIAddr {
    open spec fn well_formed(&self) -> bool {
        self.address <= 0xFFF
    }

    open spec fn effect(&self, before: Machine, entropy: u8) -> Outcome {
        if !self.well_formed() {
            before.faulted(Fault::OperandRange)
        } else {
            before.with_i(self.address as int).completed()
        }
    }

    open spec fn alters_pc(&self) -> bool {
        false
    }

    open spec fn encoding(&self) -> Result<(u8, u8), EncodeError> {
        address_form(0xA, self.address)
    }

    open spec fn mnemonic(&self) -> Seq<char> {
        "LDI "@ + prefixed_hex(self.address as nat)
    }

    fn execute(&self, processor: &mut Processor, entropy: u8) -> (result: Result<Step, Fault>) {
        if self.address > 0xFFF {
            return Err(Fault::OperandRange);
        }
        processor.memory.registers.i = self.address;
        assert(processor@ =~= self.effect(old(processor)@, entropy).0);
        Ok(Step::Completed)
    }

    fn modified_pc(&self) -> (altered: bool) {
        false
    }

    fn assemble(&self) -> (bytes: Result<(u8, u8), EncodeError>) {
        encode_address(0xA, self.address)
    }

    fn to_text(&self) -> (text: String) {
        let mut text = String::from_str("LDI ");
        push_prefixed_hex(&mut text, self.address);
        assert(text@ =~= self.mnemonic());
        text
    }
}

/// The three digits that `LD B` writes are decimal digits, and they make up
/// the value of the register again.
pub proof fn digits_make_up_the_value(load: LDBVx, before: Machine, entropy: u8)
    requires
        before.well_formed(),
        load.well_formed(),
        before.i + 2 <= 4095,
    ensures
        ({
            let after = load.effect(before, entropy).0;
            let at = before.i as int;
            &&& after.ram[at] <= 9 && after.ram[at + 1] <= 9 && after.ram[at + 2] <= 9
            &&& after.ram[at] * 100 + after.ram[at + 1] * 10 + after.ram[at + 2]
                == before.v[load.reg as int]
        }),
{
}

/// Registers that were stored come back when they are loaded: `LD I, Vx`
/// followed by `LD Vx, I` leaves the registers as they were.
pub proof fn load_undoes_store(reg: u8, before: Machine, entropy: u8)
    requires
        before.well_formed(),
        reg <= 0xF,
        before.i + reg <= 4095,
    ensures
        ({
            let (stored, first) = (LDIVx { reg }).effect(before, entropy);
            let (loaded, second) = (LDVxI { reg }).effect(stored, entropy);
            &&& first == Ok::<Step, Fault>(Step::Completed)
            &&& second == Ok::<Step, Fault>(Step::Completed)
            &&& loaded == stored
            &&& loaded.v == before.v
        }),
{
    let (stored, first) = (LDIVx { reg }).effect(before, entropy);
    let (loaded, second) = (LDVxI { reg }).effect(stored, entropy);
    assert(loaded.v =~= before.v);
    assert(loaded =~= stored);
}

} // verus!
