//! The processor: memory, keyboard and display, and the fetch-decode-execute step.

use vstd::prelude::*;
use rand::Rng;
use crate::internals::display::{screen_text, Display};
use crate::internals::fault::{Fault, Step};
use crate::internals::keyboard::Keyboard;
use crate::internals::machine::{first_outside, Machine, Outcome};
use crate::internals::memory::{initial_byte, registers_text, stack_text, Memory};
use crate::internals::opcode::{decode, decoded, Instruction, Opcode};

verus! {

/// The whole machine.
#[derive(Clone, Debug, PartialEq, Eq)]
pub struct Processor {
    pub memory: Memory,
    pub keyboard: Keyboard,
    pub display: Display,
}

impl View for Processor {
    type V = Machine;

    /// The machine as plain values and sequences.
    open spec fn view(&self) -> Machine {
        Machine {
            pc: self.memory.registers.pc,
            sp: self.memory.registers.sp,
            i: self.memory.registers.i,
            dt: self.memory.registers.dt,
            st: self.memory.registers.st,
            v: self.memory.registers.v@,
            stack: self.memory.stack@,
            ram: self.memory.ram@,
            screen: self.display.screen@,
            keys: self.keyboard.keys@,
            latch: self.keyboard.latch,
        }
    }
}

/// The instruction word that `machine` holds at `address`.
pub open spec fn word_at(machine: Machine, address: int) -> (u8, u8) {
    (machine.ram[address], machine.ram[address + 1])
}

/// What running `instruction` as the current instruction does to `before`.
///
/// Bytes that name no instruction stop a strict run and are stepped over
/// otherwise. Any other instruction is executed; when it completed and did not
/// set the program counter itself, the program counter then moves on by two.
pub open spec fn advanced(
    before: Machine,
    instruction: Instruction,
    strict: bool,
    entropy: u8,
) -> Outcome {
    match instruction {
        Instruction::Invalid(stand_in) => {
            if strict {
                before.faulted(Fault::InvalidOpcode { opcode: stand_in.opcode })
            } else {
                before.with_pc((before.pc + 2) % 0x10000).completed()
            }
        },
        _ => {
            let (after, result) = instruction.effect(before, entropy);
            if result == Ok::<Step, Fault>(Step::Completed) && !instruction.alters_pc() {
                (after.with_pc((after.pc + 2) % 0x10000), result)
            } else {
                (after, result)
            }
        },
    }
}

/// One round of fetching, decoding and executing on `before`.
///
/// A program counter above 4094 leaves no room for an instruction word: that
/// faults and changes nothing.
pub open spec fn ticked(before: Machine, strict: bool, entropy: u8) -> Outcome {
    if before.pc > 4094 {
        before.faulted(Fault::OutOfBoundsAccess { address: first_outside(before.pc as int) as u16 })
    } else {
        let word = word_at(before, before.pc as int);
        advanced(before, decoded(word.0, word.1), strict, entropy)
    }
}

/// One byte from the random number generator of the current thread:
/// `Rng::gen_range(0, 256)` of the crate `rand` on `thread_rng()`, which gives
/// a number from 0 up to 255. Nothing is promised of which one.
#[verifier::external_body]
fn random_byte() -> (byte: u8) {
    let number: u16 = rand::thread_rng().gen_range(0, 256);
    number as u8
}

impl Processor {
    /// A processor with the font in memory, a dark screen and no key pressed.
    pub fn new() -> (processor: Processor)
        ensures
            processor.memory.registers.pc == 0,
            processor.memory.registers.sp == -1,
            processor.memory.registers.i == 0,
            processor.memory.registers.dt == 0,
            processor.memory.registers.st == 0,
            processor.memory.registers.v@ == Seq::new(16, |k: int| 0u8),
            processor.memory.stack@ == Seq::new(16, |k: int| 0u16),
            processor.memory.ram@ == Seq::new(4096, |address: int| initial_byte(address)),
            processor.display.screen@ == Seq::new(2048, |p: int| false),
            processor.keyboard.keys@ == Seq::new(16, |k: int| false),
            processor.keyboard.latch is None,
    {
        Processor {
            memory: Memory::default(),
            keyboard: Keyboard::default(),
            display: Display::default(),
        }
    }

    /// The instruction word at the program counter.
    pub fn fetch_opcode(&mut self) -> (word: Result<(u8, u8), Fault>)
        ensures
            *final(self) == *old(self),
            old(self).memory.registers.pc <= 4094 ==> word == Ok::<(u8, u8), Fault>(
                word_at(old(self)@, old(self).memory.registers.pc as int),
            ),
            old(self).memory.registers.pc > 4094 ==> word == Err::<(u8, u8), Fault>(
                Fault::OutOfBoundsAccess {
                    address: first_outside(old(self).memory.registers.pc as int) as u16,
                },
            ),
    {
        self.memory.read_two_u8(self.memory.registers.pc)
    }

    /// The instruction that the word `opcode` names.
    pub fn decode_opcode(&mut self, opcode: (u8, u8)) -> (instruction: Instruction)
        ensures
            *final(self) == *old(self),
            instruction == decoded(opcode.0, opcode.1),
    {
        decode(opcode.0, opcode.1)
    }

    /// The instruction at `address`, decoded without running it.
    pub fn peek(&self, address: u16) -> (instruction: Result<Instruction, Fault>)
        ensures
            address <= 4094 ==> instruction == Ok::<Instruction, Fault>(
                decoded(word_at(self@, address as int).0, word_at(self@, address as int).1),
            ),
            address > 4094 ==> instruction == Err::<Instruction, Fault>(
                Fault::OutOfBoundsAccess { address: first_outside(address as int) as u16 },
            ),
    {
        if address >= 4096 {
            return Err(Fault::OutOfBoundsAccess { address });
        }
        if address == 4095 {
            return Err(Fault::OutOfBoundsAccess { address: 4096 });
        }
        let at: usize = address as usize;
        Ok(decode(self.memory.ram[at], self.memory.ram[at + 1]))
    }

    /// Runs `instruction` as the current instruction and moves the program
    /// counter on unless the instruction has set it.
    pub fn advance(&mut self, instruction: &Instruction, strict: bool, entropy: u8) -> (result:
        Result<Step, Fault>)
        ensures
            advanced(old(self)@, *instruction, strict, entropy) == (final(self)@, result),
    {
        match instruction {
            Instruction::Invalid(stand_in) => {
                if strict {
                    return Err(Fault::InvalidOpcode { opcode: stand_in.opcode });
                }
                self.memory.registers.pc = self.memory.registers.pc.wrapping_add(2);
                assert(self@ =~= advanced(old(self)@, *instruction, strict, entropy).0);
                Ok(Step::Completed)
            },
            _ => {
                let result = instruction.execute(self, entropy);
                match result {
                    Ok(Step::Completed) => {
                        if !instruction.modified_pc() {
                            self.memory.registers.pc = self.memory.registers.pc.wrapping_add(2);
                        }
                    },
                    _ => {},
                }
                assert(self@ =~= advanced(old(self)@, *instruction, strict, entropy).0);
                result
            },
        }
    }

    /// One round of fetching, decoding and executing, with `entropy` as the
    /// random byte for an instruction that asks for one.
    pub fn tick_with(&mut self, strict: bool, entropy: u8) -> (result: Result<Step, Fault>)
        ensures
            ticked(old(self)@, strict, entropy) == (final(self)@, result),
    {
        let word = match self.fetch_opcode() {
            Ok(word) => word,
            Err(fault) => {
                return Err(fault);
            },
        };
        let instruction = self.decode_opcode(word);
        self.advance(&instruction, strict, entropy)
    }

    /// One round of fetching, decoding and executing. With `strict` set, bytes
    /// that name no instruction stop the run; without it they are stepped over.
    ///
    /// The random byte is drawn here, and only when the instruction reads one.
    pub fn tick(&mut self, strict: bool) -> (result: Result<Step, Fault>)
        ensures
            exists|entropy: u8| #[trigger]
                ticked(old(self)@, strict, entropy) == (final(self)@, result),
    {
        let word = match self.fetch_opcode() {
            Ok(word) => word,
            Err(fault) => {
                assert(ticked(old(self)@, strict, 0u8) == (self@, Err::<Step, Fault>(fault)));
                return Err(fault);
            },
        };
        let instruction = self.decode_opcode(word);
        let entropy: u8 = match instruction {
            Instruction::RNDVxByte(_) => random_byte(),
            _ => 0,
        };
        let result = self.advance(&instruction, strict, entropy);
        assert(ticked(old(self)@, strict, entropy) == (self@, result));
        result
    }

    /// Runs the instruction at the program counter and stops at bytes that
    /// name none: one step of a debugger.
    pub fn step(&mut self) -> (result: Result<Step, Fault>)
        ensures
            exists|entropy: u8| #[trigger]
                ticked(old(self)@, true, entropy) == (final(self)@, result),
    {
        self.tick(true)
    }

    /// The registers as lines of text.
    pub fn dump_registers(&self) -> (text: String)
        ensures
            text@ == registers_text(self.memory.registers),
    {
        self.memory.registers.to_text()
    }

    /// The stack as one line of text.
    pub fn dump_stack(&self) -> (text: String)
        ensures
            text@ == stack_text(self.memory.stack@),
    {
        self.memory.stack_to_text()
    }

    /// The screen as lines of text.
    pub fn dump_display(&self) -> (text: String)
        ensures
            text@ == screen_text(self.display.screen@),
    {
        self.display.to_text()
    }

    /// Decodes the word at the program counter and moves on to the next word
    /// without running anything. An all-zero word marks the end of a program
    /// and gives `None`.
    pub fn disassemble_tick(&mut self) -> (listed: Result<Option<Instruction>, Fault>)
        ensures
            old(self).memory.registers.pc > 4094 ==> *final(self) == *old(self) && listed == Err::<
                Option<Instruction>,
                Fault,
            >(
                Fault::OutOfBoundsAccess {
                    address: first_outside(old(self).memory.registers.pc as int) as u16,
                },
            ),
            old(self).memory.registers.pc <= 4094 ==> final(self)@ == old(self)@.with_pc(
                old(self).memory.registers.pc + 2,
            ) && listed == Ok::<Option<Instruction>, Fault>(
                {
                    let word = word_at(old(self)@, old(self).memory.registers.pc as int);
                    if word.0 != 0 || word.1 != 0 {
                        Some(decoded(word.0, word.1))
                    } else {
                        None
                    }
                },
            ),
    {
        let word = match self.fetch_opcode() {
            Ok(word) => word,
            Err(fault) => {
                return Err(fault);
            },
        };
        self.memory.registers.pc = self.memory.registers.pc + 2;
        let instruction = self.decode_opcode(word);
        assert(self@ =~= old(self)@.with_pc(old(self).memory.registers.pc + 2));
        if word.0 != 0 || word.1 != 0 {
            Ok(Some(instruction))
        } else {
            Ok(None)
        }
    }
}

/// An instruction that completes without setting the program counter leaves
/// it where it was or, for a skip that is taken, two further on; a fault and a
/// wait for a key leave the whole machine as it was.
pub proof fn effect_keeps_flow(instruction: Instruction, before: Machine, entropy: u8)
    ensures
        !(instruction.effect(before, entropy).1 == Ok::<Step, Fault>(Step::Completed))
            ==> instruction.effect(before, entropy).0 == before,
        !instruction.alters_pc() ==> instruction.effect(before, entropy).0.pc == before.pc || (
        before.pc <= 4094 && instruction.effect(before, entropy).0.pc == before.pc + 2),
{
}

/// No instruction changes the size of any part of the machine.
pub proof fn effect_keeps_shape(instruction: Instruction, before: Machine, entropy: u8)
    requires
        before.well_formed(),
        instruction.well_formed(),
    ensures
        instruction.effect(before, entropy).0.well_formed(),
{
}

/// A tick on a machine whose program counter leaves room for an instruction
/// word runs the instruction found there; afterwards the program counter is
/// where a control transfer put it, or two or, after a skip that was taken,
/// four bytes further on.
pub proof fn tick_moves_on(before: Machine, strict: bool, entropy: u8)
    requires
        before.pc <= 4094,
    ensures
        ({
            let word = word_at(before, before.pc as int);
            let instruction = decoded(word.0, word.1);
            let (after, result) = ticked(before, strict, entropy);
            &&& result == Ok::<Step, Fault>(Step::Completed) && !instruction.alters_pc() ==> {
                after.pc == before.pc + 2 || after.pc == before.pc + 4
            }
            &&& !(result == Ok::<Step, Fault>(Step::Completed)) ==> after == before
        }),
{
    let word = word_at(before, before.pc as int);
    effect_keeps_flow(decoded(word.0, word.1), before, entropy);
}

} // verus!
