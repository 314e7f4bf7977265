//! The linear disassembler: it walks through memory word by word from an
//! entry point and writes each instruction as a line of text.

use vstd::prelude::*;
use vstd::string::*;
use crate::internals::memory::Memory;
use crate::internals::opcode::{decode, decoded, prefixed_hex, Instruction, Opcode};
use crate::internals::text::push_prefixed_hex;

verus! {

/// How to list a program.
#[derive(Clone, Copy, Debug, PartialEq, Eq, Structural)]
pub struct Options {
    /// Write lines that the assembler reads back: the instruction first, its
    /// address behind a semicolon.
    pub canonical: bool,
    /// Step over words that name no instruction instead of stopping at them.
    pub ignore_errors: bool,
    /// Stop at the first all-zero word.
    pub stop_zero: bool,
    /// From 2 on, words that are stepped over are listed too.
    pub verbosity: u8,
}

/// What to do with one word.
#[derive(Clone, Copy, Debug, PartialEq, Eq, Structural)]
pub enum Verdict {
    /// List it and go on.
    Show,
    /// Go on without listing it.
    Skip,
    /// Stop: the word is all zero.
    StopZero,
    /// Stop: the word names no instruction.
    StopInvalid,
}

/// Why the listing ended.
#[derive(Clone, Copy, Debug, PartialEq, Eq, Structural)]
pub enum Stop {
    /// Memory has no further word.
    EndOfMemory,
    /// The word at `address` is all zero.
    ZeroWord { address: u16 },
    /// The word at `address` names no instruction.
    InvalidOpcode { address: u16 },
}

/// The lines of a listing and why it ended.
#[derive(Clone, Debug, PartialEq, Eq)]
pub struct Disassembly {
    pub lines: Vec<String>,
    pub stop: Stop,
}

/// What to do with the word `high`, `low`.
///
/// A word that names an instruction is listed. An all-zero word ends the
/// listing where that is asked for. Any other word that names none ends the
/// listing unless errors are ignored. A word that is stepped over is listed
/// at verbosity 2.
pub open spec fn verdict_on(high: u8, low: u8, options: Options) -> Verdict {
    if !(decoded(high, low) is Invalid) {
        Verdict::Show
    } else if high == 0 && low == 0 && options.stop_zero {
        Verdict::StopZero
    } else if !(high == 0 && low == 0) && !options.ignore_errors {
        Verdict::StopInvalid
    } else if options.verbosity == 2 {
        Verdict::Show
    } else {
        Verdict::Skip
    }
}

/// The line for the word `high`, `low` at `address`: the instruction and its
/// address behind a semicolon, or the address, the two bytes and the
/// instruction in columns.
pub open spec fn line_text(address: u16, high: u8, low: u8, canonical: bool) -> Seq<char> {
    let mnemonic = decoded(high, low).mnemonic();
    if canonical {
        mnemonic + " ; "@ + prefixed_hex(address as nat)
    } else {
        prefixed_hex(address as nat) + "\t\t\t"@ + prefixed_hex(high as nat) + " "@ + prefixed_hex(
            low as nat,
        ) + "\t"@ + mnemonic
    }
}

/// The lines for the words from address `from` up to, not including,
/// address `to`.
pub open spec fn lines_between(ram: Seq<u8>, from: int, to: int, options: Options) -> Seq<Seq<char>>
    decreases to - from,
{
    if to < from + 2 {
        Seq::empty()
    } else {
        let before = lines_between(ram, from, to - 2, options);
        if verdict_on(ram[to - 2], ram[to - 1], options) == Verdict::Show {
            before.push(line_text((to - 2) as u16, ram[to - 2], ram[to - 1], options.canonical))
        } else {
            before
        }
    }
}

/// Where a listing from `entry` on ends if no word stops it: at the first
/// address, in steps of two, that leaves no room for a word.
pub open spec fn end_of_memory(entry: u16) -> int {
    if entry > 4094 {
        entry as int
    } else if entry % 2 == 0 {
        4096
    } else {
        4095
    }
}

/// Decides what to do with one word.
pub fn judge(high: u8, low: u8, options: &Options) -> (verdict: Verdict)
    ensures
        verdict == verdict_on(high, low, *options),
{
    let instruction = decode(high, low);
    if !instruction.is_invalid() {
        Verdict::Show
    } else if high == 0 && low == 0 && options.stop_zero {
        Verdict::StopZero
    } else if !(high == 0 && low == 0) && !options.ignore_errors {
        Verdict::StopInvalid
    } else if options.verbosity == 2 {
        Verdict::Show
    } else {
        Verdict::Skip
    }
}

/// Writes the line for one word.
pub fn write_line(address: u16, high: u8, low: u8, canonical: bool) -> (line: String)
    ensures
        line@ == line_text(address, high, low, canonical),
{
    let mnemonic: String = decode(high, low).to_text();
    if canonical {
        let mut line = mnemonic;
        line.append(" ; ");
        push_prefixed_hex(&mut line, address);
        assert(line@ =~= line_text(address, high, low, canonical));
        line
    } else {
        let mut line = String::new();
        push_prefixed_hex(&mut line, address);
        line.append("\t\t\t");
        push_prefixed_hex(&mut line, high as u16);
        line.append(" ");
        push_prefixed_hex(&mut line, low as u16);
        line.append("\t");
        line.append(mnemonic.as_str());
        assert(line@ =~= line_text(address, high, low, canonical));
        line
    }
}

/// Lists the program in `memory` from `entry` on.
///
/// The listing goes on in steps of two bytes until a word stops it or memory
/// ends. The lines are those of all words before the place where it ended.
pub fn disassemble(memory: &Memory, entry: u16, options: &Options) -> (listing: Disassembly)
    ensures
        ({
            let end = match listing.stop {
                Stop::EndOfMemory => end_of_memory(entry),
                Stop::ZeroWord { address } => address as int,
                Stop::InvalidOpcode { address } => address as int,
            };
            &&& entry <= end
            &&& (end - entry) % 2 == 0
            &&& forall|address: int|
                entry <= address < end && (address - entry) % 2 == 0 ==> {
                    let verdict = #[trigger] verdict_on(
                        memory.ram@[address],
                        memory.ram@[address + 1],
                        *options,
                    );
                    verdict == Verdict::Show || verdict == Verdict::Skip
                }
            &&& listing.stop matches Stop::ZeroWord { address } ==> address <= 4094 && verdict_on(
                memory.ram@[address as int],
                memory.ram@[address + 1],
                *options,
            ) == Verdict::StopZero
            &&& listing.stop matches Stop::InvalidOpcode { address } ==> address <= 4094
                && verdict_on(memory.ram@[address as int], memory.ram@[address + 1], *options)
                == Verdict::StopInvalid
            &&& listing.lines@.len() == lines_between(
                memory.ram@,
                entry as int,
                end,
                *options,
            ).len()
            &&& forall|k: int|
                0 <= k < listing.lines@.len() ==> (#[trigger] listing.lines@[k])@ == lines_between(
                    memory.ram@,
                    entry as int,
                    end,
                    *options,
                )[k]
        }),
{
    let mut lines: Vec<String> = Vec::new();
    let mut pc: u16 = entry;
    while pc <= 4094
        invariant
            entry <= pc,
            pc <= 4096 || pc == entry,
            (pc - entry) % 2 == 0,
            forall|address: int|
                entry <= address < pc && (address - entry) % 2 == 0 ==> {
                    let verdict = #[trigger] verdict_on(
                        memory.ram@[address],
                        memory.ram@[address + 1],
                        *options,
                    );
                    verdict == Verdict::Show || verdict == Verdict::Skip
                },
            lines@.len() == lines_between(memory.ram@, entry as int, pc as int, *options).len(),
            forall|k: int|
                0 <= k < lines@.len() ==> (#[trigger] lines@[k])@ == lines_between(
                    memory.ram@,
                    entry as int,
                    pc as int,
                    *options,
                )[k],
        decreases 4096 - pc,
    {
        let high: u8 = memory.ram[pc as usize];
        let low: u8 = memory.ram[pc as usize + 1];
        match judge(high, low, options) {
            Verdict::Show => {
                lines.push(write_line(pc, high, low, options.canonical));
            },
            Verdict::Skip => {},
            Verdict::StopZero => {
                return Disassembly { lines, stop: Stop::ZeroWord { address: pc } };
            },
            Verdict::StopInvalid => {
                return Disassembly { lines, stop: Stop::InvalidOpcode { address: pc } };
            },
        }
        pc = pc + 2;
    }
    Disassembly { lines, stop: Stop::EndOfMemory }
}

} // verus!
