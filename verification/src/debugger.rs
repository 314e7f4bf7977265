//! The commands of the debugger's prompt.

use vstd::prelude::*;
use vstd::string::*;
use crate::assembler::literal::{literal_value, read_literal, same_text};
use crate::internals::keyboard::{is_blank, Keyboard};

verus! {

/// What a line typed at the prompt asks for.
#[derive(Clone, Copy, Debug, PartialEq, Eq, Structural)]
pub enum Command {
    /// `p` and an address: show the instruction at the address.
    Peek { address: u16 },
    /// `s`: run one instruction.
    Step,
    /// `q`: leave.
    Quit,
    /// `r`: show the registers.
    Registers,
    /// `st`: show the stack.
    Stack,
    /// `d`: show the screen.
    Display,
    /// `i`: show the current instruction again.
    Instruction,
    /// `c`: run on without stopping.
    Continue,
    /// Anything else.
    Unknown,
}

/// How many blanks stand at the start of `text`.
pub open spec fn leading_blanks(text: Seq<char>) -> nat
    decreases text.len(),
{
    if text.len() > 0 && is_blank(text[0]) {
        1 + leading_blanks(text.drop_first())
    } else {
        0
    }
}

/// How many blanks stand at the end of `text`.
pub open spec fn trailing_blanks(text: Seq<char>) -> nat
    decreases text.len(),
{
    if text.len() > 0 && is_blank(text.last()) {
        1 + trailing_blanks(text.drop_last())
    } else {
        0
    }
}

/// `text` without the blanks at its start and at its end.
pub open spec fn trimmed(text: Seq<char>) -> Seq<char> {
    if leading_blanks(text) == text.len() {
        Seq::empty()
    } else {
        text.subrange(leading_blanks(text) as int, text.len() - trailing_blanks(text))
    }
}

/// Whether `line` begins with `p` and a blank.
pub open spec fn asks_to_peek(line: Seq<char>) -> bool {
    line.len() >= 2 && line[0] == 'p' && line[1] == ' '
}

/// The command that a line stands for.
///
/// After `p` and a blank follows an address, in base ten or, behind `0x`, in
/// base sixteen, with blanks around it as one likes. Every other command is
/// one word with blanks around it as one likes.
pub open spec fn command_of(line: Seq<char>) -> Command {
    if asks_to_peek(line) {
        match literal_value(trimmed(line.subrange(2, line.len() as int))) {
            Some(address) => if address <= 0xFFFF {
                Command::Peek { address: address as u16 }
            } else {
                Command::Unknown
            },
            None => Command::Unknown,
        }
    } else {
        let word = trimmed(line);
        if word == "s"@ {
            Command::Step
        } else if word == "q"@ {
            Command::Quit
        } else if word == "r"@ {
            Command::Registers
        } else if word == "st"@ {
            Command::Stack
        } else if word == "d"@ {
            Command::Display
        } else if word == "i"@ {
            Command::Instruction
        } else if word == "c"@ {
            Command::Continue
        } else {
            Command::Unknown
        }
    }
}

/// Takes the blanks off both ends of a text.
pub fn trim(text: &str) -> (inner: &str)
    ensures
        inner@ == trimmed(text@),
{
    let n: usize = text.unicode_len();
    let mut start: usize = 0;
    assert(text@.subrange(0, n as int) =~= text@);
    while start < n && Keyboard::blank(text.get_char(start))
        invariant
            start <= n,
            n == text@.len(),
            leading_blanks(text@) == start + leading_blanks(text@.subrange(start as int, n as int)),
        decreases n - start,
    {
        proof {
            let rest = text@.subrange(start as int, n as int);
            assert(rest.drop_first() =~= text@.subrange(start + 1, n as int));
        }
        start = start + 1;
    }
    proof {
        if start < n {
            assert(text@.subrange(start as int, n as int)[0] == text@[start as int]);
        }
    }
    if start == n {
        let inner: &str = text.substring_char(0, 0);
        assert(inner@ =~= Seq::<char>::empty());
        return inner;
    }
    let mut end: usize = n;
    while end > start + 1 && Keyboard::blank(text.get_char(end - 1))
        invariant
            start < end <= n,
            n == text@.len(),
            !is_blank(text@[start as int]),
            trailing_blanks(text@) == (n - end) + trailing_blanks(text@.subrange(0, end as int)),
        decreases end,
    {
        proof {
            let rest = text@.subrange(0, end as int);
            assert(rest.drop_last() =~= text@.subrange(0, end - 1));
        }
        end = end - 1;
    }
    proof {
        let rest = text@.subrange(0, end as int);
        assert(rest.last() == text@[end - 1]);
        assert(trailing_blanks(rest) == 0);
    }
    text.substring_char(start, end)
}

/// Reads a line typed at the prompt.
pub fn parse_command(line: &str) -> (command: Command)
    ensures
        command == command_of(line@),
{
    let n: usize = line.unicode_len();
    if n >= 2 && line.get_char(0) == 'p' && line.get_char(1) == ' ' {
        let argument: &str = trim(line.substring_char(2, n));
        return match read_literal(argument) {
            Some(address) => {
                if address <= 0xFFFF {
                    Command::Peek { address: address as u16 }
                } else {
                    Command::Unknown
                }
            },
            None => Command::Unknown,
        };
    }
    let word: &str = trim(line);
    if same_text(word, "s") {
        Command::Step
    } else if same_text(word, "q") {
        Command::Quit
    } else if same_text(word, "r") {
        Command::Registers
    } else if same_text(word, "st") {
        Command::Stack
    } else if same_text(word, "d") {
        Command::Display
    } else if same_text(word, "i") {
        Command::Instruction
    } else if same_text(word, "c") {
        Command::Continue
    } else {
        Command::Unknown
    }
}

} // verus!
