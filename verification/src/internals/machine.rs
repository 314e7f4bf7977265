//! The mathematical model of the machine, over which every instruction is specified.

use vstd::prelude::*;
use crate::internals::fault::{Fault, Step};

verus! {

/// The whole state of the machine as plain values and sequences.
#[verifier::ext_equal]
pub struct Machine {
    /// Program counter.
    pub pc: u16,
    /// Index of the top of the stack, `-1` while the stack is empty.
    pub sp: i8,
    /// Index register.
    pub i: u16,
    /// Delay timer.
    pub dt: u8,
    /// Sound timer.
    pub st: u8,
    /// The sixteen general purpose registers.
    pub v: Seq<u8>,
    /// The sixteen stack slots.
    pub stack: Seq<u16>,
    /// The 4096 bytes of memory.
    pub ram: Seq<u8>,
    /// The 2048 pixels, row by row.
    pub screen: Seq<bool>,
    /// The sixteen keys, `true` where one is held down.
    pub keys: Seq<bool>,
    /// The key that was pressed and not yet taken.
    pub latch: Option<u8>,
}

/// A machine together with what the instruction that produced it reports.
pub type Outcome = (Machine, Result<Step, Fault>);

/// The first address at or after `start` that lies outside memory.
pub open spec fn first_outside(start: int) -> int {
    if start >= 4096 {
        start
    } else {
        4096
    }
}

impl Machine {
    /// Every part has the size that the machine gives it.
    pub open spec fn well_formed(self) -> bool {
        &&& self.v.len() == 16
        &&& self.stack.len() == 16
        &&& self.ram.len() == 4096
        &&& self.screen.len() == 2048
        &&& self.keys.len() == 16
    }

    /// This machine with register `x` holding `value`.
    pub open spec fn with_v(self, x: int, value: int) -> Machine {
        Machine { v: self.v.update(x, value as u8), ..self }
    }

    /// This machine with the flag register `VF` holding 1 if `raised`, else 0.
    pub open spec fn with_flag(self, raised: bool) -> Machine {
        self.with_v(
            0xF,
            if raised {
                1
            } else {
                0
            },
        )
    }

    /// This machine with the program counter at `pc`.
    pub open spec fn with_pc(self, pc: int) -> Machine {
        Machine { pc: pc as u16, ..self }
    }

    /// This machine with the index register at `i`.
    pub open spec fn with_i(self, i: int) -> Machine {
        Machine { i: i as u16, ..self }
    }

    /// The instruction ran to its end and left the machine as `self`.
    pub open spec fn completed(self) -> Outcome {
        (self, Ok(Step::Completed))
    }

    /// The instruction stopped with `fault` and left the machine, `self`, untouched.
    pub open spec fn faulted(self, fault: Fault) -> Outcome {
        (self, Err(fault))
    }

    /// The instruction waits for a key and left the machine, `self`, untouched.
    pub open spec fn awaiting_key(self) -> Outcome {
        (self, Ok(Step::AwaitingKey))
    }

    /// What a conditional skip does: with the program counter beyond the last
    /// address that can hold an instruction it faults, otherwise the program
    /// counter moves on by two if `skip` holds.
    pub open spec fn skipping(self, skip: bool) -> Outcome {
        if self.pc > 4094 {
            self.faulted(Fault::OutOfBoundsAccess { address: self.pc })
        } else if skip {
            self.with_pc(self.pc + 2).completed()
        } else {
            self.completed()
        }
    }

    /// Whether the key with number `key` is held down. Numbers above `0xF`
    /// name no key and count as not held down.
    pub open spec fn key_down(self, key: u8) -> bool {
        key <= 0xF && self.keys[key as int]
    }
}

} // verus!
