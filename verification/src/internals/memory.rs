//! Registers, the call stack and the 4096 bytes of memory.

use vstd::prelude::*;
use crate::internals::fault::Fault;
use crate::internals::machine::first_outside;
use crate::internals::text::{hex_text, labelled, push_hex, push_labelled};
use vstd::string::*;
use crate::internals::bits::join_bytes;

verus! {

/// Number of bytes of memory.
pub const RAM_SIZE: usize = 4096;

/// Distance in bytes from one glyph of the font table to the next.
pub const GLYPH_STRIDE: usize = 6;

/// Number of bytes in a glyph.
pub const GLYPH_ROWS: usize = 5;

/// The sixteen glyphs of the built-in font, five bytes each, `0` first.
pub const FONT: [u8; 80] = [
    0xF0, 0x90, 0x90, 0x90, 0xF0,
    0x20, 0x60, 0x20, 0x20, 0x70,
    0xF0, 0x10, 0xF0, 0x80, 0xF0,
    0xF0, 0x10, 0xF0, 0x10, 0xF0,
    0x90, 0x90, 0xF0, 0x10, 0x10,
    0xF0, 0x80, 0xF0, 0x10, 0xF0,
    0xF0, 0x80, 0xF0, 0x90, 0xF0,
    0xF0, 0x10, 0x20, 0x40, 0x40,
    0xF0, 0x90, 0xF0, 0x10, 0xF0,
    0xF0, 0x90, 0xF0, 0x10, 0xF0,
    0xF0, 0x90, 0xF0, 0x90, 0x90,
    0xE0, 0x90, 0xE0, 0x90, 0xF0,
    0xF0, 0x80, 0x80, 0x80, 0xF0,
    0xE0, 0x90, 0x90, 0x90, 0xE0,
    0xF0, 0x80, 0xF0, 0x80, 0xF0,
    0xF0, 0x80, 0xF0, 0x80, 0x80,
];

/// What memory holds at `address` before any program is loaded: the font
/// table, one glyph every six bytes from address 0, and zero elsewhere.
pub open spec fn initial_byte(address: int) -> u8 {
    if 0 <= address < 16 * 6 && address % 6 < 5 {
        FONT@[(address / 6) * 5 + address % 6]
    } else {
        0u8
    }
}

/// The registers of the processor.
#[derive(Clone, Debug, PartialEq, Eq)]
pub struct Registers {
    /// Program counter: the address of the current instruction.
    pub pc: u16,
    /// Index of the top of the stack, `-1` while the stack is empty.
    pub sp: i8,
    /// Index register, which holds memory addresses.
    pub i: u16,
    /// Delay timer.
    pub dt: u8,
    /// Sound timer.
    pub st: u8,
    /// General purpose registers `V0` to `VF`; `VF` doubles as a flag.
    pub v: [u8; 16],
}

/// Everything the processor remembers: its registers, its call stack and
/// the 4096 bytes of memory.
#[derive(Clone, Debug, PartialEq, Eq)]
pub struct Memory {
    pub registers: Registers,
    /// Return addresses; `registers.sp` is the index of the top one.
    pub stack: [u16; 16],
    /// Memory. The font table stands at its start, programs are loaded behind it.
    pub ram: [u8; 4096],
}

impl Default for Registers {
    /// All registers zero and the stack empty.
    fn default() -> (registers: Registers)
        ensures
            registers.pc == 0,
            registers.sp == -1,
            registers.i == 0,
            registers.dt == 0,
            registers.st == 0,
            registers.v@ == Seq::new(16, |k: int| 0u8),
    {
        Registers { pc: 0, sp: -1, i: 0, dt: 0, st: 0, v: [0u8; 16] }
    }
}

impl Default for Memory {
    /// Memory with the font table in place, everything else zero and an empty stack.
    fn default() -> (memory: Memory)
        ensures
            memory.registers.pc == 0,
            memory.registers.sp == -1,
            memory.registers.i == 0,
            memory.registers.dt == 0,
            memory.registers.st == 0,
            memory.registers.v@ == Seq::new(16, |k: int| 0u8),
            memory.stack@ == Seq::new(16, |k: int| 0u16),
            memory.ram@ == Seq::new(4096, |address: int| initial_byte(address)),
    {
        let mut mem = Memory {
            stack: [0u16; 16],
            registers: Registers::default(),
            ram: [0u8; 4096],
        };
        let mut glyph: usize = 0;
        while glyph < 16
            invariant
                glyph <= 16,
                mem.registers.pc == 0,
                mem.registers.sp == -1,
                mem.registers.i == 0,
                mem.registers.dt == 0,
                mem.registers.st == 0,
                mem.registers.v@ == Seq::new(16, |k: int| 0u8),
                mem.stack@ == Seq::new(16, |k: int| 0u16),
                forall|address: int|
                    0 <= address < 4096 ==> mem.ram[address] == (if address < glyph * 6 {
                        initial_byte(address)
                    } else {
                        0u8
                    }),
            decreases 16 - glyph,
        {
            let mut row: usize = 0;
            while row < 5
                invariant
                    glyph < 16,
                    row <= 5,
                    mem.registers.pc == 0,
                    mem.registers.sp == -1,
                    mem.registers.i == 0,
                    mem.registers.dt == 0,
                    mem.registers.st == 0,
                    mem.registers.v@ == Seq::new(16, |k: int| 0u8),
                    mem.stack@ == Seq::new(16, |k: int| 0u16),
                    forall|address: int|
                        0 <= address < 4096 ==> mem.ram[address] == (if address < glyph * 6 + row {
                            initial_byte(address)
                        } else {
                            0u8
                        }),
                decreases 5 - row,
            {
                mem.ram[glyph * GLYPH_STRIDE + row] = FONT[glyph * GLYPH_ROWS + row];
                row = row + 1;
            }
            glyph = glyph + 1;
        }
        mem
    }
}

impl Memory {
    /// Copies `image` into memory from address `loading_point` on.
    ///
    /// Nothing is written unless the whole image fits: a loading point outside
    /// memory is reported with its own address, an image that runs past the end
    /// with address 4096.
    pub fn load(&mut self, image: &[u8], loading_point: u16) -> (result: Result<(), Fault>)
        ensures
            final(self).registers == old(self).registers,
            final(self).stack == old(self).stack,
            loading_point < 4096 && image@.len() <= 4096 - loading_point ==> result is Ok
                && final(self).ram@ == Seq::new(
                4096,
                |address: int|
                    if loading_point <= address < loading_point + image@.len() {
                        image@[address - loading_point]
                    } else {
                        old(self).ram[address]
                    },
            ),
            loading_point >= 4096 ==> result == Err::<(), Fault>(
                Fault::OutOfBoundsAccess { address: loading_point },
            ) && final(self).ram == old(self).ram,
            loading_point < 4096 && image@.len() > 4096 - loading_point ==> result == Err::<
                (),
                Fault,
            >(Fault::OutOfBoundsAccess { address: 4096 }) && final(self).ram == old(self).ram,
    {
        if loading_point >= 4096 {
            return Err(Fault::OutOfBoundsAccess { address: loading_point });
        }
        let start: usize = loading_point as usize;
        if image.len() > RAM_SIZE - start {
            return Err(Fault::OutOfBoundsAccess { address: 4096 });
        }
        let mut k: usize = 0;
        while k < image.len()
            invariant
                k <= image@.len(),
                start == loading_point,
                start + image@.len() <= 4096,
                self.registers == old(self).registers,
                self.stack == old(self).stack,
                forall|address: int|
                    0 <= address < 4096 ==> self.ram[address] == (if start <= address < start + k {
                        image@[address - start]
                    } else {
                        old(self).ram[address]
                    }),
            decreases image@.len() - k,
        {
            self.ram[start + k] = image[k];
            k = k + 1;
        }
        Ok(())
    }

    /// The byte at `addr`, or the fault for an address outside memory.
    pub fn read_u8(&mut self, addr: u16) -> (result: Result<u8, Fault>)
        ensures
            *final(self) == *old(self),
            addr < 4096 ==> result == Ok::<u8, Fault>(old(self).ram[addr as int]),
            addr >= 4096 ==> result == Err::<u8, Fault>(Fault::OutOfBoundsAccess { address: addr }),
    {
        if addr >= 4096 {
            return Err(Fault::OutOfBoundsAccess { address: addr });
        }
        Ok(self.ram[addr as usize])
    }

    /// The bytes at `addr` and `addr + 1`; the fault names the first of the two
    /// addresses that lies outside memory.
    pub fn read_two_u8(&mut self, addr: u16) -> (result: Result<(u8, u8), Fault>)
        ensures
            *final(self) == *old(self),
            addr < 4095 ==> result == Ok::<(u8, u8), Fault>(
                (old(self).ram[addr as int], old(self).ram[addr + 1]),
            ),
            addr >= 4095 ==> result == Err::<(u8, u8), Fault>(
                Fault::OutOfBoundsAccess { address: first_outside(addr as int) as u16 },
            ),
    {
        if addr >= 4096 {
            return Err(Fault::OutOfBoundsAccess { address: addr });
        }
        if addr == 4095 {
            return Err(Fault::OutOfBoundsAccess { address: 4096 });
        }
        Ok((self.ram[addr as usize], self.ram[addr as usize + 1]))
    }

    /// The big-endian word whose bytes are at `addr` and `addr + 1`.
    pub fn read_u16(&mut self, addr: u16) -> (result: Result<u16, Fault>)
        ensures
            *final(self) == *old(self),
            addr < 4095 ==> result == Ok::<u16, Fault>(
                (old(self).ram[addr as int] * 256 + old(self).ram[addr + 1]) as u16,
            ),
            addr >= 4095 ==> result == Err::<u16, Fault>(
                Fault::OutOfBoundsAccess { address: first_outside(addr as int) as u16 },
            ),
    {
        match self.read_two_u8(addr) {
            Ok((x, y)) => Ok(join_bytes(x, y)),
            Err(fault) => Err(fault),
        }
    }

    /// Puts `val` on top of the stack.
    pub fn stack_push(&mut self, val: u16) -> (result: Result<(), Fault>)
        ensures
            final(self).ram == old(self).ram,
            -1 <= old(self).registers.sp < 15 ==> {
                &&& result is Ok
                &&& final(self).stack@ == old(self).stack@.update(old(self).registers.sp + 1, val)
                &&& final(self).registers == (Registers {
                    sp: (old(self).registers.sp + 1) as i8,
                    ..old(self).registers
                })
            },
            old(self).registers.sp >= 15 ==> result == Err::<(), Fault>(Fault::StackOverflow)
                && *final(self) == *old(self),
            old(self).registers.sp < -1 ==> result == Err::<(), Fault>(Fault::StackUnderflow)
                && *final(self) == *old(self),
    {
        if self.registers.sp >= 15 {
            return Err(Fault::StackOverflow);
        }
        if self.registers.sp < -1 {
            return Err(Fault::StackUnderflow);
        }
        self.registers.sp = self.registers.sp + 1;
        self.stack[self.registers.sp as usize] = val;
        Ok(())
    }

    /// Takes the top of the stack off and returns it.
    pub fn stack_pop(&mut self) -> (result: Result<u16, Fault>)
        ensures
            final(self).ram == old(self).ram,
            final(self).stack == old(self).stack,
            0 <= old(self).registers.sp <= 15 ==> result == Ok::<u16, Fault>(
                old(self).stack[old(self).registers.sp as int],
            ) && final(self).registers == (Registers {
                sp: (old(self).registers.sp - 1) as i8,
                ..old(self).registers
            }),
            old(self).registers.sp < 0 ==> result == Err::<u16, Fault>(Fault::StackUnderflow)
                && *final(self) == *old(self),
            old(self).registers.sp > 15 ==> result == Err::<u16, Fault>(Fault::StackOverflow)
                && *final(self) == *old(self),
    {
        match self.stack_peek() {
            Ok(top) => {
                self.registers.sp = self.registers.sp - 1;
                Ok(top)
            },
            Err(fault) => Err(fault),
        }
    }

    /// The top of the stack, which stays where it is.
    pub fn stack_peek(&mut self) -> (result: Result<u16, Fault>)
        ensures
            *final(self) == *old(self),
            0 <= old(self).registers.sp <= 15 ==> result == Ok::<u16, Fault>(
                old(self).stack[old(self).registers.sp as int],
            ),
            old(self).registers.sp < 0 ==> result == Err::<u16, Fault>(Fault::StackUnderflow),
            old(self).registers.sp > 15 ==> result == Err::<u16, Fault>(Fault::StackOverflow),
    {
        if self.registers.sp < 0 {
            return Err(Fault::StackUnderflow);
        }
        if self.registers.sp > 15 {
            return Err(Fault::StackOverflow);
        }
        Ok(self.stack[self.registers.sp as usize])
    }
}

/// The stack pointer as the byte that holds it: negative values count down
/// from 256.
pub open spec fn stack_pointer_byte(sp: i8) -> nat {
    if sp < 0 {
        (sp + 256) as nat
    } else {
        sp as nat
    }
}

/// The registers as six lines of text: the special registers, a heading, and
/// the general purpose registers four to a line, every value in base sixteen.
pub open spec fn registers_text(registers: Registers) -> Seq<char> {
    let v = registers.v@;
    labelled("Special Registers: pc="@, registers.pc as nat) + labelled(
        ", sp="@,
        stack_pointer_byte(registers.sp),
    ) + labelled(", i="@, registers.i as nat) + labelled(", dt="@, registers.dt as nat) + labelled(
        ", st="@,
        registers.st as nat,
    ) + "\nGeneral Purpose Registers\n"@ + labelled("V0 : "@, v[0] as nat) + labelled(
        ",  V1: "@,
        v[1] as nat,
    ) + labelled(",  V2 : "@, v[2] as nat) + labelled(",  V3: "@, v[3] as nat) + labelled(
        "\nV4 : "@,
        v[4] as nat,
    ) + labelled(",  V5: "@, v[5] as nat) + labelled(",  V6 : "@, v[6] as nat) + labelled(
        ",  V7: "@,
        v[7] as nat,
    ) + labelled("\nV8 : "@, v[8] as nat) + labelled(",  V9: "@, v[9] as nat) + labelled(
        ",  V10: "@,
        v[10] as nat,
    ) + labelled(", V11: "@, v[11] as nat) + labelled("\nV12: "@, v[12] as nat) + labelled(
        ", V13: "@,
        v[13] as nat,
    ) + labelled(",  V14: "@, v[14] as nat) + labelled(", V15: "@, v[15] as nat) + "\n"@
}

/// The first `count` stack slots in lower-case base sixteen with a comma and
/// a blank between them.
pub open spec fn stack_items_text(stack: Seq<u16>, count: nat) -> Seq<char>
    decreases count,
{
    if count == 0 {
        Seq::empty()
    } else if count == 1 {
        hex_text(stack[0] as nat, false)
    } else {
        stack_items_text(stack, (count - 1) as nat) + ", "@ + hex_text(
            stack[count - 1] as nat,
            false,
        )
    }
}

/// The sixteen stack slots between square brackets.
pub open spec fn stack_text(stack: Seq<u16>) -> Seq<char> {
    "["@ + stack_items_text(stack, 16) + "]"@
}

impl Registers {
    /// The registers as lines of text.
    pub fn to_text(&self) -> (text: String)
        ensures
            text@ == registers_text(*self),
    {
        let sp: u16 = if self.sp < 0 {
            (self.sp as i16 + 256) as u16
        } else {
            self.sp as u16
        };
        let mut text = String::new();
        push_labelled(&mut text, "Special Registers: pc=", self.pc);
        push_labelled(&mut text, ", sp=", sp);
        push_labelled(&mut text, ", i=", self.i);
        push_labelled(&mut text, ", dt=", self.dt as u16);
        push_labelled(&mut text, ", st=", self.st as u16);
        text.append("\nGeneral Purpose Registers\n");
        push_labelled(&mut text, "V0 : ", self.v[0] as u16);
        push_labelled(&mut text, ",  V1: ", self.v[1] as u16);
        push_labelled(&mut text, ",  V2 : ", self.v[2] as u16);
        push_labelled(&mut text, ",  V3: ", self.v[3] as u16);
        push_labelled(&mut text, "\nV4 : ", self.v[4] as u16);
        push_labelled(&mut text, ",  V5: ", self.v[5] as u16);
        push_labelled(&mut text, ",  V6 : ", self.v[6] as u16);
        push_labelled(&mut text, ",  V7: ", self.v[7] as u16);
        push_labelled(&mut text, "\nV8 : ", self.v[8] as u16);
        push_labelled(&mut text, ",  V9: ", self.v[9] as u16);
        push_labelled(&mut text, ",  V10: ", self.v[10] as u16);
        push_labelled(&mut text, ", V11: ", self.v[11] as u16);
        push_labelled(&mut text, "\nV12: ", self.v[12] as u16);
        push_labelled(&mut text, ", V13: ", self.v[13] as u16);
        push_labelled(&mut text, ",  V14: ", self.v[14] as u16);
        push_labelled(&mut text, ", V15: ", self.v[15] as u16);
        text.append("\n");
        assert(text@ =~= registers_text(*self));
        text
    }
}

impl Memory {
    /// The stack as one line of text.
    pub fn stack_to_text(&self) -> (text: String)
        ensures
            text@ == stack_text(self.stack@),
    {
        let mut text = String::from_str("[");
        let mut k: usize = 0;
        while k < 16
            invariant
                k <= 16,
                text@ == "["@ + stack_items_text(self.stack@, k as nat),
            decreases 16 - k,
        {
            if k > 0 {
                text.append(", ");
            }
            push_hex(&mut text, self.stack[k], false);
            assert(text@ =~= "["@ + stack_items_text(self.stack@, (k + 1) as nat));
            k = k + 1;
        }
        text.append("]");
        text
    }
}

} // verus!
