//! Drawing sprites.
//!
//! A sprite is a run of bytes in memory, one byte for each row of eight
//! pixels, the most significant bit leftmost. Drawing flips every screen pixel
//! that a lit sprite pixel lands on. Sprites that reach past the right or the
//! lower edge of the screen continue at the opposite edge.

use vstd::prelude::*;
use vstd::string::*;
use crate::internals::fault::{EncodeError, Fault, Step};
use crate::internals::machine::{first_outside, Machine, Outcome};
use crate::internals::opcode::{
    push_register, register_pair_form, register_text, encode_register_pair, Opcode, DRW,
};
use crate::internals::processor::Processor;
use crate::internals::text::{hex_text, push_hex};

verus! {

/// Whether the sprite row `byte` lights its column `x`, counted from the left.
pub open spec fn sprite_bit(byte: u8, x: u8) -> bool {
    byte & (0x80u8 >> x) != 0
}

/// The pixels of the sprite of `rows` rows that `ram` holds from `start` on,
/// row by row, eight to a row.
pub open spec fn sprite_pixels(ram: Seq<u8>, start: int, rows: int) -> Seq<bool> {
    Seq::new((rows * 8) as nat, |k: int| sprite_bit(ram[start + k / 8], (k % 8) as u8))
}

/// Where on the screen pixel `column` of row `row` of a sprite lands when the
/// sprite is drawn at column `x`, row `y`.
pub open spec fn landing(x: int, y: int, row: int, column: int) -> int {
    ((y + row) % 32) * 64 + (x + column) % 64
}

/// Whether a sprite drawn at column `x`, row `y` has a lit pixel on screen
/// position `p`.
pub open spec fn sprite_covers(sprite: Seq<bool>, x: int, y: int, p: int) -> bool {
    let column = (p % 64 - x) % 64;
    let row = (p / 64 - y) % 32;
    column < 8 && row * 8 + column < sprite.len() && sprite[row * 8 + column]
}

/// The screen after a sprite was drawn on it: the covered pixels are flipped.
pub open spec fn drawn(screen: Seq<bool>, sprite: Seq<bool>, x: int, y: int) -> Seq<bool> {
    Seq::new(2048, |p: int| screen[p] != sprite_covers(sprite, x, y, p))
}

/// Whether drawing the sprite turns off a pixel that was lit.
pub open spec fn collides(screen: Seq<bool>, sprite: Seq<bool>, x: int, y: int) -> bool {
    exists|p: int| 0 <= p < 2048 && screen[p] && #[trigger] sprite_covers(sprite, x, y, p)
}

/// A screen position is where a sprite pixel lands exactly if, seen from the
/// sprite's corner, it has that pixel's row and column.
proof fn lemma_landing(x: int, y: int, row: int, column: int, p: int)
    requires
        0 <= x < 256,
        0 <= y < 256,
        0 <= row < 32,
        0 <= column < 8,
        0 <= p < 2048,
    ensures
        p == landing(x, y, row, column) <==> ((p % 64 - x) % 64 == column && (p / 64 - y) % 32
            == row),
        0 <= landing(x, y, row, column) < 2048,
{
}

impl DRW {
    /// Reads the sprite at `I` and unpacks it into pixels, row by row.
    pub fn ld_sprite(&self, processor: &Processor) -> (sprite: Result<Vec<bool>, Fault>)
        ensures
            processor.memory.registers.i + self.size <= 4096 ==> sprite is Ok && sprite->Ok_0@
                == sprite_pixels(
                processor@.ram,
                processor.memory.registers.i as int,
                self.size as int,
            ),
            processor.memory.registers.i + self.size > 4096 ==> sprite == Err::<Vec<bool>, Fault>(
                Fault::OutOfBoundsAccess {
                    address: first_outside(processor.memory.registers.i as int) as u16,
                },
            ),
    {
        let start: u16 = processor.memory.registers.i;
        if start > 4096 {
            return Err(Fault::OutOfBoundsAccess { address: start });
        }
        if self.size as u16 > 4096 - start {
            return Err(Fault::OutOfBoundsAccess { address: 4096 });
        }
        let at: usize = start as usize;
        let rows: usize = self.size as usize;
        let mut pixels: Vec<bool> = Vec::new();
        let mut row: usize = 0;
        while row < rows
            invariant
                row <= rows,
                rows == self.size,
                at == processor.memory.registers.i,
                at + rows <= 4096,
                pixels@.len() == row * 8,
                forall|k: int|
                    0 <= k < pixels@.len() ==> pixels@[k] == sprite_bit(
                        processor.memory.ram[at + k / 8],
                        (k % 8) as u8,
                    ),
            decreases rows - row,
        {
            let byte: u8 = processor.memory.ram[at + row];
            let mut x: u8 = 0;
            while x < 8
                invariant
                    x <= 8,
                    row < rows,
                    at + rows <= 4096,
                    byte == processor.memory.ram[at + row],
                    pixels@.len() == row * 8 + x,
                    forall|k: int|
                        0 <= k < pixels@.len() ==> pixels@[k] == sprite_bit(
                            processor.memory.ram[at + k / 8],
                            (k % 8) as u8,
                        ),
                decreases 8 - x,
            {
                pixels.push((byte & (0x80u8 >> x)) != 0);
                x = x + 1;
            }
            row = row + 1;
        }
        assert(pixels@ =~= sprite_pixels(processor@.ram, at as int, rows as int));
        Ok(pixels)
    }
}

impl Opcode for DRW {
    open spec fn well_formed(&self) -> bool {
        self.reg_x <= 0xF && self.reg_y <= 0xF && self.size <= 0xF
    }

    open spec fn effect(&self, before: Machine, entropy: u8) -> Outcome {
        if !self.well_formed() {
            before.faulted(Fault::OperandRange)
        } else if before.i + self.size > 4096 {
            before.faulted(
                Fault::OutOfBoundsAccess { address: first_outside(before.i as int) as u16 },
            )
        } else {
            let sprite = sprite_pixels(before.ram, before.i as int, self.size as int);
            let x = before.v[self.reg_x as int] as int;
            let y = before.v[self.reg_y as int] as int;
            Machine { screen: drawn(before.screen, sprite, x, y), ..before }.with_flag(
                collides(before.screen, sprite, x, y),
            ).completed()
        }
    }

    open spec fn alters_pc(&self) -> bool {
        false
    }

    open spec fn encoding(&self) -> Result<(u8, u8), EncodeError> {
        register_pair_form(0xD, self.reg_x, self.reg_y, self.size as int)
    }

    open spec fn mnemonic(&self) -> Seq<char> {
        "DRW "@ + register_text(self.reg_x) + ", "@ + register_text(self.reg_y) + ", "@ + hex_text(
            self.size as nat,
            true,
        )
    }

    fn execute(&self, processor: &mut Processor, entropy: u8) -> (result: Result<Step, Fault>) {
        if self.reg_x > 0xF || self.reg_y > 0xF || self.size > 0xF {
            return Err(Fault::OperandRange);
        }
        let x: usize = processor.memory.registers.v[self.reg_x as usize] as usize;
        let y: usize = processor.memory.registers.v[self.reg_y as usize] as usize;
        let sprite: Vec<bool> = match self.ld_sprite(processor) {
            Ok(pixels) => pixels,
            Err(fault) => {
                return Err(fault);
            },
        };
        let rows: usize = self.size as usize;
        let ghost before = processor@;
        let mut collision: bool = false;
        let mut row: usize = 0;
        while row < rows
            invariant
                row <= rows,
                rows <= 15,
                x < 256,
                y < 256,
                sprite@.len() == rows * 8,
                before == old(processor)@,
                processor.memory == old(processor).memory,
                processor.keyboard == old(processor).keyboard,
                forall|p: int|
                    0 <= p < 2048 ==> processor.display.screen[p] == (before.screen[p]
                        != sprite_covers(sprite@.subrange(0, row * 8), x as int, y as int, p)),
                collision == collides(
                    before.screen,
                    sprite@.subrange(0, row * 8),
                    x as int,
                    y as int,
                ),
            decreases rows - row,
        {
            let mut column: usize = 0;
            while column < 8
                invariant
                    row < rows,
                    rows <= 15,
                    column <= 8,
                    x < 256,
                    y < 256,
                    sprite@.len() == rows * 8,
                    before == old(processor)@,
                    processor.memory == old(processor).memory,
                    processor.keyboard == old(processor).keyboard,
                    forall|p: int|
                        0 <= p < 2048 ==> processor.display.screen[p] == (before.screen[p]
                            != sprite_covers(
                            sprite@.subrange(0, row * 8 + column),
                            x as int,
                            y as int,
                            p,
                        )),
                    collision == collides(
                        before.screen,
                        sprite@.subrange(0, row * 8 + column),
                        x as int,
                        y as int,
                    ),
                decreases 8 - column,
            {
                let k: usize = row * 8 + column;
                let place: usize = ((y + row) % 32) * 64 + (x + column) % 64;
                let ghost done = sprite@.subrange(0, k as int);
                let ghost next = sprite@.subrange(0, k + 1);
                proof {
                    assert forall|p: int| 0 <= p < 2048 implies sprite_covers(
                        next,
                        x as int,
                        y as int,
                        p,
                    ) == (sprite_covers(done, x as int, y as int, p) || (p == place
                        && sprite@[k as int])) by {
                        lemma_landing(x as int, y as int, row as int, column as int, p);
                    }
                    lemma_landing(x as int, y as int, row as int, column as int, place as int);
                    assert(!sprite_covers(done, x as int, y as int, place as int));
                }
                if sprite[k] {
                    if processor.display.screen[place] {
                        collision = true;
                    }
                    processor.display.screen[place] = !processor.display.screen[place];
                }
                proof {
                    if collision {
                        if collides(before.screen, done, x as int, y as int) {
                            let p = choose|p: int|
                                0 <= p < 2048 && before.screen[p] && #[trigger] sprite_covers(
                                    done,
                                    x as int,
                                    y as int,
                                    p,
                                );
                            assert(sprite_covers(next, x as int, y as int, p));
                        } else {
                            assert(before.screen[place as int] && sprite_covers(
                                next,
                                x as int,
                                y as int,
                                place as int,
                            ));
                        }
                    } else {
                        assert forall|p: int|
                            0 <= p < 2048 && before.screen[p] implies !sprite_covers(
                            next,
                            x as int,
                            y as int,
                            p,
                        ) by {
                            assert(!sprite_covers(done, x as int, y as int, p));
                        }
                    }
                }
                column = column + 1;
            }
            row = row + 1;
        }
        if collision {
            processor.memory.registers.v[0xF] = 1;
        } else {
            processor.memory.registers.v[0xF] = 0;
        }
        proof {
            assert(sprite@.subrange(0, rows * 8) =~= sprite@);
            assert(processor@ =~= self.effect(old(processor)@, entropy).0);
        }
        Ok(Step::Completed)
    }

    fn modified_pc(&self) -> (altered: bool) {
        false
    }

    fn assemble(&self) -> (bytes: Result<(u8, u8), EncodeError>) {
        encode_register_pair(0xD, self.reg_x, self.reg_y, self.size)
    }

    fn to_text(&self) -> (text: String) {
        let mut text = String::from_str("DRW ");
        push_register(&mut text, self.reg_x);
        text.append(", ");
        push_register(&mut text, self.reg_y);
        text.append(", ");
        push_hex(&mut text, self.size as u16, true);
        assert(text@ =~= self.mnemonic());
        text
    }
}

/// Whether the sprite has a lit pixel.
pub open spec fn has_lit_pixel(sprite: Seq<bool>) -> bool {
    exists|k: int| 0 <= k < sprite.len() && #[trigger] sprite[k]
}

/// Drawing a sprite upon itself erases it.
///
/// When a draw instruction that takes its position from registers other than
/// `VF` runs twice in a row, the second run restores the screen that the first
/// one found. On a screen that was dark before the first run, the first run
/// reports no collision, and the second reports one exactly if the sprite has
/// a lit pixel.
pub proof fn draw_twice_restores(draw: DRW, before: Machine, first_entropy: u8, second_entropy: u8)
    requires
        before.well_formed(),
        draw.well_formed(),
        draw.reg_x != 0xF,
        draw.reg_y != 0xF,
        before.i + draw.size <= 4096,
    ensures
        ({
            let (once, first) = draw.effect(before, first_entropy);
            let (twice, second) = draw.effect(once, second_entropy);
            let sprite = sprite_pixels(before.ram, before.i as int, draw.size as int);
            &&& first == Ok::<Step, Fault>(Step::Completed)
            &&& second == Ok::<Step, Fault>(Step::Completed)
            &&& twice.screen == before.screen
            &&& twice == Machine { v: twice.v, ..before }
            &&& before.screen == Seq::new(2048, |p: int| false) ==> {
                &&& once.screen == Seq::new(
                    2048,
                    |p: int|
                        sprite_covers(
                            sprite,
                            before.v[draw.reg_x as int] as int,
                            before.v[draw.reg_y as int] as int,
                            p,
                        ),
                )
                &&& once.v[0xF] == 0
                &&& twice.v[0xF] == (if has_lit_pixel(sprite) {
                    1u8
                } else {
                    0u8
                })
            }
        }),
{
    let (once, first) = draw.effect(before, first_entropy);
    let (twice, second) = draw.effect(once, second_entropy);
    let sprite = sprite_pixels(before.ram, before.i as int, draw.size as int);
    let x = before.v[draw.reg_x as int] as int;
    let y = before.v[draw.reg_y as int] as int;
    assert(once.v[draw.reg_x as int] == before.v[draw.reg_x as int]);
    assert(once.v[draw.reg_y as int] == before.v[draw.reg_y as int]);
    assert(twice.screen =~= before.screen);
    assert(twice =~= Machine { v: twice.v, ..before });
    if before.screen == Seq::new(2048, |p: int| false) {
        assert(!collides(before.screen, sprite, x, y));
        assert(once.screen =~= Seq::new(2048, |p: int| sprite_covers(sprite, x, y, p)));
        if has_lit_pixel(sprite) {
            let k = choose|k: int| 0 <= k < sprite.len() && #[trigger] sprite[k];
            let place = landing(x, y, k / 8, k % 8);
            lemma_landing(x, y, k / 8, k % 8, place);
            assert(sprite_covers(sprite, x, y, place));
            assert(once.screen[place]);
            assert(collides(once.screen, sprite, x, y));
        } else {
            assert forall|p: int| 0 <= p < 2048 implies !sprite_covers(sprite, x, y, p) by {
                if sprite_covers(sprite, x, y, p) {
                    let column = (p % 64 - x) % 64;
                    let row = (p / 64 - y) % 32;
                    assert(sprite[row * 8 + column]);
                }
            }
            assert(!collides(once.screen, sprite, x, y));
        }
    }
}

} // verus!
