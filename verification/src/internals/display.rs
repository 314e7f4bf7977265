//! The 64 by 32 monochrome framebuffer.

use vstd::prelude::*;
use crate::internals::text::push_char;

verus! {

/// The screen.
#[derive(Clone, Debug, PartialEq, Eq)]
pub struct Display {
    /// The pixels row by row, `true` where one is lit.
    pub screen: [bool; 2048],
}

/// The screen as text: one line of 128 characters for each row, in which every
/// pixel is `*` when lit and a blank when dark, followed by a blank, or by the
/// line feed after the last pixel of the row.
pub open spec fn screen_text(screen: Seq<bool>) -> Seq<char> {
    Seq::new(
        32 * 128,
        |k: int|
            if k % 2 == 0 {
                if screen[(k / 128) * 64 + (k % 128) / 2] {
                    '*'
                } else {
                    ' '
                }
            } else if k % 128 == 127 {
                '\n'
            } else {
                ' '
            },
    )
}

impl Display {
    /// A screen with every pixel dark.
    pub fn new() -> (display: Display)
        ensures
            display.screen@ == Seq::new(2048, |k: int| false),
    {
        Display { screen: [false; 2048] }
    }

    /// The picture as lines of text.
    pub fn to_text(&self) -> (text: String)
        ensures
            text@ == screen_text(self.screen@),
    {
        let mut text = String::new();
        let mut y: usize = 0;
        while y < 32
            invariant
                y <= 32,
                text@.len() == y * 128,
                forall|k: int| 0 <= k < text@.len() ==> text@[k] == screen_text(self.screen@)[k],
            decreases 32 - y,
        {
            let mut x: usize = 0;
            while x < 64
                invariant
                    y < 32,
                    x <= 64,
                    text@.len() == y * 128 + x * 2,
                    forall|k: int|
                        0 <= k < text@.len() ==> text@[k] == screen_text(self.screen@)[k],
                decreases 64 - x,
            {
                if self.screen[64 * y + x] {
                    push_char(&mut text, '*');
                } else {
                    push_char(&mut text, ' ');
                }
                if x != 63 {
                    push_char(&mut text, ' ');
                } else {
                    push_char(&mut text, '\n');
                }
                x = x + 1;
            }
            y = y + 1;
        }
        assert(text@ =~= screen_text(self.screen@));
        text
    }
}

impl Default for Display {
    /// A screen with every pixel dark.
    fn default() -> (display: Display)
        ensures
            display.screen@ == Seq::new(2048, |k: int| false),
    {
        Display::new()
    }
}

} // verus!
