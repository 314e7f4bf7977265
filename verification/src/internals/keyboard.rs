//! The sixteen keys, and how a line of typed text names one of them.

use vstd::prelude::*;
use vstd::string::*;

verus! {

/// The keyboard.
#[derive(Clone, Debug, PartialEq, Eq)]
pub struct Keyboard {
    /// Which of the keys `0` to `F` are held down.
    pub keys: [bool; 16],
    /// The key that was pressed last and that no instruction has taken yet.
    pub latch: Option<u8>,
}

/// The characters that count as blank around a key: those with the Unicode
/// property `White_Space`.
pub open spec fn is_blank(c: char) -> bool {
    let code = c as u32;
    ||| 0x09 <= code <= 0x0D
    ||| code == 0x20
    ||| code == 0x85
    ||| code == 0xA0
    ||| code == 0x1680
    ||| 0x2000 <= code <= 0x200A
    ||| code == 0x2028
    ||| code == 0x2029
    ||| code == 0x202F
    ||| code == 0x205F
    ||| code == 0x3000
}

/// The key that a character names: a hexadecimal digit in either case.
pub open spec fn key_of_char(c: char) -> Option<u8> {
    let code = c as u32;
    if 0x30 <= code <= 0x39 {
        Some((code - 0x30) as u8)
    } else if 0x41 <= code <= 0x46 {
        Some((code - 0x41 + 10) as u8)
    } else if 0x61 <= code <= 0x66 {
        Some((code - 0x61 + 10) as u8)
    } else {
        None
    }
}

/// Position `k` holds the only character of `line` that is not blank.
pub open spec fn sole_mark(line: Seq<char>, k: int) -> bool {
    &&& 0 <= k < line.len()
    &&& !is_blank(line[k])
    &&& forall|j: int| 0 <= j < line.len() && j != k ==> is_blank(#[trigger] line[j])
}

/// The key that a typed line names: the line holds one hexadecimal digit and
/// nothing else but blanks.
pub open spec fn key_of_line(line: Seq<char>) -> Option<u8> {
    if exists|k: int| sole_mark(line, k) {
        key_of_char(line[choose|k: int| sole_mark(line, k)])
    } else {
        None
    }
}

impl Default for Keyboard {
    /// A keyboard with no key down and none pressed.
    fn default() -> (keyboard: Keyboard)
        ensures
            keyboard.keys@ == Seq::new(16, |k: int| false),
            keyboard.latch is None,
    {
        Keyboard { keys: [false; 16], latch: None }
    }
}

impl Keyboard {
    /// Polls the keys. Nothing is attached that could be polled, so the
    /// keyboard stays as it is.
    pub fn do_read(&mut self)
        ensures
            *final(self) == *old(self),
    {
    }

    /// Records that `key` was pressed, for the next instruction that waits for
    /// a key. Only `0x0` to `0xF` are keys: anything else is refused and
    /// changes nothing.
    pub fn press(&mut self, key: u8) -> (accepted: bool)
        ensures
            accepted == (key <= 0xF),
            final(self).keys == old(self).keys,
            final(self).latch == (if key <= 0xF {
                Some(key)
            } else {
                old(self).latch
            }),
    {
        if key <= 0xF {
            self.latch = Some(key);
            true
        } else {
            false
        }
    }

    /// Whether `c` is blank.
    pub fn blank(c: char) -> (b: bool)
        ensures
            b == is_blank(c),
    {
        let code: u32 = c as u32;
        (0x09 <= code && code <= 0x0D) || code == 0x20 || code == 0x85 || code == 0xA0 || code
            == 0x1680 || (0x2000 <= code && code <= 0x200A) || code == 0x2028 || code == 0x2029
            || code == 0x202F || code == 0x205F || code == 0x3000
    }

    /// The key that the character `c` names, if it names one.
    pub fn key_from_char(c: char) -> (key: Option<u8>)
        ensures
            key == key_of_char(c),
            key matches Some(k) ==> k <= 0xF,
    {
        let code: u32 = c as u32;
        if 0x30 <= code && code <= 0x39 {
            Some((code - 0x30) as u8)
        } else if 0x41 <= code && code <= 0x46 {
            Some((code - 0x41 + 10) as u8)
        } else if 0x61 <= code && code <= 0x66 {
            Some((code - 0x61 + 10) as u8)
        } else {
            None
        }
    }

    /// The key that one line of typed text names, or `None` when the line has
    /// to be typed again.
    pub fn key_from_line(line: &str) -> (key: Option<u8>)
        ensures
            key == key_of_line(line@),
            key matches Some(k) ==> k <= 0xF,
    {
        let n: usize = line.unicode_len();
        let mut first: usize = 0;
        while first < n && Keyboard::blank(line.get_char(first))
            invariant
                first <= n,
                n == line@.len(),
                forall|j: int| 0 <= j < first ==> is_blank(#[trigger] line@[j]),
            decreases n - first,
        {
            first = first + 1;
        }
        if first == n {
            assert(forall|k: int| !sole_mark(line@, k));
            return None;
        }
        let mark: char = line.get_char(first);
        let mut rest: usize = first + 1;
        while rest < n && Keyboard::blank(line.get_char(rest))
            invariant
                first < rest <= n,
                n == line@.len(),
                forall|j: int| first < j < rest ==> is_blank(#[trigger] line@[j]),
            decreases n - rest,
        {
            rest = rest + 1;
        }
        if rest < n {
            assert forall|k: int| !sole_mark(line@, k) by {
                if sole_mark(line@, k) {
                    if k == first as int {
                        assert(is_blank(line@[rest as int]));
                    } else {
                        assert(is_blank(line@[first as int]));
                    }
                }
            }
            return None;
        }
        proof {
            assert(sole_mark(line@, first as int));
            let chosen = choose|k: int| sole_mark(line@, k);
            if chosen != first as int {
                assert(is_blank(line@[first as int]));
            }
        }
        Keyboard::key_from_char(mark)
    }
}

} // verus!
