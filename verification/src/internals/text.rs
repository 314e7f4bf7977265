//! Building the text that the machine shows: hexadecimal numbers and single
//! characters appended to a `String`.

use vstd::prelude::*;
use vstd::string::*;

verus! {

/// The sixteen digits with upper-case letters.
pub const UPPER_DIGITS: [char; 16] = [
    '0', '1', '2', '3', '4', '5', '6', '7', '8', '9', 'A', 'B', 'C', 'D', 'E', 'F',
];

/// The sixteen digits with lower-case letters.
pub const LOWER_DIGITS: [char; 16] = [
    '0', '1', '2', '3', '4', '5', '6', '7', '8', '9', 'a', 'b', 'c', 'd', 'e', 'f',
];

/// The character that stands for the digit `value`, which is below sixteen.
pub open spec fn digit_char(value: int, upper: bool) -> char {
    if upper {
        UPPER_DIGITS@[value]
    } else {
        LOWER_DIGITS@[value]
    }
}

/// `n` written in base sixteen with no leading zeros; zero is the single digit `0`.
pub open spec fn hex_text(n: nat, upper: bool) -> Seq<char>
    decreases n,
{
    if n < 16 {
        seq![digit_char(n as int, upper)]
    } else {
        hex_text(n / 16, upper).push(digit_char((n % 16) as int, upper))
    }
}

/// Appends one character: `String::push` of the standard library, which adds
/// the character at the end and leaves the rest as it was.
#[verifier::external_body]
pub(crate) fn push_char(text: &mut String, c: char)
    ensures
        final(text)@ == old(text)@.push(c),
{
    text.push(c);
}

/// Appends the digit `value`.
fn push_digit(text: &mut String, value: u16, upper: bool)
    requires
        value < 16,
    ensures
        final(text)@ == old(text)@.push(digit_char(value as int, upper)),
{
    let c: char = if upper {
        UPPER_DIGITS[value as usize]
    } else {
        LOWER_DIGITS[value as usize]
    };
    push_char(text, c);
}

/// Appends `n` in base sixteen, without prefix and without leading zeros.
pub fn push_hex(text: &mut String, n: u16, upper: bool)
    ensures
        final(text)@ == old(text)@ + hex_text(n as nat, upper),
{
    reveal_with_fuel(hex_text, 4);
    if n >= 0x1000 {
        push_digit(text, n / 0x1000, upper);
    }
    if n >= 0x100 {
        push_digit(text, (n / 0x100) % 16, upper);
    }
    if n >= 0x10 {
        push_digit(text, (n / 0x10) % 16, upper);
    }
    push_digit(text, n % 16, upper);
    assert(text@ =~= old(text)@ + hex_text(n as nat, upper));
}

/// Appends `n` in base sixteen with upper-case letters behind the prefix `0x`.
pub fn push_prefixed_hex(text: &mut String, n: u16)
    ensures
        final(text)@ == old(text)@ + "0x"@ + hex_text(n as nat, true),
{
    text.append("0x");
    push_hex(text, n, true);
    assert(text@ =~= old(text)@ + "0x"@ + hex_text(n as nat, true));
}

/// A label followed by a number in base sixteen behind `0x`.
pub open spec fn labelled(label: Seq<char>, value: nat) -> Seq<char> {
    label + "0x"@ + hex_text(value, true)
}

/// Appends a label and, behind it, `value` in base sixteen behind `0x`.
pub fn push_labelled(text: &mut String, label: &str, value: u16)
    ensures
        final(text)@ == old(text)@ + labelled(label@, value as nat),
{
    text.append(label);
    push_prefixed_hex(text, value);
    assert(text@ =~= old(text)@ + labelled(label@, value as nat));
}

} // verus!
