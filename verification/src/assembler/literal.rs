//! Reading the operands of a statement: numbers and register names.

use vstd::prelude::*;
use vstd::string::*;

verus! {

/// Why a statement could not be assembled.
#[derive(Clone, Copy, Debug, PartialEq, Eq, Structural)]
pub enum AsmErrorKind {
    /// The statement, or one of its operands, has a shape that the assembler
    /// does not know.
    Syntax,
    /// A number is too large for its place: a byte above `0xFF`, an address
    /// above `0xFFF`.
    OperandRange,
    /// The label was defined before.
    DuplicateLabel,
}

/// Any number from here on counts as too large, whatever it is.
pub const LIMIT: u32 = 0x10000;

/// What the digit `c` is worth in base `radix`, which is ten or sixteen.
pub open spec fn digit_value(c: char, radix: nat) -> Option<nat> {
    let code = c as u32;
    if 0x30 <= code <= 0x39 {
        Some((code - 0x30) as nat)
    } else if radix == 16 && 0x41 <= code <= 0x46 {
        Some((code - 0x41 + 10) as nat)
    } else if radix == 16 && 0x61 <= code <= 0x66 {
        Some((code - 0x61 + 10) as nat)
    } else {
        None
    }
}

/// `digits` is a number in base `radix`: one digit at least, and digits only.
pub open spec fn is_number(digits: Seq<char>, radix: nat) -> bool {
    &&& digits.len() > 0
    &&& forall|k: int| 0 <= k < digits.len() ==> (#[trigger] digit_value(digits[k], radix)) is Some
}

/// The number that `digits` write in base `radix`.
pub open spec fn digits_value(digits: Seq<char>, radix: nat) -> nat
    decreases digits.len(),
{
    if digits.len() == 0 {
        0
    } else {
        digits_value(digits.drop_last(), radix) * radix + match digit_value(digits.last(), radix) {
            Some(worth) => worth,
            None => 0,
        }
    }
}

/// Whether `text` begins with `0x`.
pub open spec fn has_hex_prefix(text: Seq<char>) -> bool {
    text.len() >= 2 && text[0] == '0' && text[1] == 'x'
}

/// The number that a literal stands for: sixteen-based digits behind `0x`, or
/// ten-based digits. `None` where `text` is neither.
pub open spec fn literal_value(text: Seq<char>) -> Option<nat> {
    if has_hex_prefix(text) {
        let digits = text.subrange(2, text.len() as int);
        if is_number(digits, 16) {
            Some(digits_value(digits, 16))
        } else {
            None
        }
    } else if is_number(text, 10) {
        Some(digits_value(text, 10))
    } else {
        None
    }
}

/// The byte that `text` stands for.
pub open spec fn constant_of(text: Seq<char>) -> Result<u8, AsmErrorKind> {
    match literal_value(text) {
        None => Err(AsmErrorKind::Syntax),
        Some(value) => if value > 0xFF {
            Err(AsmErrorKind::OperandRange)
        } else {
            Ok(value as u8)
        },
    }
}

/// The address that `text` stands for. Addresses end at `0xFFF`.
pub open spec fn address_of(text: Seq<char>) -> Result<u16, AsmErrorKind> {
    match literal_value(text) {
        None => Err(AsmErrorKind::Syntax),
        Some(value) => if value > 0xFFF {
            Err(AsmErrorKind::OperandRange)
        } else {
            Ok(value as u16)
        },
    }
}

/// How many times `V` stands at the start of `text`.
pub open spec fn leading_vs(text: Seq<char>) -> nat
    decreases text.len(),
{
    if text.len() > 0 && text[0] == 'V' {
        1 + leading_vs(text.drop_first())
    } else {
        0
    }
}

/// The register that `text` names: sixteen-based digits behind any number of
/// `V`. A number above `0xF` names `VF`: register numbers are clamped, not
/// refused.
pub open spec fn register_of(text: Seq<char>) -> Result<u8, AsmErrorKind> {
    let digits = text.subrange(leading_vs(text) as int, text.len() as int);
    if is_number(digits, 16) {
        if digits_value(digits, 16) > 0xF {
            Ok(0xFu8)
        } else {
            Ok(digits_value(digits, 16) as u8)
        }
    } else {
        Err(AsmErrorKind::Syntax)
    }
}

/// Whether two texts are the same.
pub fn same_text(left: &str, right: &str) -> (same: bool)
    ensures
        same == (left@ == right@),
{
    let n: usize = left.unicode_len();
    if right.unicode_len() != n {
        return false;
    }
    let mut k: usize = 0;
    while k < n
        invariant
            k <= n,
            n == left@.len(),
            n == right@.len(),
            forall|j: int| 0 <= j < k ==> left@[j] == right@[j],
        decreases n - k,
    {
        if left.get_char(k) != right.get_char(k) {
            return false;
        }
        k = k + 1;
    }
    assert(left@ =~= right@);
    true
}

/// What the digit `c` is worth in base `radix`.
fn digit_of(c: char, radix: u32) -> (worth: Option<u32>)
    requires
        radix == 10 || radix == 16,
    ensures
        match worth {
            Some(d) => digit_value(c, radix as nat) == Some(d as nat) && d < radix,
            None => digit_value(c, radix as nat) is None,
        },
{
    let code: u32 = c as u32;
    if 0x30 <= code && code <= 0x39 {
        Some(code - 0x30)
    } else if radix == 16 && 0x41 <= code && code <= 0x46 {
        Some(code - 0x41 + 10)
    } else if radix == 16 && 0x61 <= code && code <= 0x66 {
        Some(code - 0x61 + 10)
    } else {
        None
    }
}

/// A number with one more digit is worth at least as much as without it.
proof fn lemma_digits_grow(digits: Seq<char>, radix: nat)
    requires
        radix == 10 || radix == 16,
        digits.len() > 0,
    ensures
        digits_value(digits, radix) >= digits_value(digits.drop_last(), radix),
{
    let shorter = digits_value(digits.drop_last(), radix);
    if radix == 10 {
        assert(shorter * 10 >= shorter);
    } else {
        assert(shorter * 16 >= shorter);
    }
}

/// Reads the number that `text` holds from position `from` to its end.
/// Numbers from `LIMIT` on are all reported as `LIMIT`.
fn read_number(text: &str, from: usize, radix: u32) -> (value: Option<u32>)
    requires
        from <= text@.len(),
        radix == 10 || radix == 16,
    ensures
        value is Some <==> is_number(text@.subrange(from as int, text@.len() as int), radix as nat),
        value matches Some(number) ==> number == (if digits_value(
            text@.subrange(from as int, text@.len() as int),
            radix as nat,
        ) >= LIMIT {
            LIMIT as nat
        } else {
            digits_value(text@.subrange(from as int, text@.len() as int), radix as nat)
        }),
{
    let n: usize = text.unicode_len();
    if from == n {
        return None;
    }
    let ghost whole = text@.subrange(from as int, n as int);
    let mut number: u32 = 0;
    let mut k: usize = from;
    while k < n
        invariant
            from <= k <= n,
            n == text@.len(),
            radix == 10 || radix == 16,
            whole == text@.subrange(from as int, n as int),
            number <= LIMIT,
            forall|j: int|
                0 <= j < k - from ==> (#[trigger] digit_value(whole[j], radix as nat)) is Some,
            number == (if digits_value(text@.subrange(from as int, k as int), radix as nat)
                >= LIMIT {
                LIMIT as nat
            } else {
                digits_value(text@.subrange(from as int, k as int), radix as nat)
            }),
        decreases n - k,
    {
        let c: char = text.get_char(k);
        let ghost read = text@.subrange(from as int, k as int);
        let ghost more = text@.subrange(from as int, k + 1);
        proof {
            assert(more.drop_last() =~= read);
            assert(more.last() == c);
            assert(whole[k - from] == c);
            lemma_digits_grow(more, radix as nat);
        }
        match digit_of(c, radix) {
            None => {
                assert(!is_number(whole, radix as nat));
                return None;
            },
            Some(worth) => {
                proof {
                    let shorter = digits_value(read, radix as nat);
                    if radix == 10 {
                        assert(digits_value(more, 10) == shorter * 10 + worth);
                    } else {
                        assert(digits_value(more, 16) == shorter * 16 + worth);
                    }
                }
                number = number * radix + worth;
                if number > LIMIT {
                    number = LIMIT;
                }
            },
        }
        k = k + 1;
    }
    proof {
        assert(text@.subrange(from as int, k as int) =~= whole);
        assert(is_number(whole, radix as nat));
    }
    Some(number)
}

/// Reads a literal: the number it stands for, with numbers from `LIMIT` on
/// all reported as `LIMIT`, or `None` where it is no number.
pub fn read_literal(text: &str) -> (value: Option<u32>)
    ensures
        value is Some <==> literal_value(text@) is Some,
        value matches Some(number) ==> number == (if literal_value(text@)->Some_0 >= LIMIT {
            LIMIT as nat
        } else {
            literal_value(text@)->Some_0
        }),
{
    let n: usize = text.unicode_len();
    if n >= 2 && text.get_char(0) == '0' && text.get_char(1) == 'x' {
        read_number(text, 2, 16)
    } else {
        assert(text@.subrange(0, n as int) =~= text@);
        read_number(text, 0, 10)
    }
}

/// Reads a byte operand.
pub fn parse_constant(text: &str) -> (byte: Result<u8, AsmErrorKind>)
    ensures
        byte == constant_of(text@),
{
    match read_literal(text) {
        None => Err(AsmErrorKind::Syntax),
        Some(number) => {
            if number > 0xFF {
                Err(AsmErrorKind::OperandRange)
            } else {
                Ok(number as u8)
            }
        },
    }
}

/// Reads an address operand.
pub fn parse_address(text: &str) -> (address: Result<u16, AsmErrorKind>)
    ensures
        address == address_of(text@),
{
    match read_literal(text) {
        None => Err(AsmErrorKind::Syntax),
        Some(number) => {
            if number > 0xFFF {
                Err(AsmErrorKind::OperandRange)
            } else {
                Ok(number as u16)
            }
        },
    }
}

/// Reads the name of a register.
pub fn parse_register(text: &str) -> (register: Result<u8, AsmErrorKind>)
    ensures
        register == register_of(text@),
        register matches Ok(number) ==> number <= 0xF,
{
    let n: usize = text.unicode_len();
    let mut k: usize = 0;
    assert(text@.subrange(0, n as int) =~= text@);
    while k < n && text.get_char(k) == 'V'
        invariant
            k <= n,
            n == text@.len(),
            leading_vs(text@) == k + leading_vs(text@.subrange(k as int, n as int)),
        decreases n - k,
    {
        proof {
            let rest = text@.subrange(k as int, n as int);
            assert(rest.drop_first() =~= text@.subrange(k + 1, n as int));
        }
        k = k + 1;
    }
    proof {
        if k < n {
            assert(text@.subrange(k as int, n as int)[0] == text@[k as int]);
        }
    }
    match read_number(text, k, 16) {
        None => Err(AsmErrorKind::Syntax),
        Some(number) => {
            if number > 0xF {
                Ok(0xF)
            } else {
                Ok(number as u8)
            }
        },
    }
}

} // verus!
