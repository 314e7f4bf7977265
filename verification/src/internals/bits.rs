//! Nibble and byte arithmetic shared by the decoder and the encoder.
//!
//! The executable functions use shifts and masks; their contracts are stated
//! with division and remainder, which is what the rest of the crate reasons in.

use vstd::prelude::*;

verus! {

/// The upper four bits of a byte.
pub fn high_nibble(byte: u8) -> (nibble: u8)
    ensures
        nibble == byte / 16,
        nibble < 16,
{
    let nibble: u8 = (byte & 0xF0) >> 4;
    assert((byte & 0xF0) >> 4 == byte / 16) by (bit_vector);
    nibble
}

/// The lower four bits of a byte.
pub fn low_nibble(byte: u8) -> (nibble: u8)
    ensures
        nibble == byte % 16,
        nibble < 16,
{
    let nibble: u8 = byte & 0x0F;
    assert(byte & 0x0F == byte % 16) by (bit_vector);
    nibble
}

/// A byte from its two nibbles.
pub(crate) fn join_nibbles(high: u8, low: u8) -> (byte: u8)
    requires
        high < 16,
        low < 16,
    ensures
        byte == high * 16 + low,
{
    let byte: u8 = high << 4 | low;
    assert(high < 16 && low < 16 ==> (high << 4 | low) == high * 16 + low) by (bit_vector);
    byte
}

/// A sixteen-bit word from its two bytes, most significant first.
pub fn join_bytes(high: u8, low: u8) -> (word: u16)
    ensures
        word == high * 256 + low,
{
    let word: u16 = ((high as u16) << 8) | (low as u16);
    assert((((high as u16) << 8) | (low as u16)) == high * 256 + low) by (bit_vector);
    word
}

/// The upper byte of a sixteen-bit word.
pub fn high_byte(word: u16) -> (byte: u8)
    ensures
        byte == word / 256,
{
    let shifted: u16 = (word & 0xFF00) >> 8;
    assert((word & 0xFF00) >> 8 == word / 256) by (bit_vector);
    shifted as u8
}

/// The lower byte of a sixteen-bit word.
pub fn low_byte(word: u16) -> (byte: u8)
    ensures
        byte == word % 256,
{
    let masked: u16 = word & 0xFF;
    assert(word & 0xFF == word % 256) by (bit_vector);
    masked as u8
}

} // verus!
