//! Byte and word helpers shared across the crate.
//!
//! The SM83 is little-endian: a word is laid out in memory as its low byte at
//! address `a` and its high byte at `a + 1`.
use vstd::prelude::*;

verus! {

/// The word whose high byte is `high` and whose low byte is `low`.
pub open spec fn word(high: u8, low: u8) -> u16 {
    (high * 256 + low) as u16
}

/// The high byte of a word.
pub open spec fn high_byte(value: u16) -> u8 {
    (value / 256) as u8
}

/// The low byte of a word.
pub open spec fn low_byte(value: u16) -> u8 {
    (value % 256) as u8
}

/// Splitting a word and joining its bytes gives the word back.
pub proof fn lemma_word_split(value: u16)
    ensures
        word(high_byte(value), low_byte(value)) == value,
{
}

/// Splits a 16-bit word into its `(high, low)` bytes.
pub fn word_to_bytes(value: u16) -> (r: (u8, u8))
    ensures
        r.0 == high_byte(value),
        r.1 == low_byte(value),
{
    let high: u8 = (value >> 8) as u8;
    let low: u8 = (value & 0x00FF) as u8;
    assert(high == high_byte(value) && low == low_byte(value)) by (bit_vector)
        requires
            high == (value >> 8) as u8,
            low == (value & 0x00FF) as u8,
    ;
    (high, low)
}

/// Joins a high and a low byte into a 16-bit word.
pub fn bytes_to_word(high_byte: u8, low_byte: u8) -> (r: u16)
    ensures
        r == word(high_byte, low_byte),
{
    let high: u16 = (high_byte as u16) << 8;
    assert(high == high_byte as u16 * 256) by (bit_vector)
        requires
            high == (high_byte as u16) << 8,
    ;
    high + low_byte as u16
}

} // verus!
