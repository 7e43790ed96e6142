use vstd::prelude::*;

verus! {

/// The 16-bit word whose high byte is `high` and whose low byte is `low`.
pub open spec fn word_of(high: u8, low: u8) -> u16 {
    (high as int * 256 + low as int) as u16
}

/// Joins a high and a low byte into one word: `(high << 8) | low`.
pub fn bytes_to_word(high_byte: u8, low_byte: u8) -> (word: u16)
    ensures
        word == word_of(high_byte, low_byte),
        word as int == high_byte as int * 256 + low_byte as int,
{
    let word: u16 = ((high_byte as u16) << 8) | low_byte as u16;
    assert(((high_byte as u16) << 8) | (low_byte as u16) == high_byte as int * 256 + low_byte as int)
        by (bit_vector);
    word
}

/// Splits a word into its high byte and its low byte, in that order.
pub fn word_to_bytes(word: u16) -> (bytes: (u8, u8))
    ensures
        bytes.0 as int == word as int / 256,
        bytes.1 as int == word as int % 256,
{
    let low_byte: u8 = word as u8;
    let high_byte: u8 = (word >> 8) as u8;
    assert(word as u8 == word % 256) by (bit_vector);
    assert((word >> 8) as u8 == word / 256) by (bit_vector);
    (high_byte, low_byte)
}

/// Splitting a word into bytes and joining them again gives the word back.
pub proof fn lemma_split_then_join(word: u16)
    ensures
        word_of((word as int / 256) as u8, (word as int % 256) as u8) == word,
{
}

/// Joining two bytes into a word and splitting it again gives the bytes back.
pub proof fn lemma_join_then_split(high: u8, low: u8)
    ensures
        word_of(high, low) as int / 256 == high as int,
        word_of(high, low) as int % 256 == low as int,
{
}

} // verus!
