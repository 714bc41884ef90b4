//! Byte-order helpers for 32-bit words.
use vstd::prelude::*;

verus! {

/// The word with its two 16-bit halves exchanged.
pub open spec fn spec_swap_half_words(value: u32) -> u32 {
    ((value & 0x0000FFFF) << 16) | ((value & 0xFFFF0000) >> 16)
}

/// The word with its four bytes in reverse order.
pub open spec fn spec_swap_bytes(value: u32) -> u32 {
    ((value & 0x000000FF) << 24)
        | ((value & 0x0000FF00) << 8)
        | ((value & 0x00FF0000) >> 8)
        | ((value & 0xFF000000) >> 24)
}

/// Byte `i` (0 = least significant) of a word.
pub open spec fn byte_of(value: u32, i: u32) -> u32 {
    (value >> (8 * i)) & 0xFF
}

/// Exchanges the two 16-bit half words of `value`.
pub fn swap_half_word_byte_sequence_u32(value: u32) -> (r: u32)
    ensures
        r == spec_swap_half_words(value),
        r & 0xFFFF == value >> 16,
        r >> 16 == value & 0xFFFF,
{
    let r = ((value & 0x0000FFFF) << 16) | ((value & 0xFFFF0000) >> 16);
    assert(r & 0xFFFF == value >> 16 && r >> 16 == value & 0xFFFF) by (bit_vector)
        requires r == ((value & 0x0000FFFF) << 16) | ((value & 0xFFFF0000) >> 16);
    r
}

/// Reverses the order of the four bytes of `value`.
pub fn swap_word_byte_sequence_u32(value: u32) -> (r: u32)
    ensures
        r == spec_swap_bytes(value),
        byte_of(r, 0) == byte_of(value, 3),
        byte_of(r, 1) == byte_of(value, 2),
        byte_of(r, 2) == byte_of(value, 1),
        byte_of(r, 3) == byte_of(value, 0),
{
    let r = ((value & 0x000000FF) << 24)
        | ((value & 0x0000FF00) << 8)
        | ((value & 0x00FF0000) >> 8)
        | ((value & 0xFF000000) >> 24);
    assert(
        (r >> 0) & 0xFF == (value >> 24) & 0xFF
        && (r >> 8) & 0xFF == (value >> 16) & 0xFF
        && (r >> 16) & 0xFF == (value >> 8) & 0xFF
        && (r >> 24) & 0xFF == (value >> 0) & 0xFF
    ) by (bit_vector)
        requires
            r == ((value & 0x000000FF) << 24) | ((value & 0x0000FF00) << 8)
                | ((value & 0x00FF0000) >> 8) | ((value & 0xFF000000) >> 24);
    r
}

/// Exchanging the half words twice gives the word back.
pub proof fn lemma_swap_half_words_involutive(value: u32)
    ensures
        spec_swap_half_words(spec_swap_half_words(value)) == value,
{
    assert(spec_swap_half_words(spec_swap_half_words(value)) == value) by (bit_vector);
}

/// Reversing the bytes twice gives the word back.
pub proof fn lemma_swap_bytes_involutive(value: u32)
    ensures
        spec_swap_bytes(spec_swap_bytes(value)) == value,
{
    assert(spec_swap_bytes(spec_swap_bytes(value)) == value) by (bit_vector);
}

/// Reversing all bytes is the same as exchanging the half words and then
/// swapping the two bytes inside each half word.
pub proof fn lemma_swap_bytes_is_half_swap_then_byte_swap(value: u32)
    ensures
        spec_swap_bytes(value) == ({
            let h = spec_swap_half_words(value);
            ((h & 0x00FF00FF) << 8) | ((h & 0xFF00FF00) >> 8)
        }),
{
    assert(spec_swap_bytes(value) == ({
        let h = spec_swap_half_words(value);
        ((h & 0x00FF00FF) << 8) | ((h & 0xFF00FF00) >> 8)
    })) by (bit_vector);
}

} // verus!
