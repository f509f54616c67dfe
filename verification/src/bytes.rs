//! Little-endian packing of 32-bit words into bytes.

use vstd::prelude::*;

verus! {

/// The word whose little-endian bytes are `b0, b1, b2, b3`.
pub open spec fn le_word(b0: u8, b1: u8, b2: u8, b3: u8) -> u32 {
    (b0 as u32) | ((b1 as u32) << 8u32) | ((b2 as u32) << 16u32) | ((b3 as u32) << 24u32)
}

/// Byte `j` (0 is the least significant) of `w`.
pub open spec fn le_byte(w: u32, j: int) -> u8 {
    ((w >> ((8 * j) as u32)) & 0xffu32) as u8
}

/// The word stored little-endian at bytes `4 * i .. 4 * i + 4` of `s`.
pub open spec fn le_word_at(s: Seq<u8>, i: int) -> u32 {
    le_word(s[4 * i], s[4 * i + 1], s[4 * i + 2], s[4 * i + 3])
}

/// The little-endian bytes of a sequence of words.
pub open spec fn le_bytes_of_words(w: Seq<u32>) -> Seq<u8> {
    Seq::new(4 * w.len(), |k: int| le_byte(w[k / 4], k % 4))
}

/// Packing the bytes of a word gives the word back.
pub proof fn lemma_le_word_of_bytes(w: u32)
    ensures
        le_word(le_byte(w, 0), le_byte(w, 1), le_byte(w, 2), le_byte(w, 3)) == w,
{
    assert(((w >> 0u32) & 0xffu32) as u8 as u32 | (((w >> 8u32) & 0xffu32) as u8 as u32) << 8u32
        | (((w >> 16u32) & 0xffu32) as u8 as u32) << 16u32 | (((w >> 24u32) & 0xffu32) as u8 as u32)
        << 24u32 == w) by (bit_vector);
}

/// Unpacking a packed word gives its bytes back.
pub proof fn lemma_le_bytes_of_word(b0: u8, b1: u8, b2: u8, b3: u8)
    ensures
        le_byte(le_word(b0, b1, b2, b3), 0) == b0,
        le_byte(le_word(b0, b1, b2, b3), 1) == b1,
        le_byte(le_word(b0, b1, b2, b3), 2) == b2,
        le_byte(le_word(b0, b1, b2, b3), 3) == b3,
{
    let w = le_word(b0, b1, b2, b3);
    assert(w == (b0 as u32) | ((b1 as u32) << 8u32) | ((b2 as u32) << 16u32) | ((b3 as u32)
        << 24u32));
    assert(((w >> 0u32) & 0xffu32) as u8 == b0 && ((w >> 8u32) & 0xffu32) as u8 == b1 && ((w
        >> 16u32) & 0xffu32) as u8 == b2 && ((w >> 24u32) & 0xffu32) as u8 == b3) by (bit_vector)
        requires
            w == (b0 as u32) | ((b1 as u32) << 8u32) | ((b2 as u32) << 16u32) | ((b3 as u32)
                << 24u32),
    ;
}

/// Packs four bytes into a word, least significant first.
pub fn word_from_le(b0: u8, b1: u8, b2: u8, b3: u8) -> (w: u32)
    ensures
        w == le_word(b0, b1, b2, b3),
{
    (b0 as u32) | ((b1 as u32) << 8u32) | ((b2 as u32) << 16u32) | ((b3 as u32) << 24u32)
}

/// Byte `j` of `w`, least significant first.
pub fn byte_of_word(w: u32, j: u32) -> (b: u8)
    requires
        j < 4,
    ensures
        b == le_byte(w, j as int),
{
    ((w >> (8 * j)) & 0xffu32) as u8
}

} // verus!
