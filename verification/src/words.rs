//! 32-bit words laid out as bytes: four bytes per word, least significant
//! first (little-endian) or most significant first (big-endian).

use vstd::prelude::*;

verus! {

/// The little-endian word made of four bytes.
pub open spec fn le_word(b0: u8, b1: u8, b2: u8, b3: u8) -> int {
    b0 + 256 * b1 + 65536 * b2 + 16777216 * b3
}

/// The word stored in bytes `4i .. 4i + 4`, read little-endian or big-endian.
pub open spec fn word_at(bytes: Seq<u8>, i: int, little: bool) -> int {
    if little {
        le_word(bytes[4 * i], bytes[4 * i + 1], bytes[4 * i + 2], bytes[4 * i + 3])
    } else {
        le_word(bytes[4 * i + 3], bytes[4 * i + 2], bytes[4 * i + 1], bytes[4 * i])
    }
}

/// The bytes hold the words in order, four bytes each, all in one byte order.
pub open spec fn encodes_words(bytes: Seq<u8>, words: Seq<int>, little: bool) -> bool {
    &&& bytes.len() == 4 * words.len()
    &&& forall|i: int| 0 <= i < words.len() ==> #[trigger] words[i] == word_at(bytes, i, little)
}

/// The values of 32-bit words as integers.
pub open spec fn word_values(words: Seq<u32>) -> Seq<int> {
    words.map_values(|w: u32| w as int)
}

/// The four bytes of a word, least significant first.
pub fn le_bytes(w: u32) -> (r: (u8, u8, u8, u8))
    ensures
        le_word(r.0, r.1, r.2, r.3) == w,
{
    let b0 = (w & 0xff) as u8;
    let b1 = ((w >> 8) & 0xff) as u8;
    let b2 = ((w >> 16) & 0xff) as u8;
    let b3 = ((w >> 24) & 0xff) as u8;
    assert(b0 as u32 == (w & 0xff)) by (bit_vector)
        requires b0 == (w & 0xff) as u8;
    assert(b1 as u32 == ((w >> 8) & 0xff)) by (bit_vector)
        requires b1 == ((w >> 8) & 0xff) as u8;
    assert(b2 as u32 == ((w >> 16) & 0xff)) by (bit_vector)
        requires b2 == ((w >> 16) & 0xff) as u8;
    assert(b3 as u32 == ((w >> 24) & 0xff)) by (bit_vector)
        requires b3 == ((w >> 24) & 0xff) as u8;
    assert((w & 0xff) + 256 * ((w >> 8) & 0xff) + 65536 * ((w >> 16) & 0xff) + 16777216 * ((w >> 24) & 0xff) == w)
        by (bit_vector);
    (b0, b1, b2, b3)
}

} // verus!
