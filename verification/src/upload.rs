//! Turning 32-bit words into the bytes that a buffer upload takes.

use vstd::prelude::*;

verus! {

/// The weight of byte `k` of a word, counted from the low end.
pub open spec fn place(k: int) -> int {
    if k == 0 {
        1
    } else if k == 1 {
        0x100
    } else if k == 2 {
        0x1_0000
    } else {
        0x100_0000
    }
}

/// Byte `k` of a word, counted from the low end.
pub open spec fn word_byte(word: u32, k: int) -> u8 {
    ((word as int / place(k)) % 0x100) as u8
}

/// The words laid out one after the other, each with its low byte first.
pub open spec fn little_endian(words: Seq<u32>) -> Seq<u8> {
    Seq::new(4 * words.len(), |i: int| word_byte(words[i / 4], i % 4))
}

/// The words laid out one after the other, each with its high byte first.
pub open spec fn big_endian(words: Seq<u32>) -> Seq<u8> {
    Seq::new(4 * words.len(), |i: int| word_byte(words[i / 4], 3 - i % 4))
}

/// `bytes` is the memory image of `words` on a machine of either byte order.
pub open spec fn native_bytes(bytes: Seq<u8>, words: Seq<u32>) -> bool {
    bytes == little_endian(words) || bytes == big_endian(words)
}

/// The memory image of a list of words.
///
/// Calls `bytemuck::cast_slice` from `u32` to `u8` and copies what it
/// returns. The cast reinterprets the words' memory: four bytes per word, in
/// the order of the words, each word in the byte order of the machine. A cast
/// to single bytes has no alignment or length condition to fail on.
#[verifier::external_body]
pub(crate) fn cast_words(words: &Vec<u32>) -> (bytes: Vec<u8>)
    ensures
        native_bytes(bytes@, words@),
{
    bytemuck::cast_slice::<u32, u8>(words.as_slice()).to_vec()
}

} // verus!
