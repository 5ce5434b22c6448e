//! Byte images of 32-bit words, as they are laid out in memory for upload.

use vstd::prelude::*;

verus! {

/// Byte `k` of `w`, counted from the least significant one.
pub open spec fn word_byte(w: u32, k: int) -> u8 {
    if k == 0 {
        (w % 256) as u8
    } else if k == 1 {
        ((w / 256) % 256) as u8
    } else if k == 2 {
        ((w / 65536) % 256) as u8
    } else {
        ((w / 16777216) % 256) as u8
    }
}

/// The words laid out one after another, least significant byte first.
pub open spec fn little_endian_image(words: Seq<u32>) -> Seq<u8> {
    Seq::new(4 * words.len(), |i: int| word_byte(words[i / 4], i % 4))
}

/// The words laid out one after another, most significant byte first.
pub open spec fn big_endian_image(words: Seq<u32>) -> Seq<u8> {
    Seq::new(4 * words.len(), |i: int| word_byte(words[i / 4], 3 - i % 4))
}

/// `bytes` is the in-memory image of `words` in one of the two byte orders a
/// machine can have.
pub open spec fn is_native_image(bytes: Seq<u8>, words: Seq<u32>) -> bool {
    bytes == little_endian_image(words) || bytes == big_endian_image(words)
}

/// Reinterprets the words as bytes with `bytemuck::cast_slice`, which from
/// words to bytes cannot fail, and copies them out. The contract claims that
/// the bytes are the words' memory image: four bytes a word, in the byte
/// order of the machine, which is one of two.
#[verifier::external_body]
pub(crate) fn words_to_bytes(words: &Vec<u32>) -> (bytes: Vec<u8>)
    ensures
        is_native_image(bytes@, words@),
{
    bytemuck::cast_slice::<u32, u8>(words.as_slice()).to_vec()
}

} // verus!
