//! The bytes of 32-bit words as they lie in memory, which is how the GPU is handed
//! vertex and index data.

use vstd::prelude::*;

verus! {

/// 256 to the power `k`, for `k` from 0 to 3.
pub open spec fn byte_weight(k: int) -> int {
    if k == 0 {
        1
    } else if k == 1 {
        0x100
    } else if k == 2 {
        0x1_0000
    } else {
        0x100_0000
    }
}

/// Byte `k` of `word`, byte 0 being the least significant.
pub open spec fn word_byte(word: u32, k: int) -> u8 {
    ((word as int / byte_weight(k)) % 0x100) as u8
}

/// The bytes of `words`, each word least significant byte first.
pub open spec fn le_bytes(words: Seq<u32>) -> Seq<u8> {
    Seq::new(4 * words.len(), |i: int| word_byte(words[i / 4], i % 4))
}

/// The bytes of `words`, each word most significant byte first.
pub open spec fn be_bytes(words: Seq<u32>) -> Seq<u8> {
    Seq::new(4 * words.len(), |i: int| word_byte(words[i / 4], 3 - i % 4))
}

/// Whether `bytes` are `words` in the byte order of some machine.
pub open spec fn is_memory_image(words: Seq<u32>, bytes: Seq<u8>) -> bool {
    bytes == le_bytes(words) || bytes == be_bytes(words)
}

/// `bytemuck::cast_slice` from `u32` to `u8`, copied into a vector. The cast reads the
/// words' memory as bytes: four bytes per word, in the byte order of the machine, which
/// is either least or most significant byte first. From `u32` to `u8` the cast cannot
/// fail: a byte needs no alignment and every length is a whole number of bytes.
#[verifier::external_body]
pub(crate) fn words_as_bytes(words: &Vec<u32>) -> (bytes: Vec<u8>)
    ensures
        is_memory_image(words@, bytes@),
{
    bytemuck::cast_slice::<u32, u8>(words.as_slice()).to_vec()
}

} // verus!
