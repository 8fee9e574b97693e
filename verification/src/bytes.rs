//! Memory images of integer slices, as they are handed to GPU buffers.
//!
//! A buffer upload takes the bytes of a slice exactly as they lie in memory,
//! so the image of a slice depends on the byte order of the machine. The
//! functions here pin the image down to the two orders that exist.

use vstd::prelude::*;
use vstd::slice::slice_to_vec;

verus! {

/// The weight of byte `k` in a number, `256` to the power `k` for `k < 4`.
pub open spec fn place(k: int) -> int {
    if k <= 0 {
        1
    } else if k == 1 {
        0x100
    } else if k == 2 {
        0x1_0000
    } else {
        0x100_0000
    }
}

/// Byte `k` of `value`, counted from the least significant byte.
pub open spec fn byte_at(value: int, k: int) -> u8 {
    ((value / place(k)) % 256) as u8
}

/// The bytes of `words`, each word with its least significant byte first.
pub open spec fn u32_le_image(words: Seq<u32>) -> Seq<u8> {
    Seq::new(4 * words.len(), |i: int| byte_at(words[i / 4] as int, i % 4))
}

/// The bytes of `words`, each word with its most significant byte first.
pub open spec fn u32_be_image(words: Seq<u32>) -> Seq<u8> {
    Seq::new(4 * words.len(), |i: int| byte_at(words[i / 4] as int, 3 - i % 4))
}

/// `bytes` is what `words` look like in memory, in one of the two byte orders.
pub open spec fn is_u32_image(bytes: Seq<u8>, words: Seq<u32>) -> bool {
    bytes == u32_le_image(words) || bytes == u32_be_image(words)
}

/// The bytes of `halves`, each value with its least significant byte first.
pub open spec fn u16_le_image(halves: Seq<u16>) -> Seq<u8> {
    Seq::new(2 * halves.len(), |i: int| byte_at(halves[i / 2] as int, i % 2))
}

/// The bytes of `halves`, each value with its most significant byte first.
pub open spec fn u16_be_image(halves: Seq<u16>) -> Seq<u8> {
    Seq::new(2 * halves.len(), |i: int| byte_at(halves[i / 2] as int, 1 - i % 2))
}

/// `bytes` is what `halves` look like in memory, in one of the two byte orders.
pub open spec fn is_u16_image(bytes: Seq<u8>, halves: Seq<u16>) -> bool {
    bytes == u16_le_image(halves) || bytes == u16_be_image(halves)
}

/// Trusted: `bytemuck::cast_slice` from `u32` to `u8`.
///
/// The cast reinterprets the memory of the slice, so it yields four bytes
/// for every word, in the order in which the machine stores a `u32`. A byte
/// has no alignment demand and four bytes make a whole word, so the cast
/// cannot fail. The contract leaves open which of the two byte orders the
/// machine has.
#[verifier::external_body]
fn cast_u32_slice(words: &[u32]) -> (bytes: &[u8])
    ensures
        is_u32_image(bytes@, words@),
{
    bytemuck::cast_slice(words)
}

/// Trusted: `bytemuck::cast_slice` from `u16` to `u8`.
///
/// The cast reinterprets the memory of the slice, so it yields two bytes for
/// every value, in the order in which the machine stores a `u16`. It cannot
/// fail, for the same reasons as with words. The contract leaves open which
/// of the two byte orders the machine has.
#[verifier::external_body]
fn cast_u16_slice(halves: &[u16]) -> (bytes: &[u8])
    ensures
        is_u16_image(bytes@, halves@),
{
    bytemuck::cast_slice(halves)
}

/// The memory image of `words`, ready to be written into a buffer.
pub fn u32_image(words: &Vec<u32>) -> (bytes: Vec<u8>)
    ensures
        is_u32_image(bytes@, words@),
        bytes@.len() == 4 * words@.len(),
{
    slice_to_vec(cast_u32_slice(words.as_slice()))
}

/// The memory image of `halves`, ready to be written into a buffer.
pub fn u16_image(halves: &Vec<u16>) -> (bytes: Vec<u8>)
    ensures
        is_u16_image(bytes@, halves@),
        bytes@.len() == 2 * halves@.len(),
{
    slice_to_vec(cast_u16_slice(halves.as_slice()))
}

/// A value below 256 has the same image in both byte orders, up to reversal:
/// one byte holds the value and the others are zero.
pub proof fn lemma_small_word_image(bytes: Seq<u8>, word: u32)
    requires
        is_u32_image(bytes, seq![word]),
        word < 256,
    ensures
        bytes == seq![word as u8, 0u8, 0u8, 0u8] || bytes == seq![0u8, 0u8, 0u8, word as u8],
{
    let words = seq![word];
    if bytes == u32_le_image(words) {
        assert(bytes =~= seq![word as u8, 0u8, 0u8, 0u8]);
    } else {
        assert(bytes =~= seq![0u8, 0u8, 0u8, word as u8]);
    }
}

} // verus!
