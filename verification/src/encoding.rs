//! How words become the bytes of a GPU buffer.
//!
//! A buffer is filled with the words exactly as they lie in memory, so the
//! order of the bytes within a word is that of the machine. The contracts
//! here name both possible orders and say that the bytes follow one of them
//! throughout.

use vstd::prelude::*;

verus! {

/// The four bytes of a word, least significant first.
pub open spec fn word_le_bytes(word: u32) -> Seq<u8> {
    seq![
        (word & 0xff) as u8,
        ((word >> 8) & 0xff) as u8,
        ((word >> 16) & 0xff) as u8,
        ((word >> 24) & 0xff) as u8,
    ]
}

/// The two bytes of a half word, least significant first.
pub open spec fn half_le_bytes(half: u16) -> Seq<u8> {
    seq![(half & 0xff) as u8, ((half >> 8) & 0xff) as u8]
}

/// The words laid out one after another, each least significant byte first.
pub open spec fn words_le_bytes(words: Seq<u32>) -> Seq<u8> {
    Seq::new(4 * words.len(), |i: int| word_le_bytes(words[i / 4])[i % 4])
}

/// The words laid out one after another, each most significant byte first.
pub open spec fn words_be_bytes(words: Seq<u32>) -> Seq<u8> {
    Seq::new(4 * words.len(), |i: int| word_le_bytes(words[i / 4])[3 - i % 4])
}

/// The half words laid out one after another, each least significant byte
/// first.
pub open spec fn halves_le_bytes(halves: Seq<u16>) -> Seq<u8> {
    Seq::new(2 * halves.len(), |i: int| half_le_bytes(halves[i / 2])[i % 2])
}

/// The half words laid out one after another, each most significant byte
/// first.
pub open spec fn halves_be_bytes(halves: Seq<u16>) -> Seq<u8> {
    Seq::new(2 * halves.len(), |i: int| half_le_bytes(halves[i / 2])[1 - i % 2])
}

/// `bytes` is the memory image of `words` on a little-endian or on a
/// big-endian machine.
pub open spec fn is_image_of_words(bytes: Seq<u8>, words: Seq<u32>) -> bool {
    bytes == words_le_bytes(words) || bytes == words_be_bytes(words)
}

/// `bytes` is the memory image of `halves` on a little-endian or on a
/// big-endian machine.
pub open spec fn is_image_of_halves(bytes: Seq<u8>, halves: Seq<u16>) -> bool {
    bytes == halves_le_bytes(halves) || bytes == halves_be_bytes(halves)
}

/// Calls `bytemuck::cast_slice` to read a slice of words as bytes, and
/// copies them out.
///
/// The cast reinterprets the memory of the slice without touching it. It
/// cannot fail towards bytes, which have no alignment and divide every
/// size. The contract claims that the result is the memory image of the
/// words: four bytes a word, in the machine's byte order.
#[verifier::external_body]
fn cast_words(words: &[u32]) -> (bytes: Vec<u8>)
    ensures
        is_image_of_words(bytes@, words@),
{
    bytemuck::cast_slice::<u32, u8>(words).to_vec()
}

/// Calls `bytemuck::cast_slice` to read a slice of half words as bytes, and
/// copies them out.
///
/// As for words: the contract claims that the result is the memory image of
/// the half words, two bytes each, in the machine's byte order.
#[verifier::external_body]
fn cast_halves(halves: &[u16]) -> (bytes: Vec<u8>)
    ensures
        is_image_of_halves(bytes@, halves@),
{
    bytemuck::cast_slice::<u16, u8>(halves).to_vec()
}

/// The bytes that a buffer holding `words` is filled with.
pub fn image_of_words(words: &Vec<u32>) -> (bytes: Vec<u8>)
    ensures
        is_image_of_words(bytes@, words@),
        bytes@.len() == 4 * words@.len(),
{
    cast_words(words.as_slice())
}

/// The bytes that a buffer holding `halves` is filled with.
pub fn image_of_halves(halves: &Vec<u16>) -> (bytes: Vec<u8>)
    ensures
        is_image_of_halves(bytes@, halves@),
        bytes@.len() == 2 * halves@.len(),
{
    cast_halves(halves.as_slice())
}

} // verus!
