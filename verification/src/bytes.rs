//! Byte images of 16-bit and 32-bit words, as a GPU buffer receives them.

use vstd::prelude::*;

verus! {

/// Byte `k` of `value`, counted from the least significant byte, for `k`
/// from 0 to 3.
pub open spec fn byte_of(value: int, k: int) -> u8 {
    if k == 0 {
        (value % 256) as u8
    } else if k == 1 {
        (value / 256 % 256) as u8
    } else if k == 2 {
        (value / 65536 % 256) as u8
    } else {
        (value / 16777216 % 256) as u8
    }
}

/// The bytes of `words` in order, four per word, the least significant byte
/// of each word first if `little_endian`, last if not.
pub open spec fn image_u32(words: Seq<u32>, little_endian: bool) -> Seq<u8> {
    Seq::new(
        4 * words.len(),
        |i: int|
            byte_of(
                words[i / 4] as int,
                if little_endian {
                    i % 4
                } else {
                    3 - i % 4
                },
            ),
    )
}

/// The bytes of `words` in order, two per word, the least significant byte
/// of each word first if `little_endian`, last if not.
pub open spec fn image_u16(words: Seq<u16>, little_endian: bool) -> Seq<u8> {
    Seq::new(
        2 * words.len(),
        |i: int|
            byte_of(
                words[i / 2] as int,
                if little_endian {
                    i % 2
                } else {
                    1 - i % 2
                },
            ),
    )
}

/// Whether `bytes` is the image of `words` in one of the two byte orders.
pub open spec fn is_image_u32(bytes: Seq<u8>, words: Seq<u32>) -> bool {
    bytes == image_u32(words, true) || bytes == image_u32(words, false)
}

/// Whether `bytes` is the image of `words` in one of the two byte orders.
pub open spec fn is_image_u16(bytes: Seq<u8>, words: Seq<u16>) -> bool {
    bytes == image_u16(words, true) || bytes == image_u16(words, false)
}

/// `bytemuck::cast_slice` from `u32` to `u8`: the same memory seen as bytes.
///
/// Trusted: the result holds the words in order, four bytes each, in the
/// byte order of the machine, which is one of the two. The cast to bytes
/// has no alignment or length condition that could fail.
#[verifier::external_body]
pub(crate) fn cast_u32_slice<'a>(words: &'a [u32]) -> (bytes: &'a [u8])
    ensures
        is_image_u32(bytes@, words@),
{
    bytemuck::cast_slice(words)
}

/// `bytemuck::cast_slice` from `u16` to `u8`: the same memory seen as bytes.
///
/// Trusted: the result holds the words in order, two bytes each, in the
/// byte order of the machine, which is one of the two. The cast to bytes
/// has no alignment or length condition that could fail.
#[verifier::external_body]
pub(crate) fn cast_u16_slice<'a>(words: &'a [u16]) -> (bytes: &'a [u8])
    ensures
        is_image_u16(bytes@, words@),
{
    bytemuck::cast_slice(words)
}

/// The byte image of `words`, copied out.
pub fn words_to_bytes(words: &Vec<u32>) -> (bytes: Vec<u8>)
    ensures
        is_image_u32(bytes@, words@),
        bytes.len() == 4 * words.len(),
{
    let image = cast_u32_slice(words.as_slice());
    vstd::slice::slice_to_vec(image)
}

} // verus!
