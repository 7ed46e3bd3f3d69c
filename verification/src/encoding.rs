//! How 32-bit words lie in memory as bytes.

use vstd::endian::Endian;
use vstd::prelude::*;

verus! {

/// Byte `k` of `w`, counted from the least significant byte (`k` = 0) to the
/// most significant (`k` = 3).
pub open spec fn byte_of(w: u32, k: int) -> u8 {
    if k == 0 {
        (w % 0x100) as u8
    } else if k == 1 {
        (w / 0x100 % 0x100) as u8
    } else if k == 2 {
        (w / 0x1_0000 % 0x100) as u8
    } else {
        (w / 0x100_0000) as u8
    }
}

/// The byte at position `k` (0 to 3) of `w` stored in byte order `order`.
pub open spec fn stored_byte(w: u32, k: int, order: Endian) -> u8 {
    match order {
        Endian::Little => byte_of(w, k),
        Endian::Big => byte_of(w, 3 - k),
    }
}

/// The bytes of `words` laid out one after another in byte order `order`:
/// four bytes for each word.
pub open spec fn image(words: Seq<u32>, order: Endian) -> Seq<u8> {
    Seq::new(4 * words.len(), |i: int| stored_byte(words[i / 4], i % 4, order))
}

/// `bytes` are the bytes of `words` laid out in one of the two byte orders,
/// the same for all words.
pub open spec fn is_image(bytes: Seq<u8>, words: Seq<u32>) -> bool {
    bytes == image(words, Endian::Little) || bytes == image(words, Endian::Big)
}

/// Calls `bytemuck::cast_slice` to read a slice of 32-bit words as the bytes
/// it occupies in memory, and copies those bytes out.
///
/// Not proved, but taken from `bytemuck`: the cast hands back the memory of
/// the slice itself, so the result holds four bytes for each word, in the
/// order of the words, each word in the byte order of the machine, whichever
/// of the two that is. For this pair of types the cast has no failure case:
/// bytes need no alignment, and any number of words is a whole number of
/// bytes.
#[verifier::external_body]
pub(crate) fn cast_words(words: &Vec<u32>) -> (bytes: Vec<u8>)
    ensures
        bytes@ == image(words@, Endian::Little) || bytes@ == image(words@, Endian::Big),
{
    bytemuck::cast_slice::<u32, u8>(words.as_slice()).to_vec()
}

} // verus!
