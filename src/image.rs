//! Program images: raw bytes read as consecutive little-endian 16-bit words.

use vstd::prelude::*;

verus! {

/// The word stored at byte offset `2 * i`: low byte first, high byte second.
pub open spec fn word_at(bytes: Seq<u8>, i: int) -> u16 {
    (bytes[2 * i] as int + 256 * bytes[2 * i + 1] as int) as u16
}

/// Reads an image as little-endian words. A trailing odd byte belongs to no
/// word and is left out.
pub fn words_from_bytes(bytes: &Vec<u8>) -> (r: Vec<u16>)
    ensures
        r@.len() == bytes@.len() / 2,
        forall|i: int| 0 <= i < r@.len() ==> r@[i] == word_at(bytes@, i),
{
    let count = bytes.len() / 2;
    let mut words: Vec<u16> = Vec::new();
    let mut i: usize = 0;
    while i < count
        invariant
            count == bytes@.len() / 2,
            bytes@.len() <= usize::MAX,
            i <= count,
            words@.len() == i,
            forall|j: int| 0 <= j < i ==> words@[j] == word_at(bytes@, j),
        decreases count - i,
    {
        let low = bytes[2 * i] as u16;
        let high = bytes[2 * i + 1] as u16;
        words.push(high * 256 + low);
        i = i + 1;
    }
    words
}

} // verus!
