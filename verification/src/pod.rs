//! Plain records as the bytes that a GPU buffer is filled with.
//!
//! Buffers are filled with the host's memory image of 16-bit and 32-bit
//! words. Which byte of a word comes first depends on the host, so the
//! byte order is a parameter of every statement made here.

use vstd::prelude::*;
use vstd::bytes::{
    lemma_auto_spec_u16_to_from_le_bytes, lemma_auto_spec_u32_to_from_le_bytes,
    spec_u16_from_le_bytes, spec_u16_to_le_bytes, spec_u32_from_le_bytes, spec_u32_to_le_bytes,
};

verus! {

/// Which byte of a word comes first in memory.
#[derive(Clone, Copy, Debug, PartialEq, Eq, Structural)]
pub enum ByteOrder {
    /// Least significant byte first.
    Little,
    /// Most significant byte first.
    Big,
}

/// The four bytes of a 32-bit word.
pub open spec fn word_bytes(w: u32, order: ByteOrder) -> Seq<u8> {
    match order {
        ByteOrder::Little => spec_u32_to_le_bytes(w),
        ByteOrder::Big => spec_u32_to_le_bytes(w).reverse(),
    }
}

/// The word that four bytes hold.
pub open spec fn word_from_bytes(b: Seq<u8>, order: ByteOrder) -> u32 {
    match order {
        ByteOrder::Little => spec_u32_from_le_bytes(b),
        ByteOrder::Big => spec_u32_from_le_bytes(b.reverse()),
    }
}

/// The two bytes of a 16-bit word.
pub open spec fn half_bytes(h: u16, order: ByteOrder) -> Seq<u8> {
    match order {
        ByteOrder::Little => spec_u16_to_le_bytes(h),
        ByteOrder::Big => spec_u16_to_le_bytes(h).reverse(),
    }
}

/// The 16-bit word that two bytes hold.
pub open spec fn half_from_bytes(b: Seq<u8>, order: ByteOrder) -> u16 {
    match order {
        ByteOrder::Little => spec_u16_from_le_bytes(b),
        ByteOrder::Big => spec_u16_from_le_bytes(b.reverse()),
    }
}

/// The bytes of a run of 32-bit words, word after word without padding.
pub open spec fn words_bytes(words: Seq<u32>, order: ByteOrder) -> Seq<u8> {
    Seq::new(4 * words.len(), |i: int| word_bytes(words[i / 4], order)[i % 4])
}

/// The bytes of a run of 16-bit words, word after word without padding.
pub open spec fn halves_bytes(halves: Seq<u16>, order: ByteOrder) -> Seq<u8> {
    Seq::new(2 * halves.len(), |i: int| half_bytes(halves[i / 2], order)[i % 2])
}

/// Whether `bytes` is the memory image of `words` on some host.
pub open spec fn is_image_of_words(bytes: Seq<u8>, words: Seq<u32>) -> bool {
    bytes == words_bytes(words, ByteOrder::Little) || bytes == words_bytes(words, ByteOrder::Big)
}

/// Whether `bytes` is the memory image of `halves` on some host.
pub open spec fn is_image_of_halves(bytes: Seq<u8>, halves: Seq<u16>) -> bool {
    bytes == halves_bytes(halves, ByteOrder::Little) || bytes == halves_bytes(
        halves,
        ByteOrder::Big,
    )
}

/// A word is read back from its bytes in the order in which they were
/// written.
pub proof fn lemma_word_round_trip(w: u32, order: ByteOrder)
    ensures
        word_bytes(w, order).len() == 4,
        word_from_bytes(word_bytes(w, order), order) == w,
{
    lemma_auto_spec_u32_to_from_le_bytes();
    let le = spec_u32_to_le_bytes(w);
    assert(le.reverse().reverse() =~= le);
}

/// A 16-bit word is read back from its bytes in the order in which they
/// were written.
pub proof fn lemma_half_round_trip(h: u16, order: ByteOrder)
    ensures
        half_bytes(h, order).len() == 2,
        half_from_bytes(half_bytes(h, order), order) == h,
{
    lemma_auto_spec_u16_to_from_le_bytes();
    let le = spec_u16_to_le_bytes(h);
    assert(le.reverse().reverse() =~= le);
}

/// In the bytes of a run of words, word `k` stands at byte `4 * k` and is
/// read back from there.
pub proof fn lemma_words_round_trip(words: Seq<u32>, order: ByteOrder, k: int)
    requires
        0 <= k < words.len(),
    ensures
        words_bytes(words, order).len() == 4 * words.len(),
        words_bytes(words, order).subrange(4 * k, 4 * k + 4) == word_bytes(words[k], order),
        word_from_bytes(words_bytes(words, order).subrange(4 * k, 4 * k + 4), order) == words[k],
{
    lemma_word_round_trip(words[k], order);
    let all = words_bytes(words, order);
    let part = all.subrange(4 * k, 4 * k + 4);
    assert forall|j: int| 0 <= j < 4 implies part[j] == word_bytes(words[k], order)[j] by {
        assert((4 * k + j) / 4 == k);
        assert((4 * k + j) % 4 == j);
    }
    assert(part =~= word_bytes(words[k], order));
}

/// In the bytes of a run of 16-bit words, word `k` stands at byte `2 * k`
/// and is read back from there.
pub proof fn lemma_halves_round_trip(halves: Seq<u16>, order: ByteOrder, k: int)
    requires
        0 <= k < halves.len(),
    ensures
        halves_bytes(halves, order).len() == 2 * halves.len(),
        halves_bytes(halves, order).subrange(2 * k, 2 * k + 2) == half_bytes(halves[k], order),
        half_from_bytes(halves_bytes(halves, order).subrange(2 * k, 2 * k + 2), order)
            == halves[k],
{
    lemma_half_round_trip(halves[k], order);
    let all = halves_bytes(halves, order);
    let part = all.subrange(2 * k, 2 * k + 2);
    assert forall|j: int| 0 <= j < 2 implies part[j] == half_bytes(halves[k], order)[j] by {
        assert((2 * k + j) / 2 == k);
        assert((2 * k + j) % 2 == j);
    }
    assert(part =~= half_bytes(halves[k], order));
}

/// `bytemuck::cast_slice` from 32-bit words to bytes: the same memory seen
/// as bytes. The cast cannot fail, since bytes need no alignment and any
/// length is a whole number of them. Claimed, not proved: the result holds
/// the four bytes of each word, in order, in the byte order of the host,
/// which is one of the two.
#[verifier::external_body]
pub(crate) fn cast_words(words: &[u32]) -> (bytes: &[u8])
    ensures
        is_image_of_words(bytes@, words@),
{
    bytemuck::cast_slice::<u32, u8>(words)
}

/// `bytemuck::cast_slice` from 16-bit words to bytes: the same memory seen
/// as bytes. Claimed, not proved: the result holds the two bytes of each
/// word, in order, in the byte order of the host, which is one of the two.
#[verifier::external_body]
pub(crate) fn cast_halves(halves: &[u16]) -> (bytes: &[u8])
    ensures
        is_image_of_halves(bytes@, halves@),
{
    bytemuck::cast_slice::<u16, u8>(halves)
}

} // verus!
