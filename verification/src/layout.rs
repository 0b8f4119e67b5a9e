//! Byte images of GPU-visible records.
//!
//! A record that the shaders read (a push-constant block, a storage-buffer
//! element) is described here as a sequence of 32-bit words in `repr(C)`
//! order: a 64-bit device address takes two words, low word first, and
//! explicit padding is a run of zero words. The byte image is the words in
//! little-endian order, which is the memory image of the `repr(C)` struct on
//! the little-endian hosts that drive the GPU.
use vstd::prelude::*;
use vstd::bytes::{spec_u32_from_le_bytes, spec_u32_to_le_bytes, lemma_auto_spec_u32_to_from_le_bytes, u32_to_le_bytes};

verus! {

/// The push-constant range every Vulkan implementation guarantees
/// (`maxPushConstantsSize` is at least 128 bytes).
pub const MAX_PUSH_CONSTANTS_SIZE: usize = 128;

/// A Vulkan device address.
pub type DeviceAddress = u64;

/// Low 32 bits of a 64-bit value.
pub open spec fn lo_word(x: u64) -> u32 {
    (x & 0xffff_ffffu64) as u32
}

/// High 32 bits of a 64-bit value.
pub open spec fn hi_word(x: u64) -> u32 {
    (x >> 32u64) as u32
}

/// The 64-bit value whose low and high words are `lo` and `hi`.
pub open spec fn join_words(lo: u32, hi: u32) -> u64 {
    (lo as u64) | ((hi as u64) << 32u64)
}

/// `n` zero words.
pub open spec fn zeros(n: nat) -> Seq<u32> {
    Seq::new(n, |i: int| 0u32)
}

/// The little-endian byte image of a word sequence.
pub open spec fn words_to_bytes(words: Seq<u32>) -> Seq<u8>
    decreases words.len(),
{
    if words.len() == 0 {
        Seq::empty()
    } else {
        words_to_bytes(words.drop_last()) + spec_u32_to_le_bytes(words.last())
    }
}

/// The word stored at word index `index` of a byte image.
pub open spec fn read_word(bytes: Seq<u8>, index: int) -> u32 {
    spec_u32_from_le_bytes(bytes.subrange(4 * index, 4 * index + 4))
}

/// The words of a byte image whose length is a multiple of four.
pub open spec fn bytes_to_words(bytes: Seq<u8>) -> Seq<u32> {
    Seq::new(bytes.len() / 4, |i: int| read_word(bytes, i))
}

/// Splitting a 64-bit value into its two words and joining them gives the value back.
pub proof fn lemma_split_join(x: u64)
    ensures
        join_words(lo_word(x), hi_word(x)) == x,
{
    assert(((x & 0xffff_ffffu64) as u32 as u64) | (((x >> 32u64) as u32 as u64) << 32u64) == x)
        by (bit_vector);
}

/// A byte image is four bytes per word, and each word reads back from it.
pub proof fn lemma_words_to_bytes(words: Seq<u32>)
    ensures
        words_to_bytes(words).len() == 4 * words.len(),
        forall|i: int| 0 <= i < words.len() ==> #[trigger] read_word(words_to_bytes(words), i) == words[i],
        bytes_to_words(words_to_bytes(words)) == words,
    decreases words.len(),
{
    lemma_auto_spec_u32_to_from_le_bytes();
    if words.len() > 0 {
        let init = words.drop_last();
        lemma_words_to_bytes(init);
        let b = words_to_bytes(words);
        let bi = words_to_bytes(init);
        assert(b == bi + spec_u32_to_le_bytes(words.last()));
        assert forall|i: int| 0 <= i < words.len() implies #[trigger] read_word(b, i) == words[i] by {
            if i < words.len() - 1 {
                assert(b.subrange(4 * i, 4 * i + 4) =~= bi.subrange(4 * i, 4 * i + 4));
                assert(read_word(bi, i) == init[i]);
            } else {
                assert(b.subrange(4 * i, 4 * i + 4) =~= spec_u32_to_le_bytes(words.last()));
            }
        }
    }
    let b = words_to_bytes(words);
    assert(bytes_to_words(b) =~= words);
}

/// Appends a 64-bit value as two words, low word first.
pub fn push_u64(words: &mut Vec<u32>, x: u64)
    ensures
        final(words)@ == old(words)@ + seq![lo_word(x), hi_word(x)],
{
    words.push((x & 0xffff_ffffu64) as u32);
    words.push((x >> 32u64) as u32);
}

/// Appends `n` zero words.
pub fn push_zeros(words: &mut Vec<u32>, n: usize)
    ensures
        final(words)@ == old(words)@ + zeros(n as nat),
{
    let ghost start = words@;
    let mut k: usize = 0;
    while k < n
        invariant
            k <= n,
            words@ == start + zeros(k as nat),
        decreases n - k,
    {
        words.push(0u32);
        k = k + 1;
        assert(words@ =~= start + zeros(k as nat));
    }
}

/// The little-endian byte image of a word sequence.
pub fn words_to_le_bytes(words: &Vec<u32>) -> (bytes: Vec<u8>)
    ensures
        bytes@ == words_to_bytes(words@),
        bytes@.len() == 4 * words@.len(),
{
    let mut bytes: Vec<u8> = Vec::new();
    let mut k: usize = 0;
    while k < words.len()
        invariant
            k <= words@.len(),
            bytes@ == words_to_bytes(words@.subrange(0, k as int)),
        decreases words@.len() - k,
    {
        let le = u32_to_le_bytes(words[k]);
        bytes.push(le[0]);
        bytes.push(le[1]);
        bytes.push(le[2]);
        bytes.push(le[3]);
        proof {
            let s = words@.subrange(0, k + 1);
            assert(s.drop_last() =~= words@.subrange(0, k as int));
            assert(s.last() == words@[k as int]);
            assert(bytes@ =~= words_to_bytes(s));
        }
        k = k + 1;
    }
    assert(words@.subrange(0, words@.len() as int) =~= words@);
    proof {
        lemma_words_to_bytes(words@);
    }
    bytes
}

} // verus!
