//! Push constants of the bloom passes.
use vstd::prelude::*;
use crate::layout::{MAX_PUSH_CONSTANTS_SIZE, zeros, words_to_bytes, bytes_to_words, lemma_words_to_bytes, push_zeros, words_to_le_bytes};

verus! {

/// Push constants of the bloom down- and upsampling passes.
#[derive(Clone, Copy, Debug)]
pub struct BloomPushConstants {
    pub src_texture: u32,
    /// Whether the Karis average is applied (0 or 1).
    pub karis: u32,
    /// Bit pattern of the brightness threshold (an `f32` in the shader block).
    pub threshold: u32,
}

impl BloomPushConstants {
    /// Size of the block in bytes: three words and twenty-nine padding words.
    pub const SIZE: usize = 128;

    /// The block holding the given values.
    pub fn create(
        src_texture: u32,
        karis: u32,
        threshold: u32,
    ) -> (pc: Self)
        ensures
            pc.src_texture == src_texture,
            pc.karis == karis,
            pc.threshold == threshold,
    {
        Self {
            src_texture,
            karis,
            threshold,
        }
    }

    /// The block as words, in field order, padded with zeros.
    pub open spec fn words(self) -> Seq<u32> {
        seq![
            self.src_texture,
            self.karis,
            self.threshold,
        ] + zeros(29)
    }

    /// The block that a word sequence holds.
    pub open spec fn from_words(w: Seq<u32>) -> Self {
        Self {
            src_texture: w[0],
            karis: w[1],
            threshold: w[2],
        }
    }

    /// The byte image of the block, as the GPU reads it.
    pub fn to_bytes(&self) -> (bytes: Vec<u8>)
        ensures
            bytes@ == words_to_bytes(self.words()),
            bytes@.len() == Self::SIZE,
    {
        let mut w: Vec<u32> = Vec::new();
        w.push(self.src_texture);
        w.push(self.karis);
        w.push(self.threshold);
        push_zeros(&mut w, 29);
        assert(w@ =~= self.words());
        words_to_le_bytes(&w)
    }

    /// The byte image is `SIZE` bytes, fits the guaranteed push-constant range,
    /// and every field reads back from it.
    pub proof fn lemma_layout(self)
        ensures
            words_to_bytes(self.words()).len() == Self::SIZE,
            Self::SIZE <= MAX_PUSH_CONSTANTS_SIZE,
            Self::from_words(bytes_to_words(words_to_bytes(self.words()))) == self,
    {
        lemma_words_to_bytes(self.words());
    }
}

} // verus!
