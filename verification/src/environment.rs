//! Push constants of the environment (sky) pass.
use vstd::prelude::*;
use crate::layout::{MAX_PUSH_CONSTANTS_SIZE, DeviceAddress, lo_word, hi_word, join_words, words_to_bytes, bytes_to_words, lemma_words_to_bytes, lemma_split_join, push_u64, words_to_le_bytes};

verus! {

/// Push constants of the environment pass: the scene buffer's device address.
#[derive(Clone, Copy, Debug)]
pub struct EnvironmentPushConstants {
    pub scene_buffer_device_address: DeviceAddress,
}

impl EnvironmentPushConstants {
    /// Size of the block in bytes: one address.
    pub const SIZE: usize = 8;

    /// The block holding the given values.
    pub fn create(
        scene_buffer_device_address: DeviceAddress,
    ) -> (pc: Self)
        ensures
            pc.scene_buffer_device_address == scene_buffer_device_address,
    {
        Self {
            scene_buffer_device_address,
        }
    }

    /// The block as words, in field order.
    pub open spec fn words(self) -> Seq<u32> {
        seq![
            lo_word(self.scene_buffer_device_address),
            hi_word(self.scene_buffer_device_address),
        ]
    }

    /// The block that a word sequence holds.
    pub open spec fn from_words(w: Seq<u32>) -> Self {
        Self {
            scene_buffer_device_address: join_words(w[0], w[1]),
        }
    }

    /// The byte image of the block, as the GPU reads it.
    pub fn to_bytes(&self) -> (bytes: Vec<u8>)
        ensures
            bytes@ == words_to_bytes(self.words()),
            bytes@.len() == Self::SIZE,
    {
        let mut w: Vec<u32> = Vec::new();
        push_u64(&mut w, self.scene_buffer_device_address);
        assert(w@ =~= self.words());
        words_to_le_bytes(&w)
    }

    /// The byte image is `SIZE` bytes, fits the guaranteed push-constant range,
    /// and every field reads back from it.
    pub proof fn lemma_layout(self)
        ensures
            words_to_bytes(self.words()).len() == Self::SIZE,
            Self::SIZE <= MAX_PUSH_CONSTANTS_SIZE,
            Self::from_words(bytes_to_words(words_to_bytes(self.words()))) == self,
    {
        lemma_words_to_bytes(self.words());
        lemma_split_join(self.scene_buffer_device_address);
    }
}

} // verus!
