//! Push constants of the depth pass.
use vstd::prelude::*;
use crate::layout::{MAX_PUSH_CONSTANTS_SIZE, DeviceAddress, lo_word, hi_word, join_words, zeros, words_to_bytes, bytes_to_words, lemma_words_to_bytes, lemma_split_join, push_u64, push_zeros, words_to_le_bytes};

verus! {

/// Push constants of the depth pass: the device addresses of the buffers it
/// reads.
#[derive(Clone, Copy, Debug)]
pub struct DepthPushConstants {
    pub camera_buffer_device_address: DeviceAddress,
    pub draw_data_buffer_device_address: DeviceAddress,
    pub entity_buffer_device_address: DeviceAddress,
    pub entity_motion_buffer_device_address: DeviceAddress,
}

impl DepthPushConstants {
    /// Size of the block in bytes: four addresses and twenty-four padding words.
    pub const SIZE: usize = 128;

    /// The block holding the given values.
    pub fn create(
        camera_buffer_device_address: DeviceAddress,
        draw_data_buffer_device_address: DeviceAddress,
        entity_buffer_device_address: DeviceAddress,
        entity_motion_buffer_device_address: DeviceAddress,
    ) -> (pc: Self)
        ensures
            pc.camera_buffer_device_address == camera_buffer_device_address,
            pc.draw_data_buffer_device_address == draw_data_buffer_device_address,
            pc.entity_buffer_device_address == entity_buffer_device_address,
            pc.entity_motion_buffer_device_address == entity_motion_buffer_device_address,
    {
        Self {
            camera_buffer_device_address,
            draw_data_buffer_device_address,
            entity_buffer_device_address,
            entity_motion_buffer_device_address,
        }
    }

    /// The block as words, in field order, padded with zeros.
    pub open spec fn words(self) -> Seq<u32> {
        seq![
            lo_word(self.camera_buffer_device_address),
            hi_word(self.camera_buffer_device_address),
            lo_word(self.draw_data_buffer_device_address),
            hi_word(self.draw_data_buffer_device_address),
            lo_word(self.entity_buffer_device_address),
            hi_word(self.entity_buffer_device_address),
            lo_word(self.entity_motion_buffer_device_address),
            hi_word(self.entity_motion_buffer_device_address),
        ] + zeros(24)
    }

    /// The block that a word sequence holds.
    pub open spec fn from_words(w: Seq<u32>) -> Self {
        Self {
            camera_buffer_device_address: join_words(w[0], w[1]),
            draw_data_buffer_device_address: join_words(w[2], w[3]),
            entity_buffer_device_address: join_words(w[4], w[5]),
            entity_motion_buffer_device_address: join_words(w[6], w[7]),
        }
    }

    /// The byte image of the block, as the GPU reads it.
    pub fn to_bytes(&self) -> (bytes: Vec<u8>)
        ensures
            bytes@ == words_to_bytes(self.words()),
            bytes@.len() == Self::SIZE,
    {
        let mut w: Vec<u32> = Vec::new();
        push_u64(&mut w, self.camera_buffer_device_address);
        push_u64(&mut w, self.draw_data_buffer_device_address);
        push_u64(&mut w, self.entity_buffer_device_address);
        push_u64(&mut w, self.entity_motion_buffer_device_address);
        push_zeros(&mut w, 24);
        assert(w@ =~= self.words());
        words_to_le_bytes(&w)
    }

    /// The byte image is `SIZE` bytes, fits the guaranteed push-constant range,
    /// and every field reads back from it.
    pub proof fn lemma_layout(self)
        ensures
            words_to_bytes(self.words()).len() == Self::SIZE,
            Self::SIZE <= MAX_PUSH_CONSTANTS_SIZE,
            Self::from_words(bytes_to_words(words_to_bytes(self.words()))) == self,
    {
        lemma_words_to_bytes(self.words());
        lemma_split_join(self.camera_buffer_device_address);
        lemma_split_join(self.draw_data_buffer_device_address);
        lemma_split_join(self.entity_buffer_device_address);
        lemma_split_join(self.entity_motion_buffer_device_address);
    }
}

} // verus!
