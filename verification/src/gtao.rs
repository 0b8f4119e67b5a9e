//! Push constants of the screen-space ambient occlusion pass and its temporal
//! filter.
use vstd::prelude::*;
use crate::layout::{MAX_PUSH_CONSTANTS_SIZE, DeviceAddress, lo_word, hi_word, join_words, zeros, words_to_bytes, bytes_to_words, lemma_words_to_bytes, lemma_split_join, push_u64, push_zeros, words_to_le_bytes};

verus! {

/// Push constants of the temporal ambient-occlusion filter: bindless indices of
/// the current occlusion, the velocity and the two history images, whether the
/// history is valid, and the extent.
#[derive(Clone, Copy, Debug)]
pub struct GtaoTemporalPushConstants {
    pub gtao_texture: u32,
    pub velocity_texture: u32,
    pub history_prev_texture: u32,
    pub history_curr_storage: u32,
    pub history_valid: u32,
    pub width: u32,
    pub height: u32,
}

impl GtaoTemporalPushConstants {
    /// Size of the block in bytes: seven words and twenty-five padding words.
    pub const SIZE: usize = 128;

    /// The block holding the given values.
    pub fn create(
        gtao_texture: u32,
        velocity_texture: u32,
        history_prev_texture: u32,
        history_curr_storage: u32,
        history_valid: u32,
        width: u32,
        height: u32,
    ) -> (pc: Self)
        ensures
            pc.gtao_texture == gtao_texture,
            pc.velocity_texture == velocity_texture,
            pc.history_prev_texture == history_prev_texture,
            pc.history_curr_storage == history_curr_storage,
            pc.history_valid == history_valid,
            pc.width == width,
            pc.height == height,
    {
        Self {
            gtao_texture,
            velocity_texture,
            history_prev_texture,
            history_curr_storage,
            history_valid,
            width,
            height,
        }
    }

    /// The block as words, in field order, padded with zeros.
    pub open spec fn words(self) -> Seq<u32> {
        seq![
            self.gtao_texture,
            self.velocity_texture,
            self.history_prev_texture,
            self.history_curr_storage,
            self.history_valid,
            self.width,
            self.height,
        ] + zeros(25)
    }

    /// The block that a word sequence holds.
    pub open spec fn from_words(w: Seq<u32>) -> Self {
        Self {
            gtao_texture: w[0],
            velocity_texture: w[1],
            history_prev_texture: w[2],
            history_curr_storage: w[3],
            history_valid: w[4],
            width: w[5],
            height: w[6],
        }
    }

    /// The byte image of the block, as the GPU reads it.
    pub fn to_bytes(&self) -> (bytes: Vec<u8>)
        ensures
            bytes@ == words_to_bytes(self.words()),
            bytes@.len() == Self::SIZE,
    {
        let mut w: Vec<u32> = Vec::new();
        w.push(self.gtao_texture);
        w.push(self.velocity_texture);
        w.push(self.history_prev_texture);
        w.push(self.history_curr_storage);
        w.push(self.history_valid);
        w.push(self.width);
        w.push(self.height);
        push_zeros(&mut w, 25);
        assert(w@ =~= self.words());
        words_to_le_bytes(&w)
    }

    /// The byte image is `SIZE` bytes, fits the guaranteed push-constant range,
    /// and every field reads back from it.
    pub proof fn lemma_layout(self)
        ensures
            words_to_bytes(self.words()).len() == Self::SIZE,
            Self::SIZE <= MAX_PUSH_CONSTANTS_SIZE,
            Self::from_words(bytes_to_words(words_to_bytes(self.words()))) == self,
    {
        lemma_words_to_bytes(self.words());
    }
}

/// Push constants of the ambient-occlusion pass over a depth pyramid.
#[derive(Clone, Copy, Debug)]
pub struct GtaoPushConstants {
    pub scene_buffer_device_address: DeviceAddress,
    pub pyramid_descriptor_id: u32,
    pub normal_descriptor_id: u32,
    pub gtao_storage_id: u32,
    pub width: u32,
    pub height: u32,
    /// Bit pattern of the sampling radius (an `f32` in the shader block).
    pub radius: u32,
    /// Bit pattern of the occlusion power (an `f32` in the shader block).
    pub power: u32,
}

impl GtaoPushConstants {
    /// Size of the block in bytes: an address, seven words and twenty-three padding words.
    pub const SIZE: usize = 128;

    /// The block holding the given values.
    pub fn create(
        scene_buffer_device_address: DeviceAddress,
        pyramid_descriptor_id: u32,
        normal_descriptor_id: u32,
        gtao_storage_id: u32,
        width: u32,
        height: u32,
        radius: u32,
        power: u32,
    ) -> (pc: Self)
        ensures
            pc.scene_buffer_device_address == scene_buffer_device_address,
            pc.pyramid_descriptor_id == pyramid_descriptor_id,
            pc.normal_descriptor_id == normal_descriptor_id,
            pc.gtao_storage_id == gtao_storage_id,
            pc.width == width,
            pc.height == height,
            pc.radius == radius,
            pc.power == power,
    {
        Self {
            scene_buffer_device_address,
            pyramid_descriptor_id,
            normal_descriptor_id,
            gtao_storage_id,
            width,
            height,
            radius,
            power,
        }
    }

    /// The block as words, in field order, padded with zeros.
    pub open spec fn words(self) -> Seq<u32> {
        seq![
            lo_word(self.scene_buffer_device_address),
            hi_word(self.scene_buffer_device_address),
            self.pyramid_descriptor_id,
            self.normal_descriptor_id,
            self.gtao_storage_id,
            self.width,
            self.height,
            self.radius,
            self.power,
        ] + zeros(23)
    }

    /// The block that a word sequence holds.
    pub open spec fn from_words(w: Seq<u32>) -> Self {
        Self {
            scene_buffer_device_address: join_words(w[0], w[1]),
            pyramid_descriptor_id: w[2],
            normal_descriptor_id: w[3],
            gtao_storage_id: w[4],
            width: w[5],
            height: w[6],
            radius: w[7],
            power: w[8],
        }
    }

    /// The byte image of the block, as the GPU reads it.
    pub fn to_bytes(&self) -> (bytes: Vec<u8>)
        ensures
            bytes@ == words_to_bytes(self.words()),
            bytes@.len() == Self::SIZE,
    {
        let mut w: Vec<u32> = Vec::new();
        push_u64(&mut w, self.scene_buffer_device_address);
        w.push(self.pyramid_descriptor_id);
        w.push(self.normal_descriptor_id);
        w.push(self.gtao_storage_id);
        w.push(self.width);
        w.push(self.height);
        w.push(self.radius);
        w.push(self.power);
        push_zeros(&mut w, 23);
        assert(w@ =~= self.words());
        words_to_le_bytes(&w)
    }

    /// The byte image is `SIZE` bytes, fits the guaranteed push-constant range,
    /// and every field reads back from it.
    pub proof fn lemma_layout(self)
        ensures
            words_to_bytes(self.words()).len() == Self::SIZE,
            Self::SIZE <= MAX_PUSH_CONSTANTS_SIZE,
            Self::from_words(bytes_to_words(words_to_bytes(self.words()))) == self,
    {
        lemma_words_to_bytes(self.words());
        lemma_split_join(self.scene_buffer_device_address);
    }
}

} // verus!
