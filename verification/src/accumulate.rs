//! Push constants of the temporal accumulation (upscaling) pass.
use vstd::prelude::*;
use crate::layout::{MAX_PUSH_CONSTANTS_SIZE, zeros, words_to_bytes, bytes_to_words, lemma_words_to_bytes, push_zeros, words_to_le_bytes};

verus! {

/// Push constants of the accumulation pass: bindless indices of its inputs
/// and outputs, whether the history is valid, and the display extent.
#[derive(Clone, Copy, Debug)]
pub struct AccumulatePushConstants {
    pub scene_color_texture: u32,
    pub velocity_texture: u32,
    pub history_prev_texture: u32,
    pub history_curr_storage: u32,
    pub history_valid: u32,
    pub display_width: u32,
    pub display_height: u32,
}

impl AccumulatePushConstants {
    /// Size of the block in bytes: seven words and twenty-five padding words.
    pub const SIZE: usize = 128;

    /// The block holding the given values.
    pub fn create(
        scene_color_texture: u32,
        velocity_texture: u32,
        history_prev_texture: u32,
        history_curr_storage: u32,
        history_valid: u32,
        display_width: u32,
        display_height: u32,
    ) -> (pc: Self)
        ensures
            pc.scene_color_texture == scene_color_texture,
            pc.velocity_texture == velocity_texture,
            pc.history_prev_texture == history_prev_texture,
            pc.history_curr_storage == history_curr_storage,
            pc.history_valid == history_valid,
            pc.display_width == display_width,
            pc.display_height == display_height,
    {
        Self {
            scene_color_texture,
            velocity_texture,
            history_prev_texture,
            history_curr_storage,
            history_valid,
            display_width,
            display_height,
        }
    }

    /// The block as words, in field order, padded with zeros.
    pub open spec fn words(self) -> Seq<u32> {
        seq![
            self.scene_color_texture,
            self.velocity_texture,
            self.history_prev_texture,
            self.history_curr_storage,
            self.history_valid,
            self.display_width,
            self.display_height,
        ] + zeros(25)
    }

    /// The block that a word sequence holds.
    pub open spec fn from_words(w: Seq<u32>) -> Self {
        Self {
            scene_color_texture: w[0],
            velocity_texture: w[1],
            history_prev_texture: w[2],
            history_curr_storage: w[3],
            history_valid: w[4],
            display_width: w[5],
            display_height: w[6],
        }
    }

    /// The byte image handed to `vkCmdPushConstants`.
    pub fn to_bytes(&self) -> (bytes: Vec<u8>)
        ensures
            bytes@ == words_to_bytes(self.words()),
            bytes@.len() == Self::SIZE,
    {
        let mut w: Vec<u32> = Vec::new();
        w.push(self.scene_color_texture);
        w.push(self.velocity_texture);
        w.push(self.history_prev_texture);
        w.push(self.history_curr_storage);
        w.push(self.history_valid);
        w.push(self.display_width);
        w.push(self.display_height);
        push_zeros(&mut w, 25);
        assert(w@ =~= self.words());
        words_to_le_bytes(&w)
    }

    /// The byte image is 128 bytes, fits the guaranteed push-constant range,
    /// and every field reads back from it.
    pub proof fn lemma_layout(self)
        ensures
            words_to_bytes(self.words()).len() == Self::SIZE,
            Self::SIZE <= MAX_PUSH_CONSTANTS_SIZE,
            Self::from_words(bytes_to_words(words_to_bytes(self.words()))) == self,
    {
        lemma_words_to_bytes(self.words());
    }
}

} // verus!
