//! The debug-layer view: its push constants and which image a layer shows.
use vstd::prelude::*;
use crate::layout::{MAX_PUSH_CONSTANTS_SIZE, DeviceAddress, lo_word, hi_word, join_words, zeros, words_to_bytes, bytes_to_words, lemma_words_to_bytes, lemma_split_join, push_u64, push_zeros, words_to_le_bytes};

verus! {

/// Push constants of the debug-layer pass.
#[derive(Clone, Copy, Debug)]
pub struct DebugLayerPushConstants {
    /// Device address of the camera buffer.
    pub camera_buffer_device_address: DeviceAddress,
    pub texture_index: u32,
    pub layer_kind: u32,
    pub shadow_colored: u32,
    /// Bit pattern of the denoiser history weight (an `f32` in the shader block).
    pub denoise_history: u32,
}

impl DebugLayerPushConstants {
    /// Size of the block in bytes: an address, four words and twenty-six padding words.
    pub const SIZE: usize = 128;

    /// The block holding the given values.
    pub fn create(
        camera_buffer_device_address: DeviceAddress,
        texture_index: u32,
        layer_kind: u32,
        shadow_colored: u32,
        denoise_history: u32,
    ) -> (pc: Self)
        ensures
            pc.camera_buffer_device_address == camera_buffer_device_address,
            pc.texture_index == texture_index,
            pc.layer_kind == layer_kind,
            pc.shadow_colored == shadow_colored,
            pc.denoise_history == denoise_history,
    {
        Self {
            camera_buffer_device_address,
            texture_index,
            layer_kind,
            shadow_colored,
            denoise_history,
        }
    }

    /// The block as words, in field order, padded with zeros.
    pub open spec fn words(self) -> Seq<u32> {
        seq![
            lo_word(self.camera_buffer_device_address),
            hi_word(self.camera_buffer_device_address),
            self.texture_index,
            self.layer_kind,
            self.shadow_colored,
            self.denoise_history,
        ] + zeros(26)
    }

    /// The block that a word sequence holds.
    pub open spec fn from_words(w: Seq<u32>) -> Self {
        Self {
            camera_buffer_device_address: join_words(w[0], w[1]),
            texture_index: w[2],
            layer_kind: w[3],
            shadow_colored: w[4],
            denoise_history: w[5],
        }
    }

    /// The byte image of the block, as the GPU reads it.
    pub fn to_bytes(&self) -> (bytes: Vec<u8>)
        ensures
            bytes@ == words_to_bytes(self.words()),
            bytes@.len() == Self::SIZE,
    {
        let mut w: Vec<u32> = Vec::new();
        push_u64(&mut w, self.camera_buffer_device_address);
        w.push(self.texture_index);
        w.push(self.layer_kind);
        w.push(self.shadow_colored);
        w.push(self.denoise_history);
        push_zeros(&mut w, 26);
        assert(w@ =~= self.words());
        words_to_le_bytes(&w)
    }

    /// The byte image is `SIZE` bytes, fits the guaranteed push-constant range,
    /// and every field reads back from it.
    pub proof fn lemma_layout(self)
        ensures
            words_to_bytes(self.words()).len() == Self::SIZE,
            Self::SIZE <= MAX_PUSH_CONSTANTS_SIZE,
            Self::from_words(bytes_to_words(words_to_bytes(self.words()))) == self,
    {
        lemma_words_to_bytes(self.words());
        lemma_split_join(self.camera_buffer_device_address);
    }
}

/// Debug layer showing the velocity image.
pub const DEBUG_LAYER_VELOCITY: usize = 1;
/// Debug layer showing the normal image.
pub const DEBUG_LAYER_NORMAL: usize = 2;
/// Debug layer showing the ambient-occlusion image.
pub const DEBUG_LAYER_GTAO: usize = 3;
/// Debug layer showing the spherical-harmonics irradiance image.
pub const DEBUG_LAYER_SH_IRRADIANCE: usize = 4;
/// Debug layer showing the depth pyramid's minimum.
pub const DEBUG_LAYER_HIZ_MIN: usize = 5;
/// Debug layer showing the depth pyramid's maximum.
pub const DEBUG_LAYER_HIZ_MAX: usize = 6;
/// Debug layer showing the shadow history.
pub const DEBUG_LAYER_SHADOW: usize = 7;

/// The image a debug layer shows.
#[derive(Clone, Copy, Debug, PartialEq, Eq, Structural)]
pub enum DebugLayerSource {
    Velocity,
    Normal,
    Gtao,
    ShIrradiance,
    Hiz,
    ShadowHistoryA,
    ShadowHistoryB,
}

/// The debug-layer pass runs whenever a layer other than 0 is selected.
pub fn debug_layer_enabled(layer: usize) -> (enabled: bool)
    ensures
        enabled == (layer != 0),
{
    layer != 0
}

/// The layer shows a level of the depth pyramid.
pub open spec fn is_hiz_layer(layer: usize) -> bool {
    layer == DEBUG_LAYER_HIZ_MIN || layer == DEBUG_LAYER_HIZ_MAX
}

/// The image layer `layer` shows; the shadow layer shows the shadow
/// history written this frame.
pub open spec fn spec_debug_layer_source(layer: usize, history_write_index: u32) -> DebugLayerSource {
    if layer == DEBUG_LAYER_VELOCITY {
        DebugLayerSource::Velocity
    } else if layer == DEBUG_LAYER_NORMAL {
        DebugLayerSource::Normal
    } else if layer == DEBUG_LAYER_GTAO {
        DebugLayerSource::Gtao
    } else if layer == DEBUG_LAYER_SH_IRRADIANCE {
        DebugLayerSource::ShIrradiance
    } else if is_hiz_layer(layer) {
        DebugLayerSource::Hiz
    } else if history_write_index == 0 {
        DebugLayerSource::ShadowHistoryA
    } else {
        DebugLayerSource::ShadowHistoryB
    }
}

/// The image layer `layer` shows. Layers 1 to 7 exist.
pub fn debug_layer_source(layer: usize, history_write_index: u32) -> (source: DebugLayerSource)
    requires
        DEBUG_LAYER_VELOCITY <= layer <= DEBUG_LAYER_SHADOW,
    ensures
        source == spec_debug_layer_source(layer, history_write_index),
{
    if layer == DEBUG_LAYER_VELOCITY {
        DebugLayerSource::Velocity
    } else if layer == DEBUG_LAYER_NORMAL {
        DebugLayerSource::Normal
    } else if layer == DEBUG_LAYER_GTAO {
        DebugLayerSource::Gtao
    } else if layer == DEBUG_LAYER_SH_IRRADIANCE {
        DebugLayerSource::ShIrradiance
    } else if layer == DEBUG_LAYER_HIZ_MIN || layer == DEBUG_LAYER_HIZ_MAX {
        DebugLayerSource::Hiz
    } else if history_write_index == 0 {
        DebugLayerSource::ShadowHistoryA
    } else {
        DebugLayerSource::ShadowHistoryB
    }
}

/// The pyramid mip shown for a requested mip: the request, clamped to the
/// last of `mip_count` mips.
pub open spec fn clamped_mip(requested: u32, mip_count: nat) -> int {
    if requested < mip_count {
        requested as int
    } else {
        mip_count - 1
    }
}

/// The descriptor the debug layer samples: for the depth-pyramid layers the
/// sampled descriptor of the requested mip, clamped to the last mip; for
/// the other layers the image's full descriptor. `None` when the image
/// offers no such descriptor, and the pass then draws nothing.
pub fn debug_texture_index(
    layer: usize,
    full: Option<u32>,
    sampled_mips: Option<&Vec<u32>>,
    requested_mip: u32,
) -> (index: Option<u32>)
    ensures
        !is_hiz_layer(layer) ==> index == full,
        is_hiz_layer(layer) ==> index == (match sampled_mips {
            Some(mips) => if mips@.len() > 0 {
                Some(mips@[clamped_mip(requested_mip, mips@.len())])
            } else {
                None
            },
            None => None,
        }),
{
    if layer == DEBUG_LAYER_HIZ_MIN || layer == DEBUG_LAYER_HIZ_MAX {
        match sampled_mips {
            Some(mips) => {
                if mips.len() == 0 {
                    return None;
                }
                let requested = requested_mip as usize;
                let last = mips.len() - 1;
                let mip = if requested < last { requested } else { last };
                Some(mips[mip])
            },
            None => None,
        }
    } else {
        full
    }
}

/// The depth-pyramid layers sample an existing mip.
pub proof fn lemma_clamped_mip_in_range(requested: u32, mip_count: nat)
    requires
        mip_count > 0,
    ensures
        0 <= clamped_mip(requested, mip_count) < mip_count,
        requested < mip_count ==> clamped_mip(requested, mip_count) == requested,
{
}


/// Each layer shows its own image: 1 velocity, 2 normals, 3 ambient
/// occlusion, 4 irradiance, 5 and 6 the depth pyramid, 7 the shadow
/// history written this frame (the first under write index 0, the second
/// under any other).
pub proof fn lemma_debug_layer_sources(history_write_index: u32)
    ensures
        spec_debug_layer_source(1, history_write_index) == DebugLayerSource::Velocity,
        spec_debug_layer_source(2, history_write_index) == DebugLayerSource::Normal,
        spec_debug_layer_source(3, history_write_index) == DebugLayerSource::Gtao,
        spec_debug_layer_source(4, history_write_index) == DebugLayerSource::ShIrradiance,
        spec_debug_layer_source(5, history_write_index) == DebugLayerSource::Hiz,
        spec_debug_layer_source(6, history_write_index) == DebugLayerSource::Hiz,
        spec_debug_layer_source(7, history_write_index) == (if history_write_index == 0 {
            DebugLayerSource::ShadowHistoryA
        } else {
            DebugLayerSource::ShadowHistoryB
        }),
{
}

} // verus!
