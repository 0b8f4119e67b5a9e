//! Push constants of the ambient-occlusion passes.
use vstd::prelude::*;
use crate::layout::{MAX_PUSH_CONSTANTS_SIZE, DeviceAddress, lo_word, hi_word, join_words, zeros, words_to_bytes, bytes_to_words, lemma_words_to_bytes, lemma_split_join, push_u64, push_zeros, words_to_le_bytes};

verus! {

/// Push constants of the spatial ambient-occlusion denoiser.
#[derive(Clone, Copy, Debug)]
pub struct AoSpatialPushConstants {
    pub scene_buffer_device_address: DeviceAddress,
    pub noisy_descriptor_id: u32,
    pub guide_descriptor_id: u32,
    pub ao_storage_id: u32,
    pub width: u32,
    pub height: u32,
    /// Bit pattern of the plane sensitivity (an `f32` in the shader block).
    pub plane_sensitivity: u32,
    /// Bit pattern of the normal threshold (an `f32` in the shader block).
    pub normal_threshold: u32,
    /// Bit pattern of the blur radius (an `f32` in the shader block).
    pub blur_radius: u32,
    pub frame_number: u32,
}

impl AoSpatialPushConstants {
    /// Size of the block in bytes: an address, nine words and twenty-one padding words.
    pub const SIZE: usize = 128;

    /// The block holding the given values.
    pub fn create(
        scene_buffer_device_address: DeviceAddress,
        noisy_descriptor_id: u32,
        guide_descriptor_id: u32,
        ao_storage_id: u32,
        width: u32,
        height: u32,
        plane_sensitivity: u32,
        normal_threshold: u32,
        blur_radius: u32,
        frame_number: u32,
    ) -> (pc: Self)
        ensures
            pc.scene_buffer_device_address == scene_buffer_device_address,
            pc.noisy_descriptor_id == noisy_descriptor_id,
            pc.guide_descriptor_id == guide_descriptor_id,
            pc.ao_storage_id == ao_storage_id,
            pc.width == width,
            pc.height == height,
            pc.plane_sensitivity == plane_sensitivity,
            pc.normal_threshold == normal_threshold,
            pc.blur_radius == blur_radius,
            pc.frame_number == frame_number,
    {
        Self {
            scene_buffer_device_address,
            noisy_descriptor_id,
            guide_descriptor_id,
            ao_storage_id,
            width,
            height,
            plane_sensitivity,
            normal_threshold,
            blur_radius,
            frame_number,
        }
    }

    /// The block as words, in field order, padded with zeros.
    pub open spec fn words(self) -> Seq<u32> {
        seq![
            lo_word(self.scene_buffer_device_address),
            hi_word(self.scene_buffer_device_address),
            self.noisy_descriptor_id,
            self.guide_descriptor_id,
            self.ao_storage_id,
            self.width,
            self.height,
            self.plane_sensitivity,
            self.normal_threshold,
            self.blur_radius,
            self.frame_number,
        ] + zeros(21)
    }

    /// The block that a word sequence holds.
    pub open spec fn from_words(w: Seq<u32>) -> Self {
        Self {
            scene_buffer_device_address: join_words(w[0], w[1]),
            noisy_descriptor_id: w[2],
            guide_descriptor_id: w[3],
            ao_storage_id: w[4],
            width: w[5],
            height: w[6],
            plane_sensitivity: w[7],
            normal_threshold: w[8],
            blur_radius: w[9],
            frame_number: w[10],
        }
    }

    /// The byte image of the block, as the GPU reads it.
    pub fn to_bytes(&self) -> (bytes: Vec<u8>)
        ensures
            bytes@ == words_to_bytes(self.words()),
            bytes@.len() == Self::SIZE,
    {
        let mut w: Vec<u32> = Vec::new();
        push_u64(&mut w, self.scene_buffer_device_address);
        w.push(self.noisy_descriptor_id);
        w.push(self.guide_descriptor_id);
        w.push(self.ao_storage_id);
        w.push(self.width);
        w.push(self.height);
        w.push(self.plane_sensitivity);
        w.push(self.normal_threshold);
        w.push(self.blur_radius);
        w.push(self.frame_number);
        push_zeros(&mut w, 21);
        assert(w@ =~= self.words());
        words_to_le_bytes(&w)
    }

    /// The byte image is `SIZE` bytes, fits the guaranteed push-constant range,
    /// and every field reads back from it.
    pub proof fn lemma_layout(self)
        ensures
            words_to_bytes(self.words()).len() == Self::SIZE,
            Self::SIZE <= MAX_PUSH_CONSTANTS_SIZE,
            Self::from_words(bytes_to_words(words_to_bytes(self.words()))) == self,
    {
        lemma_words_to_bytes(self.words());
        lemma_split_join(self.scene_buffer_device_address);
    }
}

/// Push constants of the ambient-occlusion pass over full-resolution depth.
#[derive(Clone, Copy, Debug)]
pub struct GtaoPushConstants {
    pub scene_buffer_device_address: DeviceAddress,
    pub depth_descriptor_id: u32,
    pub normal_descriptor_id: u32,
    pub gtao_storage_id: u32,
    pub width: u32,
    pub height: u32,
    pub temporal_index: u32,
    /// Bit pattern of the sampling radius (an `f32` in the shader block).
    pub radius: u32,
    /// Bit pattern of the occlusion power (an `f32` in the shader block).
    pub power: u32,
}

impl GtaoPushConstants {
    /// Size of the block in bytes: an address, eight words and twenty-two padding words.
    pub const SIZE: usize = 128;

    /// The block holding the given values.
    pub fn create(
        scene_buffer_device_address: DeviceAddress,
        depth_descriptor_id: u32,
        normal_descriptor_id: u32,
        gtao_storage_id: u32,
        width: u32,
        height: u32,
        temporal_index: u32,
        radius: u32,
        power: u32,
    ) -> (pc: Self)
        ensures
            pc.scene_buffer_device_address == scene_buffer_device_address,
            pc.depth_descriptor_id == depth_descriptor_id,
            pc.normal_descriptor_id == normal_descriptor_id,
            pc.gtao_storage_id == gtao_storage_id,
            pc.width == width,
            pc.height == height,
            pc.temporal_index == temporal_index,
            pc.radius == radius,
            pc.power == power,
    {
        Self {
            scene_buffer_device_address,
            depth_descriptor_id,
            normal_descriptor_id,
            gtao_storage_id,
            width,
            height,
            temporal_index,
            radius,
            power,
        }
    }

    /// The block as words, in field order, padded with zeros.
    pub open spec fn words(self) -> Seq<u32> {
        seq![
            lo_word(self.scene_buffer_device_address),
            hi_word(self.scene_buffer_device_address),
            self.depth_descriptor_id,
            self.normal_descriptor_id,
            self.gtao_storage_id,
            self.width,
            self.height,
            self.temporal_index,
            self.radius,
            self.power,
        ] + zeros(22)
    }

    /// The block that a word sequence holds.
    pub open spec fn from_words(w: Seq<u32>) -> Self {
        Self {
            scene_buffer_device_address: join_words(w[0], w[1]),
            depth_descriptor_id: w[2],
            normal_descriptor_id: w[3],
            gtao_storage_id: w[4],
            width: w[5],
            height: w[6],
            temporal_index: w[7],
            radius: w[8],
            power: w[9],
        }
    }

    /// The byte image of the block, as the GPU reads it.
    pub fn to_bytes(&self) -> (bytes: Vec<u8>)
        ensures
            bytes@ == words_to_bytes(self.words()),
            bytes@.len() == Self::SIZE,
    {
        let mut w: Vec<u32> = Vec::new();
        push_u64(&mut w, self.scene_buffer_device_address);
        w.push(self.depth_descriptor_id);
        w.push(self.normal_descriptor_id);
        w.push(self.gtao_storage_id);
        w.push(self.width);
        w.push(self.height);
        w.push(self.temporal_index);
        w.push(self.radius);
        w.push(self.power);
        push_zeros(&mut w, 22);
        assert(w@ =~= self.words());
        words_to_le_bytes(&w)
    }

    /// The byte image is `SIZE` bytes, fits the guaranteed push-constant range,
    /// and every field reads back from it.
    pub proof fn lemma_layout(self)
        ensures
            words_to_bytes(self.words()).len() == Self::SIZE,
            Self::SIZE <= MAX_PUSH_CONSTANTS_SIZE,
            Self::from_words(bytes_to_words(words_to_bytes(self.words()))) == self,
    {
        lemma_words_to_bytes(self.words());
        lemma_split_join(self.scene_buffer_device_address);
    }
}

/// Push constants of the pass that converts depth to view-space z.
#[derive(Clone, Copy, Debug)]
pub struct GtaoDepthPushConstants {
    pub scene_buffer_device_address: DeviceAddress,
    pub depth_descriptor_id: u32,
    pub view_z_storage_id: u32,
    pub width: u32,
    pub height: u32,
}

impl GtaoDepthPushConstants {
    /// Size of the block in bytes: an address, four words and twenty-six padding words.
    pub const SIZE: usize = 128;

    /// The block holding the given values.
    pub fn create(
        scene_buffer_device_address: DeviceAddress,
        depth_descriptor_id: u32,
        view_z_storage_id: u32,
        width: u32,
        height: u32,
    ) -> (pc: Self)
        ensures
            pc.scene_buffer_device_address == scene_buffer_device_address,
            pc.depth_descriptor_id == depth_descriptor_id,
            pc.view_z_storage_id == view_z_storage_id,
            pc.width == width,
            pc.height == height,
    {
        Self {
            scene_buffer_device_address,
            depth_descriptor_id,
            view_z_storage_id,
            width,
            height,
        }
    }

    /// The block as words, in field order, padded with zeros.
    pub open spec fn words(self) -> Seq<u32> {
        seq![
            lo_word(self.scene_buffer_device_address),
            hi_word(self.scene_buffer_device_address),
            self.depth_descriptor_id,
            self.view_z_storage_id,
            self.width,
            self.height,
        ] + zeros(26)
    }

    /// The block that a word sequence holds.
    pub open spec fn from_words(w: Seq<u32>) -> Self {
        Self {
            scene_buffer_device_address: join_words(w[0], w[1]),
            depth_descriptor_id: w[2],
            view_z_storage_id: w[3],
            width: w[4],
            height: w[5],
        }
    }

    /// The byte image of the block, as the GPU reads it.
    pub fn to_bytes(&self) -> (bytes: Vec<u8>)
        ensures
            bytes@ == words_to_bytes(self.words()),
            bytes@.len() == Self::SIZE,
    {
        let mut w: Vec<u32> = Vec::new();
        push_u64(&mut w, self.scene_buffer_device_address);
        w.push(self.depth_descriptor_id);
        w.push(self.view_z_storage_id);
        w.push(self.width);
        w.push(self.height);
        push_zeros(&mut w, 26);
        assert(w@ =~= self.words());
        words_to_le_bytes(&w)
    }

    /// The byte image is `SIZE` bytes, fits the guaranteed push-constant range,
    /// and every field reads back from it.
    pub proof fn lemma_layout(self)
        ensures
            words_to_bytes(self.words()).len() == Self::SIZE,
            Self::SIZE <= MAX_PUSH_CONSTANTS_SIZE,
            Self::from_words(bytes_to_words(words_to_bytes(self.words()))) == self,
    {
        lemma_words_to_bytes(self.words());
        lemma_split_join(self.scene_buffer_device_address);
    }
}

/// Push constants of the pass that downsamples one view-z mip into the next.
#[derive(Clone, Copy, Debug)]
pub struct GtaoDepthMipPushConstants {
    pub source_descriptor_id: u32,
    pub view_z_storage_id: u32,
    pub width: u32,
    pub height: u32,
    pub source_width: u32,
    pub source_height: u32,
    /// Bit pattern of the sampling radius (an `f32` in the shader block).
    pub radius: u32,
}

impl GtaoDepthMipPushConstants {
    /// Size of the block in bytes: seven words and twenty-five padding words.
    pub const SIZE: usize = 128;

    /// The block holding the given values.
    pub fn create(
        source_descriptor_id: u32,
        view_z_storage_id: u32,
        width: u32,
        height: u32,
        source_width: u32,
        source_height: u32,
        radius: u32,
    ) -> (pc: Self)
        ensures
            pc.source_descriptor_id == source_descriptor_id,
            pc.view_z_storage_id == view_z_storage_id,
            pc.width == width,
            pc.height == height,
            pc.source_width == source_width,
            pc.source_height == source_height,
            pc.radius == radius,
    {
        Self {
            source_descriptor_id,
            view_z_storage_id,
            width,
            height,
            source_width,
            source_height,
            radius,
        }
    }

    /// The block as words, in field order, padded with zeros.
    pub open spec fn words(self) -> Seq<u32> {
        seq![
            self.source_descriptor_id,
            self.view_z_storage_id,
            self.width,
            self.height,
            self.source_width,
            self.source_height,
            self.radius,
        ] + zeros(25)
    }

    /// The block that a word sequence holds.
    pub open spec fn from_words(w: Seq<u32>) -> Self {
        Self {
            source_descriptor_id: w[0],
            view_z_storage_id: w[1],
            width: w[2],
            height: w[3],
            source_width: w[4],
            source_height: w[5],
            radius: w[6],
        }
    }

    /// The byte image of the block, as the GPU reads it.
    pub fn to_bytes(&self) -> (bytes: Vec<u8>)
        ensures
            bytes@ == words_to_bytes(self.words()),
            bytes@.len() == Self::SIZE,
    {
        let mut w: Vec<u32> = Vec::new();
        w.push(self.source_descriptor_id);
        w.push(self.view_z_storage_id);
        w.push(self.width);
        w.push(self.height);
        w.push(self.source_width);
        w.push(self.source_height);
        w.push(self.radius);
        push_zeros(&mut w, 25);
        assert(w@ =~= self.words());
        words_to_le_bytes(&w)
    }

    /// The byte image is `SIZE` bytes, fits the guaranteed push-constant range,
    /// and every field reads back from it.
    pub proof fn lemma_layout(self)
        ensures
            words_to_bytes(self.words()).len() == Self::SIZE,
            Self::SIZE <= MAX_PUSH_CONSTANTS_SIZE,
            Self::from_words(bytes_to_words(words_to_bytes(self.words()))) == self,
    {
        lemma_words_to_bytes(self.words());
    }
}

/// Push constants of the pass that writes the denoiser's guide image.
#[derive(Clone, Copy, Debug)]
pub struct DenoiseGuidePushConstants {
    /// Device address of the scene buffer.
    pub scene_buffer_device_address: DeviceAddress,
    pub depth_descriptor_id: u32,
    pub normal_descriptor_id: u32,
    pub guide_storage_id: u32,
    pub width: u32,
    pub height: u32,
}

impl DenoiseGuidePushConstants {
    /// Size of the block in bytes: an address, five words and one padding word.
    pub const SIZE: usize = 32;

    /// The block holding the given values.
    pub fn create(
        scene_buffer_device_address: DeviceAddress,
        depth_descriptor_id: u32,
        normal_descriptor_id: u32,
        guide_storage_id: u32,
        width: u32,
        height: u32,
    ) -> (pc: Self)
        ensures
            pc.scene_buffer_device_address == scene_buffer_device_address,
            pc.depth_descriptor_id == depth_descriptor_id,
            pc.normal_descriptor_id == normal_descriptor_id,
            pc.guide_storage_id == guide_storage_id,
            pc.width == width,
            pc.height == height,
    {
        Self {
            scene_buffer_device_address,
            depth_descriptor_id,
            normal_descriptor_id,
            guide_storage_id,
            width,
            height,
        }
    }

    /// The block as words, in field order, padded with zeros.
    pub open spec fn words(self) -> Seq<u32> {
        seq![
            lo_word(self.scene_buffer_device_address),
            hi_word(self.scene_buffer_device_address),
            self.depth_descriptor_id,
            self.normal_descriptor_id,
            self.guide_storage_id,
            self.width,
            self.height,
        ] + zeros(1)
    }

    /// The block that a word sequence holds.
    pub open spec fn from_words(w: Seq<u32>) -> Self {
        Self {
            scene_buffer_device_address: join_words(w[0], w[1]),
            depth_descriptor_id: w[2],
            normal_descriptor_id: w[3],
            guide_storage_id: w[4],
            width: w[5],
            height: w[6],
        }
    }

    /// The byte image of the block, as the GPU reads it.
    pub fn to_bytes(&self) -> (bytes: Vec<u8>)
        ensures
            bytes@ == words_to_bytes(self.words()),
            bytes@.len() == Self::SIZE,
    {
        let mut w: Vec<u32> = Vec::new();
        push_u64(&mut w, self.scene_buffer_device_address);
        w.push(self.depth_descriptor_id);
        w.push(self.normal_descriptor_id);
        w.push(self.guide_storage_id);
        w.push(self.width);
        w.push(self.height);
        push_zeros(&mut w, 1);
        assert(w@ =~= self.words());
        words_to_le_bytes(&w)
    }

    /// The byte image is `SIZE` bytes, fits the guaranteed push-constant range,
    /// and every field reads back from it.
    pub proof fn lemma_layout(self)
        ensures
            words_to_bytes(self.words()).len() == Self::SIZE,
            Self::SIZE <= MAX_PUSH_CONSTANTS_SIZE,
            Self::from_words(bytes_to_words(words_to_bytes(self.words()))) == self,
    {
        lemma_words_to_bytes(self.words());
        lemma_split_join(self.scene_buffer_device_address);
    }
}

/// Push constants of the ray-traced ambient-occlusion pass.
#[derive(Clone, Copy, Debug)]
pub struct RTAOPushConstants {
    pub scene_buffer_device_address: DeviceAddress,
    pub depth_descriptor_id: u32,
    pub normal_descriptor_id: u32,
    pub ao_storage_id: u32,
    pub width: u32,
    pub height: u32,
    pub tlas_descriptor_id: u32,
    /// Bit pattern of the occlusion radius (an `f32` in the shader block).
    pub ao_radius: u32,
    pub sample_count: u32,
    /// Bit pattern of the occlusion power (an `f32` in the shader block).
    pub ao_power: u32,
    pub frame_number: u32,
    pub trace_period: u32,
}

impl RTAOPushConstants {
    /// Size of the block in bytes: an address, eleven words and nineteen padding words.
    pub const SIZE: usize = 128;

    /// The block holding the given values.
    pub fn create(
        scene_buffer_device_address: DeviceAddress,
        depth_descriptor_id: u32,
        normal_descriptor_id: u32,
        ao_storage_id: u32,
        width: u32,
        height: u32,
        tlas_descriptor_id: u32,
        ao_radius: u32,
        sample_count: u32,
        ao_power: u32,
        frame_number: u32,
        trace_period: u32,
    ) -> (pc: Self)
        ensures
            pc.scene_buffer_device_address == scene_buffer_device_address,
            pc.depth_descriptor_id == depth_descriptor_id,
            pc.normal_descriptor_id == normal_descriptor_id,
            pc.ao_storage_id == ao_storage_id,
            pc.width == width,
            pc.height == height,
            pc.tlas_descriptor_id == tlas_descriptor_id,
            pc.ao_radius == ao_radius,
            pc.sample_count == sample_count,
            pc.ao_power == ao_power,
            pc.frame_number == frame_number,
            pc.trace_period == trace_period,
    {
        Self {
            scene_buffer_device_address,
            depth_descriptor_id,
            normal_descriptor_id,
            ao_storage_id,
            width,
            height,
            tlas_descriptor_id,
            ao_radius,
            sample_count,
            ao_power,
            frame_number,
            trace_period,
        }
    }

    /// The block as words, in field order, padded with zeros.
    pub open spec fn words(self) -> Seq<u32> {
        seq![
            lo_word(self.scene_buffer_device_address),
            hi_word(self.scene_buffer_device_address),
            self.depth_descriptor_id,
            self.normal_descriptor_id,
            self.ao_storage_id,
            self.width,
            self.height,
            self.tlas_descriptor_id,
            self.ao_radius,
            self.sample_count,
            self.ao_power,
            self.frame_number,
            self.trace_period,
        ] + zeros(19)
    }

    /// The block that a word sequence holds.
    pub open spec fn from_words(w: Seq<u32>) -> Self {
        Self {
            scene_buffer_device_address: join_words(w[0], w[1]),
            depth_descriptor_id: w[2],
            normal_descriptor_id: w[3],
            ao_storage_id: w[4],
            width: w[5],
            height: w[6],
            tlas_descriptor_id: w[7],
            ao_radius: w[8],
            sample_count: w[9],
            ao_power: w[10],
            frame_number: w[11],
            trace_period: w[12],
        }
    }

    /// The byte image of the block, as the GPU reads it.
    pub fn to_bytes(&self) -> (bytes: Vec<u8>)
        ensures
            bytes@ == words_to_bytes(self.words()),
            bytes@.len() == Self::SIZE,
    {
        let mut w: Vec<u32> = Vec::new();
        push_u64(&mut w, self.scene_buffer_device_address);
        w.push(self.depth_descriptor_id);
        w.push(self.normal_descriptor_id);
        w.push(self.ao_storage_id);
        w.push(self.width);
        w.push(self.height);
        w.push(self.tlas_descriptor_id);
        w.push(self.ao_radius);
        w.push(self.sample_count);
        w.push(self.ao_power);
        w.push(self.frame_number);
        w.push(self.trace_period);
        push_zeros(&mut w, 19);
        assert(w@ =~= self.words());
        words_to_le_bytes(&w)
    }

    /// The byte image is `SIZE` bytes, fits the guaranteed push-constant range,
    /// and every field reads back from it.
    pub proof fn lemma_layout(self)
        ensures
            words_to_bytes(self.words()).len() == Self::SIZE,
            Self::SIZE <= MAX_PUSH_CONSTANTS_SIZE,
            Self::from_words(bytes_to_words(words_to_bytes(self.words()))) == self,
    {
        lemma_words_to_bytes(self.words());
        lemma_split_join(self.scene_buffer_device_address);
    }
}

/// What the spatial denoiser prepares for a frame: nothing.
#[derive(Clone, Copy, Debug)]
pub struct AoSpatialPassData;

/// What the view-z pass prepares for a frame: nothing.
#[derive(Clone, Copy, Debug)]
pub struct GtaoDepthPassData;

/// What the view-z downsampling pass prepares for a frame.
#[derive(Clone, Copy, Debug)]
pub struct GtaoDepthMipPassData {
    /// Bit pattern of the sampling radius (an `f32` setting).
    pub radius: u32,
}

/// What the ambient-occlusion pass prepares for a frame.
#[derive(Clone, Copy, Debug)]
pub struct GtaoPassData {
    /// Bit pattern of the sampling radius (an `f32` setting).
    pub radius: u32,
    /// Bit pattern of the occlusion power (an `f32` setting).
    pub power: u32,
}

/// What the ray-traced ambient-occlusion pass prepares for a frame.
#[derive(Clone, Copy, Debug)]
pub struct RTAOPassData {
    /// Bit pattern of the occlusion radius (an `f32` setting).
    pub ao_radius: u32,
    pub sample_count: u32,
    /// Bit pattern of the occlusion power (an `f32` setting).
    pub ao_power: u32,
    pub trace_period: u32,
}

/// The trace period of ray-traced occlusion for a trace-period setting:
/// the setting indexes the table of periods, and settings past its end
/// take its last entry.
pub fn ao_trace_period(trace_periods: &[u32; 3], setting: usize) -> (period: u32)
    ensures
        period == trace_periods@[if setting < 2 { setting as int } else { 2 }],
{
    let index = if setting < 2 { setting } else { 2 };
    trace_periods[index]
}

impl RTAOPassData {
    /// What the ray-traced occlusion pass prepares: the radius and power
    /// settings, the sample count (the rounded sample setting, at least
    /// one), and the trace period the trace-period setting selects.
    pub fn prepare(
        ao_radius: u32,
        sample_count: u32,
        ao_power: u32,
        trace_periods: &[u32; 3],
        trace_period_setting: usize,
    ) -> (data: Self)
        ensures
            data.ao_radius == ao_radius,
            data.sample_count == sample_count,
            data.ao_power == ao_power,
            data.trace_period == trace_periods@[if trace_period_setting < 2 { trace_period_setting as int } else { 2 }],
    {
        RTAOPassData {
            ao_radius,
            sample_count,
            ao_power,
            trace_period: ao_trace_period(trace_periods, trace_period_setting),
        }
    }
}

/// How ambient occlusion is computed for a frame.
#[derive(Clone, Copy, Debug, PartialEq, Eq, Structural)]
pub enum AoTechnique {
    /// Rays against the top-level acceleration structure.
    RayTraced,
    /// Horizon search in screen space.
    ScreenSpace,
}

/// Ray-traced occlusion is used when it is asked for and an acceleration
/// structure exists; otherwise the screen-space pass runs.
pub fn ao_technique(rt_ao: bool, has_tlas: bool) -> (technique: AoTechnique)
    ensures
        technique == (if rt_ao && has_tlas { AoTechnique::RayTraced } else { AoTechnique::ScreenSpace }),
{
    if rt_ao && has_tlas {
        AoTechnique::RayTraced
    } else {
        AoTechnique::ScreenSpace
    }
}

/// The denoiser's guide image is written when ambient occlusion is on, or
/// when shadows are on and denoised.
pub fn denoise_guide_enabled(ao_enabled: bool, shadow_enabled: bool, shadow_denoise: bool) -> (enabled: bool)
    ensures
        enabled == (ao_enabled || (shadow_enabled && shadow_denoise)),
{
    ao_enabled || (shadow_enabled && shadow_denoise)
}


} // verus!
