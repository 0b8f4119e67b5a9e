//! The commands the compute and fullscreen passes record each frame: which
//! history image they write, which descriptors they hand the shader, and
//! the dispatch or draw that follows. A pass whose shader needs a
//! descriptor the frame's image lacks either records nothing or, where the
//! pass cannot run without it, requires it.
use vstd::prelude::*;
use crate::recording::{Command, CommandView, commands_view};
use crate::vulkan::{BIND_POINT_COMPUTE, BIND_POINT_GRAPHICS};
use crate::dispatch::{groups_for, dispatch_2d_group_count, hiz_group_count, WORKGROUP_SIZE_2D, HIZ_WORKGROUP_SIZE};
use crate::history::{history_roles, history_pair};
use crate::layout::DeviceAddress;
use crate::main_pass::flag_word;
use crate::accumulate::AccumulatePushConstants;
use crate::gtao::GtaoTemporalPushConstants;
use crate::ao::{
    AoSpatialPushConstants,
    DenoiseGuidePushConstants,
    GtaoDepthMipPushConstants,
    GtaoDepthMipPassData,
    GtaoDepthPushConstants,
    GtaoPassData,
    GtaoPushConstants,
    RTAOPassData,
    RTAOPushConstants,
};
use crate::mips::{spec_mip_extent, depth_mip_extents};
use crate::hiz::{HiZPushConstants, hiz_storage_ids};
use crate::main_pass::{MainPassData, MainBuffers, MainDescriptors, MainPushConstants, descriptor_or_zero};
use crate::debug_layer::{DebugLayerPushConstants, DEBUG_LAYER_VELOCITY, DEBUG_LAYER_SHADOW};
use crate::depth::DepthPushConstants;
use crate::bloom::BloomPushConstants;
use crate::environment::EnvironmentPushConstants;
use crate::draw_sort::{DrawBucket, DrawSortPushConstants};

verus! {

/// An image as the frame's resources offer it to a pass: its sampled
/// descriptor, the storage descriptor of its first mip, and its extent.
#[derive(Clone, Copy, Debug)]
pub struct PassImage {
    pub full: Option<u32>,
    pub first_storage: Option<u32>,
    pub width: u32,
    pub height: u32,
}

/// Workgroups along one axis of a two-dimensional dispatch over `n` texels.
pub open spec fn groups_2d(n: u32) -> u32 {
    groups_for(n as int, WORKGROUP_SIZE_2D as int) as u32
}

/// A compute pass's commands: bind its pipeline, push its constants,
/// dispatch.
pub open spec fn compute_commands<P>(pc: P, x: u32, y: u32) -> Seq<CommandView<(), P>> {
    seq![
        CommandView::BindPipeline(BIND_POINT_COMPUTE),
        CommandView::PushConstants(pc),
        CommandView::Dispatch(x, y, 1),
    ]
}

/// A compute pass's commands over a `width` by `height` image.
pub open spec fn compute_2d_commands<P>(pc: P, width: u32, height: u32) -> Seq<CommandView<(), P>> {
    compute_commands(pc, groups_2d(width), groups_2d(height))
}

/// Records bind, push and a dispatch of `x` by `y` workgroups.
fn record_compute<P>(pc: P, x: u32, y: u32) -> (c: Vec<Command<(), P>>)
    ensures
        commands_view(c@) == compute_commands(pc, x, y),
{
    let mut c: Vec<Command<(), P>> = Vec::new();
    c.push(Command::BindPipeline(BIND_POINT_COMPUTE));
    c.push(Command::PushConstants(pc));
    c.push(Command::Dispatch(x, y, 1));
    assert(commands_view(c@) =~= compute_commands(pc, x, y));
    c
}

/// Records bind, push and a dispatch over a `width` by `height` image.
fn record_compute_2d<P>(pc: P, width: u32, height: u32) -> (c: Vec<Command<(), P>>)
    requires
        width + 15 <= u32::MAX,
        height + 15 <= u32::MAX,
    ensures
        commands_view(c@) == compute_2d_commands(pc, width, height),
{
    let groups = dispatch_2d_group_count(width, height);
    record_compute(pc, groups.0, groups.1)
}

/// The accumulation pass's block: the scene color, the velocity, the
/// history read this frame and the storage of the history written this
/// frame, the history flag, and the written history's extent.
pub open spec fn accumulate_push_constants(
    history_write_index: u32,
    history_valid: bool,
    scene: PassImage,
    velocity: PassImage,
    history_a: PassImage,
    history_b: PassImage,
) -> AccumulatePushConstants {
    let (curr, prev) = history_roles(history_write_index, history_a, history_b);
    AccumulatePushConstants {
        scene_color_texture: scene.full->0,
        velocity_texture: velocity.full->0,
        history_prev_texture: prev.full->0,
        history_curr_storage: curr.first_storage->0,
        history_valid: flag_word(history_valid),
        display_width: curr.width,
        display_height: curr.height,
    }
}

/// The accumulation pass's descriptors are all there.
pub open spec fn accumulate_ready(
    history_write_index: u32,
    scene: PassImage,
    velocity: PassImage,
    history_a: PassImage,
    history_b: PassImage,
) -> bool {
    let (curr, prev) = history_roles(history_write_index, history_a, history_b);
    scene.full is Some && velocity.full is Some && prev.full is Some && curr.first_storage is Some
}

/// What the accumulation pass records: nothing when a descriptor it needs
/// is missing, else a dispatch over the written history image.
pub fn accumulate_commands(
    history_write_index: u32,
    history_valid: bool,
    scene: PassImage,
    velocity: PassImage,
    history_a: PassImage,
    history_b: PassImage,
) -> (c: Vec<Command<(), AccumulatePushConstants>>)
    requires
        history_roles(history_write_index, history_a, history_b).0.width + 15 <= u32::MAX,
        history_roles(history_write_index, history_a, history_b).0.height + 15 <= u32::MAX,
    ensures
        commands_view(c@) == (if accumulate_ready(history_write_index, scene, velocity, history_a, history_b) {
            compute_2d_commands(
                accumulate_push_constants(history_write_index, history_valid, scene, velocity, history_a, history_b),
                history_roles(history_write_index, history_a, history_b).0.width,
                history_roles(history_write_index, history_a, history_b).0.height,
            )
        } else {
            Seq::empty()
        }),
{
    let (curr, prev) = history_pair(history_write_index, history_a, history_b);
    let scene_color_texture = match scene.full {
        Some(id) => id,
        None => {
            let c: Vec<Command<(), AccumulatePushConstants>> = Vec::new();
            assert(commands_view(c@) =~= Seq::empty());
            return c;
        },
    };
    let velocity_texture = match velocity.full {
        Some(id) => id,
        None => {
            let c: Vec<Command<(), AccumulatePushConstants>> = Vec::new();
            assert(commands_view(c@) =~= Seq::empty());
            return c;
        },
    };
    let history_prev_texture = match prev.full {
        Some(id) => id,
        None => {
            let c: Vec<Command<(), AccumulatePushConstants>> = Vec::new();
            assert(commands_view(c@) =~= Seq::empty());
            return c;
        },
    };
    let history_curr_storage = match curr.first_storage {
        Some(id) => id,
        None => {
            let c: Vec<Command<(), AccumulatePushConstants>> = Vec::new();
            assert(commands_view(c@) =~= Seq::empty());
            return c;
        },
    };
    let pc = AccumulatePushConstants::create(
        scene_color_texture,
        velocity_texture,
        history_prev_texture,
        history_curr_storage,
        if history_valid { 1 } else { 0 },
        curr.width,
        curr.height,
    );
    record_compute_2d(pc, curr.width, curr.height)
}

/// The temporal ambient-occlusion filter's block, laid out as the
/// accumulation pass's.
pub open spec fn gtao_temporal_push_constants(
    history_write_index: u32,
    history_valid: bool,
    gtao: PassImage,
    velocity: PassImage,
    history_a: PassImage,
    history_b: PassImage,
) -> GtaoTemporalPushConstants {
    let (curr, prev) = history_roles(history_write_index, history_a, history_b);
    GtaoTemporalPushConstants {
        gtao_texture: gtao.full->0,
        velocity_texture: velocity.full->0,
        history_prev_texture: prev.full->0,
        history_curr_storage: curr.first_storage->0,
        history_valid: flag_word(history_valid),
        width: curr.width,
        height: curr.height,
    }
}

/// What the temporal ambient-occlusion filter records: a dispatch over the
/// written history image. It cannot run without its descriptors.
pub fn gtao_temporal_commands(
    history_write_index: u32,
    history_valid: bool,
    gtao: PassImage,
    velocity: PassImage,
    history_a: PassImage,
    history_b: PassImage,
) -> (c: Vec<Command<(), GtaoTemporalPushConstants>>)
    requires
        accumulate_ready(history_write_index, gtao, velocity, history_a, history_b),
        history_roles(history_write_index, history_a, history_b).0.width + 15 <= u32::MAX,
        history_roles(history_write_index, history_a, history_b).0.height + 15 <= u32::MAX,
    ensures
        match commands_view(c@)[1] {
            CommandView::PushConstants(pc) => {
                &&& pc.gtao_texture == gtao.full->0
                &&& pc.velocity_texture == velocity.full->0
                &&& pc.history_prev_texture == (if history_write_index == 0 { history_b } else { history_a }).full->0
                &&& pc.history_curr_storage == (if history_write_index == 0 { history_a } else { history_b }).first_storage->0
                &&& pc.history_valid == (if history_valid { 1u32 } else { 0u32 })
            },
            _ => false,
        },
        commands_view(c@) == compute_2d_commands(
            gtao_temporal_push_constants(history_write_index, history_valid, gtao, velocity, history_a, history_b),
            history_roles(history_write_index, history_a, history_b).0.width,
            history_roles(history_write_index, history_a, history_b).0.height,
        ),
{
    let (curr, prev) = history_pair(history_write_index, history_a, history_b);
    let pc = GtaoTemporalPushConstants::create(
        gtao.full.unwrap(),
        velocity.full.unwrap(),
        prev.full.unwrap(),
        curr.first_storage.unwrap(),
        if history_valid { 1 } else { 0 },
        curr.width,
        curr.height,
    );
    record_compute_2d(pc, curr.width, curr.height)
}

/// The denoiser-guide pass's block: the depth and normal descriptors and
/// the storage of the guide image written this frame, with its extent.
pub open spec fn denoise_guide_push_constants(
    history_write_index: u32,
    scene_buffer_device_address: DeviceAddress,
    depth: PassImage,
    normal: PassImage,
    guide_a: PassImage,
    guide_b: PassImage,
) -> DenoiseGuidePushConstants {
    let curr = history_roles(history_write_index, guide_a, guide_b).0;
    DenoiseGuidePushConstants {
        scene_buffer_device_address,
        depth_descriptor_id: depth.full->0,
        normal_descriptor_id: normal.full->0,
        guide_storage_id: curr.first_storage->0,
        width: curr.width,
        height: curr.height,
    }
}

/// What the denoiser-guide pass records: a dispatch over the guide image
/// written this frame.
pub fn denoise_guide_commands(
    history_write_index: u32,
    scene_buffer_device_address: DeviceAddress,
    depth: PassImage,
    normal: PassImage,
    guide_a: PassImage,
    guide_b: PassImage,
) -> (c: Vec<Command<(), DenoiseGuidePushConstants>>)
    requires
        depth.full is Some,
        normal.full is Some,
        history_roles(history_write_index, guide_a, guide_b).0.first_storage is Some,
        history_roles(history_write_index, guide_a, guide_b).0.width + 15 <= u32::MAX,
        history_roles(history_write_index, guide_a, guide_b).0.height + 15 <= u32::MAX,
    ensures
        commands_view(c@) == compute_2d_commands(
            denoise_guide_push_constants(history_write_index, scene_buffer_device_address, depth, normal, guide_a, guide_b),
            history_roles(history_write_index, guide_a, guide_b).0.width,
            history_roles(history_write_index, guide_a, guide_b).0.height,
        ),
{
    let curr = if history_write_index == 0 { guide_a } else { guide_b };
    let pc = DenoiseGuidePushConstants::create(
        scene_buffer_device_address,
        depth.full.unwrap(),
        normal.full.unwrap(),
        curr.first_storage.unwrap(),
        curr.width,
        curr.height,
    );
    record_compute_2d(pc, curr.width, curr.height)
}

/// What the view-z pass records: a dispatch over the view-z image, reading
/// depth and writing the view-z image's first mip.
pub fn gtao_depth_commands(
    scene_buffer_device_address: DeviceAddress,
    depth: PassImage,
    view_z: PassImage,
) -> (c: Vec<Command<(), GtaoDepthPushConstants>>)
    requires
        depth.full is Some,
        view_z.first_storage is Some,
        view_z.width + 15 <= u32::MAX,
        view_z.height + 15 <= u32::MAX,
    ensures
        commands_view(c@) == compute_2d_commands(
            GtaoDepthPushConstants {
                scene_buffer_device_address,
                depth_descriptor_id: depth.full->0,
                view_z_storage_id: view_z.first_storage->0,
                width: view_z.width,
                height: view_z.height,
            },
            view_z.width,
            view_z.height,
        ),
{
    let pc = GtaoDepthPushConstants::create(
        scene_buffer_device_address,
        depth.full.unwrap(),
        view_z.first_storage.unwrap(),
        view_z.width,
        view_z.height,
    );
    record_compute_2d(pc, view_z.width, view_z.height)
}

/// The view-z downsampling block: the sampled descriptor of the source mip,
/// the storage descriptor of the destination mip, both mips' extents and
/// the radius.
pub open spec fn gtao_depth_mip_push_constants(
    data: GtaoDepthMipPassData,
    sampled_mips: Seq<u32>,
    storage_mips: Seq<u32>,
    width: u32,
    height: u32,
    source_mip: u32,
    destination_mip: u32,
) -> GtaoDepthMipPushConstants {
    GtaoDepthMipPushConstants {
        source_descriptor_id: sampled_mips[source_mip as int],
        view_z_storage_id: storage_mips[destination_mip as int],
        width: spec_mip_extent(width, destination_mip),
        height: spec_mip_extent(height, destination_mip),
        source_width: spec_mip_extent(width, source_mip),
        source_height: spec_mip_extent(height, source_mip),
        radius: data.radius,
    }
}

/// What one view-z downsampling step records: a dispatch over the
/// destination mip of a `width` by `height` view-z image.
pub fn gtao_depth_mip_commands(
    data: GtaoDepthMipPassData,
    sampled_mips: &Vec<u32>,
    storage_mips: &Vec<u32>,
    width: u32,
    height: u32,
    source_mip: u32,
    destination_mip: u32,
) -> (c: Vec<Command<(), GtaoDepthMipPushConstants>>)
    requires
        source_mip < sampled_mips@.len(),
        destination_mip < storage_mips@.len(),
        source_mip < 32,
        destination_mip < 32,
        spec_mip_extent(width, destination_mip) + 15 <= u32::MAX,
        spec_mip_extent(height, destination_mip) + 15 <= u32::MAX,
    ensures
        commands_view(c@) == compute_2d_commands(
            gtao_depth_mip_push_constants(data, sampled_mips@, storage_mips@, width, height, source_mip, destination_mip),
            spec_mip_extent(width, destination_mip),
            spec_mip_extent(height, destination_mip),
        ),
{
    let e = depth_mip_extents(width, height, source_mip, destination_mip);
    let pc = GtaoDepthMipPushConstants::create(
        sampled_mips[source_mip as usize],
        storage_mips[destination_mip as usize],
        e.width,
        e.height,
        e.source_width,
        e.source_height,
        data.radius,
    );
    record_compute_2d(pc, e.width, e.height)
}

/// What the ambient-occlusion pass records: a dispatch over the occlusion
/// image, reading depth and normals; the frame number selects the
/// temporal sample.
pub fn gtao_commands(
    data: GtaoPassData,
    scene_buffer_device_address: DeviceAddress,
    depth: PassImage,
    normal: PassImage,
    gtao: PassImage,
    frame_number: u32,
) -> (c: Vec<Command<(), GtaoPushConstants>>)
    requires
        depth.full is Some,
        normal.full is Some,
        gtao.first_storage is Some,
        gtao.width + 15 <= u32::MAX,
        gtao.height + 15 <= u32::MAX,
    ensures
        commands_view(c@) == compute_2d_commands(
            GtaoPushConstants {
                scene_buffer_device_address,
                depth_descriptor_id: depth.full->0,
                normal_descriptor_id: normal.full->0,
                gtao_storage_id: gtao.first_storage->0,
                width: gtao.width,
                height: gtao.height,
                temporal_index: frame_number,
                radius: data.radius,
                power: data.power,
            },
            gtao.width,
            gtao.height,
        ),
{
    let pc = GtaoPushConstants::create(
        scene_buffer_device_address,
        depth.full.unwrap(),
        normal.full.unwrap(),
        gtao.first_storage.unwrap(),
        gtao.width,
        gtao.height,
        frame_number,
        data.radius,
        data.power,
    );
    record_compute_2d(pc, gtao.width, gtao.height)
}

/// Bit pattern of the spatial denoiser's plane sensitivity, `0.02`.
pub const AO_SPATIAL_PLANE_SENSITIVITY: u32 = 0x3ca3_d70a;
/// Bit pattern of the spatial denoiser's normal threshold, `0.8`.
pub const AO_SPATIAL_NORMAL_THRESHOLD: u32 = 0x3f4c_cccd;
/// Bit pattern of the spatial denoiser's blur radius, `5.0`.
pub const AO_SPATIAL_BLUR_RADIUS: u32 = 0x40a0_0000;

/// What the spatial denoiser records: a dispatch over the occlusion image,
/// filtering the noisy occlusion by the guide written this frame.
pub fn ao_spatial_commands(
    history_write_index: u32,
    scene_buffer_device_address: DeviceAddress,
    noisy: PassImage,
    guide: &[PassImage; 2],
    ao: PassImage,
    frame_number: u32,
) -> (c: Vec<Command<(), AoSpatialPushConstants>>)
    requires
        history_write_index < 2,
        noisy.full is Some,
        guide@[history_write_index as int].full is Some,
        ao.first_storage is Some,
        ao.width + 15 <= u32::MAX,
        ao.height + 15 <= u32::MAX,
    ensures
        commands_view(c@) == compute_2d_commands(
            AoSpatialPushConstants {
                scene_buffer_device_address,
                noisy_descriptor_id: noisy.full->0,
                guide_descriptor_id: guide@[history_write_index as int].full->0,
                ao_storage_id: ao.first_storage->0,
                width: ao.width,
                height: ao.height,
                plane_sensitivity: AO_SPATIAL_PLANE_SENSITIVITY,
                normal_threshold: AO_SPATIAL_NORMAL_THRESHOLD,
                blur_radius: AO_SPATIAL_BLUR_RADIUS,
                frame_number,
            },
            ao.width,
            ao.height,
        ),
{
    let g = guide[history_write_index as usize];
    let pc = AoSpatialPushConstants::create(
        scene_buffer_device_address,
        noisy.full.unwrap(),
        g.full.unwrap(),
        ao.first_storage.unwrap(),
        ao.width,
        ao.height,
        AO_SPATIAL_PLANE_SENSITIVITY,
        AO_SPATIAL_NORMAL_THRESHOLD,
        AO_SPATIAL_BLUR_RADIUS,
        frame_number,
    );
    record_compute_2d(pc, ao.width, ao.height)
}

/// What the ray-traced occlusion pass records: a dispatch over the
/// occlusion image; the frame's acceleration structure is the descriptor
/// at the frame index.
pub fn rt_ao_commands(
    data: RTAOPassData,
    scene_buffer_device_address: DeviceAddress,
    depth: PassImage,
    normal: PassImage,
    ao: PassImage,
    frame_index: u32,
    frame_number: u32,
) -> (c: Vec<Command<(), RTAOPushConstants>>)
    requires
        depth.full is Some,
        normal.full is Some,
        ao.first_storage is Some,
        ao.width + 15 <= u32::MAX,
        ao.height + 15 <= u32::MAX,
    ensures
        commands_view(c@) == compute_2d_commands(
            RTAOPushConstants {
                scene_buffer_device_address,
                depth_descriptor_id: depth.full->0,
                normal_descriptor_id: normal.full->0,
                ao_storage_id: ao.first_storage->0,
                width: ao.width,
                height: ao.height,
                tlas_descriptor_id: frame_index,
                ao_radius: data.ao_radius,
                sample_count: data.sample_count,
                ao_power: data.ao_power,
                frame_number,
                trace_period: data.trace_period,
            },
            ao.width,
            ao.height,
        ),
{
    let pc = RTAOPushConstants::create(
        scene_buffer_device_address,
        depth.full.unwrap(),
        normal.full.unwrap(),
        ao.first_storage.unwrap(),
        ao.width,
        ao.height,
        frame_index,
        data.ao_radius,
        data.sample_count,
        data.ao_power,
        frame_number,
        data.trace_period,
    );
    record_compute_2d(pc, ao.width, ao.height)
}

/// What the depth-pyramid pass records: bind, push and one dispatch of
/// 64-texel tiles over the depth image. The block carries the pyramid's
/// first `MAX_HIZ_MIPS` storage descriptors, zero for mips it lacks.
pub fn hiz_commands<const MAX_HIZ_MIPS: usize>(
    counter_buffer_device_address: DeviceAddress,
    depth: PassImage,
    storage_mips: &Vec<u32>,
    mip_count: u32,
) -> (c: Vec<Command<(), HiZPushConstants<MAX_HIZ_MIPS>>>)
    requires
        depth.full is Some,
        depth.width + 63 <= u32::MAX,
        depth.height + 63 <= u32::MAX,
    ensures
        commands_view(c@).len() == 3,
        commands_view(c@)[0] == CommandView::<(), HiZPushConstants<MAX_HIZ_MIPS>>::BindPipeline(BIND_POINT_COMPUTE),
        match commands_view(c@)[1] {
            CommandView::PushConstants(pc) => {
                &&& pc.counter_buffer_device_address == counter_buffer_device_address
                &&& pc.depth_descriptor_id == depth.full->0
                &&& pc.mip_count == mip_count
                &&& pc.width == depth.width
                &&& pc.height == depth.height
                &&& forall|i: int| 0 <= i < MAX_HIZ_MIPS ==>
                    #[trigger] pc.storage_ids@[i] == (if i < storage_mips@.len() { storage_mips@[i] } else { 0u32 })
            },
            _ => false,
        },
        commands_view(c@)[2] == CommandView::<(), HiZPushConstants<MAX_HIZ_MIPS>>::Dispatch(
            groups_for(depth.width as int, HIZ_WORKGROUP_SIZE as int) as u32,
            groups_for(depth.height as int, HIZ_WORKGROUP_SIZE as int) as u32,
            1,
        ),
{
    let storage_ids: [u32; MAX_HIZ_MIPS] = hiz_storage_ids(storage_mips);
    let pc = HiZPushConstants::<MAX_HIZ_MIPS>::create(
        counter_buffer_device_address,
        depth.full.unwrap(),
        mip_count,
        depth.width,
        depth.height,
        storage_ids,
    );
    let groups = hiz_group_count(depth.width, depth.height);
    record_compute(pc, groups.0, groups.1)
}

/// The main pass's block under a history write index: the shadow history
/// written this frame, the ambient-occlusion history written this frame and
/// the irradiance image, descriptor 0 for the latter two where they lack
/// one.
pub open spec fn main_pass_push_constants(
    data: MainPassData,
    history_write_index: u32,
    buffers: MainBuffers,
    shadow_history: (Option<u32>, Option<u32>),
    gtao_history: (Option<u32>, Option<u32>),
    sh: Option<u32>,
    brdf_lut: u32,
    shadow_colored: bool,
    pick_x: u32,
    pick_y: u32,
) -> MainPushConstants {
    MainPushConstants {
        scene_buffer_device_address: buffers.scene,
        draw_data_buffer_device_address: buffers.draw_data,
        vertex_buffer_device_address: buffers.vertex,
        entity_buffer_device_address: buffers.entity,
        submesh_buffer_device_address: buffers.submesh,
        material_buffer_device_address: buffers.material,
        bone_transform_buffer_device_address: buffers.bone_transform,
        picked_entity_buffer_device_address: buffers.picked_entity,
        shadow_factor_descriptor_id: history_roles(history_write_index, shadow_history.0, shadow_history.1).0->0,
        shadow_enabled: flag_word(data.shadow_enabled),
        shadow_colored: flag_word(shadow_colored),
        gtao_descriptor_id: descriptor_or_zero(history_roles(history_write_index, gtao_history.0, gtao_history.1).0),
        ao_enabled: flag_word(data.ao_enabled),
        sh_descriptor_id: descriptor_or_zero(sh),
        brdf_lut_descriptor_id: brdf_lut,
        pick_x,
        pick_y,
    }
}

/// What the main pass records: bind the index buffer, bind the graphics
/// pipeline, push its block, and one indirect draw of the culled scene.
/// It cannot run without the shadow history's descriptor.
pub fn main_pass_commands<B>(
    data: MainPassData,
    history_write_index: u32,
    buffers: MainBuffers,
    shadow_history: (Option<u32>, Option<u32>),
    gtao_history: (Option<u32>, Option<u32>),
    sh: Option<u32>,
    brdf_lut: u32,
    shadow_colored: bool,
    pick_x: u32,
    pick_y: u32,
) -> (c: Vec<Command<B, MainPushConstants>>)
    requires
        history_roles(history_write_index, shadow_history.0, shadow_history.1).0 is Some,
    ensures
        match commands_view(c@)[2] {
            CommandView::PushConstants(pc) => {
                &&& pc.scene_buffer_device_address == buffers.scene
                &&& pc.draw_data_buffer_device_address == buffers.draw_data
                &&& pc.vertex_buffer_device_address == buffers.vertex
                &&& pc.entity_buffer_device_address == buffers.entity
                &&& pc.submesh_buffer_device_address == buffers.submesh
                &&& pc.material_buffer_device_address == buffers.material
                &&& pc.bone_transform_buffer_device_address == buffers.bone_transform
                &&& pc.picked_entity_buffer_device_address == buffers.picked_entity
                &&& pc.shadow_factor_descriptor_id == (if history_write_index == 0 { shadow_history.0 } else { shadow_history.1 })->0
                &&& pc.brdf_lut_descriptor_id == brdf_lut
            },
            _ => false,
        },
        commands_view(c@) == seq![
            CommandView::<B, MainPushConstants>::BindIndexBuffer,
            CommandView::BindPipeline(BIND_POINT_GRAPHICS),
            CommandView::PushConstants(main_pass_push_constants(
                data,
                history_write_index,
                buffers,
                shadow_history,
                gtao_history,
                sh,
                brdf_lut,
                shadow_colored,
                pick_x,
                pick_y,
            )),
            CommandView::DrawIndirect,
        ],
{
    let shadow = history_pair(history_write_index, shadow_history.0, shadow_history.1).0;
    let gtao = history_pair(history_write_index, gtao_history.0, gtao_history.1).0;
    let descriptors = MainDescriptors { shadow_factor: shadow.unwrap(), gtao, sh, brdf_lut };
    let pc = data.push_constants(buffers, descriptors, shadow_colored, pick_x, pick_y);
    let mut c: Vec<Command<B, MainPushConstants>> = Vec::new();
    c.push(Command::BindIndexBuffer);
    c.push(Command::BindPipeline(BIND_POINT_GRAPHICS));
    c.push(Command::PushConstants(pc));
    c.push(Command::DrawIndirect);
    assert(commands_view(c@) =~= seq![
        CommandView::<B, MainPushConstants>::BindIndexBuffer,
        CommandView::BindPipeline(BIND_POINT_GRAPHICS),
        CommandView::PushConstants(main_pass_push_constants(
            data,
            history_write_index,
            buffers,
            shadow_history,
            gtao_history,
            sh,
            brdf_lut,
            shadow_colored,
            pick_x,
            pick_y,
        )),
        CommandView::DrawIndirect,
    ]);
    c
}

/// A fullscreen pass's commands: bind the graphics pipeline, push its
/// block, draw the three vertices of the fullscreen triangle.
pub open spec fn fullscreen_commands<P>(pc: P) -> Seq<CommandView<(), P>> {
    seq![CommandView::BindPipeline(BIND_POINT_GRAPHICS), CommandView::PushConstants(pc), CommandView::Draw(3)]
}

/// What the debug-layer pass records for layer `layer`: nothing when the
/// shown image offers no descriptor (`texture_index` as the layer's image
/// gives it), else a fullscreen draw sampling that descriptor.
pub fn debug_layer_commands(
    layer: usize,
    texture_index: Option<u32>,
    camera_buffer_device_address: DeviceAddress,
    shadow_colored: bool,
    denoise_history: u32,
) -> (c: Vec<Command<(), DebugLayerPushConstants>>)
    requires
        DEBUG_LAYER_VELOCITY <= layer <= DEBUG_LAYER_SHADOW,
    ensures
        commands_view(c@) == match texture_index {
            Some(index) => fullscreen_commands(DebugLayerPushConstants {
                camera_buffer_device_address,
                texture_index: index,
                layer_kind: layer as u32,
                shadow_colored: flag_word(shadow_colored),
                denoise_history,
            }),
            None => Seq::empty(),
        },
{
    let mut c: Vec<Command<(), DebugLayerPushConstants>> = Vec::new();
    match texture_index {
        Some(index) => {
            let pc = DebugLayerPushConstants::create(
                camera_buffer_device_address,
                index,
                layer as u32,
                if shadow_colored { 1 } else { 0 },
                denoise_history,
            );
            c.push(Command::BindPipeline(BIND_POINT_GRAPHICS));
            c.push(Command::PushConstants(pc));
            c.push(Command::Draw(3));
        },
        None => {},
    }
    assert(commands_view(c@) =~= match texture_index {
        Some(index) => fullscreen_commands(DebugLayerPushConstants {
            camera_buffer_device_address,
            texture_index: index,
            layer_kind: layer as u32,
            shadow_colored: flag_word(shadow_colored),
            denoise_history,
        }),
        None => Seq::empty(),
    });
    c
}

/// What the depth prepass records: bind the index buffer, bind the
/// graphics pipeline, push the addresses of the camera, draw-record,
/// entity and entity-motion buffers, and one indirect draw of the culled
/// scene.
pub fn depth_prepass_commands<B>(
    camera_buffer_device_address: DeviceAddress,
    draw_data_buffer_device_address: DeviceAddress,
    entity_buffer_device_address: DeviceAddress,
    entity_motion_buffer_device_address: DeviceAddress,
) -> (c: Vec<Command<B, DepthPushConstants>>)
    ensures
        commands_view(c@) == seq![
            CommandView::<B, DepthPushConstants>::BindIndexBuffer,
            CommandView::BindPipeline(BIND_POINT_GRAPHICS),
            CommandView::PushConstants(DepthPushConstants {
                camera_buffer_device_address,
                draw_data_buffer_device_address,
                entity_buffer_device_address,
                entity_motion_buffer_device_address,
            }),
            CommandView::DrawIndirect,
        ],
{
    let pc = DepthPushConstants::create(
        camera_buffer_device_address,
        draw_data_buffer_device_address,
        entity_buffer_device_address,
        entity_motion_buffer_device_address,
    );
    let mut c: Vec<Command<B, DepthPushConstants>> = Vec::new();
    c.push(Command::BindIndexBuffer);
    c.push(Command::BindPipeline(BIND_POINT_GRAPHICS));
    c.push(Command::PushConstants(pc));
    c.push(Command::DrawIndirect);
    assert(commands_view(c@) =~= seq![
        CommandView::<B, DepthPushConstants>::BindIndexBuffer,
        CommandView::BindPipeline(BIND_POINT_GRAPHICS),
        CommandView::PushConstants(DepthPushConstants {
            camera_buffer_device_address,
            draw_data_buffer_device_address,
            entity_buffer_device_address,
            entity_motion_buffer_device_address,
        }),
        CommandView::DrawIndirect,
    ]);
    c
}

/// Records bind, push and the fullscreen triangle.
fn record_fullscreen<P>(pc: P) -> (c: Vec<Command<(), P>>)
    ensures
        commands_view(c@) == fullscreen_commands(pc),
{
    let mut c: Vec<Command<(), P>> = Vec::new();
    c.push(Command::BindPipeline(BIND_POINT_GRAPHICS));
    c.push(Command::PushConstants(pc));
    c.push(Command::Draw(3));
    assert(commands_view(c@) =~= fullscreen_commands(pc));
    c
}

/// The descriptor a bloom step samples: the sampled descriptor of mip
/// `mip` when it reads a mip (none when the image lacks that mip), else
/// the image's full descriptor.
pub open spec fn bloom_source(full: Option<u32>, sampled_mips: Seq<u32>, mip: Option<u32>) -> Option<u32> {
    match mip {
        Some(m) => if m < sampled_mips.len() { Some(sampled_mips[m as int]) } else { None },
        None => full,
    }
}

/// What a bloom downsampling step records: nothing when its source lacks
/// the descriptor it samples, else a fullscreen draw with the Karis
/// average on or off and the brightness threshold (the bit pattern of an
/// `f32` setting).
pub fn bloom_downsample_commands(
    full: Option<u32>,
    sampled_mips: &Vec<u32>,
    src_mip: Option<u32>,
    karis: bool,
    threshold: u32,
) -> (c: Vec<Command<(), BloomPushConstants>>)
    ensures
        commands_view(c@) == match bloom_source(full, sampled_mips@, src_mip) {
            Some(src_texture) => fullscreen_commands(BloomPushConstants { src_texture, karis: flag_word(karis), threshold }),
            None => Seq::empty(),
        },
{
    let source = match src_mip {
        Some(m) => if (m as usize) < sampled_mips.len() { Some(sampled_mips[m as usize]) } else { None },
        None => full,
    };
    match source {
        Some(src_texture) => record_fullscreen(BloomPushConstants::create(src_texture, if karis { 1 } else { 0 }, threshold)),
        None => {
            let c: Vec<Command<(), BloomPushConstants>> = Vec::new();
            assert(commands_view(c@) =~= Seq::empty());
            c
        },
    }
}

/// What a bloom upsampling step records: nothing when the bloom image
/// lacks the mip it reads, else a fullscreen draw sampling that mip with
/// the Karis average off and a zero threshold.
pub fn bloom_upsample_commands(sampled_mips: &Vec<u32>, src_mip: u32) -> (c: Vec<Command<(), BloomPushConstants>>)
    ensures
        commands_view(c@) == (if src_mip < sampled_mips@.len() {
            fullscreen_commands(BloomPushConstants { src_texture: sampled_mips@[src_mip as int], karis: 0, threshold: 0 })
        } else {
            Seq::empty()
        }),
{
    if (src_mip as usize) < sampled_mips.len() {
        record_fullscreen(BloomPushConstants::create(sampled_mips[src_mip as usize], 0, 0))
    } else {
        let c: Vec<Command<(), BloomPushConstants>> = Vec::new();
        assert(commands_view(c@) =~= Seq::empty());
        c
    }
}

/// What the environment pass records: a fullscreen draw over the scene
/// buffer.
pub fn environment_commands(scene_buffer_device_address: DeviceAddress) -> (c: Vec<Command<(), EnvironmentPushConstants>>)
    ensures
        commands_view(c@) == fullscreen_commands(EnvironmentPushConstants { scene_buffer_device_address }),
{
    record_fullscreen(EnvironmentPushConstants::create(scene_buffer_device_address))
}

/// What the draw-sorting pass records: bind, push the pool's buffers and
/// the two buckets, and a single workgroup.
pub fn draw_sort_commands(
    indirect_buffer_device_address: DeviceAddress,
    draw_count_buffer_device_address: DeviceAddress,
    draw_data_buffer_device_address: DeviceAddress,
    statistics_buffer_device_address: DeviceAddress,
    source_bucket: DrawBucket,
    sorted_bucket: DrawBucket,
) -> (c: Vec<Command<(), DrawSortPushConstants>>)
    ensures
        commands_view(c@) == compute_commands(
            DrawSortPushConstants {
                indirect_source_buffer_device_address: indirect_buffer_device_address,
                indirect_sorted_buffer_device_address: indirect_buffer_device_address,
                draw_count_buffer_device_address,
                draw_data_buffer_device_address,
                statistics_buffer_device_address,
                count_index: source_bucket.count_index,
                source_offset: source_bucket.draw_offset,
                target_offset: sorted_bucket.draw_offset,
                capacity: sorted_bucket.capacity,
            },
            1,
            1,
        ),
{
    let pc = DrawSortPushConstants::create(
        indirect_buffer_device_address,
        draw_count_buffer_device_address,
        draw_data_buffer_device_address,
        statistics_buffer_device_address,
        source_bucket,
        sorted_bucket,
    );
    record_compute(pc, 1, 1)
}

/// The accumulation block routes each input to its own slot: the scene
/// color and the velocity by their sampled descriptors, the history read
/// this frame (the second image under write index 0, the first under any
/// other) by its sampled descriptor, the history written this frame by its
/// storage descriptor and extent, and the history flag as 0 or 1.
pub proof fn lemma_accumulate_push_constants_route_inputs(
    history_write_index: u32,
    history_valid: bool,
    scene: PassImage,
    velocity: PassImage,
    history_a: PassImage,
    history_b: PassImage,
)
    ensures
        ({
            let pc = accumulate_push_constants(history_write_index, history_valid, scene, velocity, history_a, history_b);
            let written = if history_write_index == 0 { history_a } else { history_b };
            let read = if history_write_index == 0 { history_b } else { history_a };
            &&& pc.scene_color_texture == scene.full->0
            &&& pc.velocity_texture == velocity.full->0
            &&& pc.history_prev_texture == read.full->0
            &&& pc.history_curr_storage == written.first_storage->0
            &&& pc.history_valid == (if history_valid { 1u32 } else { 0u32 })
            &&& pc.display_width == written.width
            &&& pc.display_height == written.height
        }),
{
}

/// The temporal ambient-occlusion block routes each input to its own
/// slot: the occlusion and the velocity by their sampled descriptors, the
/// history read this frame by its sampled descriptor, the history written
/// this frame by its storage descriptor and extent.
pub proof fn lemma_gtao_temporal_push_constants_route_inputs(
    history_write_index: u32,
    history_valid: bool,
    gtao: PassImage,
    velocity: PassImage,
    history_a: PassImage,
    history_b: PassImage,
)
    ensures
        ({
            let pc = gtao_temporal_push_constants(history_write_index, history_valid, gtao, velocity, history_a, history_b);
            let written = if history_write_index == 0 { history_a } else { history_b };
            let read = if history_write_index == 0 { history_b } else { history_a };
            &&& pc.gtao_texture == gtao.full->0
            &&& pc.velocity_texture == velocity.full->0
            &&& pc.history_prev_texture == read.full->0
            &&& pc.history_curr_storage == written.first_storage->0
            &&& pc.history_valid == (if history_valid { 1u32 } else { 0u32 })
            &&& pc.width == written.width
            &&& pc.height == written.height
        }),
{
}

/// The guide block samples depth and normals by their own descriptors and
/// writes the guide image of this frame (the first under write index 0,
/// the second under any other) over its extent.
pub proof fn lemma_denoise_guide_push_constants_route_inputs(
    history_write_index: u32,
    scene_buffer_device_address: DeviceAddress,
    depth: PassImage,
    normal: PassImage,
    guide_a: PassImage,
    guide_b: PassImage,
)
    ensures
        ({
            let pc = denoise_guide_push_constants(history_write_index, scene_buffer_device_address, depth, normal, guide_a, guide_b);
            let written = if history_write_index == 0 { guide_a } else { guide_b };
            &&& pc.scene_buffer_device_address == scene_buffer_device_address
            &&& pc.depth_descriptor_id == depth.full->0
            &&& pc.normal_descriptor_id == normal.full->0
            &&& pc.guide_storage_id == written.first_storage->0
            &&& pc.width == written.width
            &&& pc.height == written.height
        }),
{
}

/// A view-z downsampling step reads the source mip's sampled descriptor
/// and writes the destination mip's storage descriptor; the destination
/// is the smaller extent whenever it is the deeper mip.
pub proof fn lemma_gtao_depth_mip_push_constants_route_inputs(
    data: GtaoDepthMipPassData,
    sampled_mips: Seq<u32>,
    storage_mips: Seq<u32>,
    width: u32,
    height: u32,
    source_mip: u32,
    destination_mip: u32,
)
    ensures
        ({
            let pc = gtao_depth_mip_push_constants(data, sampled_mips, storage_mips, width, height, source_mip, destination_mip);
            &&& pc.source_descriptor_id == sampled_mips[source_mip as int]
            &&& pc.view_z_storage_id == storage_mips[destination_mip as int]
            &&& pc.radius == data.radius
            &&& source_mip == destination_mip ==> pc.width == pc.source_width && pc.height == pc.source_height
        }),
{
}

/// The main block carries each buffer address the caller gives in its own
/// slot, samples the shadow history written this frame (the first under
/// write index 0, the second under any other), falls back to descriptor 0
/// only for a missing occlusion or irradiance descriptor, and sends the
/// flags as 0 or 1.
pub proof fn lemma_main_pass_push_constants_route_inputs(
    data: MainPassData,
    history_write_index: u32,
    buffers: MainBuffers,
    shadow_history: (Option<u32>, Option<u32>),
    gtao_history: (Option<u32>, Option<u32>),
    sh: Option<u32>,
    brdf_lut: u32,
    shadow_colored: bool,
    pick_x: u32,
    pick_y: u32,
)
    ensures
        ({
            let pc = main_pass_push_constants(
                data,
                history_write_index,
                buffers,
                shadow_history,
                gtao_history,
                sh,
                brdf_lut,
                shadow_colored,
                pick_x,
                pick_y,
            );
            let gtao = if history_write_index == 0 { gtao_history.0 } else { gtao_history.1 };
            &&& pc.scene_buffer_device_address == buffers.scene
            &&& pc.draw_data_buffer_device_address == buffers.draw_data
            &&& pc.vertex_buffer_device_address == buffers.vertex
            &&& pc.entity_buffer_device_address == buffers.entity
            &&& pc.submesh_buffer_device_address == buffers.submesh
            &&& pc.material_buffer_device_address == buffers.material
            &&& pc.bone_transform_buffer_device_address == buffers.bone_transform
            &&& pc.picked_entity_buffer_device_address == buffers.picked_entity
            &&& pc.shadow_factor_descriptor_id == (if history_write_index == 0 { shadow_history.0 } else { shadow_history.1 })->0
            &&& (gtao matches Some(id) ==> pc.gtao_descriptor_id == id)
            &&& (gtao is None ==> pc.gtao_descriptor_id == 0)
            &&& (sh matches Some(id) ==> pc.sh_descriptor_id == id)
            &&& (sh is None ==> pc.sh_descriptor_id == 0)
            &&& pc.brdf_lut_descriptor_id == brdf_lut
            &&& pc.shadow_enabled == (if data.shadow_enabled { 1u32 } else { 0u32 })
            &&& pc.ao_enabled == (if data.ao_enabled { 1u32 } else { 0u32 })
            &&& pc.shadow_colored == (if shadow_colored { 1u32 } else { 0u32 })
            &&& pc.pick_x == pick_x
            &&& pc.pick_y == pick_y
        }),
{
}

} // verus!
