//! The resources the compute, fullscreen and staging passes declare to
//! the render graph, in the order they declare them.
use vstd::prelude::*;
use crate::declarations::{Declared, ImageAccess, BufferAccess, image, buffer, declared_resource, declares, declares_all, color_target_write};
use crate::history::history_roles;
use crate::vulkan::{
    ACCESS_ACCELERATION_STRUCTURE_READ,
    ACCESS_ACCELERATION_STRUCTURE_WRITE,
    ACCESS_COLOR_ATTACHMENT_READ,
    ACCESS_COLOR_ATTACHMENT_WRITE,
    ACCESS_DEPTH_STENCIL_ATTACHMENT_READ,
    ACCESS_HOST_WRITE,
    ACCESS_SHADER_READ,
    ACCESS_SHADER_WRITE,
    ACCESS_TRANSFER_WRITE,
    LAYOUT_COLOR_ATTACHMENT_OPTIMAL,
    LAYOUT_DEPTH_STENCIL_ATTACHMENT_OPTIMAL,
    LAYOUT_GENERAL,
    LAYOUT_SHADER_READ_ONLY_OPTIMAL,
    STAGE_ACCELERATION_STRUCTURE_BUILD,
    STAGE_COLOR_ATTACHMENT_OUTPUT,
    STAGE_COMPUTE_SHADER,
    STAGE_EARLY_FRAGMENT_TESTS,
    STAGE_FRAGMENT_SHADER,
    STAGE_HOST,
    STAGE_LATE_FRAGMENT_TESTS,
    STAGE_TRANSFER,
};

verus! {

/// The resources of the frame-staging pass.
#[derive(Clone, Copy, Debug)]
pub struct FrameStagingResources<R> {
    pub previous_transforms: R,
    pub render_snapshot: R,
    pub render_views_layout: R,
    pub scene_buffer: R,
    pub camera_buffer: R,
    pub entity_buffer: R,
    pub entity_motion_buffer: R,
    pub entity_outline_buffer: R,
    pub main_culling_views_buffer: R,
}

/// The declarations of the frame-staging pass: it consumes the last frame's transforms, the snapshot and the view layout, and the host writes every record it stages.
pub open spec fn frame_staging_declarations<R>(r: FrameStagingResources<R>) -> Seq<Declared<R>> {
    seq![
        Declared::Consume(r.previous_transforms),
        Declared::Consume(r.render_snapshot),
        Declared::Consume(r.render_views_layout),
        Declared::WriteBuffer(r.scene_buffer, buffer(ACCESS_HOST_WRITE, STAGE_HOST)),
        Declared::WriteBuffer(r.camera_buffer, buffer(ACCESS_HOST_WRITE, STAGE_HOST)),
        Declared::WriteBuffer(r.entity_buffer, buffer(ACCESS_HOST_WRITE, STAGE_HOST)),
        Declared::WriteBuffer(r.entity_motion_buffer, buffer(ACCESS_HOST_WRITE, STAGE_HOST)),
        Declared::WriteBuffer(r.entity_outline_buffer, buffer(ACCESS_HOST_WRITE, STAGE_HOST)),
        Declared::WriteBuffer(r.main_culling_views_buffer, buffer(ACCESS_HOST_WRITE, STAGE_HOST)),
    ]
}

/// The declarations of the frame-staging pass.
pub fn frame_staging_declarations_of<R: Copy>(r: &FrameStagingResources<R>) -> (d: Vec<Declared<R>>)
    ensures
        d@ == frame_staging_declarations(*r),
{
    let mut d: Vec<Declared<R>> = Vec::new();
    d.push(Declared::Consume(r.previous_transforms));
    d.push(Declared::Consume(r.render_snapshot));
    d.push(Declared::Consume(r.render_views_layout));
    d.push(Declared::WriteBuffer(r.scene_buffer, BufferAccess { access: ACCESS_HOST_WRITE, stages: STAGE_HOST }));
    d.push(Declared::WriteBuffer(r.camera_buffer, BufferAccess { access: ACCESS_HOST_WRITE, stages: STAGE_HOST }));
    d.push(Declared::WriteBuffer(r.entity_buffer, BufferAccess { access: ACCESS_HOST_WRITE, stages: STAGE_HOST }));
    d.push(Declared::WriteBuffer(r.entity_motion_buffer, BufferAccess { access: ACCESS_HOST_WRITE, stages: STAGE_HOST }));
    d.push(Declared::WriteBuffer(r.entity_outline_buffer, BufferAccess { access: ACCESS_HOST_WRITE, stages: STAGE_HOST }));
    d.push(Declared::WriteBuffer(r.main_culling_views_buffer, BufferAccess { access: ACCESS_HOST_WRITE, stages: STAGE_HOST }));
    assert(d@ =~= frame_staging_declarations(*r));
    d
}

/// The resources of the spatial ambient-occlusion denoiser.
#[derive(Clone, Copy, Debug)]
pub struct AoSpatialResources<R> {
    pub render_settings: R,
    pub noisy_image: R,
    pub guide_a: R,
    pub guide_b: R,
    pub ao_image: R,
    pub scene_buffer: R,
}

/// The declarations of the spatial ambient-occlusion denoiser: it consumes the settings, samples the noisy occlusion and both guide images in compute, writes the occlusion image and reads the scene buffer.
pub open spec fn ao_spatial_declarations<R>(r: AoSpatialResources<R>) -> Seq<Declared<R>> {
    seq![
        Declared::Consume(r.render_settings),
        Declared::ReadImage(r.noisy_image, image(LAYOUT_SHADER_READ_ONLY_OPTIMAL, ACCESS_SHADER_READ, STAGE_COMPUTE_SHADER)),
        Declared::ReadImage(r.guide_a, image(LAYOUT_SHADER_READ_ONLY_OPTIMAL, ACCESS_SHADER_READ, STAGE_COMPUTE_SHADER)),
        Declared::ReadImage(r.guide_b, image(LAYOUT_SHADER_READ_ONLY_OPTIMAL, ACCESS_SHADER_READ, STAGE_COMPUTE_SHADER)),
        Declared::WriteImage(r.ao_image, image(LAYOUT_GENERAL, ACCESS_SHADER_WRITE, STAGE_COMPUTE_SHADER)),
        Declared::ReadBuffer(r.scene_buffer, buffer(ACCESS_SHADER_READ, STAGE_COMPUTE_SHADER)),
    ]
}

/// The declarations of the spatial ambient-occlusion denoiser.
pub fn ao_spatial_declarations_of<R: Copy>(r: &AoSpatialResources<R>) -> (d: Vec<Declared<R>>)
    ensures
        d@ == ao_spatial_declarations(*r),
{
    let mut d: Vec<Declared<R>> = Vec::new();
    d.push(Declared::Consume(r.render_settings));
    d.push(Declared::ReadImage(r.noisy_image, ImageAccess { layout: LAYOUT_SHADER_READ_ONLY_OPTIMAL, access: ACCESS_SHADER_READ, stages: STAGE_COMPUTE_SHADER }));
    d.push(Declared::ReadImage(r.guide_a, ImageAccess { layout: LAYOUT_SHADER_READ_ONLY_OPTIMAL, access: ACCESS_SHADER_READ, stages: STAGE_COMPUTE_SHADER }));
    d.push(Declared::ReadImage(r.guide_b, ImageAccess { layout: LAYOUT_SHADER_READ_ONLY_OPTIMAL, access: ACCESS_SHADER_READ, stages: STAGE_COMPUTE_SHADER }));
    d.push(Declared::WriteImage(r.ao_image, ImageAccess { layout: LAYOUT_GENERAL, access: ACCESS_SHADER_WRITE, stages: STAGE_COMPUTE_SHADER }));
    d.push(Declared::ReadBuffer(r.scene_buffer, BufferAccess { access: ACCESS_SHADER_READ, stages: STAGE_COMPUTE_SHADER }));
    assert(d@ =~= ao_spatial_declarations(*r));
    d
}

/// The resources of the denoiser-guide pass.
#[derive(Clone, Copy, Debug)]
pub struct DenoiseGuideResources<R> {
    pub render_settings: R,
    pub depth_image: R,
    pub normal_image: R,
    pub guide_a: R,
    pub guide_b: R,
    pub scene_buffer: R,
}

/// The declarations of the denoiser-guide pass: it consumes the settings, samples depth and normals in compute, writes both guide images and reads the scene buffer.
pub open spec fn denoise_guide_declarations<R>(r: DenoiseGuideResources<R>) -> Seq<Declared<R>> {
    seq![
        Declared::Consume(r.render_settings),
        Declared::ReadImage(r.depth_image, image(LAYOUT_SHADER_READ_ONLY_OPTIMAL, ACCESS_SHADER_READ, STAGE_COMPUTE_SHADER)),
        Declared::ReadImage(r.normal_image, image(LAYOUT_SHADER_READ_ONLY_OPTIMAL, ACCESS_SHADER_READ, STAGE_COMPUTE_SHADER)),
        Declared::WriteImage(r.guide_a, image(LAYOUT_GENERAL, ACCESS_SHADER_WRITE, STAGE_COMPUTE_SHADER)),
        Declared::WriteImage(r.guide_b, image(LAYOUT_GENERAL, ACCESS_SHADER_WRITE, STAGE_COMPUTE_SHADER)),
        Declared::ReadBuffer(r.scene_buffer, buffer(ACCESS_SHADER_READ, STAGE_COMPUTE_SHADER)),
    ]
}

/// The declarations of the denoiser-guide pass.
pub fn denoise_guide_declarations_of<R: Copy>(r: &DenoiseGuideResources<R>) -> (d: Vec<Declared<R>>)
    ensures
        d@ == denoise_guide_declarations(*r),
{
    let mut d: Vec<Declared<R>> = Vec::new();
    d.push(Declared::Consume(r.render_settings));
    d.push(Declared::ReadImage(r.depth_image, ImageAccess { layout: LAYOUT_SHADER_READ_ONLY_OPTIMAL, access: ACCESS_SHADER_READ, stages: STAGE_COMPUTE_SHADER }));
    d.push(Declared::ReadImage(r.normal_image, ImageAccess { layout: LAYOUT_SHADER_READ_ONLY_OPTIMAL, access: ACCESS_SHADER_READ, stages: STAGE_COMPUTE_SHADER }));
    d.push(Declared::WriteImage(r.guide_a, ImageAccess { layout: LAYOUT_GENERAL, access: ACCESS_SHADER_WRITE, stages: STAGE_COMPUTE_SHADER }));
    d.push(Declared::WriteImage(r.guide_b, ImageAccess { layout: LAYOUT_GENERAL, access: ACCESS_SHADER_WRITE, stages: STAGE_COMPUTE_SHADER }));
    d.push(Declared::ReadBuffer(r.scene_buffer, BufferAccess { access: ACCESS_SHADER_READ, stages: STAGE_COMPUTE_SHADER }));
    assert(d@ =~= denoise_guide_declarations(*r));
    d
}

/// The resources of the shadow-cascade culling pass.
#[derive(Clone, Copy, Debug)]
pub struct CascadeCullingResources<R> {
    pub scene_buffer: R,
    pub entity_buffer: R,
    pub culling_view_buffer: R,
    pub draw_count: R,
    pub indirect: R,
    pub draw_data: R,
}

/// The declarations of the shadow-cascade culling pass: it reads the scene, entity and view records in compute, clears the draw count by transfer and counts into it in compute, and writes the indirect commands and draw records.
pub open spec fn cascade_culling_declarations<R>(r: CascadeCullingResources<R>) -> Seq<Declared<R>> {
    seq![
        Declared::ReadBuffer(r.scene_buffer, buffer(ACCESS_SHADER_READ, STAGE_COMPUTE_SHADER)),
        Declared::ReadBuffer(r.entity_buffer, buffer(ACCESS_SHADER_READ, STAGE_COMPUTE_SHADER)),
        Declared::ReadBuffer(r.culling_view_buffer, buffer(ACCESS_SHADER_READ, STAGE_COMPUTE_SHADER)),
        Declared::WriteBuffer(r.draw_count, buffer(ACCESS_TRANSFER_WRITE | ACCESS_SHADER_WRITE, STAGE_TRANSFER | STAGE_COMPUTE_SHADER)),
        Declared::WriteBuffer(r.indirect, buffer(ACCESS_SHADER_WRITE, STAGE_COMPUTE_SHADER)),
        Declared::WriteBuffer(r.draw_data, buffer(ACCESS_SHADER_WRITE, STAGE_COMPUTE_SHADER)),
    ]
}

/// The declarations of the shadow-cascade culling pass.
pub fn cascade_culling_declarations_of<R: Copy>(r: &CascadeCullingResources<R>) -> (d: Vec<Declared<R>>)
    ensures
        d@ == cascade_culling_declarations(*r),
{
    let mut d: Vec<Declared<R>> = Vec::new();
    d.push(Declared::ReadBuffer(r.scene_buffer, BufferAccess { access: ACCESS_SHADER_READ, stages: STAGE_COMPUTE_SHADER }));
    d.push(Declared::ReadBuffer(r.entity_buffer, BufferAccess { access: ACCESS_SHADER_READ, stages: STAGE_COMPUTE_SHADER }));
    d.push(Declared::ReadBuffer(r.culling_view_buffer, BufferAccess { access: ACCESS_SHADER_READ, stages: STAGE_COMPUTE_SHADER }));
    d.push(Declared::WriteBuffer(r.draw_count, BufferAccess { access: ACCESS_TRANSFER_WRITE | ACCESS_SHADER_WRITE, stages: STAGE_TRANSFER | STAGE_COMPUTE_SHADER }));
    d.push(Declared::WriteBuffer(r.indirect, BufferAccess { access: ACCESS_SHADER_WRITE, stages: STAGE_COMPUTE_SHADER }));
    d.push(Declared::WriteBuffer(r.draw_data, BufferAccess { access: ACCESS_SHADER_WRITE, stages: STAGE_COMPUTE_SHADER }));
    assert(d@ =~= cascade_culling_declarations(*r));
    d
}

/// The resources of the acceleration-structure build pass.
#[derive(Clone, Copy, Debug)]
pub struct BlasBuildResources<R> {
    pub blas_state: R,
    pub render_snapshot: R,
    pub blas: R,
    pub mesh_vertex_buffer: R,
    pub index_buffer: R,
    pub addresses: R,
    pub scratch: R,
}

/// The declarations of the acceleration-structure build pass: it consumes the registry and the snapshot, builds into the structures, reads the vertices and indices in the build, the host writes the structures' addresses, and the build writes its scratch.
pub open spec fn blas_build_declarations<R>(r: BlasBuildResources<R>) -> Seq<Declared<R>> {
    seq![
        Declared::Consume(r.blas_state),
        Declared::Consume(r.render_snapshot),
        Declared::WriteAccelerationStructure(r.blas, buffer(ACCESS_ACCELERATION_STRUCTURE_WRITE, STAGE_ACCELERATION_STRUCTURE_BUILD)),
        Declared::ReadBuffer(r.mesh_vertex_buffer, buffer(ACCESS_SHADER_READ, STAGE_ACCELERATION_STRUCTURE_BUILD)),
        Declared::ReadBuffer(r.index_buffer, buffer(ACCESS_SHADER_READ, STAGE_ACCELERATION_STRUCTURE_BUILD)),
        Declared::WriteBuffer(r.addresses, buffer(ACCESS_HOST_WRITE, STAGE_HOST)),
        Declared::WriteBuffer(r.scratch, buffer(ACCESS_ACCELERATION_STRUCTURE_WRITE, STAGE_ACCELERATION_STRUCTURE_BUILD)),
    ]
}

/// The declarations of the acceleration-structure build pass.
pub fn blas_build_declarations_of<R: Copy>(r: &BlasBuildResources<R>) -> (d: Vec<Declared<R>>)
    ensures
        d@ == blas_build_declarations(*r),
{
    let mut d: Vec<Declared<R>> = Vec::new();
    d.push(Declared::Consume(r.blas_state));
    d.push(Declared::Consume(r.render_snapshot));
    d.push(Declared::WriteAccelerationStructure(r.blas, BufferAccess { access: ACCESS_ACCELERATION_STRUCTURE_WRITE, stages: STAGE_ACCELERATION_STRUCTURE_BUILD }));
    d.push(Declared::ReadBuffer(r.mesh_vertex_buffer, BufferAccess { access: ACCESS_SHADER_READ, stages: STAGE_ACCELERATION_STRUCTURE_BUILD }));
    d.push(Declared::ReadBuffer(r.index_buffer, BufferAccess { access: ACCESS_SHADER_READ, stages: STAGE_ACCELERATION_STRUCTURE_BUILD }));
    d.push(Declared::WriteBuffer(r.addresses, BufferAccess { access: ACCESS_HOST_WRITE, stages: STAGE_HOST }));
    d.push(Declared::WriteBuffer(r.scratch, BufferAccess { access: ACCESS_ACCELERATION_STRUCTURE_WRITE, stages: STAGE_ACCELERATION_STRUCTURE_BUILD }));
    assert(d@ =~= blas_build_declarations(*r));
    d
}

/// The resources of the ambient-occlusion pass.
#[derive(Clone, Copy, Debug)]
pub struct GtaoResources<R> {
    pub render_settings: R,
    pub view_z_image: R,
    pub normal_image: R,
    pub gtao_image: R,
    pub scene_buffer: R,
}

/// The declarations of the ambient-occlusion pass: it consumes the settings, samples view-space depth and normals in compute, writes the occlusion image and reads the scene buffer.
pub open spec fn gtao_declarations<R>(r: GtaoResources<R>) -> Seq<Declared<R>> {
    seq![
        Declared::Consume(r.render_settings),
        Declared::ReadImage(r.view_z_image, image(LAYOUT_SHADER_READ_ONLY_OPTIMAL, ACCESS_SHADER_READ, STAGE_COMPUTE_SHADER)),
        Declared::ReadImage(r.normal_image, image(LAYOUT_SHADER_READ_ONLY_OPTIMAL, ACCESS_SHADER_READ, STAGE_COMPUTE_SHADER)),
        Declared::WriteImage(r.gtao_image, image(LAYOUT_GENERAL, ACCESS_SHADER_WRITE, STAGE_COMPUTE_SHADER)),
        Declared::ReadBuffer(r.scene_buffer, buffer(ACCESS_SHADER_READ, STAGE_COMPUTE_SHADER)),
    ]
}

/// The declarations of the ambient-occlusion pass.
pub fn gtao_declarations_of<R: Copy>(r: &GtaoResources<R>) -> (d: Vec<Declared<R>>)
    ensures
        d@ == gtao_declarations(*r),
{
    let mut d: Vec<Declared<R>> = Vec::new();
    d.push(Declared::Consume(r.render_settings));
    d.push(Declared::ReadImage(r.view_z_image, ImageAccess { layout: LAYOUT_SHADER_READ_ONLY_OPTIMAL, access: ACCESS_SHADER_READ, stages: STAGE_COMPUTE_SHADER }));
    d.push(Declared::ReadImage(r.normal_image, ImageAccess { layout: LAYOUT_SHADER_READ_ONLY_OPTIMAL, access: ACCESS_SHADER_READ, stages: STAGE_COMPUTE_SHADER }));
    d.push(Declared::WriteImage(r.gtao_image, ImageAccess { layout: LAYOUT_GENERAL, access: ACCESS_SHADER_WRITE, stages: STAGE_COMPUTE_SHADER }));
    d.push(Declared::ReadBuffer(r.scene_buffer, BufferAccess { access: ACCESS_SHADER_READ, stages: STAGE_COMPUTE_SHADER }));
    assert(d@ =~= gtao_declarations(*r));
    d
}

/// The resources of the accumulation pass.
#[derive(Clone, Copy, Debug)]
pub struct AccumulateResources<R> {
    pub scene_color: R,
    pub velocity: R,
    pub history_a: R,
    pub history_b: R,
}

/// The declarations of the accumulation pass: it samples the scene color and the velocity in compute, and reads and writes both history images.
pub open spec fn accumulate_declarations<R>(r: AccumulateResources<R>) -> Seq<Declared<R>> {
    seq![
        Declared::ReadImage(r.scene_color, image(LAYOUT_SHADER_READ_ONLY_OPTIMAL, ACCESS_SHADER_READ, STAGE_COMPUTE_SHADER)),
        Declared::ReadImage(r.velocity, image(LAYOUT_SHADER_READ_ONLY_OPTIMAL, ACCESS_SHADER_READ, STAGE_COMPUTE_SHADER)),
        Declared::WriteImage(r.history_a, image(LAYOUT_GENERAL, ACCESS_SHADER_READ | ACCESS_SHADER_WRITE, STAGE_COMPUTE_SHADER)),
        Declared::WriteImage(r.history_b, image(LAYOUT_GENERAL, ACCESS_SHADER_READ | ACCESS_SHADER_WRITE, STAGE_COMPUTE_SHADER)),
    ]
}

/// The declarations of the accumulation pass.
pub fn accumulate_declarations_of<R: Copy>(r: &AccumulateResources<R>) -> (d: Vec<Declared<R>>)
    ensures
        d@ == accumulate_declarations(*r),
{
    let mut d: Vec<Declared<R>> = Vec::new();
    d.push(Declared::ReadImage(r.scene_color, ImageAccess { layout: LAYOUT_SHADER_READ_ONLY_OPTIMAL, access: ACCESS_SHADER_READ, stages: STAGE_COMPUTE_SHADER }));
    d.push(Declared::ReadImage(r.velocity, ImageAccess { layout: LAYOUT_SHADER_READ_ONLY_OPTIMAL, access: ACCESS_SHADER_READ, stages: STAGE_COMPUTE_SHADER }));
    d.push(Declared::WriteImage(r.history_a, ImageAccess { layout: LAYOUT_GENERAL, access: ACCESS_SHADER_READ | ACCESS_SHADER_WRITE, stages: STAGE_COMPUTE_SHADER }));
    d.push(Declared::WriteImage(r.history_b, ImageAccess { layout: LAYOUT_GENERAL, access: ACCESS_SHADER_READ | ACCESS_SHADER_WRITE, stages: STAGE_COMPUTE_SHADER }));
    assert(d@ =~= accumulate_declarations(*r));
    d
}

/// The resources of the temporal ambient-occlusion filter.
#[derive(Clone, Copy, Debug)]
pub struct GtaoTemporalResources<R> {
    pub gtao_image: R,
    pub velocity_image: R,
    pub history_a: R,
    pub history_b: R,
}

/// The declarations of the temporal ambient-occlusion filter: it samples the occlusion and the velocity in compute, and reads and writes both history images.
pub open spec fn gtao_temporal_declarations<R>(r: GtaoTemporalResources<R>) -> Seq<Declared<R>> {
    seq![
        Declared::ReadImage(r.gtao_image, image(LAYOUT_SHADER_READ_ONLY_OPTIMAL, ACCESS_SHADER_READ, STAGE_COMPUTE_SHADER)),
        Declared::ReadImage(r.velocity_image, image(LAYOUT_SHADER_READ_ONLY_OPTIMAL, ACCESS_SHADER_READ, STAGE_COMPUTE_SHADER)),
        Declared::WriteImage(r.history_a, image(LAYOUT_GENERAL, ACCESS_SHADER_READ | ACCESS_SHADER_WRITE, STAGE_COMPUTE_SHADER)),
        Declared::WriteImage(r.history_b, image(LAYOUT_GENERAL, ACCESS_SHADER_READ | ACCESS_SHADER_WRITE, STAGE_COMPUTE_SHADER)),
    ]
}

/// The declarations of the temporal ambient-occlusion filter.
pub fn gtao_temporal_declarations_of<R: Copy>(r: &GtaoTemporalResources<R>) -> (d: Vec<Declared<R>>)
    ensures
        d@ == gtao_temporal_declarations(*r),
{
    let mut d: Vec<Declared<R>> = Vec::new();
    d.push(Declared::ReadImage(r.gtao_image, ImageAccess { layout: LAYOUT_SHADER_READ_ONLY_OPTIMAL, access: ACCESS_SHADER_READ, stages: STAGE_COMPUTE_SHADER }));
    d.push(Declared::ReadImage(r.velocity_image, ImageAccess { layout: LAYOUT_SHADER_READ_ONLY_OPTIMAL, access: ACCESS_SHADER_READ, stages: STAGE_COMPUTE_SHADER }));
    d.push(Declared::WriteImage(r.history_a, ImageAccess { layout: LAYOUT_GENERAL, access: ACCESS_SHADER_READ | ACCESS_SHADER_WRITE, stages: STAGE_COMPUTE_SHADER }));
    d.push(Declared::WriteImage(r.history_b, ImageAccess { layout: LAYOUT_GENERAL, access: ACCESS_SHADER_READ | ACCESS_SHADER_WRITE, stages: STAGE_COMPUTE_SHADER }));
    assert(d@ =~= gtao_temporal_declarations(*r));
    d
}

/// The resources of the ray-traced ambient-occlusion pass.
#[derive(Clone, Copy, Debug)]
pub struct RtAoResources<R> {
    pub depth_image: R,
    pub normal_image: R,
    pub ao_image: R,
    pub tlas: R,
}

/// The declarations of the ray-traced ambient-occlusion pass: it samples depth and normals in compute, writes the occlusion image, and reads the top-level acceleration structure.
pub open spec fn rt_ao_declarations<R>(r: RtAoResources<R>) -> Seq<Declared<R>> {
    seq![
        Declared::ReadImage(r.depth_image, image(LAYOUT_SHADER_READ_ONLY_OPTIMAL, ACCESS_SHADER_READ, STAGE_COMPUTE_SHADER)),
        Declared::ReadImage(r.normal_image, image(LAYOUT_SHADER_READ_ONLY_OPTIMAL, ACCESS_SHADER_READ, STAGE_COMPUTE_SHADER)),
        Declared::WriteImage(r.ao_image, image(LAYOUT_GENERAL, ACCESS_SHADER_WRITE, STAGE_COMPUTE_SHADER)),
        Declared::ReadAccelerationStructure(r.tlas, buffer(ACCESS_ACCELERATION_STRUCTURE_READ, STAGE_COMPUTE_SHADER)),
    ]
}

/// The declarations of the ray-traced ambient-occlusion pass.
pub fn rt_ao_declarations_of<R: Copy>(r: &RtAoResources<R>) -> (d: Vec<Declared<R>>)
    ensures
        d@ == rt_ao_declarations(*r),
{
    let mut d: Vec<Declared<R>> = Vec::new();
    d.push(Declared::ReadImage(r.depth_image, ImageAccess { layout: LAYOUT_SHADER_READ_ONLY_OPTIMAL, access: ACCESS_SHADER_READ, stages: STAGE_COMPUTE_SHADER }));
    d.push(Declared::ReadImage(r.normal_image, ImageAccess { layout: LAYOUT_SHADER_READ_ONLY_OPTIMAL, access: ACCESS_SHADER_READ, stages: STAGE_COMPUTE_SHADER }));
    d.push(Declared::WriteImage(r.ao_image, ImageAccess { layout: LAYOUT_GENERAL, access: ACCESS_SHADER_WRITE, stages: STAGE_COMPUTE_SHADER }));
    d.push(Declared::ReadAccelerationStructure(r.tlas, BufferAccess { access: ACCESS_ACCELERATION_STRUCTURE_READ, stages: STAGE_COMPUTE_SHADER }));
    assert(d@ =~= rt_ao_declarations(*r));
    d
}

/// The resources of the environment pass.
#[derive(Clone, Copy, Debug)]
pub struct EnvironmentResources<R> {
    pub target_image: R,
    pub velocity_image: R,
    pub scene_buffer: R,
    pub depth: R,
}

/// The declarations of the environment pass: it writes the color target and the velocity target (blended over, so also read), reads the scene buffer in fragment shading, and tests against depth.
pub open spec fn environment_declarations<R>(r: EnvironmentResources<R>) -> Seq<Declared<R>> {
    seq![
        Declared::WriteImage(r.target_image, image(LAYOUT_COLOR_ATTACHMENT_OPTIMAL, ACCESS_COLOR_ATTACHMENT_WRITE, STAGE_COLOR_ATTACHMENT_OUTPUT)),
        Declared::WriteImage(r.velocity_image, image(LAYOUT_COLOR_ATTACHMENT_OPTIMAL, ACCESS_COLOR_ATTACHMENT_WRITE | ACCESS_COLOR_ATTACHMENT_READ, STAGE_COLOR_ATTACHMENT_OUTPUT)),
        Declared::ReadBuffer(r.scene_buffer, buffer(ACCESS_SHADER_READ, STAGE_FRAGMENT_SHADER)),
        Declared::ReadImage(r.depth, image(LAYOUT_DEPTH_STENCIL_ATTACHMENT_OPTIMAL, ACCESS_DEPTH_STENCIL_ATTACHMENT_READ, STAGE_EARLY_FRAGMENT_TESTS | STAGE_LATE_FRAGMENT_TESTS)),
    ]
}

/// The declarations of the environment pass.
pub fn environment_declarations_of<R: Copy>(r: &EnvironmentResources<R>) -> (d: Vec<Declared<R>>)
    ensures
        d@ == environment_declarations(*r),
{
    let mut d: Vec<Declared<R>> = Vec::new();
    d.push(Declared::WriteImage(r.target_image, ImageAccess { layout: LAYOUT_COLOR_ATTACHMENT_OPTIMAL, access: ACCESS_COLOR_ATTACHMENT_WRITE, stages: STAGE_COLOR_ATTACHMENT_OUTPUT }));
    d.push(Declared::WriteImage(r.velocity_image, ImageAccess { layout: LAYOUT_COLOR_ATTACHMENT_OPTIMAL, access: ACCESS_COLOR_ATTACHMENT_WRITE | ACCESS_COLOR_ATTACHMENT_READ, stages: STAGE_COLOR_ATTACHMENT_OUTPUT }));
    d.push(Declared::ReadBuffer(r.scene_buffer, BufferAccess { access: ACCESS_SHADER_READ, stages: STAGE_FRAGMENT_SHADER }));
    d.push(Declared::ReadImage(r.depth, ImageAccess { layout: LAYOUT_DEPTH_STENCIL_ATTACHMENT_OPTIMAL, access: ACCESS_DEPTH_STENCIL_ATTACHMENT_READ, stages: STAGE_EARLY_FRAGMENT_TESTS | STAGE_LATE_FRAGMENT_TESTS }));
    assert(d@ =~= environment_declarations(*r));
    d
}

/// The resources of a bloom upsampling step.
#[derive(Clone, Copy, Debug)]
pub struct BloomUpsampleResources<R> {
    pub render_settings: R,
    pub image: R,
    pub src_mip: u32,
    pub dst_mip: u32,
}

/// The declarations of a bloom upsampling step: it consumes the settings, samples the source mip of the bloom image and blends into its destination mip.
pub open spec fn bloom_upsample_declarations<R>(r: BloomUpsampleResources<R>) -> Seq<Declared<R>> {
    seq![
        Declared::Consume(r.render_settings),
        Declared::ReadImageMip(r.image, r.src_mip, image(LAYOUT_SHADER_READ_ONLY_OPTIMAL, ACCESS_SHADER_READ, STAGE_FRAGMENT_SHADER)),
        Declared::WriteImageMip(r.image, r.dst_mip, image(LAYOUT_COLOR_ATTACHMENT_OPTIMAL, ACCESS_COLOR_ATTACHMENT_WRITE | ACCESS_COLOR_ATTACHMENT_READ, STAGE_COLOR_ATTACHMENT_OUTPUT)),
    ]
}

/// The declarations of a bloom upsampling step.
pub fn bloom_upsample_declarations_of<R: Copy>(r: &BloomUpsampleResources<R>) -> (d: Vec<Declared<R>>)
    ensures
        d@ == bloom_upsample_declarations(*r),
{
    let mut d: Vec<Declared<R>> = Vec::new();
    d.push(Declared::Consume(r.render_settings));
    d.push(Declared::ReadImageMip(r.image, r.src_mip, ImageAccess { layout: LAYOUT_SHADER_READ_ONLY_OPTIMAL, access: ACCESS_SHADER_READ, stages: STAGE_FRAGMENT_SHADER }));
    d.push(Declared::WriteImageMip(r.image, r.dst_mip, ImageAccess { layout: LAYOUT_COLOR_ATTACHMENT_OPTIMAL, access: ACCESS_COLOR_ATTACHMENT_WRITE | ACCESS_COLOR_ATTACHMENT_READ, stages: STAGE_COLOR_ATTACHMENT_OUTPUT }));
    assert(d@ =~= bloom_upsample_declarations(*r));
    d
}

/// The resources of the view-z pass.
#[derive(Clone, Copy, Debug)]
pub struct GtaoDepthResources<R> {
    pub render_settings: R,
    pub depth_image: R,
    pub view_z_image: R,
    pub scene_buffer: R,
}

/// The declarations of the view-z pass: it consumes the settings, samples depth in compute, writes mip 0 of the view-z image and reads the scene buffer.
pub open spec fn gtao_depth_declarations<R>(r: GtaoDepthResources<R>) -> Seq<Declared<R>> {
    seq![
        Declared::Consume(r.render_settings),
        Declared::ReadImage(r.depth_image, image(LAYOUT_SHADER_READ_ONLY_OPTIMAL, ACCESS_SHADER_READ, STAGE_COMPUTE_SHADER)),
        Declared::WriteImageMip(r.view_z_image, 0, image(LAYOUT_GENERAL, ACCESS_SHADER_WRITE, STAGE_COMPUTE_SHADER)),
        Declared::ReadBuffer(r.scene_buffer, buffer(ACCESS_SHADER_READ, STAGE_COMPUTE_SHADER)),
    ]
}

/// The declarations of the view-z pass.
pub fn gtao_depth_declarations_of<R: Copy>(r: &GtaoDepthResources<R>) -> (d: Vec<Declared<R>>)
    ensures
        d@ == gtao_depth_declarations(*r),
{
    let mut d: Vec<Declared<R>> = Vec::new();
    d.push(Declared::Consume(r.render_settings));
    d.push(Declared::ReadImage(r.depth_image, ImageAccess { layout: LAYOUT_SHADER_READ_ONLY_OPTIMAL, access: ACCESS_SHADER_READ, stages: STAGE_COMPUTE_SHADER }));
    d.push(Declared::WriteImageMip(r.view_z_image, 0, ImageAccess { layout: LAYOUT_GENERAL, access: ACCESS_SHADER_WRITE, stages: STAGE_COMPUTE_SHADER }));
    d.push(Declared::ReadBuffer(r.scene_buffer, BufferAccess { access: ACCESS_SHADER_READ, stages: STAGE_COMPUTE_SHADER }));
    assert(d@ =~= gtao_depth_declarations(*r));
    d
}

/// The resources of a view-z downsampling step.
#[derive(Clone, Copy, Debug)]
pub struct GtaoDepthMipResources<R> {
    pub render_settings: R,
    pub view_z_image: R,
    pub source_mip: u32,
    pub destination_mip: u32,
}

/// The declarations of a view-z downsampling step: it consumes the settings, samples the source mip of the view-z image and writes its destination mip in compute.
pub open spec fn gtao_depth_mip_declarations<R>(r: GtaoDepthMipResources<R>) -> Seq<Declared<R>> {
    seq![
        Declared::Consume(r.render_settings),
        Declared::ReadImageMip(r.view_z_image, r.source_mip, image(LAYOUT_SHADER_READ_ONLY_OPTIMAL, ACCESS_SHADER_READ, STAGE_COMPUTE_SHADER)),
        Declared::WriteImageMip(r.view_z_image, r.destination_mip, image(LAYOUT_GENERAL, ACCESS_SHADER_WRITE, STAGE_COMPUTE_SHADER)),
    ]
}

/// The declarations of a view-z downsampling step.
pub fn gtao_depth_mip_declarations_of<R: Copy>(r: &GtaoDepthMipResources<R>) -> (d: Vec<Declared<R>>)
    ensures
        d@ == gtao_depth_mip_declarations(*r),
{
    let mut d: Vec<Declared<R>> = Vec::new();
    d.push(Declared::Consume(r.render_settings));
    d.push(Declared::ReadImageMip(r.view_z_image, r.source_mip, ImageAccess { layout: LAYOUT_SHADER_READ_ONLY_OPTIMAL, access: ACCESS_SHADER_READ, stages: STAGE_COMPUTE_SHADER }));
    d.push(Declared::WriteImageMip(r.view_z_image, r.destination_mip, ImageAccess { layout: LAYOUT_GENERAL, access: ACCESS_SHADER_WRITE, stages: STAGE_COMPUTE_SHADER }));
    assert(d@ =~= gtao_depth_mip_declarations(*r));
    d
}

/// The resources of the draw-sorting pass.
#[derive(Clone, Copy, Debug)]
pub struct DrawSortResources<R> {
    pub draw_count: R,
    pub draw_data: R,
    pub indirect: R,
}

/// The declarations of the draw-sorting pass: it reads the draw counts and draw records in compute and sorts the indirect commands in place.
pub open spec fn draw_sort_declarations<R>(r: DrawSortResources<R>) -> Seq<Declared<R>> {
    seq![
        Declared::ReadBuffer(r.draw_count, buffer(ACCESS_SHADER_READ, STAGE_COMPUTE_SHADER)),
        Declared::ReadBuffer(r.draw_data, buffer(ACCESS_SHADER_READ, STAGE_COMPUTE_SHADER)),
        Declared::WriteBuffer(r.indirect, buffer(ACCESS_SHADER_READ | ACCESS_SHADER_WRITE, STAGE_COMPUTE_SHADER)),
    ]
}

/// The declarations of the draw-sorting pass.
pub fn draw_sort_declarations_of<R: Copy>(r: &DrawSortResources<R>) -> (d: Vec<Declared<R>>)
    ensures
        d@ == draw_sort_declarations(*r),
{
    let mut d: Vec<Declared<R>> = Vec::new();
    d.push(Declared::ReadBuffer(r.draw_count, BufferAccess { access: ACCESS_SHADER_READ, stages: STAGE_COMPUTE_SHADER }));
    d.push(Declared::ReadBuffer(r.draw_data, BufferAccess { access: ACCESS_SHADER_READ, stages: STAGE_COMPUTE_SHADER }));
    d.push(Declared::WriteBuffer(r.indirect, BufferAccess { access: ACCESS_SHADER_READ | ACCESS_SHADER_WRITE, stages: STAGE_COMPUTE_SHADER }));
    assert(d@ =~= draw_sort_declarations(*r));
    d
}

/// The resources of the lookup-table pass.
#[derive(Clone, Copy, Debug)]
pub struct BrdfLutResources<R> {
    pub brdf_lut_image: R,
}

/// The declarations of the lookup-table pass: it writes the table as its color target.
pub open spec fn brdf_lut_declarations<R>(r: BrdfLutResources<R>) -> Seq<Declared<R>> {
    seq![
        Declared::WriteImage(r.brdf_lut_image, image(LAYOUT_COLOR_ATTACHMENT_OPTIMAL, ACCESS_COLOR_ATTACHMENT_WRITE, STAGE_COLOR_ATTACHMENT_OUTPUT)),
    ]
}

/// The declarations of the lookup-table pass.
pub fn brdf_lut_declarations_of<R: Copy>(r: &BrdfLutResources<R>) -> (d: Vec<Declared<R>>)
    ensures
        d@ == brdf_lut_declarations(*r),
{
    let mut d: Vec<Declared<R>> = Vec::new();
    d.push(Declared::WriteImage(r.brdf_lut_image, ImageAccess { layout: LAYOUT_COLOR_ATTACHMENT_OPTIMAL, access: ACCESS_COLOR_ATTACHMENT_WRITE, stages: STAGE_COLOR_ATTACHMENT_OUTPUT }));
    assert(d@ =~= brdf_lut_declarations(*r));
    d
}

/// The resources of the depth-pyramid pass; the pyramid has `mip_count`
/// mips.
#[derive(Clone, Copy, Debug)]
pub struct HizResources<R> {
    pub depth_image: R,
    pub hiz_image: R,
    pub hiz_counter_buffer: R,
    pub mip_count: u32,
}

/// A pyramid mip, read and written in compute.
pub open spec fn hiz_mip_declaration<R>(hiz_image: R, mip: u32) -> Declared<R> {
    Declared::WriteImageMip(hiz_image, mip, image(LAYOUT_GENERAL, ACCESS_SHADER_READ | ACCESS_SHADER_WRITE, STAGE_COMPUTE_SHADER))
}

/// The declarations of the depth-pyramid pass: it samples depth in
/// compute, reads and writes every mip of the pyramid in order, and reads
/// and writes its counter.
pub open spec fn hiz_declarations<R>(r: HizResources<R>) -> Seq<Declared<R>> {
    seq![Declared::ReadImage(r.depth_image, image(LAYOUT_SHADER_READ_ONLY_OPTIMAL, ACCESS_SHADER_READ, STAGE_COMPUTE_SHADER))]
        + Seq::new(r.mip_count as nat, |mip: int| hiz_mip_declaration(r.hiz_image, mip as u32))
        + seq![Declared::WriteBuffer(r.hiz_counter_buffer, buffer(ACCESS_SHADER_READ | ACCESS_SHADER_WRITE, STAGE_COMPUTE_SHADER))]
}

/// The declarations of the depth-pyramid pass.
pub fn hiz_declarations_of<R: Copy>(r: &HizResources<R>) -> (d: Vec<Declared<R>>)
    ensures
        d@ == hiz_declarations(*r),
{
    let mut d: Vec<Declared<R>> = Vec::new();
    d.push(Declared::ReadImage(r.depth_image, ImageAccess {
        layout: LAYOUT_SHADER_READ_ONLY_OPTIMAL,
        access: ACCESS_SHADER_READ,
        stages: STAGE_COMPUTE_SHADER,
    }));
    let ghost head = d@;
    let mut mip: u32 = 0;
    while mip < r.mip_count
        invariant
            mip <= r.mip_count,
            d@ == head + Seq::new(mip as nat, |m: int| hiz_mip_declaration(r.hiz_image, m as u32)),
        decreases r.mip_count - mip,
    {
        d.push(Declared::WriteImageMip(r.hiz_image, mip, ImageAccess {
            layout: LAYOUT_GENERAL,
            access: ACCESS_SHADER_READ | ACCESS_SHADER_WRITE,
            stages: STAGE_COMPUTE_SHADER,
        }));
        mip = mip + 1;
        assert(d@ =~= head + Seq::new(mip as nat, |m: int| hiz_mip_declaration(r.hiz_image, m as u32)));
    }
    d.push(Declared::WriteBuffer(r.hiz_counter_buffer, BufferAccess {
        access: ACCESS_SHADER_READ | ACCESS_SHADER_WRITE,
        stages: STAGE_COMPUTE_SHADER,
    }));
    assert(d@ =~= hiz_declarations(*r));
    d
}

/// The resources of a bloom downsampling step: it reads a mip of its
/// source, or the whole source when `src_mip` is `None`, and writes a mip
/// of its destination.
#[derive(Clone, Copy, Debug)]
pub struct BloomDownsampleResources<R> {
    pub src: R,
    pub src_mip: Option<u32>,
    pub dst: R,
    pub dst_mip: u32,
}

/// The declarations of a bloom downsampling step: the source (its mip or
/// all of it) sampled in fragment shading, then the destination mip
/// written as color target.
pub open spec fn bloom_downsample_declarations<R>(r: BloomDownsampleResources<R>) -> Seq<Declared<R>> {
    let sampled = image(LAYOUT_SHADER_READ_ONLY_OPTIMAL, ACCESS_SHADER_READ, STAGE_FRAGMENT_SHADER);
    seq![
        match r.src_mip {
            Some(mip) => Declared::ReadImageMip(r.src, mip, sampled),
            None => Declared::ReadImage(r.src, sampled),
        },
        Declared::WriteImageMip(r.dst, r.dst_mip, image(LAYOUT_COLOR_ATTACHMENT_OPTIMAL, ACCESS_COLOR_ATTACHMENT_WRITE, STAGE_COLOR_ATTACHMENT_OUTPUT)),
    ]
}

/// The declarations of a bloom downsampling step.
pub fn bloom_downsample_declarations_of<R: Copy>(r: &BloomDownsampleResources<R>) -> (d: Vec<Declared<R>>)
    ensures
        d@ == bloom_downsample_declarations(*r),
{
    let sampled = ImageAccess { layout: LAYOUT_SHADER_READ_ONLY_OPTIMAL, access: ACCESS_SHADER_READ, stages: STAGE_FRAGMENT_SHADER };
    let mut d: Vec<Declared<R>> = Vec::new();
    match r.src_mip {
        Some(mip) => d.push(Declared::ReadImageMip(r.src, mip, sampled)),
        None => d.push(Declared::ReadImage(r.src, sampled)),
    }
    d.push(Declared::WriteImageMip(r.dst, r.dst_mip, ImageAccess {
        layout: LAYOUT_COLOR_ATTACHMENT_OPTIMAL,
        access: ACCESS_COLOR_ATTACHMENT_WRITE,
        stages: STAGE_COLOR_ATTACHMENT_OUTPUT,
    }));
    assert(d@ =~= bloom_downsample_declarations(*r));
    d
}

/// Whatever the history write index, the accumulation pass declares the
/// images its recording fetches: the scene color, the velocity, and the
/// history it writes and the one it reads.
pub proof fn lemma_accumulate_declares_fetches<R>(r: AccumulateResources<R>, history_write_index: u32)
    ensures
        declares_all(
            accumulate_declarations(r),
            seq![
                r.scene_color,
                r.velocity,
                history_roles(history_write_index, r.history_a, r.history_b).0,
                history_roles(history_write_index, r.history_a, r.history_b).1,
            ],
        ),
{
    let d = accumulate_declarations(r);
    let f = seq![
        r.scene_color,
        r.velocity,
        history_roles(history_write_index, r.history_a, r.history_b).0,
        history_roles(history_write_index, r.history_a, r.history_b).1,
    ];
    assert forall|i: int| 0 <= i < f.len() implies declares(d, #[trigger] f[i]) by {
        let k: int = if i < 2 {
            i
        } else if (i == 2) == (history_write_index == 0) {
            2
        } else {
            3
        };
        assert(declared_resource(d[k]) == f[i]);
    }
}

/// Whatever the history write index, the temporal ambient-occlusion filter
/// declares the images its recording fetches.
pub proof fn lemma_gtao_temporal_declares_fetches<R>(r: GtaoTemporalResources<R>, history_write_index: u32)
    ensures
        declares_all(
            gtao_temporal_declarations(r),
            seq![
                r.gtao_image,
                r.velocity_image,
                history_roles(history_write_index, r.history_a, r.history_b).0,
                history_roles(history_write_index, r.history_a, r.history_b).1,
            ],
        ),
{
    let d = gtao_temporal_declarations(r);
    let f = seq![
        r.gtao_image,
        r.velocity_image,
        history_roles(history_write_index, r.history_a, r.history_b).0,
        history_roles(history_write_index, r.history_a, r.history_b).1,
    ];
    assert forall|i: int| 0 <= i < f.len() implies declares(d, #[trigger] f[i]) by {
        let k: int = if i < 2 {
            i
        } else if (i == 2) == (history_write_index == 0) {
            2
        } else {
            3
        };
        assert(declared_resource(d[k]) == f[i]);
    }
}

/// Whatever the history write index, the denoiser-guide pass declares the
/// guide image it writes this frame, and the depth, normal and scene
/// resources it reads.
pub proof fn lemma_denoise_guide_declares_fetches<R>(r: DenoiseGuideResources<R>, history_write_index: u32)
    ensures
        declares_all(
            denoise_guide_declarations(r),
            seq![
                r.depth_image,
                r.normal_image,
                history_roles(history_write_index, r.guide_a, r.guide_b).0,
                r.scene_buffer,
            ],
        ),
{
    let d = denoise_guide_declarations(r);
    let f = seq![r.depth_image, r.normal_image, history_roles(history_write_index, r.guide_a, r.guide_b).0, r.scene_buffer];
    assert forall|i: int| 0 <= i < f.len() implies declares(d, #[trigger] f[i]) by {
        let k: int = if i < 2 {
            i + 1
        } else if i == 2 {
            if history_write_index == 0 { 3 } else { 4 }
        } else {
            5
        };
        assert(declared_resource(d[k]) == f[i]);
    }
}

/// For either history write index, the spatial denoiser declares the guide
/// image it samples, and the noisy, occlusion and scene resources.
pub proof fn lemma_ao_spatial_declares_fetches<R>(r: AoSpatialResources<R>, history_write_index: u32)
    requires
        history_write_index < 2,
    ensures
        declares_all(
            ao_spatial_declarations(r),
            seq![
                r.noisy_image,
                if history_write_index == 0 { r.guide_a } else { r.guide_b },
                r.ao_image,
                r.scene_buffer,
            ],
        ),
{
    let d = ao_spatial_declarations(r);
    let f = seq![r.noisy_image, if history_write_index == 0 { r.guide_a } else { r.guide_b }, r.ao_image, r.scene_buffer];
    assert forall|i: int| 0 <= i < f.len() implies declares(d, #[trigger] f[i]) by {
        let k: int = if i == 0 {
            1
        } else if i == 1 {
            if history_write_index == 0 { 2 } else { 3 }
        } else {
            i + 2
        };
        assert(declared_resource(d[k]) == f[i]);
    }
}

/// Every mip of the pyramid is declared read and written, at its place in
/// order after the depth image.
pub proof fn lemma_hiz_declares_every_mip<R>(r: HizResources<R>, mip: u32)
    requires
        mip < r.mip_count,
    ensures
        hiz_declarations(r).len() == r.mip_count + 2,
        hiz_declarations(r)[1 + mip] == hiz_mip_declaration(r.hiz_image, mip),
{
}

/// How a color target is cleared when the pass begins: to four `f32`s,
/// given by their bit patterns, or to four unsigned integers.
#[derive(Clone, Copy, Debug, PartialEq, Eq)]
pub enum ClearColor {
    FloatBits([u32; 4]),
    Uint([u32; 4]),
}

/// A color target: the image, the mip rendered to (`None` for the whole
/// image), and its clear, if any.
#[derive(Clone, Copy, Debug)]
pub struct ColorTarget<R> {
    pub image: R,
    pub mip: Option<u32>,
    pub clear: Option<ClearColor>,
}

/// A depth target and its clear depth, if any, as the bit pattern of an
/// `f32`.
#[derive(Clone, Copy, Debug)]
pub struct DepthTarget<R> {
    pub image: R,
    pub clear_bits: Option<u32>,
}

/// The attachments a graphics pass renders to.
#[derive(Debug)]
pub struct RenderTargets<R> {
    pub color: Vec<ColorTarget<R>>,
    pub depth: Option<DepthTarget<R>>,
    pub view_mask: u32,
}

/// Bit pattern of the `f32` 1.0.
pub const ONE_BITS: u32 = 0x3f80_0000;

/// Records the attachments: two color targets and a depth target.
fn two_color_targets<R>(first: ColorTarget<R>, second: ColorTarget<R>, depth: DepthTarget<R>) -> (t: RenderTargets<R>)
    ensures
        t.color@ == seq![first, second],
        t.depth == Some(depth),
        t.view_mask == 0,
{
    let mut color: Vec<ColorTarget<R>> = Vec::new();
    color.push(first);
    color.push(second);
    assert(color@ =~= seq![first, second]);
    RenderTargets { color, depth: Some(depth), view_mask: 0 }
}

/// The depth prepass renders normals, kept, and velocity, cleared to
/// zero, over depth cleared to 0 (the far plane of its reversed depth).
pub fn depth_prepass_render_targets<R: Copy>(normal: R, velocity: R, depth: R) -> (t: RenderTargets<R>)
    ensures
        t.color@ == seq![
            ColorTarget { image: normal, mip: None, clear: None },
            ColorTarget { image: velocity, mip: None, clear: Some(ClearColor::FloatBits([0u32, 0, 0, 0])) },
        ],
        t.depth == Some(DepthTarget { image: depth, clear_bits: Some(0u32) }),
        t.view_mask == 0,
{
    two_color_targets(
        ColorTarget { image: normal, mip: None, clear: None },
        ColorTarget { image: velocity, mip: None, clear: Some(ClearColor::FloatBits([0, 0, 0, 0])) },
        DepthTarget { image: depth, clear_bits: Some(0) },
    )
}

/// The environment pass renders its color target, cleared to opaque
/// black, and the velocity target, kept, over the kept depth.
pub fn environment_render_targets<R: Copy>(target_image: R, velocity_image: R, depth: R) -> (t: RenderTargets<R>)
    ensures
        t.color@ == seq![
            ColorTarget { image: target_image, mip: None, clear: Some(ClearColor::FloatBits([0u32, 0, 0, ONE_BITS])) },
            ColorTarget { image: velocity_image, mip: None, clear: None },
        ],
        t.depth == Some(DepthTarget { image: depth, clear_bits: None }),
        t.view_mask == 0,
{
    two_color_targets(
        ColorTarget { image: target_image, mip: None, clear: Some(ClearColor::FloatBits([0, 0, 0, ONE_BITS])) },
        ColorTarget { image: velocity_image, mip: None, clear: None },
        DepthTarget { image: depth, clear_bits: None },
    )
}

/// The main pass renders its color target, kept, and the entity-id
/// target, cleared to all ones (no entity), over the kept depth.
pub fn main_pass_render_targets<R: Copy>(target_image: R, entity_id_image: R, depth: R) -> (t: RenderTargets<R>)
    ensures
        t.color@ == seq![
            ColorTarget { image: target_image, mip: None, clear: None },
            ColorTarget { image: entity_id_image, mip: None, clear: Some(ClearColor::Uint([u32::MAX, u32::MAX, u32::MAX, u32::MAX])) },
        ],
        t.depth == Some(DepthTarget { image: depth, clear_bits: None }),
        t.view_mask == 0,
{
    two_color_targets(
        ColorTarget { image: target_image, mip: None, clear: None },
        ColorTarget { image: entity_id_image, mip: None, clear: Some(ClearColor::Uint([u32::MAX, u32::MAX, u32::MAX, u32::MAX])) },
        DepthTarget { image: depth, clear_bits: None },
    )
}

/// The environment pass declares the color target it draws into as a
/// written color attachment, the velocity target it blends into as read
/// and written, and depth as only read by the depth tests.
pub proof fn lemma_environment_writes_its_render_targets<R>(r: EnvironmentResources<R>)
    ensures
        environment_declarations(r).contains(Declared::WriteImage(r.target_image, color_target_write())),
        environment_declarations(r).contains(Declared::WriteImage(r.velocity_image, ImageAccess {
            layout: LAYOUT_COLOR_ATTACHMENT_OPTIMAL,
            access: ACCESS_COLOR_ATTACHMENT_WRITE | ACCESS_COLOR_ATTACHMENT_READ,
            stages: STAGE_COLOR_ATTACHMENT_OUTPUT,
        })),
        environment_declarations(r).contains(Declared::ReadImage(r.depth, ImageAccess {
            layout: LAYOUT_DEPTH_STENCIL_ATTACHMENT_OPTIMAL,
            access: ACCESS_DEPTH_STENCIL_ATTACHMENT_READ,
            stages: STAGE_EARLY_FRAGMENT_TESTS | STAGE_LATE_FRAGMENT_TESTS,
        })),
{
    let d = environment_declarations(r);
    assert(d[0] == Declared::WriteImage(r.target_image, color_target_write()));
    assert(d[1] == Declared::WriteImage(r.velocity_image, ImageAccess {
        layout: LAYOUT_COLOR_ATTACHMENT_OPTIMAL,
        access: ACCESS_COLOR_ATTACHMENT_WRITE | ACCESS_COLOR_ATTACHMENT_READ,
        stages: STAGE_COLOR_ATTACHMENT_OUTPUT,
    }));
    assert(d[3] == Declared::ReadImage(r.depth, ImageAccess {
        layout: LAYOUT_DEPTH_STENCIL_ATTACHMENT_OPTIMAL,
        access: ACCESS_DEPTH_STENCIL_ATTACHMENT_READ,
        stages: STAGE_EARLY_FRAGMENT_TESTS | STAGE_LATE_FRAGMENT_TESTS,
    }));
}

/// The lookup-table pass declares the table it bakes as a written color
/// attachment.
pub proof fn lemma_brdf_lut_writes_its_render_target<R>(r: BrdfLutResources<R>)
    ensures
        brdf_lut_declarations(r).contains(Declared::WriteImage(r.brdf_lut_image, color_target_write())),
{
    assert(brdf_lut_declarations(r)[0] == Declared::WriteImage(r.brdf_lut_image, color_target_write()));
}

/// Everything the frame-staging pass writes is declared written, with the access and
/// stages it writes with.
pub proof fn lemma_frame_staging_declares_its_writes<R>(r: FrameStagingResources<R>)
    ensures
        frame_staging_declarations(r).contains(Declared::WriteBuffer(r.scene_buffer, buffer(ACCESS_HOST_WRITE, STAGE_HOST))),
        frame_staging_declarations(r).contains(Declared::WriteBuffer(r.camera_buffer, buffer(ACCESS_HOST_WRITE, STAGE_HOST))),
        frame_staging_declarations(r).contains(Declared::WriteBuffer(r.entity_buffer, buffer(ACCESS_HOST_WRITE, STAGE_HOST))),
        frame_staging_declarations(r).contains(Declared::WriteBuffer(r.entity_motion_buffer, buffer(ACCESS_HOST_WRITE, STAGE_HOST))),
        frame_staging_declarations(r).contains(Declared::WriteBuffer(r.entity_outline_buffer, buffer(ACCESS_HOST_WRITE, STAGE_HOST))),
        frame_staging_declarations(r).contains(Declared::WriteBuffer(r.main_culling_views_buffer, buffer(ACCESS_HOST_WRITE, STAGE_HOST))),
{
    assert(frame_staging_declarations(r)[3] == Declared::WriteBuffer(r.scene_buffer, buffer(ACCESS_HOST_WRITE, STAGE_HOST)));
    assert(frame_staging_declarations(r)[4] == Declared::WriteBuffer(r.camera_buffer, buffer(ACCESS_HOST_WRITE, STAGE_HOST)));
    assert(frame_staging_declarations(r)[5] == Declared::WriteBuffer(r.entity_buffer, buffer(ACCESS_HOST_WRITE, STAGE_HOST)));
    assert(frame_staging_declarations(r)[6] == Declared::WriteBuffer(r.entity_motion_buffer, buffer(ACCESS_HOST_WRITE, STAGE_HOST)));
    assert(frame_staging_declarations(r)[7] == Declared::WriteBuffer(r.entity_outline_buffer, buffer(ACCESS_HOST_WRITE, STAGE_HOST)));
    assert(frame_staging_declarations(r)[8] == Declared::WriteBuffer(r.main_culling_views_buffer, buffer(ACCESS_HOST_WRITE, STAGE_HOST)));
}

/// Everything the spatial ambient-occlusion denoiser writes is declared written, with the access and
/// stages it writes with.
pub proof fn lemma_ao_spatial_declares_its_writes<R>(r: AoSpatialResources<R>)
    ensures
        ao_spatial_declarations(r).contains(Declared::WriteImage(r.ao_image, image(LAYOUT_GENERAL, ACCESS_SHADER_WRITE, STAGE_COMPUTE_SHADER))),
{
    assert(ao_spatial_declarations(r)[4] == Declared::WriteImage(r.ao_image, image(LAYOUT_GENERAL, ACCESS_SHADER_WRITE, STAGE_COMPUTE_SHADER)));
}

/// Everything the denoiser-guide pass writes is declared written, with the access and
/// stages it writes with.
pub proof fn lemma_denoise_guide_declares_its_writes<R>(r: DenoiseGuideResources<R>)
    ensures
        denoise_guide_declarations(r).contains(Declared::WriteImage(r.guide_a, image(LAYOUT_GENERAL, ACCESS_SHADER_WRITE, STAGE_COMPUTE_SHADER))),
        denoise_guide_declarations(r).contains(Declared::WriteImage(r.guide_b, image(LAYOUT_GENERAL, ACCESS_SHADER_WRITE, STAGE_COMPUTE_SHADER))),
{
    assert(denoise_guide_declarations(r)[3] == Declared::WriteImage(r.guide_a, image(LAYOUT_GENERAL, ACCESS_SHADER_WRITE, STAGE_COMPUTE_SHADER)));
    assert(denoise_guide_declarations(r)[4] == Declared::WriteImage(r.guide_b, image(LAYOUT_GENERAL, ACCESS_SHADER_WRITE, STAGE_COMPUTE_SHADER)));
}

/// Everything the shadow-cascade culling pass writes is declared written, with the access and
/// stages it writes with.
pub proof fn lemma_cascade_culling_declares_its_writes<R>(r: CascadeCullingResources<R>)
    ensures
        cascade_culling_declarations(r).contains(Declared::WriteBuffer(r.draw_count, buffer(ACCESS_TRANSFER_WRITE | ACCESS_SHADER_WRITE, STAGE_TRANSFER | STAGE_COMPUTE_SHADER))),
        cascade_culling_declarations(r).contains(Declared::WriteBuffer(r.indirect, buffer(ACCESS_SHADER_WRITE, STAGE_COMPUTE_SHADER))),
        cascade_culling_declarations(r).contains(Declared::WriteBuffer(r.draw_data, buffer(ACCESS_SHADER_WRITE, STAGE_COMPUTE_SHADER))),
{
    assert(cascade_culling_declarations(r)[3] == Declared::WriteBuffer(r.draw_count, buffer(ACCESS_TRANSFER_WRITE | ACCESS_SHADER_WRITE, STAGE_TRANSFER | STAGE_COMPUTE_SHADER)));
    assert(cascade_culling_declarations(r)[4] == Declared::WriteBuffer(r.indirect, buffer(ACCESS_SHADER_WRITE, STAGE_COMPUTE_SHADER)));
    assert(cascade_culling_declarations(r)[5] == Declared::WriteBuffer(r.draw_data, buffer(ACCESS_SHADER_WRITE, STAGE_COMPUTE_SHADER)));
}

/// Everything the acceleration-structure build pass writes is declared written, with the access and
/// stages it writes with.
pub proof fn lemma_blas_build_declares_its_writes<R>(r: BlasBuildResources<R>)
    ensures
        blas_build_declarations(r).contains(Declared::WriteAccelerationStructure(r.blas, buffer(ACCESS_ACCELERATION_STRUCTURE_WRITE, STAGE_ACCELERATION_STRUCTURE_BUILD))),
        blas_build_declarations(r).contains(Declared::WriteBuffer(r.addresses, buffer(ACCESS_HOST_WRITE, STAGE_HOST))),
        blas_build_declarations(r).contains(Declared::WriteBuffer(r.scratch, buffer(ACCESS_ACCELERATION_STRUCTURE_WRITE, STAGE_ACCELERATION_STRUCTURE_BUILD))),
{
    assert(blas_build_declarations(r)[2] == Declared::WriteAccelerationStructure(r.blas, buffer(ACCESS_ACCELERATION_STRUCTURE_WRITE, STAGE_ACCELERATION_STRUCTURE_BUILD)));
    assert(blas_build_declarations(r)[5] == Declared::WriteBuffer(r.addresses, buffer(ACCESS_HOST_WRITE, STAGE_HOST)));
    assert(blas_build_declarations(r)[6] == Declared::WriteBuffer(r.scratch, buffer(ACCESS_ACCELERATION_STRUCTURE_WRITE, STAGE_ACCELERATION_STRUCTURE_BUILD)));
}

/// Everything the ambient-occlusion pass writes is declared written, with the access and
/// stages it writes with.
pub proof fn lemma_gtao_declares_its_writes<R>(r: GtaoResources<R>)
    ensures
        gtao_declarations(r).contains(Declared::WriteImage(r.gtao_image, image(LAYOUT_GENERAL, ACCESS_SHADER_WRITE, STAGE_COMPUTE_SHADER))),
{
    assert(gtao_declarations(r)[3] == Declared::WriteImage(r.gtao_image, image(LAYOUT_GENERAL, ACCESS_SHADER_WRITE, STAGE_COMPUTE_SHADER)));
}

/// Everything the accumulation pass writes is declared written, with the access and
/// stages it writes with.
pub proof fn lemma_accumulate_declares_its_writes<R>(r: AccumulateResources<R>)
    ensures
        accumulate_declarations(r).contains(Declared::WriteImage(r.history_a, image(LAYOUT_GENERAL, ACCESS_SHADER_READ | ACCESS_SHADER_WRITE, STAGE_COMPUTE_SHADER))),
        accumulate_declarations(r).contains(Declared::WriteImage(r.history_b, image(LAYOUT_GENERAL, ACCESS_SHADER_READ | ACCESS_SHADER_WRITE, STAGE_COMPUTE_SHADER))),
{
    assert(accumulate_declarations(r)[2] == Declared::WriteImage(r.history_a, image(LAYOUT_GENERAL, ACCESS_SHADER_READ | ACCESS_SHADER_WRITE, STAGE_COMPUTE_SHADER)));
    assert(accumulate_declarations(r)[3] == Declared::WriteImage(r.history_b, image(LAYOUT_GENERAL, ACCESS_SHADER_READ | ACCESS_SHADER_WRITE, STAGE_COMPUTE_SHADER)));
}

/// Everything the temporal ambient-occlusion filter writes is declared written, with the access and
/// stages it writes with.
pub proof fn lemma_gtao_temporal_declares_its_writes<R>(r: GtaoTemporalResources<R>)
    ensures
        gtao_temporal_declarations(r).contains(Declared::WriteImage(r.history_a, image(LAYOUT_GENERAL, ACCESS_SHADER_READ | ACCESS_SHADER_WRITE, STAGE_COMPUTE_SHADER))),
        gtao_temporal_declarations(r).contains(Declared::WriteImage(r.history_b, image(LAYOUT_GENERAL, ACCESS_SHADER_READ | ACCESS_SHADER_WRITE, STAGE_COMPUTE_SHADER))),
{
    assert(gtao_temporal_declarations(r)[2] == Declared::WriteImage(r.history_a, image(LAYOUT_GENERAL, ACCESS_SHADER_READ | ACCESS_SHADER_WRITE, STAGE_COMPUTE_SHADER)));
    assert(gtao_temporal_declarations(r)[3] == Declared::WriteImage(r.history_b, image(LAYOUT_GENERAL, ACCESS_SHADER_READ | ACCESS_SHADER_WRITE, STAGE_COMPUTE_SHADER)));
}

/// Everything the ray-traced ambient-occlusion pass writes is declared written, with the access and
/// stages it writes with.
pub proof fn lemma_rt_ao_declares_its_writes<R>(r: RtAoResources<R>)
    ensures
        rt_ao_declarations(r).contains(Declared::WriteImage(r.ao_image, image(LAYOUT_GENERAL, ACCESS_SHADER_WRITE, STAGE_COMPUTE_SHADER))),
{
    assert(rt_ao_declarations(r)[2] == Declared::WriteImage(r.ao_image, image(LAYOUT_GENERAL, ACCESS_SHADER_WRITE, STAGE_COMPUTE_SHADER)));
}

/// Everything a bloom upsampling step writes is declared written, with the access and
/// stages it writes with.
pub proof fn lemma_bloom_upsample_declares_its_writes<R>(r: BloomUpsampleResources<R>)
    ensures
        bloom_upsample_declarations(r).contains(Declared::WriteImageMip(r.image, r.dst_mip, image(LAYOUT_COLOR_ATTACHMENT_OPTIMAL, ACCESS_COLOR_ATTACHMENT_WRITE | ACCESS_COLOR_ATTACHMENT_READ, STAGE_COLOR_ATTACHMENT_OUTPUT))),
{
    assert(bloom_upsample_declarations(r)[2] == Declared::WriteImageMip(r.image, r.dst_mip, image(LAYOUT_COLOR_ATTACHMENT_OPTIMAL, ACCESS_COLOR_ATTACHMENT_WRITE | ACCESS_COLOR_ATTACHMENT_READ, STAGE_COLOR_ATTACHMENT_OUTPUT)));
}

/// Everything the view-z pass writes is declared written, with the access and
/// stages it writes with.
pub proof fn lemma_gtao_depth_declares_its_writes<R>(r: GtaoDepthResources<R>)
    ensures
        gtao_depth_declarations(r).contains(Declared::WriteImageMip(r.view_z_image, 0, image(LAYOUT_GENERAL, ACCESS_SHADER_WRITE, STAGE_COMPUTE_SHADER))),
{
    assert(gtao_depth_declarations(r)[2] == Declared::WriteImageMip(r.view_z_image, 0, image(LAYOUT_GENERAL, ACCESS_SHADER_WRITE, STAGE_COMPUTE_SHADER)));
}

/// Everything a view-z downsampling step writes is declared written, with the access and
/// stages it writes with.
pub proof fn lemma_gtao_depth_mip_declares_its_writes<R>(r: GtaoDepthMipResources<R>)
    ensures
        gtao_depth_mip_declarations(r).contains(Declared::WriteImageMip(r.view_z_image, r.destination_mip, image(LAYOUT_GENERAL, ACCESS_SHADER_WRITE, STAGE_COMPUTE_SHADER))),
{
    assert(gtao_depth_mip_declarations(r)[2] == Declared::WriteImageMip(r.view_z_image, r.destination_mip, image(LAYOUT_GENERAL, ACCESS_SHADER_WRITE, STAGE_COMPUTE_SHADER)));
}

/// Everything the draw-sorting pass writes is declared written, with the access and
/// stages it writes with.
pub proof fn lemma_draw_sort_declares_its_writes<R>(r: DrawSortResources<R>)
    ensures
        draw_sort_declarations(r).contains(Declared::WriteBuffer(r.indirect, buffer(ACCESS_SHADER_READ | ACCESS_SHADER_WRITE, STAGE_COMPUTE_SHADER))),
{
    assert(draw_sort_declarations(r)[2] == Declared::WriteBuffer(r.indirect, buffer(ACCESS_SHADER_READ | ACCESS_SHADER_WRITE, STAGE_COMPUTE_SHADER)));
}

} // verus!
