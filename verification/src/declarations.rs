//! The resources each pass declares to the render graph, in the order it
//! declares them: which images and buffers it reads and writes, in which
//! image layout, with which access mask and at which pipeline stages. The
//! render graph places its barriers by these declarations, so a pass must
//! declare every resource its recording fetches. `R` is the render graph's
//! resource handle.
use vstd::prelude::*;
use crate::history::history_roles;
use crate::debug_layer::{DebugLayerSource, spec_debug_layer_source};
use crate::vulkan::{
    ACCESS_COLOR_ATTACHMENT_WRITE,
    ACCESS_DEPTH_STENCIL_ATTACHMENT_READ,
    ACCESS_DEPTH_STENCIL_ATTACHMENT_WRITE,
    ACCESS_HOST_WRITE,
    ACCESS_INDEX_READ,
    ACCESS_INDIRECT_COMMAND_READ,
    ACCESS_SHADER_READ,
    ACCESS_SHADER_WRITE,
    ACCESS_TRANSFER_WRITE,
    LAYOUT_COLOR_ATTACHMENT_OPTIMAL,
    LAYOUT_DEPTH_STENCIL_ATTACHMENT_OPTIMAL,
    LAYOUT_GENERAL,
    LAYOUT_SHADER_READ_ONLY_OPTIMAL,
    STAGE_COLOR_ATTACHMENT_OUTPUT,
    STAGE_COMPUTE_SHADER,
    STAGE_DRAW_INDIRECT,
    STAGE_EARLY_FRAGMENT_TESTS,
    STAGE_FRAGMENT_SHADER,
    STAGE_HOST,
    STAGE_LATE_FRAGMENT_TESTS,
    STAGE_VERTEX_INPUT,
    STAGE_VERTEX_SHADER,
    STAGE_TRANSFER,
};

verus! {

/// How a pass uses an image.
#[derive(Clone, Copy, Debug)]
pub struct ImageAccess {
    pub layout: i32,
    pub access: u32,
    pub stages: u32,
}

/// How a pass uses a buffer.
#[derive(Clone, Copy, Debug)]
pub struct BufferAccess {
    pub access: u32,
    pub stages: u32,
}

/// One declaration of a pass.
#[derive(Clone, Copy, Debug)]
pub enum Declared<R> {
    /// The pass consumes a data resource of the frame.
    Consume(R),
    ReadImage(R, ImageAccess),
    WriteImage(R, ImageAccess),
    ReadBuffer(R, BufferAccess),
    WriteBuffer(R, BufferAccess),
    /// One mip of an image, read.
    ReadImageMip(R, u32, ImageAccess),
    /// One mip of an image, written.
    WriteImageMip(R, u32, ImageAccess),
    /// An acceleration structure, read.
    ReadAccelerationStructure(R, BufferAccess),
    /// An acceleration structure, written.
    WriteAccelerationStructure(R, BufferAccess),
}

/// The resource a declaration names.
pub open spec fn declared_resource<R>(d: Declared<R>) -> R {
    match d {
        Declared::Consume(r) => r,
        Declared::ReadImage(r, _) => r,
        Declared::WriteImage(r, _) => r,
        Declared::ReadBuffer(r, _) => r,
        Declared::WriteBuffer(r, _) => r,
        Declared::ReadImageMip(r, _, _) => r,
        Declared::WriteImageMip(r, _, _) => r,
        Declared::ReadAccelerationStructure(r, _) => r,
        Declared::WriteAccelerationStructure(r, _) => r,
    }
}

/// The declarations name `r`.
pub open spec fn declares<R>(d: Seq<Declared<R>>, r: R) -> bool {
    exists|k: int| 0 <= k < d.len() && #[trigger] declared_resource(d[k]) == r
}

/// Every resource of `fetched` is declared.
pub open spec fn declares_all<R>(d: Seq<Declared<R>>, fetched: Seq<R>) -> bool {
    forall|i: int| 0 <= i < fetched.len() ==> declares(d, #[trigger] fetched[i])
}

pub open spec fn image(layout: i32, access: u32, stages: u32) -> ImageAccess {
    ImageAccess { layout, access, stages }
}

pub open spec fn buffer(access: u32, stages: u32) -> BufferAccess {
    BufferAccess { access, stages }
}

/// The resources of the main pass.
#[derive(Clone, Copy, Debug)]
pub struct MainPassResources<R> {
    pub render_settings: R,
    pub depth: R,
    pub shadow_history_a: R,
    pub shadow_history_b: R,
    pub gtao_history_a: R,
    pub gtao_history_b: R,
    pub sh_image: R,
    pub brdf_lut_image: R,
    pub target_image: R,
    pub entity_id_image: R,
    pub scene_buffer: R,
    pub entity_buffer: R,
    pub draw_count: R,
    pub indirect: R,
    pub draw_data: R,
    pub bone_transform: R,
}

/// The main pass's declarations: it consumes the render settings; writes
/// depth (read and written by the depth tests); samples both shadow and
/// both ambient-occlusion histories in the general layout, the irradiance
/// and BRDF images read-only; writes its two color targets; reads the
/// scene and entity buffers in vertex and fragment shading, the draw count
/// and indirect commands for indirect drawing, the draw records and bone
/// transforms in vertex shading.
pub open spec fn main_pass_declarations<R>(r: MainPassResources<R>) -> Seq<Declared<R>> {
    seq![
        Declared::Consume(r.render_settings),
        Declared::WriteImage(r.depth, image(
            LAYOUT_DEPTH_STENCIL_ATTACHMENT_OPTIMAL,
            ACCESS_DEPTH_STENCIL_ATTACHMENT_WRITE | ACCESS_DEPTH_STENCIL_ATTACHMENT_READ,
            STAGE_EARLY_FRAGMENT_TESTS | STAGE_LATE_FRAGMENT_TESTS,
        )),
        Declared::ReadImage(r.shadow_history_a, image(LAYOUT_GENERAL, ACCESS_SHADER_READ, STAGE_FRAGMENT_SHADER)),
        Declared::ReadImage(r.shadow_history_b, image(LAYOUT_GENERAL, ACCESS_SHADER_READ, STAGE_FRAGMENT_SHADER)),
        Declared::ReadImage(r.gtao_history_a, image(LAYOUT_GENERAL, ACCESS_SHADER_READ, STAGE_FRAGMENT_SHADER)),
        Declared::ReadImage(r.gtao_history_b, image(LAYOUT_GENERAL, ACCESS_SHADER_READ, STAGE_FRAGMENT_SHADER)),
        Declared::ReadImage(r.sh_image, image(LAYOUT_SHADER_READ_ONLY_OPTIMAL, ACCESS_SHADER_READ, STAGE_FRAGMENT_SHADER)),
        Declared::ReadImage(r.brdf_lut_image, image(LAYOUT_SHADER_READ_ONLY_OPTIMAL, ACCESS_SHADER_READ, STAGE_FRAGMENT_SHADER)),
        Declared::WriteImage(r.target_image, image(LAYOUT_COLOR_ATTACHMENT_OPTIMAL, ACCESS_COLOR_ATTACHMENT_WRITE, STAGE_COLOR_ATTACHMENT_OUTPUT)),
        Declared::WriteImage(r.entity_id_image, image(LAYOUT_COLOR_ATTACHMENT_OPTIMAL, ACCESS_COLOR_ATTACHMENT_WRITE, STAGE_COLOR_ATTACHMENT_OUTPUT)),
        Declared::ReadBuffer(r.scene_buffer, buffer(ACCESS_SHADER_READ, STAGE_VERTEX_SHADER | STAGE_FRAGMENT_SHADER)),
        Declared::ReadBuffer(r.entity_buffer, buffer(ACCESS_SHADER_READ, STAGE_VERTEX_SHADER | STAGE_FRAGMENT_SHADER)),
        Declared::ReadBuffer(r.draw_count, buffer(ACCESS_INDIRECT_COMMAND_READ, STAGE_DRAW_INDIRECT)),
        Declared::ReadBuffer(r.indirect, buffer(ACCESS_INDIRECT_COMMAND_READ, STAGE_DRAW_INDIRECT)),
        Declared::ReadBuffer(r.draw_data, buffer(ACCESS_SHADER_READ, STAGE_VERTEX_SHADER)),
        Declared::ReadBuffer(r.bone_transform, buffer(ACCESS_SHADER_READ, STAGE_VERTEX_SHADER)),
    ]
}

/// The main pass's declarations.
pub fn main_pass_declarations_of<R: Copy>(r: &MainPassResources<R>) -> (d: Vec<Declared<R>>)
    ensures
        d@ == main_pass_declarations(*r),
{
    let mut d: Vec<Declared<R>> = Vec::new();
    d.push(Declared::Consume(r.render_settings));
    d.push(Declared::WriteImage(r.depth, ImageAccess {
        layout: LAYOUT_DEPTH_STENCIL_ATTACHMENT_OPTIMAL,
        access: ACCESS_DEPTH_STENCIL_ATTACHMENT_WRITE | ACCESS_DEPTH_STENCIL_ATTACHMENT_READ,
        stages: STAGE_EARLY_FRAGMENT_TESTS | STAGE_LATE_FRAGMENT_TESTS,
    }));
    let history = ImageAccess { layout: LAYOUT_GENERAL, access: ACCESS_SHADER_READ, stages: STAGE_FRAGMENT_SHADER };
    d.push(Declared::ReadImage(r.shadow_history_a, history));
    d.push(Declared::ReadImage(r.shadow_history_b, history));
    d.push(Declared::ReadImage(r.gtao_history_a, history));
    d.push(Declared::ReadImage(r.gtao_history_b, history));
    let sampled = ImageAccess { layout: LAYOUT_SHADER_READ_ONLY_OPTIMAL, access: ACCESS_SHADER_READ, stages: STAGE_FRAGMENT_SHADER };
    d.push(Declared::ReadImage(r.sh_image, sampled));
    d.push(Declared::ReadImage(r.brdf_lut_image, sampled));
    let target = ImageAccess {
        layout: LAYOUT_COLOR_ATTACHMENT_OPTIMAL,
        access: ACCESS_COLOR_ATTACHMENT_WRITE,
        stages: STAGE_COLOR_ATTACHMENT_OUTPUT,
    };
    d.push(Declared::WriteImage(r.target_image, target));
    d.push(Declared::WriteImage(r.entity_id_image, target));
    let shaded = BufferAccess { access: ACCESS_SHADER_READ, stages: STAGE_VERTEX_SHADER | STAGE_FRAGMENT_SHADER };
    d.push(Declared::ReadBuffer(r.scene_buffer, shaded));
    d.push(Declared::ReadBuffer(r.entity_buffer, shaded));
    let indirect = BufferAccess { access: ACCESS_INDIRECT_COMMAND_READ, stages: STAGE_DRAW_INDIRECT };
    d.push(Declared::ReadBuffer(r.draw_count, indirect));
    d.push(Declared::ReadBuffer(r.indirect, indirect));
    let vertex = BufferAccess { access: ACCESS_SHADER_READ, stages: STAGE_VERTEX_SHADER };
    d.push(Declared::ReadBuffer(r.draw_data, vertex));
    d.push(Declared::ReadBuffer(r.bone_transform, vertex));
    assert(d@ =~= main_pass_declarations(*r));
    d
}

/// The resources the main pass's recording fetches under a history write
/// index: the shadow and ambient-occlusion histories written this frame,
/// the irradiance image, and its buffers.
pub open spec fn main_pass_fetches<R>(r: MainPassResources<R>, history_write_index: u32) -> Seq<R> {
    seq![
        history_roles(history_write_index, r.shadow_history_a, r.shadow_history_b).0,
        history_roles(history_write_index, r.gtao_history_a, r.gtao_history_b).0,
        r.sh_image,
        r.scene_buffer,
        r.entity_buffer,
        r.draw_count,
        r.indirect,
        r.draw_data,
        r.bone_transform,
    ]
}

/// Whatever the history write index, every resource the main pass's
/// recording fetches is declared.
pub proof fn lemma_main_pass_declares_fetches<R>(r: MainPassResources<R>, history_write_index: u32)
    ensures
        declares_all(main_pass_declarations(r), main_pass_fetches(r, history_write_index)),
{
    let d = main_pass_declarations(r);
    let f = main_pass_fetches(r, history_write_index);
    assert forall|i: int| 0 <= i < f.len() implies declares(d, #[trigger] f[i]) by {
        let k: int = if i == 0 {
            if history_write_index == 0 { 2 } else { 3 }
        } else if i == 1 {
            if history_write_index == 0 { 4 } else { 5 }
        } else if i == 2 {
            6
        } else {
            i + 7
        };
        assert(declared_resource(d[k]) == f[i]);
    }
}

/// The resources of the depth prepass.
#[derive(Clone, Copy, Debug)]
pub struct DepthPrepassResources<R> {
    pub depth: R,
    pub normal: R,
    pub velocity: R,
    pub scene_buffer: R,
    pub entity_buffer: R,
    pub entity_motion_buffer: R,
    pub draw_count: R,
    pub indirect: R,
    pub draw_data: R,
    pub bone_transform: R,
    pub index_buffer: R,
    pub mesh_vertex_buffer: R,
    pub mesh_vertex_skin_buffer: R,
    pub submesh_buffer: R,
}

/// The depth prepass's declarations: it writes depth (read and written by
/// the depth tests) and its normal and velocity targets; reads the scene,
/// entity and motion buffers in vertex shading, the draw count and
/// indirect commands for indirect drawing, the draw records and bone
/// transforms in vertex shading, the indices as vertex input, and the mesh
/// vertices, skinning data and submeshes in vertex and fragment shading.
pub open spec fn depth_prepass_declarations<R>(r: DepthPrepassResources<R>) -> Seq<Declared<R>> {
    seq![
        Declared::WriteImage(r.depth, image(
            LAYOUT_DEPTH_STENCIL_ATTACHMENT_OPTIMAL,
            ACCESS_DEPTH_STENCIL_ATTACHMENT_WRITE | ACCESS_DEPTH_STENCIL_ATTACHMENT_READ,
            STAGE_EARLY_FRAGMENT_TESTS | STAGE_LATE_FRAGMENT_TESTS,
        )),
        Declared::WriteImage(r.normal, image(LAYOUT_COLOR_ATTACHMENT_OPTIMAL, ACCESS_COLOR_ATTACHMENT_WRITE, STAGE_COLOR_ATTACHMENT_OUTPUT)),
        Declared::WriteImage(r.velocity, image(LAYOUT_COLOR_ATTACHMENT_OPTIMAL, ACCESS_COLOR_ATTACHMENT_WRITE, STAGE_COLOR_ATTACHMENT_OUTPUT)),
        Declared::ReadBuffer(r.scene_buffer, buffer(ACCESS_SHADER_READ, STAGE_VERTEX_SHADER)),
        Declared::ReadBuffer(r.entity_buffer, buffer(ACCESS_SHADER_READ, STAGE_VERTEX_SHADER)),
        Declared::ReadBuffer(r.entity_motion_buffer, buffer(ACCESS_SHADER_READ, STAGE_VERTEX_SHADER)),
        Declared::ReadBuffer(r.draw_count, buffer(ACCESS_INDIRECT_COMMAND_READ, STAGE_DRAW_INDIRECT)),
        Declared::ReadBuffer(r.indirect, buffer(ACCESS_INDIRECT_COMMAND_READ, STAGE_DRAW_INDIRECT)),
        Declared::ReadBuffer(r.draw_data, buffer(ACCESS_SHADER_READ, STAGE_VERTEX_SHADER)),
        Declared::ReadBuffer(r.bone_transform, buffer(ACCESS_SHADER_READ, STAGE_VERTEX_SHADER)),
        Declared::ReadBuffer(r.index_buffer, buffer(ACCESS_INDEX_READ, STAGE_VERTEX_INPUT)),
        Declared::ReadBuffer(r.mesh_vertex_buffer, buffer(ACCESS_SHADER_READ, STAGE_VERTEX_SHADER | STAGE_FRAGMENT_SHADER)),
        Declared::ReadBuffer(r.mesh_vertex_skin_buffer, buffer(ACCESS_SHADER_READ, STAGE_VERTEX_SHADER | STAGE_FRAGMENT_SHADER)),
        Declared::ReadBuffer(r.submesh_buffer, buffer(ACCESS_SHADER_READ, STAGE_VERTEX_SHADER | STAGE_FRAGMENT_SHADER)),
    ]
}

/// The depth prepass's declarations.
pub fn depth_prepass_declarations_of<R: Copy>(r: &DepthPrepassResources<R>) -> (d: Vec<Declared<R>>)
    ensures
        d@ == depth_prepass_declarations(*r),
{
    let mut d: Vec<Declared<R>> = Vec::new();
    d.push(Declared::WriteImage(r.depth, ImageAccess {
        layout: LAYOUT_DEPTH_STENCIL_ATTACHMENT_OPTIMAL,
        access: ACCESS_DEPTH_STENCIL_ATTACHMENT_WRITE | ACCESS_DEPTH_STENCIL_ATTACHMENT_READ,
        stages: STAGE_EARLY_FRAGMENT_TESTS | STAGE_LATE_FRAGMENT_TESTS,
    }));
    let target = ImageAccess {
        layout: LAYOUT_COLOR_ATTACHMENT_OPTIMAL,
        access: ACCESS_COLOR_ATTACHMENT_WRITE,
        stages: STAGE_COLOR_ATTACHMENT_OUTPUT,
    };
    d.push(Declared::WriteImage(r.normal, target));
    d.push(Declared::WriteImage(r.velocity, target));
    let vertex = BufferAccess { access: ACCESS_SHADER_READ, stages: STAGE_VERTEX_SHADER };
    d.push(Declared::ReadBuffer(r.scene_buffer, vertex));
    d.push(Declared::ReadBuffer(r.entity_buffer, vertex));
    d.push(Declared::ReadBuffer(r.entity_motion_buffer, vertex));
    let indirect = BufferAccess { access: ACCESS_INDIRECT_COMMAND_READ, stages: STAGE_DRAW_INDIRECT };
    d.push(Declared::ReadBuffer(r.draw_count, indirect));
    d.push(Declared::ReadBuffer(r.indirect, indirect));
    d.push(Declared::ReadBuffer(r.draw_data, vertex));
    d.push(Declared::ReadBuffer(r.bone_transform, vertex));
    d.push(Declared::ReadBuffer(r.index_buffer, BufferAccess { access: ACCESS_INDEX_READ, stages: STAGE_VERTEX_INPUT }));
    let shaded = BufferAccess { access: ACCESS_SHADER_READ, stages: STAGE_VERTEX_SHADER | STAGE_FRAGMENT_SHADER };
    d.push(Declared::ReadBuffer(r.mesh_vertex_buffer, shaded));
    d.push(Declared::ReadBuffer(r.mesh_vertex_skin_buffer, shaded));
    d.push(Declared::ReadBuffer(r.submesh_buffer, shaded));
    assert(d@ =~= depth_prepass_declarations(*r));
    d
}

/// The buffers the depth prepass's recording fetches.
pub open spec fn depth_prepass_fetches<R>(r: DepthPrepassResources<R>) -> Seq<R> {
    seq![
        r.mesh_vertex_buffer,
        r.mesh_vertex_skin_buffer,
        r.submesh_buffer,
        r.index_buffer,
        r.scene_buffer,
        r.entity_buffer,
        r.entity_motion_buffer,
        r.draw_count,
        r.indirect,
        r.draw_data,
        r.bone_transform,
    ]
}

/// Every buffer the depth prepass's recording fetches is declared.
pub proof fn lemma_depth_prepass_declares_fetches<R>(r: DepthPrepassResources<R>)
    ensures
        declares_all(depth_prepass_declarations(r), depth_prepass_fetches(r)),
{
    let d = depth_prepass_declarations(r);
    let f = depth_prepass_fetches(r);
    assert forall|i: int| 0 <= i < f.len() implies declares(d, #[trigger] f[i]) by {
        let k: int = if i < 3 {
            i + 11
        } else if i == 3 {
            10
        } else {
            i - 1
        };
        assert(declared_resource(d[k]) == f[i]);
    }
}

/// The resources of the culling pass.
#[derive(Clone, Copy, Debug)]
pub struct CullingPassResources<R> {
    pub render_snapshot: R,
    pub cull_requests_buffer: R,
    pub scene_buffer: R,
    pub entity_buffer: R,
    pub main_culling_views_buffer: R,
    pub mesh_buffer: R,
    pub submesh_buffer: R,
    pub material_buffer: R,
    pub draw_count: R,
    pub indirect: R,
    pub draw_data: R,
}

/// The culling pass's declarations: it consumes the frame's snapshot;
/// writes the cull requests from the host; reads the scene, entity, view,
/// mesh, submesh and material buffers in compute; reads and writes the
/// draw counts and writes the indirect commands and draw records in
/// compute.
pub open spec fn culling_pass_declarations<R>(r: CullingPassResources<R>) -> Seq<Declared<R>> {
    seq![
        Declared::Consume(r.render_snapshot),
        Declared::WriteBuffer(r.cull_requests_buffer, buffer(ACCESS_HOST_WRITE, STAGE_HOST)),
        Declared::ReadBuffer(r.scene_buffer, buffer(ACCESS_SHADER_READ, STAGE_COMPUTE_SHADER)),
        Declared::ReadBuffer(r.entity_buffer, buffer(ACCESS_SHADER_READ, STAGE_COMPUTE_SHADER)),
        Declared::ReadBuffer(r.main_culling_views_buffer, buffer(ACCESS_SHADER_READ, STAGE_COMPUTE_SHADER)),
        Declared::ReadBuffer(r.mesh_buffer, buffer(ACCESS_SHADER_READ, STAGE_COMPUTE_SHADER)),
        Declared::ReadBuffer(r.submesh_buffer, buffer(ACCESS_SHADER_READ, STAGE_COMPUTE_SHADER)),
        Declared::ReadBuffer(r.material_buffer, buffer(ACCESS_SHADER_READ, STAGE_COMPUTE_SHADER)),
        Declared::WriteBuffer(r.draw_count, buffer(ACCESS_SHADER_READ | ACCESS_SHADER_WRITE, STAGE_COMPUTE_SHADER)),
        Declared::WriteBuffer(r.indirect, buffer(ACCESS_SHADER_WRITE, STAGE_COMPUTE_SHADER)),
        Declared::WriteBuffer(r.draw_data, buffer(ACCESS_SHADER_WRITE, STAGE_COMPUTE_SHADER)),
    ]
}

/// The culling pass's declarations.
pub fn culling_pass_declarations_of<R: Copy>(r: &CullingPassResources<R>) -> (d: Vec<Declared<R>>)
    ensures
        d@ == culling_pass_declarations(*r),
{
    let mut d: Vec<Declared<R>> = Vec::new();
    d.push(Declared::Consume(r.render_snapshot));
    d.push(Declared::WriteBuffer(r.cull_requests_buffer, BufferAccess { access: ACCESS_HOST_WRITE, stages: STAGE_HOST }));
    let read = BufferAccess { access: ACCESS_SHADER_READ, stages: STAGE_COMPUTE_SHADER };
    d.push(Declared::ReadBuffer(r.scene_buffer, read));
    d.push(Declared::ReadBuffer(r.entity_buffer, read));
    d.push(Declared::ReadBuffer(r.main_culling_views_buffer, read));
    d.push(Declared::ReadBuffer(r.mesh_buffer, read));
    d.push(Declared::ReadBuffer(r.submesh_buffer, read));
    d.push(Declared::ReadBuffer(r.material_buffer, read));
    d.push(Declared::WriteBuffer(r.draw_count, BufferAccess {
        access: ACCESS_SHADER_READ | ACCESS_SHADER_WRITE,
        stages: STAGE_COMPUTE_SHADER,
    }));
    let write = BufferAccess { access: ACCESS_SHADER_WRITE, stages: STAGE_COMPUTE_SHADER };
    d.push(Declared::WriteBuffer(r.indirect, write));
    d.push(Declared::WriteBuffer(r.draw_data, write));
    assert(d@ =~= culling_pass_declarations(*r));
    d
}

/// The buffers the culling pass's recording fetches (its statistics
/// readback is not a render-graph buffer).
pub open spec fn culling_pass_fetches<R>(r: CullingPassResources<R>) -> Seq<R> {
    seq![
        r.scene_buffer,
        r.entity_buffer,
        r.main_culling_views_buffer,
        r.cull_requests_buffer,
        r.draw_count,
        r.mesh_buffer,
        r.submesh_buffer,
        r.indirect,
        r.draw_data,
        r.material_buffer,
    ]
}

/// Every buffer the culling pass's recording fetches is declared.
pub proof fn lemma_culling_pass_declares_fetches<R>(r: CullingPassResources<R>)
    ensures
        declares_all(culling_pass_declarations(r), culling_pass_fetches(r)),
{
    let d = culling_pass_declarations(r);
    let f = culling_pass_fetches(r);
    assert forall|i: int| 0 <= i < f.len() implies declares(d, #[trigger] f[i]) by {
        let k: int = if i < 3 {
            i + 2
        } else if i == 3 {
            1
        } else if i == 4 {
            8
        } else if i < 7 {
            i
        } else if i < 9 {
            i + 2
        } else {
            7
        };
        assert(declared_resource(d[k]) == f[i]);
    }
}

/// The images of the debug-layer pass.
#[derive(Clone, Copy, Debug)]
pub struct DebugLayerResources<R> {
    pub velocity_image: R,
    pub normal_image: R,
    pub gtao_image: R,
    pub sh_image: R,
    pub hiz_image: R,
    pub shadow_history_a: R,
    pub shadow_history_b: R,
    pub target_image: R,
}

/// The debug-layer pass's declarations: it samples every image a layer can
/// show, read-only in fragment shading, and writes its color target.
pub open spec fn debug_layer_declarations<R>(r: DebugLayerResources<R>) -> Seq<Declared<R>> {
    let sampled = image(LAYOUT_SHADER_READ_ONLY_OPTIMAL, ACCESS_SHADER_READ, STAGE_FRAGMENT_SHADER);
    seq![
        Declared::ReadImage(r.velocity_image, sampled),
        Declared::ReadImage(r.normal_image, sampled),
        Declared::ReadImage(r.gtao_image, sampled),
        Declared::ReadImage(r.sh_image, sampled),
        Declared::ReadImage(r.hiz_image, sampled),
        Declared::ReadImage(r.shadow_history_a, sampled),
        Declared::ReadImage(r.shadow_history_b, sampled),
        Declared::WriteImage(r.target_image, image(LAYOUT_COLOR_ATTACHMENT_OPTIMAL, ACCESS_COLOR_ATTACHMENT_WRITE, STAGE_COLOR_ATTACHMENT_OUTPUT)),
    ]
}

/// The debug-layer pass's declarations.
pub fn debug_layer_declarations_of<R: Copy>(r: &DebugLayerResources<R>) -> (d: Vec<Declared<R>>)
    ensures
        d@ == debug_layer_declarations(*r),
{
    let sampled = ImageAccess { layout: LAYOUT_SHADER_READ_ONLY_OPTIMAL, access: ACCESS_SHADER_READ, stages: STAGE_FRAGMENT_SHADER };
    let mut d: Vec<Declared<R>> = Vec::new();
    d.push(Declared::ReadImage(r.velocity_image, sampled));
    d.push(Declared::ReadImage(r.normal_image, sampled));
    d.push(Declared::ReadImage(r.gtao_image, sampled));
    d.push(Declared::ReadImage(r.sh_image, sampled));
    d.push(Declared::ReadImage(r.hiz_image, sampled));
    d.push(Declared::ReadImage(r.shadow_history_a, sampled));
    d.push(Declared::ReadImage(r.shadow_history_b, sampled));
    d.push(Declared::WriteImage(r.target_image, ImageAccess {
        layout: LAYOUT_COLOR_ATTACHMENT_OPTIMAL,
        access: ACCESS_COLOR_ATTACHMENT_WRITE,
        stages: STAGE_COLOR_ATTACHMENT_OUTPUT,
    }));
    assert(d@ =~= debug_layer_declarations(*r));
    d
}

/// The image a debug-layer source names.
pub open spec fn debug_source_image<R>(r: DebugLayerResources<R>, source: DebugLayerSource) -> R {
    match source {
        DebugLayerSource::Velocity => r.velocity_image,
        DebugLayerSource::Normal => r.normal_image,
        DebugLayerSource::Gtao => r.gtao_image,
        DebugLayerSource::ShIrradiance => r.sh_image,
        DebugLayerSource::Hiz => r.hiz_image,
        DebugLayerSource::ShadowHistoryA => r.shadow_history_a,
        DebugLayerSource::ShadowHistoryB => r.shadow_history_b,
    }
}

/// Whatever layer is shown and whatever the history write index, the image
/// the debug-layer pass samples is declared.
pub proof fn lemma_debug_layer_declares_source<R>(r: DebugLayerResources<R>, layer: usize, history_write_index: u32)
    ensures
        declares(
            debug_layer_declarations(r),
            debug_source_image(r, spec_debug_layer_source(layer, history_write_index)),
        ),
{
    let d = debug_layer_declarations(r);
    let k: int = match spec_debug_layer_source(layer, history_write_index) {
        DebugLayerSource::Velocity => 0,
        DebugLayerSource::Normal => 1,
        DebugLayerSource::Gtao => 2,
        DebugLayerSource::ShIrradiance => 3,
        DebugLayerSource::Hiz => 4,
        DebugLayerSource::ShadowHistoryA => 5,
        DebugLayerSource::ShadowHistoryB => 6,
    };
    assert(declared_resource(d[k]) == debug_source_image(r, spec_debug_layer_source(layer, history_write_index)));
}

/// The buffers of the main culling pass.
#[derive(Clone, Copy, Debug)]
pub struct MainCullingResources<R> {
    pub scene_buffer: R,
    pub entity_buffer: R,
    pub culling_view_buffer: R,
    pub draw_count_main: R,
    pub draw_count_shadow: R,
    pub indirect_main: R,
    pub indirect_shadow: R,
    pub draw_data_main: R,
    pub draw_data_shadow: R,
}

/// The main culling pass's declarations: the host writes the scene, entity
/// and view records; the draw counts are cleared by transfer and counted
/// in compute; compute writes the indirect commands and draw records of
/// both views.
pub open spec fn main_culling_declarations<R>(r: MainCullingResources<R>) -> Seq<Declared<R>> {
    let host = buffer(ACCESS_HOST_WRITE, STAGE_HOST);
    let counted = buffer(ACCESS_TRANSFER_WRITE | ACCESS_SHADER_WRITE, STAGE_TRANSFER | STAGE_COMPUTE_SHADER);
    let written = buffer(ACCESS_SHADER_WRITE, STAGE_COMPUTE_SHADER);
    seq![
        Declared::WriteBuffer(r.scene_buffer, host),
        Declared::WriteBuffer(r.entity_buffer, host),
        Declared::WriteBuffer(r.culling_view_buffer, host),
        Declared::WriteBuffer(r.draw_count_main, counted),
        Declared::WriteBuffer(r.draw_count_shadow, counted),
        Declared::WriteBuffer(r.indirect_main, written),
        Declared::WriteBuffer(r.indirect_shadow, written),
        Declared::WriteBuffer(r.draw_data_main, written),
        Declared::WriteBuffer(r.draw_data_shadow, written),
    ]
}

/// The main culling pass's declarations.
pub fn main_culling_declarations_of<R: Copy>(r: &MainCullingResources<R>) -> (d: Vec<Declared<R>>)
    ensures
        d@ == main_culling_declarations(*r),
{
    let host = BufferAccess { access: ACCESS_HOST_WRITE, stages: STAGE_HOST };
    let counted = BufferAccess {
        access: ACCESS_TRANSFER_WRITE | ACCESS_SHADER_WRITE,
        stages: STAGE_TRANSFER | STAGE_COMPUTE_SHADER,
    };
    let written = BufferAccess { access: ACCESS_SHADER_WRITE, stages: STAGE_COMPUTE_SHADER };
    let mut d: Vec<Declared<R>> = Vec::new();
    d.push(Declared::WriteBuffer(r.scene_buffer, host));
    d.push(Declared::WriteBuffer(r.entity_buffer, host));
    d.push(Declared::WriteBuffer(r.culling_view_buffer, host));
    d.push(Declared::WriteBuffer(r.draw_count_main, counted));
    d.push(Declared::WriteBuffer(r.draw_count_shadow, counted));
    d.push(Declared::WriteBuffer(r.indirect_main, written));
    d.push(Declared::WriteBuffer(r.indirect_shadow, written));
    d.push(Declared::WriteBuffer(r.draw_data_main, written));
    d.push(Declared::WriteBuffer(r.draw_data_shadow, written));
    assert(d@ =~= main_culling_declarations(*r));
    d
}

/// The buffers the main culling pass fetches: those it stages, the draw
/// counts it clears, and the buffers its view records point the shader at.
pub open spec fn main_culling_fetches<R>(r: MainCullingResources<R>) -> Seq<R> {
    seq![
        r.draw_count_main,
        r.draw_count_shadow,
        r.indirect_main,
        r.indirect_shadow,
        r.draw_data_main,
        r.draw_data_shadow,
        r.entity_buffer,
        r.scene_buffer,
        r.culling_view_buffer,
    ]
}

/// Every buffer the main culling pass fetches is declared, and declared
/// written.
pub proof fn lemma_main_culling_declares_fetches<R>(r: MainCullingResources<R>)
    ensures
        declares_all(main_culling_declarations(r), main_culling_fetches(r)),
        forall|k: int| 0 <= k < main_culling_declarations(r).len() ==> #[trigger] main_culling_declarations(r)[k] is WriteBuffer,
{
    let d = main_culling_declarations(r);
    let f = main_culling_fetches(r);
    assert forall|i: int| 0 <= i < f.len() implies declares(d, #[trigger] f[i]) by {
        let k: int = if i < 6 {
            i + 3
        } else if i == 6 {
            1
        } else if i == 7 {
            0
        } else {
            2
        };
        assert(declared_resource(d[k]) == f[i]);
    }
}

/// How a graphics pass writes a color target.
pub open spec fn color_target_write() -> ImageAccess {
    ImageAccess { layout: LAYOUT_COLOR_ATTACHMENT_OPTIMAL, access: ACCESS_COLOR_ATTACHMENT_WRITE, stages: STAGE_COLOR_ATTACHMENT_OUTPUT }
}

/// The main pass declares both images it draws into (its color target and
/// its entity-id target) as written color attachments, and its depth
/// target as written by the depth tests; none of them is declared only
/// read.
pub proof fn lemma_main_pass_writes_its_render_targets<R>(r: MainPassResources<R>)
    ensures
        main_pass_declarations(r).contains(Declared::WriteImage(r.target_image, color_target_write())),
        main_pass_declarations(r).contains(Declared::WriteImage(r.entity_id_image, color_target_write())),
        main_pass_declarations(r).contains(Declared::WriteImage(r.depth, ImageAccess {
            layout: LAYOUT_DEPTH_STENCIL_ATTACHMENT_OPTIMAL,
            access: ACCESS_DEPTH_STENCIL_ATTACHMENT_WRITE | ACCESS_DEPTH_STENCIL_ATTACHMENT_READ,
            stages: STAGE_EARLY_FRAGMENT_TESTS | STAGE_LATE_FRAGMENT_TESTS,
        })),
{
    let d = main_pass_declarations(r);
    assert(d[8] == Declared::WriteImage(r.target_image, color_target_write()));
    assert(d[9] == Declared::WriteImage(r.entity_id_image, color_target_write()));
    assert(d[1] == Declared::WriteImage(r.depth, ImageAccess {
        layout: LAYOUT_DEPTH_STENCIL_ATTACHMENT_OPTIMAL,
        access: ACCESS_DEPTH_STENCIL_ATTACHMENT_WRITE | ACCESS_DEPTH_STENCIL_ATTACHMENT_READ,
        stages: STAGE_EARLY_FRAGMENT_TESTS | STAGE_LATE_FRAGMENT_TESTS,
    }));
}

/// The depth prepass declares the normal and velocity images it draws into
/// as written color attachments, and depth as written by the depth tests.
pub proof fn lemma_depth_prepass_writes_its_render_targets<R>(r: DepthPrepassResources<R>)
    ensures
        depth_prepass_declarations(r).contains(Declared::WriteImage(r.normal, color_target_write())),
        depth_prepass_declarations(r).contains(Declared::WriteImage(r.velocity, color_target_write())),
        depth_prepass_declarations(r).contains(Declared::WriteImage(r.depth, ImageAccess {
            layout: LAYOUT_DEPTH_STENCIL_ATTACHMENT_OPTIMAL,
            access: ACCESS_DEPTH_STENCIL_ATTACHMENT_WRITE | ACCESS_DEPTH_STENCIL_ATTACHMENT_READ,
            stages: STAGE_EARLY_FRAGMENT_TESTS | STAGE_LATE_FRAGMENT_TESTS,
        })),
{
    let d = depth_prepass_declarations(r);
    assert(d[1] == Declared::WriteImage(r.normal, color_target_write()));
    assert(d[2] == Declared::WriteImage(r.velocity, color_target_write()));
    assert(d[0] == Declared::WriteImage(r.depth, ImageAccess {
        layout: LAYOUT_DEPTH_STENCIL_ATTACHMENT_OPTIMAL,
        access: ACCESS_DEPTH_STENCIL_ATTACHMENT_WRITE | ACCESS_DEPTH_STENCIL_ATTACHMENT_READ,
        stages: STAGE_EARLY_FRAGMENT_TESTS | STAGE_LATE_FRAGMENT_TESTS,
    }));
}

/// The debug-layer pass declares the image it draws into as a written
/// color attachment.
pub proof fn lemma_debug_layer_writes_its_render_target<R>(r: DebugLayerResources<R>)
    ensures
        debug_layer_declarations(r).contains(Declared::WriteImage(r.target_image, color_target_write())),
{
    assert(debug_layer_declarations(r)[7] == Declared::WriteImage(r.target_image, color_target_write()));
}

/// Everything the culling pass writes is declared written: the requests
/// by the host, the draw counts read and written in compute, the indirect
/// commands and draw records written in compute.
pub proof fn lemma_culling_pass_declares_its_writes<R>(r: CullingPassResources<R>)
    ensures
        culling_pass_declarations(r).contains(Declared::WriteBuffer(r.cull_requests_buffer, buffer(ACCESS_HOST_WRITE, STAGE_HOST))),
        culling_pass_declarations(r).contains(Declared::WriteBuffer(r.draw_count, buffer(ACCESS_SHADER_READ | ACCESS_SHADER_WRITE, STAGE_COMPUTE_SHADER))),
        culling_pass_declarations(r).contains(Declared::WriteBuffer(r.indirect, buffer(ACCESS_SHADER_WRITE, STAGE_COMPUTE_SHADER))),
        culling_pass_declarations(r).contains(Declared::WriteBuffer(r.draw_data, buffer(ACCESS_SHADER_WRITE, STAGE_COMPUTE_SHADER))),
{
    assert(culling_pass_declarations(r)[1] == Declared::WriteBuffer(r.cull_requests_buffer, buffer(ACCESS_HOST_WRITE, STAGE_HOST)));
    assert(culling_pass_declarations(r)[8] == Declared::WriteBuffer(r.draw_count, buffer(ACCESS_SHADER_READ | ACCESS_SHADER_WRITE, STAGE_COMPUTE_SHADER)));
    assert(culling_pass_declarations(r)[9] == Declared::WriteBuffer(r.indirect, buffer(ACCESS_SHADER_WRITE, STAGE_COMPUTE_SHADER)));
    assert(culling_pass_declarations(r)[10] == Declared::WriteBuffer(r.draw_data, buffer(ACCESS_SHADER_WRITE, STAGE_COMPUTE_SHADER)));
}

} // verus!
