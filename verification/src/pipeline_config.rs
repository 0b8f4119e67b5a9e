//! The pipelines the passes ask the pipeline provider for. `S` names a
//! shader of the project's shader manifest.
use vstd::prelude::*;
use crate::vulkan::{
    SHADER_STAGE_VERTEX,
    SHADER_STAGE_FRAGMENT,
    CULL_MODE_NONE,
    CULL_MODE_BACK,
    COMPARE_OP_LESS,
    POLYGON_MODE_FILL,
    FRONT_FACE_COUNTER_CLOCKWISE,
    PRIMITIVE_TOPOLOGY_TRIANGLE_LIST,
    COMPARE_OP_ALWAYS,
    SAMPLE_COUNT_1,
    BLEND_OP_ADD,
    BLEND_FACTOR_ZERO,
    BLEND_FACTOR_ONE,
    COLOR_COMPONENT_RGBA,
};
use crate::draw_sort::{DrawSortError, check_sort_capacity, is_power_of_two};

verus! {

/// One shader stage of a pipeline: the shader, its entry point, and the
/// stage it runs at.
#[derive(Clone, Copy, Debug)]
pub struct PipelineStageConfig<S> {
    pub shader: S,
    pub entry_point: &'static str,
    pub stage: u32,
}

/// A blend equation: the operation and the source and destination factors.
#[derive(Clone, Copy, Debug)]
pub struct BlendConfig {
    pub blend_op: i32,
    pub src_blend: i32,
    pub dst_blend: i32,
}

/// A graphics pipeline. Depth bias is configured by `depth_bias_enable`
/// alone: its factors are zero in every pipeline here.
#[derive(Debug)]
pub struct PipelineConfig<S> {
    pub label: &'static str,
    pub stages: Vec<PipelineStageConfig<S>>,
    pub color_formats: Vec<i32>,
    pub depth_format: Option<i32>,
    pub view_mask: u32,
    pub cull_mode: u32,
    pub polygon_mode: i32,
    pub front_face: i32,
    pub primitive_topology: i32,
    pub depth_bias_enable: bool,
    pub depth_test: bool,
    pub depth_write: bool,
    pub depth_compare_op: i32,
    pub msaa_samples: u32,
    pub blend_enabled: bool,
    pub color_blend: Option<BlendConfig>,
    pub alpha_blend: Option<BlendConfig>,
    pub color_write_mask: u32,
}

/// A compute pipeline: the shader, its entry point, and the values of its
/// specialization constants by constant id.
#[derive(Debug)]
pub struct ComputePipelineConfig<S> {
    pub shader: S,
    pub entry_point: &'static str,
    pub specialization_entries: Vec<(u32, u32)>,
}

/// The BRDF lookup table's pipeline: the table's fragment shader and the
/// fullscreen vertex shader, one color target of `color_format` and no
/// depth target, no culling, filled triangles, no depth test or write,
/// single-sampled, blending off with the replacing equation, all color
/// components written.
pub fn brdf_lut_pipeline_config<S: Copy>(brdf_lut_frag: S, fullscreen_vert: S, color_format: i32) -> (c: PipelineConfig<S>)
    ensures
        c.label@ == "brdf_lut"@,
        c.stages@ == seq![
            PipelineStageConfig { shader: brdf_lut_frag, entry_point: "main", stage: SHADER_STAGE_FRAGMENT },
            PipelineStageConfig { shader: fullscreen_vert, entry_point: "main", stage: SHADER_STAGE_VERTEX },
        ],
        c.color_formats@ == seq![color_format],
        c.depth_format is None,
        c.view_mask == 0,
        c.cull_mode == CULL_MODE_NONE,
        c.polygon_mode == POLYGON_MODE_FILL,
        c.front_face == FRONT_FACE_COUNTER_CLOCKWISE,
        c.primitive_topology == PRIMITIVE_TOPOLOGY_TRIANGLE_LIST,
        !c.depth_bias_enable,
        !c.depth_test,
        !c.depth_write,
        c.depth_compare_op == COMPARE_OP_ALWAYS,
        c.msaa_samples == SAMPLE_COUNT_1,
        !c.blend_enabled,
        c.color_blend == Some(BlendConfig { blend_op: BLEND_OP_ADD, src_blend: BLEND_FACTOR_ONE, dst_blend: BLEND_FACTOR_ZERO }),
        c.alpha_blend is None,
        c.color_write_mask == COLOR_COMPONENT_RGBA,
{
    let mut stages: Vec<PipelineStageConfig<S>> = Vec::new();
    stages.push(PipelineStageConfig { shader: brdf_lut_frag, entry_point: "main", stage: SHADER_STAGE_FRAGMENT });
    stages.push(PipelineStageConfig { shader: fullscreen_vert, entry_point: "main", stage: SHADER_STAGE_VERTEX });
    let mut color_formats: Vec<i32> = Vec::new();
    color_formats.push(color_format);
    assert(stages@ =~= seq![
        PipelineStageConfig { shader: brdf_lut_frag, entry_point: "main", stage: SHADER_STAGE_FRAGMENT },
        PipelineStageConfig { shader: fullscreen_vert, entry_point: "main", stage: SHADER_STAGE_VERTEX },
    ]);
    assert(color_formats@ =~= seq![color_format]);
    PipelineConfig {
        label: "brdf_lut",
        stages,
        color_formats,
        depth_format: None,
        view_mask: 0,
        cull_mode: CULL_MODE_NONE,
        polygon_mode: POLYGON_MODE_FILL,
        front_face: FRONT_FACE_COUNTER_CLOCKWISE,
        primitive_topology: PRIMITIVE_TOPOLOGY_TRIANGLE_LIST,
        depth_bias_enable: false,
        depth_test: false,
        depth_write: false,
        depth_compare_op: COMPARE_OP_ALWAYS,
        msaa_samples: SAMPLE_COUNT_1,
        blend_enabled: false,
        color_blend: Some(BlendConfig { blend_op: BLEND_OP_ADD, src_blend: BLEND_FACTOR_ONE, dst_blend: BLEND_FACTOR_ZERO }),
        alpha_blend: None,
        color_write_mask: COLOR_COMPONENT_RGBA,
    }
}

/// The draw-sorting pass's pipeline, asked for only once its capacity
/// checks out: the sort shader with the capacity as specialization
/// constant 0. A capacity that is not a power of two is refused before
/// any pipeline is asked for.
pub fn draw_sort_pipeline_config<S>(draw_sort_comp: S, sort_capacity: u32) -> (r: Result<ComputePipelineConfig<S>, DrawSortError>)
    ensures
        r is Ok <==> is_power_of_two(sort_capacity),
        r matches Err(e) ==> e == (DrawSortError::CapacityNotPowerOfTwo { capacity: sort_capacity }),
        r matches Ok(c) ==> {
            &&& c.shader == draw_sort_comp
            &&& c.entry_point@ == "main"@
            &&& c.specialization_entries@ == seq![(0u32, sort_capacity)]
        },
{
    match check_sort_capacity(sort_capacity) {
        Ok(capacity) => {
            let mut specialization_entries: Vec<(u32, u32)> = Vec::new();
            specialization_entries.push((0, capacity));
            assert(specialization_entries@ =~= seq![(0u32, sort_capacity)]);
            Ok(ComputePipelineConfig { shader: draw_sort_comp, entry_point: "main", specialization_entries })
        },
        Err(e) => Err(e),
    }
}

/// The depth pass's pipeline: its fragment and vertex shaders, no color
/// target and a depth target of `depth_format`, back faces culled, filled
/// counter-clockwise triangles, depth tested with "less" and written,
/// single-sampled, blending off with the replacing equation, all color
/// components written.
pub fn depth_pass_pipeline_config(depth_format: i32) -> (c: PipelineConfig<&'static str>)
    ensures
        c.label@ == "depth"@,
        c.stages@ == seq![
            PipelineStageConfig { shader: "shaders/depth/depth.frag.spv", entry_point: "main", stage: SHADER_STAGE_FRAGMENT },
            PipelineStageConfig { shader: "shaders/depth/depth.vert.spv", entry_point: "main", stage: SHADER_STAGE_VERTEX },
        ],
        c.color_formats@.len() == 0,
        c.depth_format == Some(depth_format),
        c.view_mask == 0,
        c.cull_mode == CULL_MODE_BACK,
        c.polygon_mode == POLYGON_MODE_FILL,
        c.front_face == FRONT_FACE_COUNTER_CLOCKWISE,
        c.primitive_topology == PRIMITIVE_TOPOLOGY_TRIANGLE_LIST,
        !c.depth_bias_enable,
        c.depth_test,
        c.depth_write,
        c.depth_compare_op == COMPARE_OP_LESS,
        c.msaa_samples == SAMPLE_COUNT_1,
        !c.blend_enabled,
        c.color_blend == Some(BlendConfig { blend_op: BLEND_OP_ADD, src_blend: BLEND_FACTOR_ONE, dst_blend: BLEND_FACTOR_ZERO }),
        c.alpha_blend is None,
        c.color_write_mask == COLOR_COMPONENT_RGBA,
{
    let mut stages: Vec<PipelineStageConfig<&'static str>> = Vec::new();
    stages.push(PipelineStageConfig { shader: "shaders/depth/depth.frag.spv", entry_point: "main", stage: SHADER_STAGE_FRAGMENT });
    stages.push(PipelineStageConfig { shader: "shaders/depth/depth.vert.spv", entry_point: "main", stage: SHADER_STAGE_VERTEX });
    assert(stages@ =~= seq![
        PipelineStageConfig { shader: "shaders/depth/depth.frag.spv", entry_point: "main", stage: SHADER_STAGE_FRAGMENT },
        PipelineStageConfig { shader: "shaders/depth/depth.vert.spv", entry_point: "main", stage: SHADER_STAGE_VERTEX },
    ]);
    PipelineConfig {
        label: "depth",
        stages,
        color_formats: Vec::new(),
        depth_format: Some(depth_format),
        view_mask: 0,
        cull_mode: CULL_MODE_BACK,
        polygon_mode: POLYGON_MODE_FILL,
        front_face: FRONT_FACE_COUNTER_CLOCKWISE,
        primitive_topology: PRIMITIVE_TOPOLOGY_TRIANGLE_LIST,
        depth_bias_enable: false,
        depth_test: true,
        depth_write: true,
        depth_compare_op: COMPARE_OP_LESS,
        msaa_samples: SAMPLE_COUNT_1,
        blend_enabled: false,
        color_blend: Some(BlendConfig { blend_op: BLEND_OP_ADD, src_blend: BLEND_FACTOR_ONE, dst_blend: BLEND_FACTOR_ZERO }),
        alpha_blend: None,
        color_write_mask: COLOR_COMPONENT_RGBA,
    }
}

/// The pipeline of a compute pass without specialization constants (the
/// culling, accumulation, filtering, pyramid and denoising passes): its
/// shader with entry point `main`.
pub fn compute_pipeline_config<S>(shader: S) -> (c: ComputePipelineConfig<S>)
    ensures
        c.shader == shader,
        c.entry_point@ == "main"@,
        c.specialization_entries@.len() == 0,
{
    ComputePipelineConfig { shader, entry_point: "main", specialization_entries: Vec::new() }
}

} // verus!
