//! Vulkan enumerant and flag values the passes hand the API, as the
//! Vulkan headers (and `ash::vk`) define them.
use vstd::prelude::*;

verus! {

/// `VK_PIPELINE_BIND_POINT_GRAPHICS`.
pub const BIND_POINT_GRAPHICS: i32 = 0;
/// `VK_PIPELINE_BIND_POINT_COMPUTE`.
pub const BIND_POINT_COMPUTE: i32 = 1;

/// `VK_IMAGE_LAYOUT_GENERAL`.
pub const LAYOUT_GENERAL: i32 = 1;
/// `VK_IMAGE_LAYOUT_COLOR_ATTACHMENT_OPTIMAL`.
pub const LAYOUT_COLOR_ATTACHMENT_OPTIMAL: i32 = 2;
/// `VK_IMAGE_LAYOUT_DEPTH_STENCIL_ATTACHMENT_OPTIMAL`.
pub const LAYOUT_DEPTH_STENCIL_ATTACHMENT_OPTIMAL: i32 = 3;
/// `VK_IMAGE_LAYOUT_SHADER_READ_ONLY_OPTIMAL`.
pub const LAYOUT_SHADER_READ_ONLY_OPTIMAL: i32 = 5;

/// `VK_ACCESS_INDIRECT_COMMAND_READ_BIT`.
pub const ACCESS_INDIRECT_COMMAND_READ: u32 = 0x1;
/// `VK_ACCESS_INDEX_READ_BIT`.
pub const ACCESS_INDEX_READ: u32 = 0x2;
/// `VK_ACCESS_SHADER_READ_BIT`.
pub const ACCESS_SHADER_READ: u32 = 0x20;
/// `VK_ACCESS_SHADER_WRITE_BIT`.
pub const ACCESS_SHADER_WRITE: u32 = 0x40;
/// `VK_ACCESS_COLOR_ATTACHMENT_READ_BIT`.
pub const ACCESS_COLOR_ATTACHMENT_READ: u32 = 0x80;
/// `VK_ACCESS_COLOR_ATTACHMENT_WRITE_BIT`.
pub const ACCESS_COLOR_ATTACHMENT_WRITE: u32 = 0x100;
/// `VK_ACCESS_DEPTH_STENCIL_ATTACHMENT_READ_BIT`.
pub const ACCESS_DEPTH_STENCIL_ATTACHMENT_READ: u32 = 0x200;
/// `VK_ACCESS_DEPTH_STENCIL_ATTACHMENT_WRITE_BIT`.
pub const ACCESS_DEPTH_STENCIL_ATTACHMENT_WRITE: u32 = 0x400;
/// `VK_ACCESS_TRANSFER_WRITE_BIT`.
pub const ACCESS_TRANSFER_WRITE: u32 = 0x1000;
/// `VK_ACCESS_HOST_WRITE_BIT`.
pub const ACCESS_HOST_WRITE: u32 = 0x4000;

/// `VK_PIPELINE_STAGE_DRAW_INDIRECT_BIT`.
pub const STAGE_DRAW_INDIRECT: u32 = 0x2;
/// `VK_PIPELINE_STAGE_VERTEX_INPUT_BIT`.
pub const STAGE_VERTEX_INPUT: u32 = 0x4;
/// `VK_PIPELINE_STAGE_VERTEX_SHADER_BIT`.
pub const STAGE_VERTEX_SHADER: u32 = 0x8;
/// `VK_PIPELINE_STAGE_FRAGMENT_SHADER_BIT`.
pub const STAGE_FRAGMENT_SHADER: u32 = 0x80;
/// `VK_PIPELINE_STAGE_EARLY_FRAGMENT_TESTS_BIT`.
pub const STAGE_EARLY_FRAGMENT_TESTS: u32 = 0x100;
/// `VK_PIPELINE_STAGE_LATE_FRAGMENT_TESTS_BIT`.
pub const STAGE_LATE_FRAGMENT_TESTS: u32 = 0x200;
/// `VK_PIPELINE_STAGE_COLOR_ATTACHMENT_OUTPUT_BIT`.
pub const STAGE_COLOR_ATTACHMENT_OUTPUT: u32 = 0x400;
/// `VK_PIPELINE_STAGE_COMPUTE_SHADER_BIT`.
pub const STAGE_COMPUTE_SHADER: u32 = 0x800;
/// `VK_PIPELINE_STAGE_TRANSFER_BIT`.
pub const STAGE_TRANSFER: u32 = 0x1000;
/// `VK_PIPELINE_STAGE_HOST_BIT`.
pub const STAGE_HOST: u32 = 0x4000;

/// `VK_ACCESS_ACCELERATION_STRUCTURE_READ_BIT_KHR`.
pub const ACCESS_ACCELERATION_STRUCTURE_READ: u32 = 0x20_0000;
/// `VK_ACCESS_ACCELERATION_STRUCTURE_WRITE_BIT_KHR`.
pub const ACCESS_ACCELERATION_STRUCTURE_WRITE: u32 = 0x40_0000;
/// `VK_PIPELINE_STAGE_ACCELERATION_STRUCTURE_BUILD_BIT_KHR`.
pub const STAGE_ACCELERATION_STRUCTURE_BUILD: u32 = 0x200_0000;

/// `VK_FORMAT_R16G16_SFLOAT`.
pub const FORMAT_R16G16_SFLOAT: i32 = 83;
/// `VK_FORMAT_R16G16B16A16_SFLOAT`.
pub const FORMAT_R16G16B16A16_SFLOAT: i32 = 97;

/// `VK_SHADER_STAGE_VERTEX_BIT`.
pub const SHADER_STAGE_VERTEX: u32 = 0x1;
/// `VK_SHADER_STAGE_FRAGMENT_BIT`.
pub const SHADER_STAGE_FRAGMENT: u32 = 0x10;
/// `VK_CULL_MODE_NONE`.
pub const CULL_MODE_NONE: u32 = 0;
/// `VK_CULL_MODE_BACK_BIT`.
pub const CULL_MODE_BACK: u32 = 0x2;
/// `VK_POLYGON_MODE_FILL`.
pub const POLYGON_MODE_FILL: i32 = 0;
/// `VK_FRONT_FACE_COUNTER_CLOCKWISE`.
pub const FRONT_FACE_COUNTER_CLOCKWISE: i32 = 0;
/// `VK_PRIMITIVE_TOPOLOGY_TRIANGLE_LIST`.
pub const PRIMITIVE_TOPOLOGY_TRIANGLE_LIST: i32 = 3;
/// `VK_COMPARE_OP_LESS`.
pub const COMPARE_OP_LESS: i32 = 1;
/// `VK_COMPARE_OP_ALWAYS`.
pub const COMPARE_OP_ALWAYS: i32 = 7;
/// `VK_SAMPLE_COUNT_1_BIT`.
pub const SAMPLE_COUNT_1: u32 = 0x1;
/// `VK_BLEND_OP_ADD`.
pub const BLEND_OP_ADD: i32 = 0;
/// `VK_BLEND_FACTOR_ZERO`.
pub const BLEND_FACTOR_ZERO: i32 = 0;
/// `VK_BLEND_FACTOR_ONE`.
pub const BLEND_FACTOR_ONE: i32 = 1;
/// All four color components: R, G, B and A.
pub const COLOR_COMPONENT_RGBA: u32 = 0xf;

} // verus!
