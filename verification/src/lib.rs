//! The render passes of the amber_lume renderer, as the values they hand
//! the GPU: the push-constant blocks and storage records the shaders read,
//! with their byte images; the workgroup counts and extents of dispatches;
//! which images and descriptors a frame's passes use; and the scratch
//! layout of acceleration-structure builds.

pub mod layout;
pub mod dispatch;
pub mod mips;
pub mod history;
pub mod commands;
pub mod recording;
pub mod declarations;
pub mod pass_declarations;
pub mod vulkan;
pub mod statistics;

pub mod accumulate;
pub mod ao;
pub mod ao_graph;
pub mod bloom;
pub mod blas;
pub mod brdf_lut;
pub mod culling;
pub mod debug_layer;
pub mod depth;
pub mod draw_pool;
pub mod draw_sort;
pub mod environment;
pub mod frame_staging;
pub mod gtao;
pub mod hiz;
pub mod ibl;
pub mod main_pass;
pub mod pass_registry;
pub mod pass_recording;
pub mod sequence;
pub mod pipeline_config;
