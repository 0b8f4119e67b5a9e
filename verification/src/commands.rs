//! The parameters of the commands a pass context records: draws, scissor
//! rectangles and single-texel copies.
use vstd::prelude::*;

verus! {

/// Parameters of a non-indexed draw.
#[derive(Clone, Copy, Debug)]
pub struct DrawParams {
    pub vertex_count: u32,
    pub instance_count: u32,
    pub first_vertex: u32,
    pub first_instance: u32,
}

/// A single instance of `vertex_count` vertices from vertex 0.
pub fn draw_params(vertex_count: u32) -> (p: DrawParams)
    ensures
        p.vertex_count == vertex_count,
        p.instance_count == 1,
        p.first_vertex == 0,
        p.first_instance == 0,
{
    DrawParams { vertex_count, instance_count: 1, first_vertex: 0, first_instance: 0 }
}

/// Parameters of an indexed draw.
#[derive(Clone, Copy, Debug)]
pub struct DrawIndexedParams {
    pub index_count: u32,
    pub instance_count: u32,
    pub first_index: u32,
    pub vertex_offset: i32,
    pub first_instance: u32,
}

/// A single instance of an indexed draw. The counts and offsets are
/// narrowed to the widths the command takes, keeping their low 32 bits.
pub fn draw_indexed_params(index_count: usize, index_offset: usize, vertex_offset: usize) -> (p: DrawIndexedParams)
    ensures
        p.index_count == index_count as u32,
        p.instance_count == 1,
        p.first_index == index_offset as u32,
        p.vertex_offset == vertex_offset as i32,
        p.first_instance == 0,
{
    DrawIndexedParams {
        index_count: index_count as u32,
        instance_count: 1,
        first_index: index_offset as u32,
        vertex_offset: vertex_offset as i32,
        first_instance: 0,
    }
}

/// A scissor rectangle.
#[derive(Clone, Copy, Debug)]
pub struct ScissorRect {
    pub x: i32,
    pub y: i32,
    pub width: u32,
    pub height: u32,
}

/// The scissor of a UI clip area.
pub fn clip_area_scissor(position: [i32; 2], size: [u32; 2]) -> (r: ScissorRect)
    ensures
        r.x == position@[0],
        r.y == position@[1],
        r.width == size@[0],
        r.height == size@[1],
{
    ScissorRect { x: position[0], y: position[1], width: size[0], height: size[1] }
}

/// The scissor covering a whole `width` by `height` image.
pub fn extent_scissor(width: u32, height: u32) -> (r: ScissorRect)
    ensures
        r.x == 0,
        r.y == 0,
        r.width == width,
        r.height == height,
{
    ScissorRect { x: 0, y: 0, width, height }
}

/// A copy of one texel of an image's first mip and layer into a buffer.
#[derive(Clone, Copy, Debug)]
pub struct TexelCopyRegion {
    pub buffer_offset: u64,
    pub mip_level: u32,
    pub base_array_layer: u32,
    pub layer_count: u32,
    pub x: i32,
    pub y: i32,
    pub z: i32,
    pub width: u32,
    pub height: u32,
    pub depth: u32,
}

/// The region that copies texel (`x`, `y`) of mip 0, layer 0 to
/// `buffer_offset`.
pub fn texel_copy_region(x: i32, y: i32, buffer_offset: u64) -> (r: TexelCopyRegion)
    ensures
        r.buffer_offset == buffer_offset,
        r.mip_level == 0,
        r.base_array_layer == 0,
        r.layer_count == 1,
        r.x == x,
        r.y == y,
        r.z == 0,
        r.width == 1,
        r.height == 1,
        r.depth == 1,
{
    TexelCopyRegion {
        buffer_offset,
        mip_level: 0,
        base_array_layer: 0,
        layer_count: 1,
        x,
        y,
        z: 0,
        width: 1,
        height: 1,
        depth: 1,
    }
}

} // verus!
