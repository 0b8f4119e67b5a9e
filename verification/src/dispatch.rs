//! Compute workgroup counts for the passes' dispatches.
use vstd::prelude::*;

verus! {

/// Items handled by one workgroup of a one-dimensional dispatch.
pub const WORKGROUP_SIZE: u32 = 256;

/// Texels along each axis handled by one workgroup of a two-dimensional dispatch.
pub const WORKGROUP_SIZE_2D: u32 = 16;

/// Texels along each axis handled by one workgroup of the depth-pyramid pass.
pub const HIZ_WORKGROUP_SIZE: u32 = 64;

/// The number of groups of `size` items that cover `count` items: `count / size` rounded up.
pub open spec fn groups_for(count: int, size: int) -> int {
    (count + size - 1) / size
}

/// Workgroups of a one-dimensional dispatch over `count` items.
pub fn dispatch_group_count(count: u32) -> (groups: u32)
    requires
        count + 255 <= u32::MAX,
    ensures
        groups == groups_for(count as int, WORKGROUP_SIZE as int),
{
    (count + 255) / 256
}

/// Workgroups along x and y of a two-dimensional dispatch over a `width` by `height` image.
pub fn dispatch_2d_group_count(width: u32, height: u32) -> (groups: (u32, u32))
    requires
        width + 15 <= u32::MAX,
        height + 15 <= u32::MAX,
    ensures
        groups.0 == groups_for(width as int, WORKGROUP_SIZE_2D as int),
        groups.1 == groups_for(height as int, WORKGROUP_SIZE_2D as int),
{
    ((width + 15) / 16, (height + 15) / 16)
}

/// Workgroups along x and y of the depth-pyramid dispatch over a `width` by `height` depth image.
pub fn hiz_group_count(width: u32, height: u32) -> (groups: (u32, u32))
    requires
        width + 63 <= u32::MAX,
        height + 63 <= u32::MAX,
    ensures
        groups.0 == groups_for(width as int, HIZ_WORKGROUP_SIZE as int),
        groups.1 == groups_for(height as int, HIZ_WORKGROUP_SIZE as int),
{
    ((width + 63) / 64, (height + 63) / 64)
}

/// The groups cover every item, and one group fewer would not: the last
/// group holds at least one item; no items take no groups.
pub proof fn lemma_groups_cover(count: int, size: int)
    requires
        count >= 0,
        size > 0,
    ensures
        groups_for(count, size) * size >= count,
        groups_for(count, size) * size < count + size,
        count == 0 <==> groups_for(count, size) == 0,
{
    let g = groups_for(count, size);
    let n = count + size - 1;
    assert(g * size >= count && g * size < count + size && g >= 0) by (nonlinear_arith)
        requires
            size > 0,
            count >= 0,
            n == count + size - 1,
            g == n / size,
    {
        assert(n == (n / size) * size + n % size);
        assert(0 <= n % size < size);
    }
    if count == 0 {
        assert(g == 0) by (nonlinear_arith)
            requires
                size > 0,
                g == (size - 1) / size,
        ;
    }
    if g == 0 {
        assert(g * size == 0) by (nonlinear_arith)
            requires
                g == 0,
        ;
    }
}

} // verus!
