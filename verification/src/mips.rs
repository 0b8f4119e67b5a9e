//! Extents of image mips.
use vstd::prelude::*;

verus! {

/// The extent of mip `mip` of an image whose mip 0 has extent `extent`:
/// halved once per level, and never below one texel.
pub open spec fn spec_mip_extent(extent: u32, mip: u32) -> u32 {
    if (extent >> mip) == 0 {
        1
    } else {
        extent >> mip
    }
}

/// The extent of mip `mip` of an image whose mip 0 has extent `extent`.
pub fn mip_extent(extent: u32, mip: u32) -> (e: u32)
    requires
        mip < 32,
    ensures
        e == spec_mip_extent(extent, mip),
{
    let shifted = extent >> mip;
    if shifted == 0 {
        1
    } else {
        shifted
    }
}

/// Extents of the source and destination mips of a view-z downsampling step.
#[derive(Clone, Copy, Debug)]
pub struct DepthMipExtents {
    pub width: u32,
    pub height: u32,
    pub source_width: u32,
    pub source_height: u32,
}

/// Extents of the destination mip `destination_mip` and the source mip
/// `source_mip` of a `width` by `height` view-z image.
pub fn depth_mip_extents(width: u32, height: u32, source_mip: u32, destination_mip: u32) -> (e: DepthMipExtents)
    requires
        source_mip < 32,
        destination_mip < 32,
    ensures
        e.width == spec_mip_extent(width, destination_mip),
        e.height == spec_mip_extent(height, destination_mip),
        e.source_width == spec_mip_extent(width, source_mip),
        e.source_height == spec_mip_extent(height, source_mip),
{
    DepthMipExtents {
        width: mip_extent(width, destination_mip),
        height: mip_extent(height, destination_mip),
        source_width: mip_extent(width, source_mip),
        source_height: mip_extent(height, source_mip),
    }
}

/// Mip extents are at least one texel, never exceed the extent of mip 0
/// (for a non-empty image), and shrink as the mip level grows; mip 0 keeps
/// the full extent.
pub proof fn lemma_mip_extent(extent: u32, mip: u32, finer: u32)
    requires
        finer <= mip < 32,
    ensures
        spec_mip_extent(extent, mip) >= 1,
        extent >= 1 ==> spec_mip_extent(extent, mip) <= extent,
        spec_mip_extent(extent, mip) <= spec_mip_extent(extent, finer),
        extent >= 1 ==> spec_mip_extent(extent, 0) == extent,
{
    assert((extent >> mip) <= (extent >> finer)) by (bit_vector)
        requires
            finer <= mip < 32,
    ;
    assert((extent >> mip) <= extent) by (bit_vector);
    assert(extent >> 0u32 == extent) by (bit_vector);
}

} // verus!
