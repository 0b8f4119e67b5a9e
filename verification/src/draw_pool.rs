//! Draw pools: the indirect, draw-count and draw-data buffers a culling
//! pass fills and the draw passes consume.
use vstd::prelude::*;

verus! {

/// Buckets of a draw pool, each with its own draw count.
pub const BUCKET_COUNT: u32 = 3;

/// Size in bytes of one draw count.
pub const DRAW_COUNT_SIZE: u64 = 4;

/// The buffers of a draw pool and how many draws it holds. `B` is the
/// render graph's buffer handle.
#[derive(Clone, Copy, Debug)]
pub struct DrawPool<B> {
    pub indirect: B,
    pub draw_count: B,
    pub draw_data: B,
    pub capacity: u32,
}

impl<B: Copy> DrawPool<B> {
    /// The regions the pool reserves, in the order it reserves them (the
    /// first failed reservation ends the reserving, see `StepRun`): one
    /// indirect command per draw it can hold, one draw record per draw,
    /// and one draw count per bucket. `indirect_stride` and
    /// `draw_data_stride` are the sizes of an indirect command and of a
    /// draw record.
    pub fn reserve_sizes(&self, indirect_stride: u64, draw_data_stride: u64) -> (regions: Vec<(B, u64)>)
        requires
            self.capacity * indirect_stride <= u64::MAX,
            self.capacity * draw_data_stride <= u64::MAX,
        ensures
            regions@ == seq![
                (self.indirect, (self.capacity * indirect_stride) as u64),
                (self.draw_data, (self.capacity * draw_data_stride) as u64),
                (self.draw_count, (BUCKET_COUNT * DRAW_COUNT_SIZE) as u64),
            ],
    {
        let capacity = self.capacity as u64;
        let mut regions: Vec<(B, u64)> = Vec::new();
        regions.push((self.indirect, capacity * indirect_stride));
        regions.push((self.draw_data, capacity * draw_data_stride));
        regions.push((self.draw_count, (BUCKET_COUNT as u64) * DRAW_COUNT_SIZE));
        assert(regions@ =~= seq![
            (self.indirect, (self.capacity * indirect_stride) as u64),
            (self.draw_data, (self.capacity * draw_data_stride) as u64),
            (self.draw_count, (BUCKET_COUNT * DRAW_COUNT_SIZE) as u64),
        ]);
        regions
    }
}

} // verus!
