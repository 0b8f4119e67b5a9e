//! The draw-sorting pass: its push constants and the check on its capacity.
use vstd::prelude::*;
use crate::layout::{MAX_PUSH_CONSTANTS_SIZE, DeviceAddress, lo_word, hi_word, join_words, words_to_bytes, bytes_to_words, lemma_words_to_bytes, lemma_split_join, push_u64, words_to_le_bytes};

verus! {

use crate::draw_pool::DrawPool;

/// Push constants of the draw-sorting shader.
#[derive(Clone, Copy, Debug)]
pub struct DrawSortPushConstants {
    pub indirect_source_buffer_device_address: DeviceAddress,
    pub indirect_sorted_buffer_device_address: DeviceAddress,
    pub draw_count_buffer_device_address: DeviceAddress,
    pub draw_data_buffer_device_address: DeviceAddress,
    pub statistics_buffer_device_address: DeviceAddress,
    pub count_index: u32,
    pub source_offset: u32,
    pub target_offset: u32,
    pub capacity: u32,
}

impl DrawSortPushConstants {
    /// Size of the block in bytes: five addresses and four words.
    pub const SIZE: usize = 56;

    /// The block as words, in field order.
    pub open spec fn words(self) -> Seq<u32> {
        seq![
            lo_word(self.indirect_source_buffer_device_address),
            hi_word(self.indirect_source_buffer_device_address),
            lo_word(self.indirect_sorted_buffer_device_address),
            hi_word(self.indirect_sorted_buffer_device_address),
            lo_word(self.draw_count_buffer_device_address),
            hi_word(self.draw_count_buffer_device_address),
            lo_word(self.draw_data_buffer_device_address),
            hi_word(self.draw_data_buffer_device_address),
            lo_word(self.statistics_buffer_device_address),
            hi_word(self.statistics_buffer_device_address),
            self.count_index,
            self.source_offset,
            self.target_offset,
            self.capacity,
        ]
    }

    /// The block that a word sequence holds.
    pub open spec fn from_words(w: Seq<u32>) -> Self {
        Self {
            indirect_source_buffer_device_address: join_words(w[0], w[1]),
            indirect_sorted_buffer_device_address: join_words(w[2], w[3]),
            draw_count_buffer_device_address: join_words(w[4], w[5]),
            draw_data_buffer_device_address: join_words(w[6], w[7]),
            statistics_buffer_device_address: join_words(w[8], w[9]),
            count_index: w[10],
            source_offset: w[11],
            target_offset: w[12],
            capacity: w[13],
        }
    }

    /// The byte image of the block, as the GPU reads it.
    pub fn to_bytes(&self) -> (bytes: Vec<u8>)
        ensures
            bytes@ == words_to_bytes(self.words()),
            bytes@.len() == Self::SIZE,
    {
        let mut w: Vec<u32> = Vec::new();
        push_u64(&mut w, self.indirect_source_buffer_device_address);
        push_u64(&mut w, self.indirect_sorted_buffer_device_address);
        push_u64(&mut w, self.draw_count_buffer_device_address);
        push_u64(&mut w, self.draw_data_buffer_device_address);
        push_u64(&mut w, self.statistics_buffer_device_address);
        w.push(self.count_index);
        w.push(self.source_offset);
        w.push(self.target_offset);
        w.push(self.capacity);
        assert(w@ =~= self.words());
        words_to_le_bytes(&w)
    }

    /// The block for sorting the draws of `source_bucket` into `sorted_bucket`:
    /// both indirect addresses name the pool's indirect buffer, the count and
    /// source offset come from the source bucket, the target offset and
    /// capacity from the sorted bucket.
    pub fn create(
        indirect_buffer_device_address: DeviceAddress,
        draw_count_buffer_device_address: DeviceAddress,
        draw_data_buffer_device_address: DeviceAddress,
        statistics_buffer_device_address: DeviceAddress,
        source_bucket: DrawBucket,
        sorted_bucket: DrawBucket,
    ) -> (pc: Self)
        ensures
            pc.indirect_source_buffer_device_address == indirect_buffer_device_address,
            pc.indirect_sorted_buffer_device_address == indirect_buffer_device_address,
            pc.draw_count_buffer_device_address == draw_count_buffer_device_address,
            pc.draw_data_buffer_device_address == draw_data_buffer_device_address,
            pc.statistics_buffer_device_address == statistics_buffer_device_address,
            pc.count_index == source_bucket.count_index,
            pc.source_offset == source_bucket.draw_offset,
            pc.target_offset == sorted_bucket.draw_offset,
            pc.capacity == sorted_bucket.capacity,
    {
        Self {
            indirect_source_buffer_device_address: indirect_buffer_device_address,
            indirect_sorted_buffer_device_address: indirect_buffer_device_address,
            draw_count_buffer_device_address,
            draw_data_buffer_device_address,
            statistics_buffer_device_address,
            count_index: source_bucket.count_index,
            source_offset: source_bucket.draw_offset,
            target_offset: sorted_bucket.draw_offset,
            capacity: sorted_bucket.capacity,
        }
    }

    /// The byte image is `SIZE` bytes, fits the guaranteed push-constant range,
    /// and every field reads back from it.
    pub proof fn lemma_layout(self)
        ensures
            words_to_bytes(self.words()).len() == Self::SIZE,
            Self::SIZE <= MAX_PUSH_CONSTANTS_SIZE,
            Self::from_words(bytes_to_words(words_to_bytes(self.words()))) == self,
    {
        lemma_words_to_bytes(self.words());
        lemma_split_join(self.indirect_source_buffer_device_address);
        lemma_split_join(self.indirect_sorted_buffer_device_address);
        lemma_split_join(self.draw_count_buffer_device_address);
        lemma_split_join(self.draw_data_buffer_device_address);
        lemma_split_join(self.statistics_buffer_device_address);
    }
}

/// A bucket of a draw pool: the slot of its draw count and the range of
/// draws it owns.
#[derive(Clone, Copy, Debug)]
pub struct DrawBucket {
    pub count_index: u32,
    pub draw_offset: u32,
    pub capacity: u32,
}

/// Why a draw-sorting pass cannot be built.
#[derive(Clone, Copy, Debug, PartialEq, Eq, Structural)]
pub enum DrawSortError {
    /// The sort works on a power-of-two number of draws.
    CapacityNotPowerOfTwo { capacity: u32 },
}

/// `x` is two to some power.
pub open spec fn is_power_of_two(x: u32) -> bool {
    exists|k: u32| k < 32 && #[trigger] (1u32 << k) == x
}

/// Whether `x` is two to some power.
pub fn power_of_two(x: u32) -> (r: bool)
    ensures
        r == is_power_of_two(x),
{
    let mut k: u32 = 0;
    while k < 32
        invariant
            k <= 32,
            forall|j: u32| j < k ==> #[trigger] (1u32 << j) != x,
        decreases 32 - k,
    {
        if (1u32 << k) == x {
            return true;
        }
        k = k + 1;
    }
    false
}

/// Checks the capacity a draw-sorting pass is built with: it must be a
/// power of two, and is handed on unchanged.
pub fn check_sort_capacity(sort_capacity: u32) -> (r: Result<u32, DrawSortError>)
    ensures
        r is Ok <==> is_power_of_two(sort_capacity),
        r matches Ok(c) ==> c == sort_capacity,
        r matches Err(e) ==> e == (DrawSortError::CapacityNotPowerOfTwo { capacity: sort_capacity }),
{
    if power_of_two(sort_capacity) {
        Ok(sort_capacity)
    } else {
        Err(DrawSortError::CapacityNotPowerOfTwo { capacity: sort_capacity })
    }
}


/// A built draw-sorting pass: the pipeline it was given, the pool it
/// sorts, and the bucket it sorts from and the one it sorts into. `P` is
/// the pipeline handle, `B` the render graph's buffer handle.
#[derive(Debug)]
pub struct DrawSortPass<P, B> {
    pub pipeline: P,
    pub pool: DrawPool<B>,
    pub source_bucket: DrawBucket,
    pub sorted_bucket: DrawBucket,
}

impl<P, B> DrawSortPass<P, B> {
    /// The pass over the pipeline its checked configuration gave.
    pub fn new(pipeline: P, pool: DrawPool<B>, source_bucket: DrawBucket, sorted_bucket: DrawBucket) -> (pass: Self)
        ensures
            pass.pipeline == pipeline,
            pass.pool == pool,
            pass.source_bucket == source_bucket,
            pass.sorted_bucket == sorted_bucket,
    {
        DrawSortPass { pipeline, pool, source_bucket, sorted_bucket }
    }
}

} // verus!
