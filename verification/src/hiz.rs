//! The depth-pyramid (Hi-Z) pass: its push constants and the storage
//! descriptors of the pyramid's mips.
use vstd::prelude::*;
use crate::layout::{MAX_PUSH_CONSTANTS_SIZE, DeviceAddress, lo_word, hi_word, join_words, words_to_bytes, bytes_to_words, lemma_words_to_bytes, lemma_split_join, push_u64, words_to_le_bytes};

verus! {

/// Push constants of the depth-pyramid pass; `MAX_HIZ_MIPS` is the number
/// of storage descriptors the block carries, one per pyramid mip.
#[derive(Clone, Copy, Debug)]
pub struct HiZPushConstants<const MAX_HIZ_MIPS: usize> {
    pub counter_buffer_device_address: DeviceAddress,
    pub depth_descriptor_id: u32,
    pub mip_count: u32,
    pub width: u32,
    pub height: u32,
    pub storage_ids: [u32; MAX_HIZ_MIPS],
}

impl<const MAX_HIZ_MIPS: usize> HiZPushConstants<MAX_HIZ_MIPS> {
    /// Size of the block in bytes: an address, four words and one word per mip.
    pub open spec fn size() -> nat {
        (24 + 4 * MAX_HIZ_MIPS) as nat
    }

    /// The block holding the given values.
    pub fn create(
        counter_buffer_device_address: DeviceAddress,
        depth_descriptor_id: u32,
        mip_count: u32,
        width: u32,
        height: u32,
        storage_ids: [u32; MAX_HIZ_MIPS],
    ) -> (pc: Self)
        ensures
            pc.counter_buffer_device_address == counter_buffer_device_address,
            pc.depth_descriptor_id == depth_descriptor_id,
            pc.mip_count == mip_count,
            pc.width == width,
            pc.height == height,
            pc.storage_ids == storage_ids,
    {
        Self { counter_buffer_device_address, depth_descriptor_id, mip_count, width, height, storage_ids }
    }

    /// The block as words, in field order.
    pub open spec fn words(self) -> Seq<u32> {
        seq![
            lo_word(self.counter_buffer_device_address),
            hi_word(self.counter_buffer_device_address),
            self.depth_descriptor_id,
            self.mip_count,
            self.width,
            self.height,
        ] + self.storage_ids@
    }

    /// The byte image of the block, as the GPU reads it.
    pub fn to_bytes(&self) -> (bytes: Vec<u8>)
        ensures
            bytes@ == words_to_bytes(self.words()),
            bytes@.len() == Self::size(),
    {
        let mut w: Vec<u32> = Vec::new();
        push_u64(&mut w, self.counter_buffer_device_address);
        w.push(self.depth_descriptor_id);
        w.push(self.mip_count);
        w.push(self.width);
        w.push(self.height);
        let ghost head = w@;
        let mut k: usize = 0;
        while k < MAX_HIZ_MIPS
            invariant
                k <= MAX_HIZ_MIPS,
                self.storage_ids@.len() == MAX_HIZ_MIPS,
                w@ == head + self.storage_ids@.subrange(0, k as int),
            decreases MAX_HIZ_MIPS - k,
        {
            w.push(self.storage_ids[k]);
            k = k + 1;
            assert(w@ =~= head + self.storage_ids@.subrange(0, k as int));
        }
        assert(w@ =~= self.words());
        words_to_le_bytes(&w)
    }

    /// Every field reads back from the byte image, and with at most 26 mips
    /// the block fits the guaranteed push-constant range.
    pub proof fn lemma_layout(self)
        ensures
            words_to_bytes(self.words()).len() == Self::size(),
            MAX_HIZ_MIPS <= 26 ==> Self::size() <= MAX_PUSH_CONSTANTS_SIZE,
            ({
                let w = bytes_to_words(words_to_bytes(self.words()));
                &&& join_words(w[0], w[1]) == self.counter_buffer_device_address
                &&& w[2] == self.depth_descriptor_id
                &&& w[3] == self.mip_count
                &&& w[4] == self.width
                &&& w[5] == self.height
                &&& w.subrange(6, 6 + MAX_HIZ_MIPS as int) == self.storage_ids@
            }),
    {
        lemma_words_to_bytes(self.words());
        lemma_split_join(self.counter_buffer_device_address);
        let w = bytes_to_words(words_to_bytes(self.words()));
        assert(w.subrange(6, 6 + MAX_HIZ_MIPS as int) =~= self.storage_ids@);
    }
}

/// The storage descriptors the pass hands the shader: the pyramid's first
/// `MAX_HIZ_MIPS` mip descriptors, and zero for the slots of mips the image
/// does not have.
pub fn hiz_storage_ids<const MAX_HIZ_MIPS: usize>(storage_mips: &Vec<u32>) -> (ids: [u32; MAX_HIZ_MIPS])
    ensures
        forall|i: int| 0 <= i < MAX_HIZ_MIPS ==>
            #[trigger] ids@[i] == (if i < storage_mips@.len() { storage_mips@[i] } else { 0u32 }),
{
    let mut ids = [0u32; MAX_HIZ_MIPS];
    let mut k: usize = 0;
    while k < MAX_HIZ_MIPS && k < storage_mips.len()
        invariant
            k <= MAX_HIZ_MIPS,
            k <= storage_mips@.len(),
            ids@.len() == MAX_HIZ_MIPS,
            forall|i: int| 0 <= i < k ==> ids@[i] == storage_mips@[i],
            forall|i: int| k <= i < MAX_HIZ_MIPS ==> ids@[i] == 0u32,
        decreases MAX_HIZ_MIPS - k,
    {
        ids[k] = storage_mips[k];
        k = k + 1;
    }
    ids
}

} // verus!
