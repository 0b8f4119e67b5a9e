//! Indirect culling: the push constants of the culling shader, the statistics
//! it writes per render view, and what each culling pass dispatches.
use vstd::prelude::*;
use crate::layout::{MAX_PUSH_CONSTANTS_SIZE, DeviceAddress, lo_word, hi_word, join_words, zeros, words_to_bytes, bytes_to_words, lemma_words_to_bytes, lemma_split_join, push_u64, push_zeros, words_to_le_bytes};

verus! {

use crate::dispatch::{groups_for, WORKGROUP_SIZE, dispatch_group_count};
use crate::recording::{BarrierEntry, Command, CommandView, commands_view};
use crate::frame_staging::MatrixBits;
use crate::vulkan::{ACCESS_SHADER_READ, ACCESS_SHADER_WRITE, BIND_POINT_COMPUTE, STAGE_COMPUTE_SHADER, STAGE_DRAW_INDIRECT, STAGE_HOST, STAGE_TRANSFER, STAGE_VERTEX_SHADER};

/// Push constants of the culling shader: the device addresses of the buffers it
/// reads and fills, and the counts that size its work.
#[derive(Clone, Copy, Debug)]
pub struct CullingIndirectPushConstants {
    pub culling_views_buffer_device_address: DeviceAddress,
    pub entity_buffer_device_address: DeviceAddress,
    pub mesh_buffer_device_address: DeviceAddress,
    pub submesh_buffer_device_address: DeviceAddress,
    pub meta_statistics_buffer_device_address: DeviceAddress,
    pub cull_requests_buffer_device_address: DeviceAddress,
    pub indirect_buffer_device_address: DeviceAddress,
    pub draw_count_buffer_device_address: DeviceAddress,
    pub draw_data_buffer_device_address: DeviceAddress,
    pub material_buffer_device_address: DeviceAddress,
    pub scene_buffer_device_address: DeviceAddress,
    pub view_count: u32,
    pub entity_count: u32,
    /// Whether the views are culled as one combined view (0 or 1).
    pub combine_views: u32,
    pub request_count: u32,
}

impl CullingIndirectPushConstants {
    /// Size of the block in bytes: eleven addresses, four words and six padding words.
    pub const SIZE: usize = 128;

    /// The block as words, in field order, padded with zeros.
    pub open spec fn words(self) -> Seq<u32> {
        seq![
            lo_word(self.culling_views_buffer_device_address),
            hi_word(self.culling_views_buffer_device_address),
            lo_word(self.entity_buffer_device_address),
            hi_word(self.entity_buffer_device_address),
            lo_word(self.mesh_buffer_device_address),
            hi_word(self.mesh_buffer_device_address),
            lo_word(self.submesh_buffer_device_address),
            hi_word(self.submesh_buffer_device_address),
            lo_word(self.meta_statistics_buffer_device_address),
            hi_word(self.meta_statistics_buffer_device_address),
            lo_word(self.cull_requests_buffer_device_address),
            hi_word(self.cull_requests_buffer_device_address),
            lo_word(self.indirect_buffer_device_address),
            hi_word(self.indirect_buffer_device_address),
            lo_word(self.draw_count_buffer_device_address),
            hi_word(self.draw_count_buffer_device_address),
            lo_word(self.draw_data_buffer_device_address),
            hi_word(self.draw_data_buffer_device_address),
            lo_word(self.material_buffer_device_address),
            hi_word(self.material_buffer_device_address),
            lo_word(self.scene_buffer_device_address),
            hi_word(self.scene_buffer_device_address),
            self.view_count,
            self.entity_count,
            self.combine_views,
            self.request_count,
        ] + zeros(6)
    }

    /// The block that a word sequence holds.
    pub open spec fn from_words(w: Seq<u32>) -> Self {
        Self {
            culling_views_buffer_device_address: join_words(w[0], w[1]),
            entity_buffer_device_address: join_words(w[2], w[3]),
            mesh_buffer_device_address: join_words(w[4], w[5]),
            submesh_buffer_device_address: join_words(w[6], w[7]),
            meta_statistics_buffer_device_address: join_words(w[8], w[9]),
            cull_requests_buffer_device_address: join_words(w[10], w[11]),
            indirect_buffer_device_address: join_words(w[12], w[13]),
            draw_count_buffer_device_address: join_words(w[14], w[15]),
            draw_data_buffer_device_address: join_words(w[16], w[17]),
            material_buffer_device_address: join_words(w[18], w[19]),
            scene_buffer_device_address: join_words(w[20], w[21]),
            view_count: w[22],
            entity_count: w[23],
            combine_views: w[24],
            request_count: w[25],
        }
    }

    /// The byte image of the block, as the GPU reads it.
    pub fn to_bytes(&self) -> (bytes: Vec<u8>)
        ensures
            bytes@ == words_to_bytes(self.words()),
            bytes@.len() == Self::SIZE,
    {
        let mut w: Vec<u32> = Vec::new();
        push_u64(&mut w, self.culling_views_buffer_device_address);
        push_u64(&mut w, self.entity_buffer_device_address);
        push_u64(&mut w, self.mesh_buffer_device_address);
        push_u64(&mut w, self.submesh_buffer_device_address);
        push_u64(&mut w, self.meta_statistics_buffer_device_address);
        push_u64(&mut w, self.cull_requests_buffer_device_address);
        push_u64(&mut w, self.indirect_buffer_device_address);
        push_u64(&mut w, self.draw_count_buffer_device_address);
        push_u64(&mut w, self.draw_data_buffer_device_address);
        push_u64(&mut w, self.material_buffer_device_address);
        push_u64(&mut w, self.scene_buffer_device_address);
        w.push(self.view_count);
        w.push(self.entity_count);
        w.push(self.combine_views);
        w.push(self.request_count);
        push_zeros(&mut w, 6);
        assert(w@ =~= self.words());
        words_to_le_bytes(&w)
    }

    /// The block for one culling dispatch; `combine_views` is stored as 0 or 1.
    pub fn create(
        culling_views_buffer_device_address: DeviceAddress,
        entity_buffer_device_address: DeviceAddress,
        mesh_buffer_device_address: DeviceAddress,
        submesh_buffer_device_address: DeviceAddress,
        meta_statistics_buffer_device_address: DeviceAddress,
        cull_requests_buffer_device_address: DeviceAddress,
        indirect_buffer_device_address: DeviceAddress,
        draw_count_buffer_device_address: DeviceAddress,
        draw_data_buffer_device_address: DeviceAddress,
        material_buffer_device_address: DeviceAddress,
        scene_buffer_device_address: DeviceAddress,
        view_count: u32,
        entity_count: u32,
        combine_views: bool,
        request_count: u32,
    ) -> (pc: Self)
        ensures
            pc.culling_views_buffer_device_address == culling_views_buffer_device_address,
            pc.entity_buffer_device_address == entity_buffer_device_address,
            pc.mesh_buffer_device_address == mesh_buffer_device_address,
            pc.submesh_buffer_device_address == submesh_buffer_device_address,
            pc.meta_statistics_buffer_device_address == meta_statistics_buffer_device_address,
            pc.cull_requests_buffer_device_address == cull_requests_buffer_device_address,
            pc.indirect_buffer_device_address == indirect_buffer_device_address,
            pc.draw_count_buffer_device_address == draw_count_buffer_device_address,
            pc.draw_data_buffer_device_address == draw_data_buffer_device_address,
            pc.material_buffer_device_address == material_buffer_device_address,
            pc.scene_buffer_device_address == scene_buffer_device_address,
            pc.view_count == view_count,
            pc.entity_count == entity_count,
            pc.combine_views == (if combine_views { 1u32 } else { 0u32 }),
            pc.request_count == request_count,
    {
        Self {
            culling_views_buffer_device_address,
            entity_buffer_device_address,
            mesh_buffer_device_address,
            submesh_buffer_device_address,
            meta_statistics_buffer_device_address,
            cull_requests_buffer_device_address,
            indirect_buffer_device_address,
            draw_count_buffer_device_address,
            draw_data_buffer_device_address,
            material_buffer_device_address,
            scene_buffer_device_address,
            view_count,
            entity_count,
            combine_views: if combine_views { 1u32 } else { 0u32 },
            request_count,
        }
    }

    /// The byte image is `SIZE` bytes, fits the guaranteed push-constant range,
    /// and every field reads back from it.
    pub proof fn lemma_layout(self)
        ensures
            words_to_bytes(self.words()).len() == Self::SIZE,
            Self::SIZE <= MAX_PUSH_CONSTANTS_SIZE,
            Self::from_words(bytes_to_words(words_to_bytes(self.words()))) == self,
    {
        lemma_words_to_bytes(self.words());
        lemma_split_join(self.culling_views_buffer_device_address);
        lemma_split_join(self.entity_buffer_device_address);
        lemma_split_join(self.mesh_buffer_device_address);
        lemma_split_join(self.submesh_buffer_device_address);
        lemma_split_join(self.meta_statistics_buffer_device_address);
        lemma_split_join(self.cull_requests_buffer_device_address);
        lemma_split_join(self.indirect_buffer_device_address);
        lemma_split_join(self.draw_count_buffer_device_address);
        lemma_split_join(self.draw_data_buffer_device_address);
        lemma_split_join(self.material_buffer_device_address);
        lemma_split_join(self.scene_buffer_device_address);
    }
}

/// Culling statistics the shader writes for one render view.
#[derive(Clone, Copy, Debug)]
pub struct CullingIndirectRenderViewStatisticsGPU {
    pub submeshes_rendered: u32,
    pub submeshes_culled: u32,
}

impl CullingIndirectRenderViewStatisticsGPU {
    /// Size of the record in bytes: two words and two padding words.
    pub const SIZE: usize = 16;

    /// The block as words, in field order, padded with zeros.
    pub open spec fn words(self) -> Seq<u32> {
        seq![
            self.submeshes_rendered,
            self.submeshes_culled,
        ] + zeros(2)
    }

    /// The block that a word sequence holds.
    pub open spec fn from_words(w: Seq<u32>) -> Self {
        Self {
            submeshes_rendered: w[0],
            submeshes_culled: w[1],
        }
    }

    /// The byte image of the block, as the GPU reads it.
    pub fn to_bytes(&self) -> (bytes: Vec<u8>)
        ensures
            bytes@ == words_to_bytes(self.words()),
            bytes@.len() == Self::SIZE,
    {
        let mut w: Vec<u32> = Vec::new();
        w.push(self.submeshes_rendered);
        w.push(self.submeshes_culled);
        push_zeros(&mut w, 2);
        assert(w@ =~= self.words());
        words_to_le_bytes(&w)
    }

    /// The byte image is `SIZE` bytes and every field reads back from it.
    pub proof fn lemma_layout(self)
        ensures
            words_to_bytes(self.words()).len() == Self::SIZE,
            Self::from_words(bytes_to_words(words_to_bytes(self.words()))) == self,
    {
        lemma_words_to_bytes(self.words());
    }
}

/// A request for culled draws: draws whose material matches `accept_mask`
/// go to the given draw-count, indirect and draw-data buffers. `B` is the
/// render graph's buffer handle.
#[derive(Clone, Copy, Debug)]
pub struct CullRequest<B> {
    pub accept_mask: u32,
    pub draw_count: B,
    pub indirect: B,
    pub draw_data: B,
}

/// What the culling pass prepares for a frame: how many entities it culls.
#[derive(Clone, Copy, Debug)]
pub struct CullingIndirectPassData {
    pub entity_count: usize,
}

/// What the main-view culling pass prepares for a frame.
#[derive(Clone, Copy, Debug)]
pub struct MainCullingIndirectPassData {
    pub entity_count: usize,
}

/// What the shadow-cascade culling pass prepares for a frame.
#[derive(Clone, Copy, Debug)]
pub struct CascadeCullingIndirectPassData {
    pub entity_count: usize,
    pub cascade_count: u32,
}

/// Device addresses of the buffers a culling dispatch reads and fills.
#[derive(Clone, Copy, Debug)]
pub struct CullingBuffers {
    pub culling_views: DeviceAddress,
    pub entity: DeviceAddress,
    pub mesh: DeviceAddress,
    pub submesh: DeviceAddress,
    pub meta_statistics: DeviceAddress,
    pub cull_requests: DeviceAddress,
    pub indirect: DeviceAddress,
    pub draw_count: DeviceAddress,
    pub draw_data: DeviceAddress,
    pub material: DeviceAddress,
    pub scene: DeviceAddress,
}

/// A culling dispatch: the push constants it records and its workgroup count.
#[derive(Clone, Copy, Debug)]
pub struct CullingDispatch {
    pub push_constants: CullingIndirectPushConstants,
    pub workgroups: u32,
}

/// The push constants of a culling dispatch over `entity_count` entities.
pub open spec fn culling_push_constants(
    buffers: CullingBuffers,
    view_count: u32,
    entity_count: u32,
    combine_views: bool,
    request_count: u32,
) -> CullingIndirectPushConstants {
    CullingIndirectPushConstants {
        culling_views_buffer_device_address: buffers.culling_views,
        entity_buffer_device_address: buffers.entity,
        mesh_buffer_device_address: buffers.mesh,
        submesh_buffer_device_address: buffers.submesh,
        meta_statistics_buffer_device_address: buffers.meta_statistics,
        cull_requests_buffer_device_address: buffers.cull_requests,
        indirect_buffer_device_address: buffers.indirect,
        draw_count_buffer_device_address: buffers.draw_count,
        draw_data_buffer_device_address: buffers.draw_data,
        material_buffer_device_address: buffers.material,
        scene_buffer_device_address: buffers.scene,
        view_count,
        entity_count,
        combine_views: if combine_views { 1u32 } else { 0u32 },
        request_count,
    }
}

/// The dispatch a culling pass records: one thread per entity, with the
/// entity count (truncated to 32 bits, as the shader reads it) in the push
/// constants.
pub open spec fn culling_dispatch(
    buffers: CullingBuffers,
    view_count: u32,
    entity_count: usize,
    combine_views: bool,
    request_count: u32,
) -> CullingDispatch {
    CullingDispatch {
        push_constants: culling_push_constants(
            buffers,
            view_count,
            entity_count as u32,
            combine_views,
            request_count,
        ),
        workgroups: groups_for(entity_count as u32 as int, WORKGROUP_SIZE as int) as u32,
    }
}

fn make_dispatch(
    buffers: CullingBuffers,
    view_count: u32,
    entity_count: usize,
    combine_views: bool,
    request_count: u32,
) -> (d: CullingDispatch)
    requires
        (entity_count as u32) + 255 <= u32::MAX,
    ensures
        d == culling_dispatch(buffers, view_count, entity_count, combine_views, request_count),
{
    let count = entity_count as u32;
    let push_constants = CullingIndirectPushConstants::create(
        buffers.culling_views,
        buffers.entity,
        buffers.mesh,
        buffers.submesh,
        buffers.meta_statistics,
        buffers.cull_requests,
        buffers.indirect,
        buffers.draw_count,
        buffers.draw_data,
        buffers.material,
        buffers.scene,
        view_count,
        count,
        combine_views,
        request_count,
    );
    CullingDispatch { push_constants, workgroups: dispatch_group_count(count) }
}

impl CullingIndirectPassData {
    /// The dispatch the culling pass records for this frame: none when
    /// there is no entity or no view to cull for; otherwise one over all
    /// entities, with `request_count` truncated to 32 bits.
    pub fn dispatch(
        &self,
        buffers: CullingBuffers,
        view_count: u32,
        combine_views: bool,
        request_count: usize,
    ) -> (d: Option<CullingDispatch>)
        requires
            self.entity_count != 0 && view_count != 0 ==> (self.entity_count as u32) + 255 <= u32::MAX,
        ensures
            d is None <==> (self.entity_count == 0 || view_count == 0),
            d matches Some(x) ==> x == culling_dispatch(
                buffers,
                view_count,
                self.entity_count,
                combine_views,
                request_count as u32,
            ),
    {
        if self.entity_count == 0 || view_count == 0 {
            return None;
        }
        Some(make_dispatch(buffers, view_count, self.entity_count, combine_views, request_count as u32))
    }
}

impl CascadeCullingIndirectPassData {
    /// The dispatch the cascade culling pass records: none without entities
    /// or cascades; otherwise one over all entities that culls the cascades
    /// as one combined view, with the pass's `accept_mask` as its request
    /// word.
    pub fn dispatch(&self, buffers: CullingBuffers, accept_mask: u32) -> (d: Option<CullingDispatch>)
        requires
            self.entity_count != 0 && self.cascade_count != 0 ==> (self.entity_count as u32) + 255 <= u32::MAX,
        ensures
            d is None <==> (self.entity_count == 0 || self.cascade_count == 0),
            d matches Some(x) ==> x == culling_dispatch(
                buffers,
                self.cascade_count,
                self.entity_count,
                true,
                accept_mask,
            ),
    {
        if self.entity_count == 0 || self.cascade_count == 0 {
            return None;
        }
        Some(make_dispatch(buffers, self.cascade_count, self.entity_count, true, accept_mask))
    }
}

impl MainCullingIndirectPassData {
    /// The dispatch the main-view culling pass records: none without
    /// entities; otherwise one over all entities, views not combined.
    pub fn dispatch(&self, buffers: CullingBuffers, view_count: u32, request_count: u32) -> (d: Option<CullingDispatch>)
        requires
            self.entity_count != 0 ==> (self.entity_count as u32) + 255 <= u32::MAX,
        ensures
            d is None <==> self.entity_count == 0,
            d matches Some(x) ==> x == culling_dispatch(buffers, view_count, self.entity_count, false, request_count),
    {
        if self.entity_count == 0 {
            return None;
        }
        Some(make_dispatch(buffers, view_count, self.entity_count, false, request_count))
    }
}

/// The fill barriers of the draw-count clears and the statistics reset,
/// made visible to the culling shader's reads and writes.
pub open spec fn fill_entry<B>(buffer: B) -> BarrierEntry<B> {
    BarrierEntry::Fill { buffer, dst_access: ACCESS_SHADER_READ | ACCESS_SHADER_WRITE }
}

/// Bind the compute pipeline, push the dispatch's constants, dispatch.
pub open spec fn dispatch_commands<B>(d: CullingDispatch) -> Seq<CommandView<B, CullingIndirectPushConstants>> {
    seq![
        CommandView::BindPipeline(BIND_POINT_COMPUTE),
        CommandView::PushConstants(d.push_constants),
        CommandView::Dispatch(d.workgroups, 1, 1),
    ]
}

/// The barrier after a culling dispatch: its draws feed indirect drawing
/// and vertex shading, its statistics the host.
pub open spec fn closing_barrier<B>(src_stages: u32) -> CommandView<B, CullingIndirectPushConstants> {
    CommandView::Barrier {
        src_stages,
        dst_stages: STAGE_DRAW_INDIRECT | STAGE_VERTEX_SHADER | STAGE_HOST,
        entries: seq![BarrierEntry::StatisticsHostRead],
    }
}

fn push_dispatch<B: Copy>(commands: &mut Vec<Command<B, CullingIndirectPushConstants>>, d: CullingDispatch)
    ensures
        commands_view(final(commands)@) == commands_view(old(commands)@) + dispatch_commands::<B>(d),
{
    let ghost start = old(commands)@;
    commands.push(Command::BindPipeline(BIND_POINT_COMPUTE));
    commands.push(Command::PushConstants(d.push_constants));
    commands.push(Command::Dispatch(d.workgroups, 1, 1));
    assert(commands_view(commands@) =~= commands_view(start) + dispatch_commands::<B>(d));
}

fn push_closing_barrier<B: Copy>(commands: &mut Vec<Command<B, CullingIndirectPushConstants>>, src_stages: u32)
    ensures
        commands_view(final(commands)@) == commands_view(old(commands)@).push(closing_barrier::<B>(src_stages)),
{
    let ghost start = old(commands)@;
    let mut entries: Vec<BarrierEntry<B>> = Vec::new();
    entries.push(BarrierEntry::StatisticsHostRead);
    assert(entries@ =~= seq![BarrierEntry::<B>::StatisticsHostRead]);
    commands.push(
        Command::Barrier {
            src_stages,
            dst_stages: STAGE_DRAW_INDIRECT | STAGE_VERTEX_SHADER | STAGE_HOST,
            entries,
        },
    );
    assert(commands_view(commands@) =~= commands_view(start).push(closing_barrier::<B>(src_stages)));
}

/// The commands of the culling pass: nothing on a frame without entities
/// or views; otherwise the pipeline bind, the push constants and the
/// dispatch of [`culling_dispatch`], in that order.
pub open spec fn culling_indirect_commands<B>(
    data: CullingIndirectPassData,
    buffers: CullingBuffers,
    view_count: u32,
    combine_views: bool,
    request_count: usize,
) -> Seq<CommandView<B, CullingIndirectPushConstants>> {
    if data.entity_count == 0 || view_count == 0 {
        Seq::empty()
    } else {
        dispatch_commands(
            culling_dispatch(buffers, view_count, data.entity_count, combine_views, request_count as u32),
        )
    }
}

/// The commands of the cascade culling pass. Every frame: the zero fill of
/// the draw count, the statistics reset, and one transfer-to-compute
/// barrier carrying both. Then, when there are entities and cascades: the
/// pipeline bind, the push constants, the dispatch, and the closing
/// barrier from compute with the statistics' host-read barrier.
pub open spec fn cascade_culling_commands<B>(
    data: CascadeCullingIndirectPassData,
    buffers: CullingBuffers,
    accept_mask: u32,
    draw_count: B,
) -> Seq<CommandView<B, CullingIndirectPushConstants>> {
    let clears = seq![
        CommandView::FillZero(draw_count),
        CommandView::ResetStatistics,
        CommandView::Barrier {
            src_stages: STAGE_TRANSFER,
            dst_stages: STAGE_COMPUTE_SHADER,
            entries: seq![fill_entry(draw_count), BarrierEntry::StatisticsReset],
        },
    ];
    if data.entity_count == 0 || data.cascade_count == 0 {
        clears
    } else {
        clears + dispatch_commands(
            culling_dispatch(buffers, data.cascade_count, data.entity_count, true, accept_mask),
        ).push(closing_barrier(STAGE_COMPUTE_SHADER))
    }
}

/// The commands of the main-view culling pass: nothing on a frame without
/// entities; otherwise, in order, the pipeline bind, the zero fills of the
/// main and shadow draw counts, the statistics reset, one
/// transfer-to-compute barrier holding those three, the push constants,
/// the dispatch, and the closing barrier from compute and transfer with the
/// statistics' host-read barrier.
pub open spec fn main_culling_commands<B>(
    data: MainCullingIndirectPassData,
    buffers: CullingBuffers,
    view_count: u32,
    request_count: u32,
    draw_count_main: B,
    draw_count_shadow: B,
) -> Seq<CommandView<B, CullingIndirectPushConstants>> {
    if data.entity_count == 0 {
        Seq::empty()
    } else {
        let d = culling_dispatch(buffers, view_count, data.entity_count, false, request_count);
        seq![
            CommandView::BindPipeline(BIND_POINT_COMPUTE),
            CommandView::FillZero(draw_count_main),
            CommandView::FillZero(draw_count_shadow),
            CommandView::ResetStatistics,
            CommandView::Barrier {
                src_stages: STAGE_TRANSFER,
                dst_stages: STAGE_COMPUTE_SHADER,
                entries: seq![fill_entry(draw_count_main), fill_entry(draw_count_shadow), BarrierEntry::StatisticsReset],
            },
            CommandView::PushConstants(d.push_constants),
            CommandView::Dispatch(d.workgroups, 1, 1),
            closing_barrier(STAGE_COMPUTE_SHADER | STAGE_TRANSFER),
        ]
    }
}

impl CullingIndirectPassData {
    /// The commands the culling pass records this frame.
    pub fn record<B: Copy>(
        &self,
        buffers: CullingBuffers,
        view_count: u32,
        combine_views: bool,
        request_count: usize,
    ) -> (commands: Vec<Command<B, CullingIndirectPushConstants>>)
        requires
            self.entity_count != 0 && view_count != 0 ==> (self.entity_count as u32) + 255 <= u32::MAX,
        ensures
            self.entity_count != 0 && view_count != 0 ==> match commands_view(commands@)[1] {
                CommandView::PushConstants(pc) => {
                    &&& pc.combine_views == (if combine_views { 1u32 } else { 0u32 })
                    &&& pc.view_count == view_count
                    &&& pc.entity_count == self.entity_count as u32
                    &&& pc.request_count == request_count as u32
                },
                _ => false,
            },
            commands_view(commands@) == culling_indirect_commands::<B>(
                *self,
                buffers,
                view_count,
                combine_views,
                request_count,
            ),
    {
        let mut commands: Vec<Command<B, CullingIndirectPushConstants>> = Vec::new();
        assert(commands_view(commands@) =~= Seq::empty());
        match self.dispatch(buffers, view_count, combine_views, request_count) {
            Some(d) => push_dispatch(&mut commands, d),
            None => {},
        }
        commands
    }
}

impl CascadeCullingIndirectPassData {
    /// The commands the cascade culling pass records this frame.
    pub fn record<B: Copy>(&self, buffers: CullingBuffers, accept_mask: u32, draw_count: B) -> (commands: Vec<
        Command<B, CullingIndirectPushConstants>,
    >)
        requires
            self.entity_count != 0 && self.cascade_count != 0 ==> (self.entity_count as u32) + 255 <= u32::MAX,
        ensures
            self.entity_count != 0 && self.cascade_count != 0 ==> match commands_view(commands@)[4] {
                CommandView::PushConstants(pc) => {
                    &&& pc.combine_views == 1
                    &&& pc.view_count == self.cascade_count
                    &&& pc.entity_count == self.entity_count as u32
                    &&& pc.request_count == accept_mask
                },
                _ => false,
            },
            commands_view(commands@) == cascade_culling_commands(*self, buffers, accept_mask, draw_count),
    {
        let mut commands: Vec<Command<B, CullingIndirectPushConstants>> = Vec::new();
        let mut entries: Vec<BarrierEntry<B>> = Vec::new();
        entries.push(BarrierEntry::Fill { buffer: draw_count, dst_access: ACCESS_SHADER_READ | ACCESS_SHADER_WRITE });
        entries.push(BarrierEntry::StatisticsReset);
        assert(entries@ =~= seq![fill_entry(draw_count), BarrierEntry::StatisticsReset]);
        commands.push(Command::FillZero(draw_count));
        commands.push(Command::ResetStatistics);
        commands.push(Command::Barrier { src_stages: STAGE_TRANSFER, dst_stages: STAGE_COMPUTE_SHADER, entries });
        let ghost clears = commands_view(commands@);
        assert(clears =~= seq![
            CommandView::FillZero(draw_count),
            CommandView::ResetStatistics,
            CommandView::Barrier {
                src_stages: STAGE_TRANSFER,
                dst_stages: STAGE_COMPUTE_SHADER,
                entries: seq![fill_entry(draw_count), BarrierEntry::StatisticsReset],
            },
        ]);
        match self.dispatch(buffers, accept_mask) {
            Some(d) => {
                push_dispatch(&mut commands, d);
                push_closing_barrier(&mut commands, STAGE_COMPUTE_SHADER);
                assert(commands_view(commands@) =~= clears + dispatch_commands::<B>(d).push(
                    closing_barrier(STAGE_COMPUTE_SHADER),
                ));
            },
            None => {},
        }
        commands
    }
}

impl MainCullingIndirectPassData {
    /// The commands the main-view culling pass records this frame.
    pub fn record<B: Copy>(
        &self,
        buffers: CullingBuffers,
        view_count: u32,
        request_count: u32,
        draw_count_main: B,
        draw_count_shadow: B,
    ) -> (commands: Vec<Command<B, CullingIndirectPushConstants>>)
        requires
            self.entity_count != 0 ==> (self.entity_count as u32) + 255 <= u32::MAX,
        ensures
            self.entity_count != 0 ==> match commands_view(commands@)[5] {
                CommandView::PushConstants(pc) => {
                    &&& pc.combine_views == 0
                    &&& pc.view_count == view_count
                    &&& pc.entity_count == self.entity_count as u32
                    &&& pc.request_count == request_count
                },
                _ => false,
            },
            commands_view(commands@) == main_culling_commands(
                *self,
                buffers,
                view_count,
                request_count,
                draw_count_main,
                draw_count_shadow,
            ),
    {
        let mut commands: Vec<Command<B, CullingIndirectPushConstants>> = Vec::new();
        let d = match self.dispatch(buffers, view_count, request_count) {
            Some(d) => d,
            None => {
                assert(commands_view(commands@) =~= Seq::empty());
                return commands;
            },
        };
        let mut entries: Vec<BarrierEntry<B>> = Vec::new();
        entries.push(BarrierEntry::Fill { buffer: draw_count_main, dst_access: ACCESS_SHADER_READ | ACCESS_SHADER_WRITE });
        entries.push(BarrierEntry::Fill { buffer: draw_count_shadow, dst_access: ACCESS_SHADER_READ | ACCESS_SHADER_WRITE });
        entries.push(BarrierEntry::StatisticsReset);
        assert(entries@ =~= seq![fill_entry(draw_count_main), fill_entry(draw_count_shadow), BarrierEntry::StatisticsReset]);
        commands.push(Command::BindPipeline(BIND_POINT_COMPUTE));
        commands.push(Command::FillZero(draw_count_main));
        commands.push(Command::FillZero(draw_count_shadow));
        commands.push(Command::ResetStatistics);
        commands.push(Command::Barrier { src_stages: STAGE_TRANSFER, dst_stages: STAGE_COMPUTE_SHADER, entries });
        commands.push(Command::PushConstants(d.push_constants));
        commands.push(Command::Dispatch(d.workgroups, 1, 1));
        push_closing_barrier(&mut commands, STAGE_COMPUTE_SHADER | STAGE_TRANSFER);
        assert(commands_view(commands@) =~= main_culling_commands(
            *self,
            buffers,
            view_count,
            request_count,
            draw_count_main,
            draw_count_shadow,
        ));
        commands
    }
}

/// What the main culling pass reads of one entity of the frame.
#[derive(Clone, Copy, Debug)]
pub struct CullEntity {
    pub transform_matrix: MatrixBits,
    pub mesh_id: u32,
    /// The offset of the entity's bone transforms, when it is animated.
    pub bone_transform_offset: Option<u32>,
}

/// The values the main culling pass builds an entity record from.
#[derive(Clone, Copy, Debug, PartialEq, Eq)]
pub struct CullEntityRecord {
    pub transform_matrix: MatrixBits,
    pub mesh_id: u32,
    pub is_skinned: bool,
    pub bone_transform_offset: u32,
}

/// The buffers one render view is culled into.
#[derive(Clone, Copy, Debug, PartialEq, Eq)]
pub struct ViewBuffers<B> {
    pub indirect: B,
    pub draw_count: B,
    pub draw_data: B,
}

/// The values the main culling pass builds a render view's record from.
#[derive(Clone, Copy, Debug, PartialEq, Eq)]
pub enum CullingViewRecord<B> {
    /// The camera's view, culled by its view-projection.
    Main { view_projection: MatrixBits, buffers: ViewBuffers<B> },
    /// A shadow cascade.
    Cascade { buffers: ViewBuffers<B> },
}

/// The record of an entity: skinned exactly when it is animated, with its
/// bone offset, or offset 0 when it is not.
pub open spec fn cull_entity_record(e: CullEntity) -> CullEntityRecord {
    CullEntityRecord {
        transform_matrix: e.transform_matrix,
        mesh_id: e.mesh_id,
        is_skinned: e.bone_transform_offset is Some,
        bone_transform_offset: match e.bone_transform_offset {
            Some(offset) => offset,
            None => 0,
        },
    }
}

/// The view records: the main view into the main buffers, then one
/// cascade per shadow cascade, all into the shadow buffers.
pub open spec fn culling_view_records<B>(
    view_projection: MatrixBits,
    cascade_count: u32,
    main: ViewBuffers<B>,
    shadow: ViewBuffers<B>,
) -> Seq<CullingViewRecord<B>> {
    seq![CullingViewRecord::Main { view_projection, buffers: main }]
        + Seq::new(cascade_count as nat, |i: int| CullingViewRecord::Cascade { buffers: shadow })
}

/// The entity records and the render-view records the main culling pass
/// stages for a frame.
pub fn main_culling_records<B: Copy>(
    entities: &Vec<CullEntity>,
    view_projection: MatrixBits,
    cascade_count: u32,
    main: ViewBuffers<B>,
    shadow: ViewBuffers<B>,
) -> (r: (Vec<CullEntityRecord>, Vec<CullingViewRecord<B>>))
    ensures
        r.0@ == entities@.map_values(|e: CullEntity| cull_entity_record(e)),
        r.1@ == culling_view_records(view_projection, cascade_count, main, shadow),
{
    let mut records: Vec<CullEntityRecord> = Vec::new();
    let mut k: usize = 0;
    while k < entities.len()
        invariant
            k <= entities@.len(),
            records@ == entities@.subrange(0, k as int).map_values(|e: CullEntity| cull_entity_record(e)),
        decreases entities@.len() - k,
    {
        let e = &entities[k];
        let offset: u32 = match e.bone_transform_offset {
            Some(offset) => offset,
            None => 0,
        };
        records.push(CullEntityRecord {
            transform_matrix: e.transform_matrix,
            mesh_id: e.mesh_id,
            is_skinned: e.bone_transform_offset.is_some(),
            bone_transform_offset: offset,
        });
        k = k + 1;
        assert(records@ =~= entities@.subrange(0, k as int).map_values(|e: CullEntity| cull_entity_record(e)));
    }
    assert(entities@.subrange(0, k as int) =~= entities@);
    let mut views: Vec<CullingViewRecord<B>> = Vec::new();
    views.push(CullingViewRecord::Main { view_projection, buffers: main });
    let mut c: u32 = 0;
    while c < cascade_count
        invariant
            c <= cascade_count,
            views@ == culling_view_records(view_projection, c, main, shadow),
        decreases cascade_count - c,
    {
        views.push(CullingViewRecord::Cascade { buffers: shadow });
        c = c + 1;
        assert(views@ =~= culling_view_records(view_projection, c, main, shadow));
    }
    (records, views)
}

/// Every entity gets a thread: the dispatch's workgroups cover the entity
/// count it carries, with no workgroup left empty.
pub proof fn lemma_culling_dispatch_covers(
    buffers: CullingBuffers,
    view_count: u32,
    entity_count: usize,
    combine_views: bool,
    request_count: u32,
)
    requires
        (entity_count as u32) + 255 <= u32::MAX,
    ensures
        ({
            let d = culling_dispatch(buffers, view_count, entity_count, combine_views, request_count);
            &&& d.workgroups * 256 >= d.push_constants.entity_count
            &&& d.workgroups * 256 < d.push_constants.entity_count + 256
        }),
{
    crate::dispatch::lemma_groups_cover(entity_count as u32 as int, 256);
}


/// A culling block carries each buffer address in its own slot, the view,
/// entity and request counts as given, and the combine flag as 0 or 1.
pub proof fn lemma_culling_push_constants_route_inputs(
    buffers: CullingBuffers,
    view_count: u32,
    entity_count: u32,
    combine_views: bool,
    request_count: u32,
)
    ensures
        ({
            let pc = culling_push_constants(buffers, view_count, entity_count, combine_views, request_count);
            &&& pc.culling_views_buffer_device_address == buffers.culling_views
            &&& pc.entity_buffer_device_address == buffers.entity
            &&& pc.mesh_buffer_device_address == buffers.mesh
            &&& pc.submesh_buffer_device_address == buffers.submesh
            &&& pc.meta_statistics_buffer_device_address == buffers.meta_statistics
            &&& pc.cull_requests_buffer_device_address == buffers.cull_requests
            &&& pc.indirect_buffer_device_address == buffers.indirect
            &&& pc.draw_count_buffer_device_address == buffers.draw_count
            &&& pc.draw_data_buffer_device_address == buffers.draw_data
            &&& pc.material_buffer_device_address == buffers.material
            &&& pc.scene_buffer_device_address == buffers.scene
            &&& pc.view_count == view_count
            &&& pc.entity_count == entity_count
            &&& pc.combine_views == (if combine_views { 1u32 } else { 0u32 })
            &&& pc.request_count == request_count
        }),
{
}

/// On a frame with entities, the main-view culling pass records exactly
/// the push constants and dispatch of its `dispatch()`: views culled each
/// into its own buffers (combine flag 0), after the bind and the clears of
/// both draw counts.
pub proof fn lemma_main_culling_records_its_dispatch<B>(
    data: MainCullingIndirectPassData,
    buffers: CullingBuffers,
    view_count: u32,
    request_count: u32,
    draw_count_main: B,
    draw_count_shadow: B,
)
    requires
        data.entity_count != 0,
    ensures
        ({
            let c = main_culling_commands(data, buffers, view_count, request_count, draw_count_main, draw_count_shadow);
            let d = culling_dispatch(buffers, view_count, data.entity_count, false, request_count);
            &&& c.len() == 8
            &&& c[0] == CommandView::<B, CullingIndirectPushConstants>::BindPipeline(BIND_POINT_COMPUTE)
            &&& c[1] == CommandView::<B, CullingIndirectPushConstants>::FillZero(draw_count_main)
            &&& c[2] == CommandView::<B, CullingIndirectPushConstants>::FillZero(draw_count_shadow)
            &&& c[5] == CommandView::<B, CullingIndirectPushConstants>::PushConstants(d.push_constants)
            &&& c[6] == CommandView::<B, CullingIndirectPushConstants>::Dispatch(d.workgroups, 1, 1)
            &&& d.push_constants.combine_views == 0
            &&& d.push_constants.view_count == view_count
            &&& d.push_constants.entity_count == data.entity_count as u32
        }),
{
}

/// On a frame with entities and cascades, the cascade culling pass records
/// the push constants of its `dispatch()`: the cascades culled as one
/// combined view (combine flag 1), one view per cascade, the accept mask
/// as the request word.
pub proof fn lemma_cascade_culling_records_its_dispatch<B>(
    data: CascadeCullingIndirectPassData,
    buffers: CullingBuffers,
    accept_mask: u32,
    draw_count: B,
)
    requires
        data.entity_count != 0,
        data.cascade_count != 0,
    ensures
        ({
            let c = cascade_culling_commands(data, buffers, accept_mask, draw_count);
            let d = culling_dispatch(buffers, data.cascade_count, data.entity_count, true, accept_mask);
            &&& c.len() == 7
            &&& c[0] == CommandView::<B, CullingIndirectPushConstants>::FillZero(draw_count)
            &&& c[3] == CommandView::<B, CullingIndirectPushConstants>::BindPipeline(BIND_POINT_COMPUTE)
            &&& c[4] == CommandView::<B, CullingIndirectPushConstants>::PushConstants(d.push_constants)
            &&& c[5] == CommandView::<B, CullingIndirectPushConstants>::Dispatch(d.workgroups, 1, 1)
            &&& d.push_constants.combine_views == 1
            &&& d.push_constants.view_count == data.cascade_count
            &&& d.push_constants.request_count == accept_mask
        }),
{
}

/// On a frame with entities and views, the culling pass records the push
/// constants of its `dispatch()`, with the combine flag it was given.
pub proof fn lemma_culling_records_its_dispatch<B>(
    data: CullingIndirectPassData,
    buffers: CullingBuffers,
    view_count: u32,
    combine_views: bool,
    request_count: usize,
)
    requires
        data.entity_count != 0,
        view_count != 0,
    ensures
        ({
            let c = culling_indirect_commands::<B>(data, buffers, view_count, combine_views, request_count);
            let d = culling_dispatch(buffers, view_count, data.entity_count, combine_views, request_count as u32);
            &&& c.len() == 3
            &&& c[0] == CommandView::<B, CullingIndirectPushConstants>::BindPipeline(BIND_POINT_COMPUTE)
            &&& c[1] == CommandView::<B, CullingIndirectPushConstants>::PushConstants(d.push_constants)
            &&& c[2] == CommandView::<B, CullingIndirectPushConstants>::Dispatch(d.workgroups, 1, 1)
            &&& d.push_constants.combine_views == (if combine_views { 1u32 } else { 0u32 })
        }),
{
}

/// The main culling pass's records: one entity record per entity, skinned
/// exactly when the entity is animated, with its bone offset when it is
/// and offset 0 when it is not, and its transform and mesh; one view per
/// cascade after the main view, the main view culled by the given
/// view-projection into the main buffers, every cascade into the shadow
/// buffers.
pub proof fn lemma_main_culling_records<B>(
    entities: Seq<CullEntity>,
    view_projection: MatrixBits,
    cascade_count: u32,
    main: ViewBuffers<B>,
    shadow: ViewBuffers<B>,
)
    ensures
        forall|i: int| 0 <= i < entities.len() ==> {
            let rec = #[trigger] cull_entity_record(entities[i]);
            &&& rec.transform_matrix == entities[i].transform_matrix
            &&& rec.mesh_id == entities[i].mesh_id
            &&& (rec.is_skinned <==> entities[i].bone_transform_offset is Some)
            &&& (entities[i].bone_transform_offset matches Some(o) ==> rec.bone_transform_offset == o)
            &&& (entities[i].bone_transform_offset is None ==> rec.bone_transform_offset == 0)
        },
        culling_view_records(view_projection, cascade_count, main, shadow).len() == 1 + cascade_count,
        culling_view_records(view_projection, cascade_count, main, shadow)[0] == (CullingViewRecord::Main {
            view_projection,
            buffers: main,
        }),
        forall|i: int|
            1 <= i <= cascade_count ==> #[trigger] culling_view_records(view_projection, cascade_count, main, shadow)[i]
                == (CullingViewRecord::Cascade { buffers: shadow }),
{
}

} // verus!
