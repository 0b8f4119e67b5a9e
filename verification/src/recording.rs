//! The commands a pass records, in order, as values: what the pass context
//! is asked to bind, clear, synchronize, push, dispatch and draw. `B` is the
//! render graph's buffer handle and `P` the pass's push-constant block.
use vstd::prelude::*;

verus! {

/// One buffer barrier of a pipeline barrier.
#[derive(Clone, Copy, Debug)]
pub enum BarrierEntry<B> {
    /// The zero fill of `buffer`, made visible to the accesses `dst_access`.
    Fill { buffer: B, dst_access: u32 },
    /// The reset of the pass's per-view statistics.
    StatisticsReset,
    /// The statistics the shader wrote, made visible to the host.
    StatisticsHostRead,
}

/// One command a pass records.
#[derive(Clone, Debug)]
pub enum Command<B, P> {
    /// Bind the pass's pipeline at the bind point.
    BindPipeline(i32),
    /// Bind the index buffer.
    BindIndexBuffer,
    /// Fill a buffer's whole region with zeros.
    FillZero(B),
    /// Reset the pass's per-view statistics.
    ResetStatistics,
    /// A pipeline barrier from the stages `src_stages` to `dst_stages`
    /// holding the buffer barriers `entries`, in order.
    Barrier { src_stages: u32, dst_stages: u32, entries: Vec<BarrierEntry<B>> },
    /// Push the pass's push constants.
    PushConstants(P),
    /// Dispatch the workgroups along x, y and z.
    Dispatch(u32, u32, u32),
    /// Draw `n` vertices.
    Draw(u32),
    /// One indirect draw of the culled scene.
    DrawIndirect,
}

/// A command, its barrier entries taken as a sequence.
pub enum CommandView<B, P> {
    BindPipeline(i32),
    BindIndexBuffer,
    FillZero(B),
    ResetStatistics,
    Barrier { src_stages: u32, dst_stages: u32, entries: Seq<BarrierEntry<B>> },
    PushConstants(P),
    Dispatch(u32, u32, u32),
    Draw(u32),
    DrawIndirect,
}

impl<B, P> View for Command<B, P> {
    type V = CommandView<B, P>;

    open spec fn view(&self) -> CommandView<B, P> {
        match self {
            Command::BindPipeline(p) => CommandView::BindPipeline(*p),
            Command::BindIndexBuffer => CommandView::BindIndexBuffer,
            Command::FillZero(b) => CommandView::FillZero(*b),
            Command::ResetStatistics => CommandView::ResetStatistics,
            Command::Barrier { src_stages, dst_stages, entries } => CommandView::Barrier {
                src_stages: *src_stages,
                dst_stages: *dst_stages,
                entries: entries@,
            },
            Command::PushConstants(p) => CommandView::PushConstants(*p),
            Command::Dispatch(x, y, z) => CommandView::Dispatch(*x, *y, *z),
            Command::Draw(n) => CommandView::Draw(*n),
            Command::DrawIndirect => CommandView::DrawIndirect,
        }
    }
}

/// The recorded commands, each taken by its view.
pub open spec fn commands_view<B, P>(commands: Seq<Command<B, P>>) -> Seq<CommandView<B, P>> {
    commands.map_values(|c: Command<B, P>| c@)
}

} // verus!
