//! The pass registry's frame and teardown.
//!
//! A frame runs the registered passes in a fixed order inside one total
//! GPU interval. A disabled pass is skipped. An enabled pass has its GPU
//! interval started, its data prepared (timed), its commands recorded
//! (timed) and its GPU interval ended. The first failing preparation or
//! recording ends the frame at once, with nothing more recorded.
//!
//! The passes, the clock and the command buffer belong to the caller, so
//! the frame is a state machine: the caller performs each action, reports
//! what came of it as an event, and `step` gives the next actions.
use vstd::prelude::*;

verus! {

/// Number of passes the registry runs.
pub const REGISTRY_PASS_COUNT: usize = 7;

/// The registered passes.
#[derive(Clone, Copy, Debug, PartialEq, Eq, Structural)]
pub enum RegistryPass {
    CullingIndirect,
    Depth,
    Shadows,
    ShadowMask,
    Main,
    PhysicsDebug,
    Ui,
}

/// The pass at position `index` of the registry's order.
pub open spec fn spec_registry_pass(index: usize) -> RegistryPass {
    if index == 0 {
        RegistryPass::CullingIndirect
    } else if index == 1 {
        RegistryPass::Depth
    } else if index == 2 {
        RegistryPass::Shadows
    } else if index == 3 {
        RegistryPass::ShadowMask
    } else if index == 4 {
        RegistryPass::Main
    } else if index == 5 {
        RegistryPass::PhysicsDebug
    } else {
        RegistryPass::Ui
    }
}

/// The pass at position `index` of the registry's order: culling, depth,
/// shadows, shadow mask, main, physics debug, UI.
pub fn registry_pass(index: usize) -> (pass: RegistryPass)
    requires
        index < REGISTRY_PASS_COUNT,
    ensures
        pass == spec_registry_pass(index),
        index == 0 ==> pass == RegistryPass::CullingIndirect,
        index == 1 ==> pass == RegistryPass::Depth,
        index == 2 ==> pass == RegistryPass::Shadows,
        index == 3 ==> pass == RegistryPass::ShadowMask,
        index == 4 ==> pass == RegistryPass::Main,
        index == 5 ==> pass == RegistryPass::PhysicsDebug,
        index == 6 ==> pass == RegistryPass::Ui,
{
    if index == 0 {
        RegistryPass::CullingIndirect
    } else if index == 1 {
        RegistryPass::Depth
    } else if index == 2 {
        RegistryPass::Shadows
    } else if index == 3 {
        RegistryPass::ShadowMask
    } else if index == 4 {
        RegistryPass::Main
    } else if index == 5 {
        RegistryPass::PhysicsDebug
    } else {
        RegistryPass::Ui
    }
}

/// The registry's order: culling first, then depth, shadows, the shadow
/// mask, the main pass, the physics debug view and the UI last; every
/// pass runs at exactly one position.
pub proof fn lemma_registry_order()
    ensures
        spec_registry_pass(0) == RegistryPass::CullingIndirect,
        spec_registry_pass(1) == RegistryPass::Depth,
        spec_registry_pass(2) == RegistryPass::Shadows,
        spec_registry_pass(3) == RegistryPass::ShadowMask,
        spec_registry_pass(4) == RegistryPass::Main,
        spec_registry_pass(5) == RegistryPass::PhysicsDebug,
        spec_registry_pass(6) == RegistryPass::Ui,
        forall|i: usize, j: usize|
            i < REGISTRY_PASS_COUNT && j < REGISTRY_PASS_COUNT && i != j ==> spec_registry_pass(i) != spec_registry_pass(j),
{
}

/// Where a frame stands.
#[derive(Clone, Copy, Debug, PartialEq, Eq, Structural)]
pub enum RunState {
    /// Nothing done yet.
    Start,
    /// Waiting to hear whether pass `i` is enabled.
    Checking(usize),
    /// Waiting for pass `i`'s data.
    Preparing(usize),
    /// Waiting for pass `i`'s commands.
    Recording(usize),
    /// Every pass handled and the total interval ended.
    Finished,
    /// A pass failed; the frame ended there.
    Failed,
}

/// What the caller reports.
#[derive(Clone, Copy, Debug, PartialEq, Eq, Structural)]
pub enum RunEvent {
    /// The frame begins.
    Begin,
    /// Whether the pass asked about is enabled.
    Enabled(bool),
    /// Whether preparing the pass's data succeeded.
    Prepared(bool),
    /// Whether recording the pass's commands succeeded.
    Recorded(bool),
}

/// What the caller does next.
#[derive(Clone, Copy, Debug, PartialEq, Eq, Structural)]
pub enum RunAction {
    /// Start the total GPU interval.
    StartTotal,
    /// Ask whether pass `i` is enabled.
    CheckEnabled(usize),
    /// Start pass `i`'s GPU interval and preparation time, and prepare its data.
    Prepare(usize),
    /// Finish pass `i`'s preparation time, start its recording time, and record its commands.
    Record(usize),
    /// Finish pass `i`'s recording time and its GPU interval.
    EndPass(usize),
    /// End the total GPU interval.
    EndTotal,
}

/// The state expects the event.
pub open spec fn accepts(state: RunState, event: RunEvent) -> bool {
    match state {
        RunState::Start => event == RunEvent::Begin,
        RunState::Checking(i) => i < REGISTRY_PASS_COUNT && event is Enabled,
        RunState::Preparing(i) => i < REGISTRY_PASS_COUNT && event is Prepared,
        RunState::Recording(i) => i < REGISTRY_PASS_COUNT && event is Recorded,
        RunState::Finished => false,
        RunState::Failed => false,
    }
}

/// After pass `i` is done or skipped: ask about the next pass, or end the
/// total interval after the last.
pub open spec fn after_pass(i: usize) -> (RunState, Seq<RunAction>) {
    if i + 1 < REGISTRY_PASS_COUNT {
        (RunState::Checking((i + 1) as usize), seq![RunAction::CheckEnabled((i + 1) as usize)])
    } else {
        (RunState::Finished, seq![RunAction::EndTotal])
    }
}

/// The next state and the actions for an event.
pub open spec fn spec_step(state: RunState, event: RunEvent) -> (RunState, Seq<RunAction>) {
    match state {
        RunState::Start => (RunState::Checking(0), seq![RunAction::StartTotal, RunAction::CheckEnabled(0)]),
        RunState::Checking(i) => match event {
            RunEvent::Enabled(true) => (RunState::Preparing(i), seq![RunAction::Prepare(i)]),
            _ => after_pass(i),
        },
        RunState::Preparing(i) => match event {
            RunEvent::Prepared(true) => (RunState::Recording(i), seq![RunAction::Record(i)]),
            _ => (RunState::Failed, Seq::empty()),
        },
        RunState::Recording(i) => match event {
            RunEvent::Recorded(true) => (after_pass(i).0, seq![RunAction::EndPass(i)] + after_pass(i).1),
            _ => (RunState::Failed, Seq::empty()),
        },
        _ => (state, Seq::empty()),
    }
}

fn next_after(i: usize, actions: &mut Vec<RunAction>) -> (next: RunState)
    requires
        i < REGISTRY_PASS_COUNT,
    ensures
        next == after_pass(i).0,
        final(actions)@ == old(actions)@ + after_pass(i).1,
{
    if i + 1 < REGISTRY_PASS_COUNT {
        actions.push(RunAction::CheckEnabled(i + 1));
        RunState::Checking(i + 1)
    } else {
        actions.push(RunAction::EndTotal);
        RunState::Finished
    }
}

/// The next state of a frame and the actions the caller performs, for an
/// event the state expects.
pub fn step(state: RunState, event: RunEvent) -> (next: (RunState, Vec<RunAction>))
    requires
        accepts(state, event),
    ensures
        next.0 == spec_step(state, event).0,
        next.1@ == spec_step(state, event).1,
{
    let mut actions: Vec<RunAction> = Vec::new();
    match state {
        RunState::Start => {
            actions.push(RunAction::StartTotal);
            actions.push(RunAction::CheckEnabled(0));
            (RunState::Checking(0), actions)
        },
        RunState::Checking(i) => match event {
            RunEvent::Enabled(true) => {
                actions.push(RunAction::Prepare(i));
                (RunState::Preparing(i), actions)
            },
            _ => {
                let next = next_after(i, &mut actions);
                (next, actions)
            },
        },
        RunState::Preparing(i) => match event {
            RunEvent::Prepared(true) => {
                actions.push(RunAction::Record(i));
                (RunState::Recording(i), actions)
            },
            _ => (RunState::Failed, actions),
        },
        RunState::Recording(i) => match event {
            RunEvent::Recorded(true) => {
                actions.push(RunAction::EndPass(i));
                let next = next_after(i, &mut actions);
                (next, actions)
            },
            _ => (RunState::Failed, actions),
        },
        _ => (state, actions),
    }
}

/// How far a frame has come through the passes.
pub open spec fn progress(state: RunState) -> int {
    match state {
        RunState::Start => 0,
        RunState::Checking(i) => 3 * i + 1,
        RunState::Preparing(i) => 3 * i + 2,
        RunState::Recording(i) => 3 * i + 3,
        RunState::Finished => 3 * REGISTRY_PASS_COUNT + 1,
        RunState::Failed => 3 * REGISTRY_PASS_COUNT + 1,
    }
}

/// The registry's frame discipline:
/// a finished or failed frame takes no more events; every step moves the
/// frame forward through the passes in order; a pass is prepared only when
/// it was just reported enabled, recorded only after its preparation
/// succeeded, and ended only after its recording succeeded; a failure ends
/// the frame with nothing more recorded, not even the end of the total
/// interval; a disabled pass is neither prepared nor recorded.
pub proof fn lemma_frame_discipline(state: RunState, event: RunEvent)
    ensures
        !accepts(RunState::Finished, event),
        !accepts(RunState::Failed, event),
        accepts(state, event) ==> progress(spec_step(state, event).0) > progress(state),
        accepts(state, event) ==> forall|k: int|
            0 <= k < spec_step(state, event).1.len() ==> match #[trigger] spec_step(state, event).1[k] {
                RunAction::Prepare(i) => state == RunState::Checking(i) && event == RunEvent::Enabled(true),
                RunAction::Record(i) => state == RunState::Preparing(i) && event == RunEvent::Prepared(true),
                RunAction::EndPass(i) => state == RunState::Recording(i) && event == RunEvent::Recorded(true),
                _ => true,
            },
        accepts(state, event) && (event == RunEvent::Prepared(false) || event == RunEvent::Recorded(false)) ==> {
            &&& spec_step(state, event).0 == RunState::Failed
            &&& spec_step(state, event).1.len() == 0
        },
        accepts(state, event) && event == RunEvent::Enabled(false) ==> ({
            let (next, actions) = spec_step(state, event);
            &&& next != RunState::Failed
            &&& forall|k: int| 0 <= k < actions.len() ==> !(#[trigger] actions[k] is Prepare) && !(actions[k] is Record)
        }),
{
}

/// What the registry releases, in order: the total GPU interval
/// measurement, then for each pass in order its measurement and the pass.
#[derive(Clone, Copy, Debug, PartialEq, Eq, Structural)]
pub enum DestroyAction {
    TotalMeasurement,
    PassMeasurement(usize),
    Pass(usize),
}

/// The order in which the registry releases its measurements and passes;
/// the releases run as a `StepRun` over this order, which stops at the
/// first release that fails.
pub fn destroy_order() -> (order: Vec<DestroyAction>)
    ensures
        order@.len() == 1 + 2 * REGISTRY_PASS_COUNT,
        order@[0] == DestroyAction::TotalMeasurement,
        forall|i: int|
            0 <= i < REGISTRY_PASS_COUNT ==> {
                &&& #[trigger] order@[1 + 2 * i] == DestroyAction::PassMeasurement(i as usize)
                &&& order@[2 + 2 * i] == DestroyAction::Pass(i as usize)
            },
{
    let mut order: Vec<DestroyAction> = Vec::new();
    order.push(DestroyAction::TotalMeasurement);
    let mut k: usize = 0;
    while k < REGISTRY_PASS_COUNT
        invariant
            k <= REGISTRY_PASS_COUNT,
            order@.len() == 1 + 2 * k,
            order@[0] == DestroyAction::TotalMeasurement,
            forall|i: int|
                0 <= i < k ==> {
                    &&& #[trigger] order@[1 + 2 * i] == DestroyAction::PassMeasurement(i as usize)
                    &&& order@[2 + 2 * i] == DestroyAction::Pass(i as usize)
                },
        decreases REGISTRY_PASS_COUNT - k,
    {
        order.push(DestroyAction::PassMeasurement(k));
        order.push(DestroyAction::Pass(k));
        k = k + 1;
    }
    order
}

} // verus!
