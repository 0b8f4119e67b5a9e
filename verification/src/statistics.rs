//! Per-pass statistics: the CPU time spent preparing data and recording
//! commands, and the GPU time of the pass's dispatches.
//!
//! Clock readings come from the caller as nanoseconds of a monotonic clock;
//! the GPU interval measurement is the caller's handle, created and
//! destroyed with the device.
use vstd::prelude::*;

verus! {

/// A CPU time measurement: the length of the last interval between a
/// `start` and the `finish` after it.
#[derive(Clone, Copy, Debug)]
pub struct TimeMeasurement {
    /// Clock reading of the pending `start`, if any.
    pub started_at: Option<u64>,
    /// Nanoseconds of the last finished interval.
    pub last: u64,
}

/// The measurement after `start` at clock reading `now`.
pub open spec fn spec_start(m: TimeMeasurement, now: u64) -> TimeMeasurement {
    TimeMeasurement { started_at: Some(now), last: m.last }
}

/// The measurement after `finish` at clock reading `now`: a pending start
/// closes an interval (of zero length if the clock reads earlier than the
/// start); without one the last interval is kept.
pub open spec fn spec_finish(m: TimeMeasurement, now: u64) -> TimeMeasurement {
    match m.started_at {
        Some(start) => TimeMeasurement {
            started_at: None,
            last: if now >= start { (now - start) as u64 } else { 0 },
        },
        None => TimeMeasurement { started_at: None, last: m.last },
    }
}

impl TimeMeasurement {
    /// A measurement that has measured nothing yet.
    pub fn new() -> (m: Self)
        ensures
            m.started_at is None,
            m.last == 0,
    {
        TimeMeasurement { started_at: None, last: 0 }
    }

    /// Starts an interval at clock reading `now`.
    pub fn start(&mut self, now: u64)
        ensures
            *final(self) == spec_start(*old(self), now),
    {
        self.started_at = Some(now);
    }

    /// Finishes the pending interval at clock reading `now`.
    pub fn finish(&mut self, now: u64)
        ensures
            *final(self) == spec_finish(*old(self), now),
    {
        match self.started_at {
            Some(start) => {
                self.last = if now >= start { now - start } else { 0 };
            },
            None => {},
        }
        self.started_at = None;
    }

    /// Nanoseconds of the last finished interval.
    pub fn collect(&self) -> (nanos: u64)
        ensures
            nanos == self.last,
    {
        self.last
    }
}

/// A measured interval is the time between its start and its finish, and
/// a later start does not lose it until the next finish.
pub proof fn lemma_interval(m: TimeMeasurement, t0: u64, t1: u64, t2: u64)
    requires
        t0 <= t1,
    ensures
        spec_finish(spec_start(m, t0), t1).last == t1 - t0,
        spec_start(spec_finish(spec_start(m, t0), t1), t2).last == t1 - t0,
{
}

/// The statistics of one pass for a frame. `M` is what the pass itself
/// reports.
#[derive(Clone, Copy, Debug)]
pub struct PassStatistics<M> {
    pub prepare: u64,
    pub collect_render_commands: u64,
    pub dispatch: u64,
    pub meta: M,
}

/// The measurements kept for one pass. `G` is the GPU interval
/// measurement of its dispatches.
#[derive(Debug)]
pub struct PassStatisticsMeasurement<G> {
    pub prepare: TimeMeasurement,
    pub collect_render_commands: TimeMeasurement,
    pub dispatch_measurement: G,
}

impl<G> PassStatisticsMeasurement<G> {
    /// Measurements for a pass whose dispatches `dispatch_measurement` times;
    /// nothing measured on the CPU yet.
    pub fn new(dispatch_measurement: G) -> (m: Self)
        ensures
            m.prepare == (TimeMeasurement { started_at: None, last: 0 }),
            m.collect_render_commands == (TimeMeasurement { started_at: None, last: 0 }),
            m.dispatch_measurement == dispatch_measurement,
    {
        PassStatisticsMeasurement {
            prepare: TimeMeasurement::new(),
            collect_render_commands: TimeMeasurement::new(),
            dispatch_measurement,
        }
    }

    /// The pass's statistics: the last CPU intervals, with the GPU time
    /// `dispatch` read back for the frame and the pass's own report `meta`.
    pub fn collect<M>(&self, dispatch: u64, meta: M) -> (s: PassStatistics<M>)
        ensures
            s.prepare == self.prepare.last,
            s.collect_render_commands == self.collect_render_commands.last,
            s.dispatch == dispatch,
            s.meta == meta,
    {
        PassStatistics {
            prepare: self.prepare.collect(),
            collect_render_commands: self.collect_render_commands.collect(),
            dispatch,
            meta,
        }
    }

    /// Gives up the measurements, handing back the GPU interval measurement
    /// for the caller to release with the device.
    pub fn destroy(self) -> (dispatch_measurement: G)
        ensures
            dispatch_measurement == self.dispatch_measurement,
    {
        self.dispatch_measurement
    }
}

} // verus!
