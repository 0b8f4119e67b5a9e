//! A run of fallible steps that stops at the first failure: reserving a
//! draw pool's regions, releasing the registry's passes. The caller
//! performs each step it is handed and reports how it went.
use vstd::prelude::*;

verus! {

/// Where a run of `len` fallible steps stands.
#[derive(Clone, Copy, Debug)]
pub struct StepRun {
    len: usize,
    ran: usize,
    failed: bool,
}

impl StepRun {
    /// The number of steps.
    pub closed spec fn len(&self) -> nat {
        self.len as nat
    }

    /// The number of steps performed so far.
    pub closed spec fn ran(&self) -> nat {
        self.ran as nat
    }

    /// The last step performed failed.
    pub closed spec fn failed(&self) -> bool {
        self.failed
    }

    /// Well formed: no more steps ran than there are, and a failure lies
    /// at a step that ran.
    pub closed spec fn wf(&self) -> bool {
        &&& self.ran <= self.len
        &&& self.failed ==> self.ran > 0
    }

    /// A run of `len` steps, none performed.
    pub fn new(len: usize) -> (r: Self)
        ensures
            r.wf(),
            r.len() == len,
            r.ran() == 0,
            !r.failed(),
    {
        StepRun { len, ran: 0, failed: false }
    }

    /// The step to perform next: the next one in order, unless a step
    /// failed or all have run.
    pub fn next_step(&self) -> (step: Option<usize>)
        requires
            self.wf(),
        ensures
            step == (if !self.failed() && self.ran() < self.len() { Some(self.ran() as usize) } else { None::<usize> }),
    {
        if !self.failed && self.ran < self.len {
            Some(self.ran)
        } else {
            None
        }
    }

    /// Reports how the step handed out by `next_step` went.
    pub fn report(&mut self, ok: bool)
        requires
            old(self).wf(),
            !old(self).failed(),
            old(self).ran() < old(self).len(),
        ensures
            final(self).wf(),
            final(self).len() == old(self).len(),
            final(self).ran() == old(self).ran() + 1,
            final(self).failed() == !ok,
    {
        self.ran = self.ran + 1;
        self.failed = !ok;
    }

    /// The run's result once it is over: `Some(true)` when every step ran
    /// and succeeded, `Some(false)` when a step failed, `None` while steps
    /// remain.
    pub fn outcome(&self) -> (o: Option<bool>)
        requires
            self.wf(),
        ensures
            o == (if self.failed() {
                Some(false)
            } else if self.ran() == self.len() {
                Some(true)
            } else {
                None::<bool>
            }),
    {
        if self.failed {
            Some(false)
        } else if self.ran == self.len {
            Some(true)
        } else {
            None
        }
    }
}

} // verus!
