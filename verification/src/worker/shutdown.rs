use vstd::prelude::*;

verus! {

/// How one worker task ended during shutdown.
#[derive(Debug, Clone, Copy, PartialEq, Eq, Structural)]
pub enum JoinOutcome {
    /// The task finished on its own.
    Finished,
    /// The task was aborted (cancelled) before it finished.
    Aborted,
    /// The task failed (it panicked).
    Failed,
}

/// The count that a manager keeps while it shuts its workers down.
pub struct ShutdownTally {
    total: u64,
    aborted: u64,
}

/// The time left before `deadline_ms`, never negative.
pub open spec fn remaining_spec(deadline_ms: u64, now_ms: u64) -> u64 {
    if deadline_ms > now_ms {
        (deadline_ms - now_ms) as u64
    } else {
        0
    }
}

/// Computes the time left before a deadline; zero once it has passed.
pub fn remaining_until(deadline_ms: u64, now_ms: u64) -> (r: u64)
    ensures
        r == remaining_spec(deadline_ms, now_ms),
{
    if deadline_ms > now_ms {
        deadline_ms - now_ms
    } else {
        0
    }
}

impl ShutdownTally {
    /// Tasks that ended, in any way.
    pub closed spec fn spec_total(&self) -> nat {
        self.total as nat
    }

    /// Tasks that were aborted.
    pub closed spec fn spec_aborted(&self) -> nat {
        self.aborted as nat
    }

    /// Every aborted task is among the tasks that ended.
    pub closed spec fn wf(&self) -> bool {
        self.aborted <= self.total
    }

    pub fn new() -> (t: ShutdownTally)
        ensures
            t.wf(),
            t.spec_total() == 0,
            t.spec_aborted() == 0,
    {
        ShutdownTally { total: 0, aborted: 0 }
    }

    /// Records how a task ended.
    pub fn record(&mut self, outcome: JoinOutcome)
        requires
            old(self).wf(),
            old(self).spec_total() < u64::MAX,
        ensures
            final(self).wf(),
            final(self).spec_total() == old(self).spec_total() + 1,
            final(self).spec_aborted() == old(self).spec_aborted() + (if outcome
                == JoinOutcome::Aborted {
                1nat
            } else {
                0nat
            }),
    {
        self.total = self.total + 1;
        if outcome == JoinOutcome::Aborted {
            self.aborted = self.aborted + 1;
        }
    }

    /// Tasks that ended.
    pub fn total(&self) -> (n: u64)
        ensures
            n == self.spec_total(),
    {
        self.total
    }

    /// Tasks that were aborted.
    pub fn aborted(&self) -> (n: u64)
        ensures
            n == self.spec_aborted(),
    {
        self.aborted
    }

    /// Tasks that stopped without being aborted: every ended task is either
    /// stopped or aborted.
    pub fn stopped(&self) -> (n: u64)
        requires
            self.wf(),
        ensures
            n + self.spec_aborted() == self.spec_total(),
    {
        self.total - self.aborted
    }

    /// Whether the shutdown had to abort any task.
    pub fn any_aborted(&self) -> (b: bool)
        ensures
            b == (self.spec_aborted() > 0),
    {
        self.aborted > 0
    }
}

} // verus!
