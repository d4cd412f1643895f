use vstd::prelude::*;
use std::str::FromStr;
use crate::worker::trigger::{cron_accepts, CronSchedule, Trigger};

verus! {

/// What the task driving a worker waits on before the next decision. The
/// task always also waits on cancellation.
#[derive(Debug, Clone, Copy, PartialEq, Eq, Structural)]
pub struct WakeSources {
    /// The interval timer's next tick.
    pub tick: bool,
    /// A notification from the worker's handle.
    pub notify: bool,
    /// A sleep of this many milliseconds.
    pub sleep_ms: Option<u64>,
}

/// How to obtain the next trigger decision.
#[derive(Debug, Clone, Copy, PartialEq, Eq, Structural)]
pub enum WaitPlan {
    /// Fire at once, without waiting.
    FireNow,
    /// Wait for the first of the sources, or for cancellation.
    Await(WakeSources),
}

/// Which awaited event completed first.
#[derive(Debug, Clone, Copy, PartialEq, Eq, Structural)]
pub enum Wake {
    Tick,
    Notified,
    SleepElapsed,
    Cancelled,
}

/// The decision after a wake: whether the trigger fired (otherwise the
/// worker stops), and whether the interval timer must be reset.
#[derive(Debug, Clone, Copy, PartialEq, Eq, Structural)]
pub struct WakeResponse {
    pub fire: bool,
    pub reset_interval: bool,
}

/// Waiting on cancellation alone.
pub open spec fn await_cancellation() -> WaitPlan {
    WaitPlan::Await(WakeSources { tick: false, notify: false, sleep_ms: None })
}

/// The wait for a cron schedule whose next occurrence is `next` (in
/// milliseconds since the epoch, `None` when there is none), at time `now`;
/// `with_notify` adds notifications as a wake source.
/// An occurrence that is already due at `now` fires at once, with or
/// without notifications, so that no scheduled run is skipped.
pub open spec fn cron_plan(next: Option<i64>, now: i64, with_notify: bool) -> WaitPlan {
    match next {
        None => WaitPlan::Await(WakeSources { tick: false, notify: with_notify, sleep_ms: None }),
        Some(t) => if t > now {
            WaitPlan::Await(
                WakeSources { tick: false, notify: with_notify, sleep_ms: Some((t - now) as u64) },
            )
        } else {
            WaitPlan::FireNow
        },
    }
}

/// Computes the wait for a cron schedule (see [`cron_plan`]).
pub fn cron_wait_plan(next: Option<i64>, now: i64, with_notify: bool) -> (p: WaitPlan)
    ensures
        p == cron_plan(next, now, with_notify),
{
    match next {
        None => WaitPlan::Await(WakeSources { tick: false, notify: with_notify, sleep_ms: None }),
        Some(t) => if t > now {
            let gap = (t as i128 - now as i128) as u64;
            WaitPlan::Await(WakeSources { tick: false, notify: with_notify, sleep_ms: Some(gap) })
        } else {
            WaitPlan::FireNow
        },
    }
}

/// The next time strictly after `from_ms` (UTC milliseconds since the epoch)
/// that matches the schedule `croner` parses from `expr`, as
/// `Cron::find_next_occurrence` finds it; `None` when there is none within
/// its search or the expression does not parse.
pub uninterp spec fn cron_next_after(expr: Seq<char>, from_ms: i64) -> Option<i64>;

/// Parses `expr` with `croner`'s `Cron::from_str` and finds, with
/// `Cron::find_next_occurrence` (exclusive of the start), the next time after
/// `from_ms` that matches it, in UTC milliseconds.
///
/// Trusted: both calls are functions of their arguments alone (the start is
/// a UTC time), so the result is named by `cron_next_after`; a found time
/// lies strictly after the start, as the search first steps off the start's
/// second; an expression the parser refuses gives `None`.
#[verifier::external_body]
fn next_occurrence_after(expr: &str, from_ms: i64) -> (r: Option<i64>)
    ensures
        r == cron_next_after(expr@, from_ms),
        r matches Some(t) ==> t > from_ms,
        !cron_accepts(expr@) ==> r is None,
{
    let cron = croner::Cron::from_str(expr).ok()?;
    let start = chrono::DateTime::<chrono::Utc>::from_timestamp_millis(from_ms)?;
    cron.find_next_occurrence(&start, false).ok().map(|t| t.timestamp_millis())
}

/// The delay with which an interval timer resumes after a hard pause: the
/// part of its period that was left when the pause began (`elapsed_ms` of
/// `period_ms` had passed), zero once the period had run out. It does not
/// depend on how long the pause lasted.
pub open spec fn held_delay(period_ms: u64, elapsed_ms: u64) -> nat {
    if elapsed_ms < period_ms {
        (period_ms - elapsed_ms) as nat
    } else {
        0
    }
}

/// Holds an interval timer at a hard pause: the delay with which it resumes
/// (see [`held_delay`]).
pub fn hold_interval(period_ms: u64, elapsed_ms: u64) -> (r: u64)
    ensures
        r == held_delay(period_ms, elapsed_ms),
{
    if elapsed_ms < period_ms {
        period_ms - elapsed_ms
    } else {
        0
    }
}

/// A hard pause uses none of an interval's period: the time that ran before
/// the pause and the delay after the resume add up to one period, however
/// long the pause lasted.
pub proof fn lemma_hard_pause_keeps_period(period_ms: u64, elapsed_ms: u64)
    requires
        elapsed_ms <= period_ms,
    ensures
        elapsed_ms + held_delay(period_ms, elapsed_ms) == period_ms,
{
}

/// Driver of a `Once` trigger: fires the first time, then only waits for
/// cancellation.
pub struct OnceDriver {
    executed: bool,
}

impl OnceDriver {
    /// Whether the driver has fired already.
    pub closed spec fn spec_executed(&self) -> bool {
        self.executed
    }

    pub fn new() -> (d: OnceDriver)
        ensures
            !d.spec_executed(),
    {
        OnceDriver { executed: false }
    }

    /// Fires the first time it is asked; afterwards waits for cancellation.
    pub fn poll(&mut self) -> (p: WaitPlan)
        ensures
            final(self).spec_executed(),
            p == (if old(self).spec_executed() {
                await_cancellation()
            } else {
                WaitPlan::FireNow
            }),
    {
        if self.executed {
            WaitPlan::Await(WakeSources { tick: false, notify: false, sleep_ms: None })
        } else {
            self.executed = true;
            WaitPlan::FireNow
        }
    }
}

/// How many times a once-driver fires over `polls` successive polls,
/// starting with `executed` as its state.
pub open spec fn once_fires(executed: bool, polls: nat) -> nat
    decreases polls,
{
    if polls == 0 {
        0
    } else {
        (if executed {
            0nat
        } else {
            1nat
        }) + once_fires(true, (polls - 1) as nat)
    }
}

proof fn lemma_spent_once_never_fires(polls: nat)
    ensures
        once_fires(true, polls) == 0,
    decreases polls,
{
    if polls > 0 {
        lemma_spent_once_never_fires((polls - 1) as nat);
    }
}

/// A `Once` trigger runs its worker exactly once, however many times its
/// driver is asked.
pub proof fn lemma_once_runs_exactly_once(polls: nat)
    requires
        polls >= 1,
    ensures
        once_fires(false, polls) == 1,
{
    lemma_spent_once_never_fires((polls - 1) as nat);
}

/// Driver of a `Notify` trigger: fires on each notification.
pub struct NotifyDriver;

impl NotifyDriver {
    pub fn new() -> (d: NotifyDriver) {
        NotifyDriver
    }
}

/// The execution strategy for each kind of trigger.
pub enum TriggerDriver {
    Once(OnceDriver),
    Notify(NotifyDriver),
    Interval,
    Cron(CronSchedule),
    IntervalOrNotify,
    CronOrNotify(CronSchedule),
}

impl TriggerDriver {
    /// The driver for a trigger; the interval timers themselves belong to
    /// the driving task.
    pub fn for_trigger(trigger: Trigger) -> (d: TriggerDriver)
        ensures
            match trigger {
                Trigger::Once => d matches TriggerDriver::Once(o) && !o.spec_executed(),
                Trigger::Notify => d is Notify,
                Trigger::Interval(_) => d is Interval,
                Trigger::Cron(c) => d == TriggerDriver::Cron(c),
                Trigger::IntervalOrNotify(_) => d is IntervalOrNotify,
                Trigger::CronOrNotify(c) => d == TriggerDriver::CronOrNotify(c),
            },
    {
        match trigger {
            Trigger::Once => TriggerDriver::Once(OnceDriver::new()),
            Trigger::Notify => TriggerDriver::Notify(NotifyDriver::new()),
            Trigger::Interval(_) => TriggerDriver::Interval,
            Trigger::Cron(c) => TriggerDriver::Cron(c),
            Trigger::IntervalOrNotify(_) => TriggerDriver::IntervalOrNotify,
            Trigger::CronOrNotify(c) => TriggerDriver::CronOrNotify(c),
        }
    }

    /// How to wait for the next execution. `search_from_ms` is the time from
    /// which a cron schedule's next occurrence is sought, `now_ms` the time
    /// it is compared with (both read from the clock, in that order).
    pub fn plan(&mut self, search_from_ms: i64, now_ms: i64) -> (p: WaitPlan)
        ensures
            match *old(self) {
                TriggerDriver::Once(o) => {
                    &&& *final(self) matches TriggerDriver::Once(n) && n.spec_executed()
                    &&& p == (if o.spec_executed() {
                        await_cancellation()
                    } else {
                        WaitPlan::FireNow
                    })
                },
                TriggerDriver::Notify(_) => {
                    &&& *final(self) == *old(self)
                    &&& p == WaitPlan::Await(
                        WakeSources { tick: false, notify: true, sleep_ms: None },
                    )
                },
                TriggerDriver::Interval => {
                    &&& *final(self) == *old(self)
                    &&& p == WaitPlan::Await(
                        WakeSources { tick: true, notify: false, sleep_ms: None },
                    )
                },
                TriggerDriver::IntervalOrNotify => {
                    &&& *final(self) == *old(self)
                    &&& p == WaitPlan::Await(
                        WakeSources { tick: true, notify: true, sleep_ms: None },
                    )
                },
                TriggerDriver::Cron(s) => {
                    &&& *final(self) == *old(self)
                    &&& p == cron_plan(cron_next_after(s.spec_expr(), search_from_ms), now_ms, false)
                },
                TriggerDriver::CronOrNotify(s) => {
                    &&& *final(self) == *old(self)
                    &&& p == cron_plan(cron_next_after(s.spec_expr(), search_from_ms), now_ms, true)
                },
            },
    {
        match self {
            TriggerDriver::Once(o) => o.poll(),
            TriggerDriver::Notify(_) => WaitPlan::Await(
                WakeSources { tick: false, notify: true, sleep_ms: None },
            ),
            TriggerDriver::Interval => WaitPlan::Await(
                WakeSources { tick: true, notify: false, sleep_ms: None },
            ),
            TriggerDriver::IntervalOrNotify => WaitPlan::Await(
                WakeSources { tick: true, notify: true, sleep_ms: None },
            ),
            TriggerDriver::Cron(c) => {
                let next = next_occurrence_after(c.expr(), search_from_ms);
                cron_wait_plan(next, now_ms, false)
            },
            TriggerDriver::CronOrNotify(c) => {
                let next = next_occurrence_after(c.expr(), search_from_ms);
                cron_wait_plan(next, now_ms, true)
            },
        }
    }

    /// The decision after a wake: cancellation stops the worker, anything
    /// else fires it; a notification resets the timer of an interval that
    /// can also be notified.
    pub fn on_wake(&self, wake: Wake) -> (r: WakeResponse)
        ensures
            r.fire == (wake != Wake::Cancelled),
            r.reset_interval == (self is IntervalOrNotify && wake == Wake::Notified),
    {
        let fire = match wake {
            Wake::Cancelled => false,
            _ => true,
        };
        let reset_interval = match (self, wake) {
            (TriggerDriver::IntervalOrNotify, Wake::Notified) => true,
            _ => false,
        };
        WakeResponse { fire, reset_interval }
    }
}

} // verus!
