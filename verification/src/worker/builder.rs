use vstd::prelude::*;
use std::marker::PhantomData;
use std::time::Duration;
use crate::worker::trigger::{parse_cron, cron_accepts, CronParseError, PauseMode, Trigger};

verus! {

/// Builder state: no trigger set yet.
pub struct TriggerNotSet;

/// Builder state: configured with `Trigger::Once`.
pub struct TriggerOnce;

/// Builder state: configured with `Trigger::Notify`.
pub struct TriggerNotify;

/// Builder state: configured with `Trigger::Interval`.
pub struct TriggerInterval;

/// Builder state: configured with `Trigger::Cron`.
pub struct TriggerCron;

/// Builder state: configured with `Trigger::IntervalOrNotify`.
pub struct TriggerIntervalOrNotify;

/// Builder state: configured with `Trigger::CronOrNotify`.
pub struct TriggerCronOrNotify;

/// What a builder state says of the trigger a builder in that state holds.
pub trait BuilderState {
    /// Whether a builder in this state may hold `trigger`.
    spec fn admits(trigger: Option<Trigger>) -> bool;
}

impl BuilderState for TriggerNotSet {
    open spec fn admits(trigger: Option<Trigger>) -> bool {
        trigger is None
    }
}

impl BuilderState for TriggerOnce {
    open spec fn admits(trigger: Option<Trigger>) -> bool {
        trigger == Some(Trigger::Once)
    }
}

impl BuilderState for TriggerNotify {
    open spec fn admits(trigger: Option<Trigger>) -> bool {
        trigger == Some(Trigger::Notify)
    }
}

impl BuilderState for TriggerInterval {
    open spec fn admits(trigger: Option<Trigger>) -> bool {
        trigger matches Some(Trigger::Interval(_))
    }
}

impl BuilderState for TriggerCron {
    open spec fn admits(trigger: Option<Trigger>) -> bool {
        trigger matches Some(Trigger::Cron(_))
    }
}

impl BuilderState for TriggerIntervalOrNotify {
    open spec fn admits(trigger: Option<Trigger>) -> bool {
        trigger matches Some(Trigger::IntervalOrNotify(_))
    }
}

impl BuilderState for TriggerCronOrNotify {
    open spec fn admits(trigger: Option<Trigger>) -> bool {
        trigger matches Some(Trigger::CronOrNotify(_))
    }
}

/// The name a worker gets when none is set.
pub open spec fn default_worker_name() -> Seq<char> {
    seq!['u', 'n', 'n', 'a', 'm', 'e', 'd', '-', 'w', 'o', 'r', 'k', 'e', 'r']
}

/// A fully resolved worker configuration, ready to be started. The state
/// marker `T` tells which kind of handle the started worker gets.
pub struct WorkerPlan<W, T> {
    pub worker: W,
    pub name: &'static str,
    pub blocking: bool,
    pub trigger: Trigger,
    pub pause_mode: PauseMode,
    pub state: PhantomData<T>,
}

/// Type-state builder for configuring a worker.
///
/// The state `T` records whether a trigger has been set, and which kind:
/// the trigger methods exist only before one is set, and `spawn` only after.
pub struct FallibleWorkerBuilder<W, T: BuilderState> {
    worker: W,
    name: Option<&'static str>,
    blocking: bool,
    trigger: Option<Trigger>,
    pause_mode: Option<PauseMode>,
    state: PhantomData<T>,
}

/// The builder for workers whose hooks do not fail; it is configured in the
/// same way.
pub type WorkerBuilder<W, T> = FallibleWorkerBuilder<W, T>;

impl<W, T: BuilderState> FallibleWorkerBuilder<W, T> {
    /// The trigger a builder holds is the one its state says.
    #[verifier::type_invariant]
    spec fn state_matches_trigger(self) -> bool {
        T::admits(self.trigger)
    }

    pub closed spec fn spec_worker(&self) -> W {
        self.worker
    }

    pub closed spec fn spec_name(&self) -> Option<&'static str> {
        self.name
    }

    pub closed spec fn spec_blocking(&self) -> bool {
        self.blocking
    }

    pub closed spec fn spec_trigger(&self) -> Option<Trigger> {
        self.trigger
    }

    pub closed spec fn spec_pause_mode(&self) -> Option<PauseMode> {
        self.pause_mode
    }

    /// The same configuration in another state, with another trigger.
    pub open spec fn same_settings<U: BuilderState>(&self, other: &FallibleWorkerBuilder<W, U>) -> bool {
        &&& other.spec_worker() == self.spec_worker()
        &&& other.spec_name() == self.spec_name()
        &&& other.spec_blocking() == self.spec_blocking()
        &&& other.spec_pause_mode() == self.spec_pause_mode()
    }

    fn with_trigger<U: BuilderState>(self, trigger: Trigger) -> (b: FallibleWorkerBuilder<W, U>)
        requires
            U::admits(Some(trigger)),
        ensures
            self.same_settings(&b),
            b.spec_trigger() == Some(trigger),
    {
        FallibleWorkerBuilder {
            worker: self.worker,
            name: self.name,
            blocking: self.blocking,
            trigger: Some(trigger),
            pause_mode: self.pause_mode,
            state: PhantomData,
        }
    }

    /// Sets the worker's name for logging and metrics.
    pub fn name(self, name: &'static str) -> (b: Self)
        ensures
            b.spec_name() == Some(name),
            b.spec_worker() == self.spec_worker(),
            b.spec_blocking() == self.spec_blocking(),
            b.spec_trigger() == self.spec_trigger(),
            b.spec_pause_mode() == self.spec_pause_mode(),
    {
        proof {
            use_type_invariant(&self);
        }
        FallibleWorkerBuilder { name: Some(name), ..self }
    }

    /// Marks the worker as blocking (run on the blocking thread pool).
    pub fn blocking(self) -> (b: Self)
        ensures
            b.spec_blocking(),
            b.spec_worker() == self.spec_worker(),
            b.spec_name() == self.spec_name(),
            b.spec_trigger() == self.spec_trigger(),
            b.spec_pause_mode() == self.spec_pause_mode(),
    {
        proof {
            use_type_invariant(&self);
        }
        FallibleWorkerBuilder { blocking: true, ..self }
    }

    /// Sets the pause mode (soft or hard pause).
    pub fn pause_mode(self, mode: PauseMode) -> (b: Self)
        ensures
            b.spec_pause_mode() == Some(mode),
            b.spec_worker() == self.spec_worker(),
            b.spec_name() == self.spec_name(),
            b.spec_blocking() == self.spec_blocking(),
            b.spec_trigger() == self.spec_trigger(),
    {
        proof {
            use_type_invariant(&self);
        }
        FallibleWorkerBuilder { pause_mode: Some(mode), ..self }
    }

    /// The plan that `spawn` hands out: the unset name becomes
    /// `"unnamed-worker"` and the unset pause mode becomes soft.
    pub open spec fn spec_plan_of(&self, p: WorkerPlan<W, T>) -> bool {
        &&& p.worker == self.spec_worker()
        &&& p.name@ == match self.spec_name() {
            Some(n) => n@,
            None => default_worker_name(),
        }
        &&& p.blocking == self.spec_blocking()
        &&& Some(p.trigger) == self.spec_trigger()
        &&& p.pause_mode == match self.spec_pause_mode() {
            Some(m) => m,
            None => PauseMode::Soft,
        }
    }

    fn into_plan(self) -> (p: WorkerPlan<W, T>)
        requires
            T::admits(self.spec_trigger()),
            self.spec_trigger() is Some,
        ensures
            self.spec_plan_of(p),
    {
        let name = match self.name {
            Some(n) => n,
            None => "unnamed-worker",
        };
        proof {
            reveal_strlit("unnamed-worker");
            assert("unnamed-worker"@ =~= default_worker_name());
        }
        let pause_mode = match self.pause_mode {
            Some(m) => m,
            None => PauseMode::Soft,
        };
        let trigger = match self.trigger {
            Some(t) => t,
            None => Trigger::Once,
        };
        WorkerPlan {
            worker: self.worker,
            name,
            blocking: self.blocking,
            trigger,
            pause_mode,
            state: PhantomData,
        }
    }
}

impl<W> FallibleWorkerBuilder<W, TriggerNotSet> {
    /// Starts configuring a worker: no name, not blocking, no trigger and no
    /// pause mode yet.
    pub fn new(worker: W) -> (b: Self)
        ensures
            b.spec_worker() == worker,
            b.spec_name() is None,
            !b.spec_blocking(),
            b.spec_trigger() is None,
            b.spec_pause_mode() is None,
    {
        FallibleWorkerBuilder {
            worker,
            name: None,
            blocking: false,
            trigger: None,
            pause_mode: None,
            state: PhantomData,
        }
    }

    /// Runs the worker once immediately on startup, then stops.
    pub fn once(self) -> (b: FallibleWorkerBuilder<W, TriggerOnce>)
        ensures
            self.same_settings(&b),
            b.spec_trigger() == Some(Trigger::Once),
    {
        self.with_trigger(Trigger::Once)
    }

    /// Runs the worker only when explicitly notified.
    pub fn on_notify(self) -> (b: FallibleWorkerBuilder<W, TriggerNotify>)
        ensures
            self.same_settings(&b),
            b.spec_trigger() == Some(Trigger::Notify),
    {
        self.with_trigger(Trigger::Notify)
    }

    /// Runs the worker at fixed intervals.
    pub fn interval(self, duration: Duration) -> (b: FallibleWorkerBuilder<W, TriggerInterval>)
        ensures
            self.same_settings(&b),
            b.spec_trigger() == Some(Trigger::Interval(duration)),
    {
        self.with_trigger(Trigger::Interval(duration))
    }

    /// Runs the worker on a cron schedule; fails if the expression does not
    /// parse.
    pub fn cron(self, expr: &str) -> (r: Result<FallibleWorkerBuilder<W, TriggerCron>, CronParseError>)
        ensures
            r is Ok <==> cron_accepts(expr@),
            r matches Ok(b) ==> self.same_settings(&b) && (b.spec_trigger() matches Some(
                Trigger::Cron(s),
            ) && s.spec_expr() == expr@),
    {
        match parse_cron(expr) {
            Ok(c) => Ok(self.with_trigger(Trigger::Cron(c))),
            Err(e) => Err(e),
        }
    }

    /// Runs the worker on an interval or when notified; a notification
    /// resets the timer.
    pub fn interval_or_notify(self, duration: Duration) -> (b: FallibleWorkerBuilder<
        W,
        TriggerIntervalOrNotify,
    >)
        ensures
            self.same_settings(&b),
            b.spec_trigger() == Some(Trigger::IntervalOrNotify(duration)),
    {
        self.with_trigger(Trigger::IntervalOrNotify(duration))
    }

    /// Runs the worker on a cron schedule or when notified; fails if the
    /// expression does not parse.
    pub fn cron_or_notify(self, expr: &str) -> (r: Result<
        FallibleWorkerBuilder<W, TriggerCronOrNotify>,
        CronParseError,
    >)
        ensures
            r is Ok <==> cron_accepts(expr@),
            r matches Ok(b) ==> self.same_settings(&b) && (b.spec_trigger() matches Some(
                Trigger::CronOrNotify(s),
            ) && s.spec_expr() == expr@),
    {
        match parse_cron(expr) {
            Ok(c) => Ok(self.with_trigger(Trigger::CronOrNotify(c))),
            Err(e) => Err(e),
        }
    }
}

impl<W> FallibleWorkerBuilder<W, TriggerOnce> {
    /// The resolved configuration of a once-worker.
    pub fn spawn(self) -> (p: WorkerPlan<W, TriggerOnce>)
        ensures
            self.spec_plan_of(p),
            p.trigger == Trigger::Once,
    {
        proof {
            use_type_invariant(&self);
        }
        self.into_plan()
    }
}

impl<W> FallibleWorkerBuilder<W, TriggerNotify> {
    /// The resolved configuration of a notify-worker.
    pub fn spawn(self) -> (p: WorkerPlan<W, TriggerNotify>)
        ensures
            self.spec_plan_of(p),
            p.trigger == Trigger::Notify,
    {
        proof {
            use_type_invariant(&self);
        }
        self.into_plan()
    }
}

impl<W> FallibleWorkerBuilder<W, TriggerInterval> {
    /// The resolved configuration of an interval-worker.
    pub fn spawn(self) -> (p: WorkerPlan<W, TriggerInterval>)
        ensures
            self.spec_plan_of(p),
            p.trigger is Interval,
    {
        proof {
            use_type_invariant(&self);
        }
        self.into_plan()
    }
}

impl<W> FallibleWorkerBuilder<W, TriggerCron> {
    /// The resolved configuration of a cron-worker.
    pub fn spawn(self) -> (p: WorkerPlan<W, TriggerCron>)
        ensures
            self.spec_plan_of(p),
            p.trigger is Cron,
    {
        proof {
            use_type_invariant(&self);
        }
        self.into_plan()
    }
}

impl<W> FallibleWorkerBuilder<W, TriggerIntervalOrNotify> {
    /// The resolved configuration of an interval-or-notify worker.
    pub fn spawn(self) -> (p: WorkerPlan<W, TriggerIntervalOrNotify>)
        ensures
            self.spec_plan_of(p),
            p.trigger is IntervalOrNotify,
    {
        proof {
            use_type_invariant(&self);
        }
        self.into_plan()
    }
}

impl<W> FallibleWorkerBuilder<W, TriggerCronOrNotify> {
    /// The resolved configuration of a cron-or-notify worker.
    pub fn spawn(self) -> (p: WorkerPlan<W, TriggerCronOrNotify>)
        ensures
            self.spec_plan_of(p),
            p.trigger is CronOrNotify,
    {
        proof {
            use_type_invariant(&self);
        }
        self.into_plan()
    }
}

} // verus!
