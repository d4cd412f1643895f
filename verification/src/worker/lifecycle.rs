use vstd::prelude::*;
use crate::worker::error::{ErrorSeverity, WorkError};
use crate::worker::trigger::PauseMode;

verus! {

/// What a lifecycle hook (`on_start`, `work`, `on_shutdown`) reported.
#[derive(Debug, Clone, Copy, PartialEq, Eq, Structural)]
pub enum HookOutcome {
    /// The hook succeeded.
    Success,
    /// The hook failed with a transient error: the worker goes on.
    Transient,
    /// The hook failed with a fatal error: the worker stops.
    Fatal,
}

impl HookOutcome {
    /// Classifies the result of a hook by the severity of its error.
    pub fn of(result: &Result<(), WorkError>) -> (o: HookOutcome)
        ensures
            match result {
                Ok(()) => o == HookOutcome::Success,
                Err(e) => o == (if e@.severity == ErrorSeverity::Fatal {
                    HookOutcome::Fatal
                } else {
                    HookOutcome::Transient
                }),
            },
    {
        match result {
            Ok(()) => HookOutcome::Success,
            Err(e) => if e.is_fatal() {
                HookOutcome::Fatal
            } else {
                HookOutcome::Transient
            },
        }
    }
}

/// The phase a running worker is in.
#[derive(Debug, Clone, Copy, PartialEq, Eq, Structural)]
pub enum Phase {
    /// `on_start` is to be called.
    Starting,
    /// Waiting for the trigger to fire.
    Waiting,
    /// `work` is to be called.
    Working,
    /// Paused in hard mode: waiting to be resumed.
    Suspended,
    /// `on_shutdown` is to be called.
    ShuttingDown,
    /// The worker has stopped.
    Stopped,
}

/// What the task that drives a worker observed.
#[derive(Debug, Clone, Copy, PartialEq, Eq, Structural)]
pub enum LifecycleEvent {
    /// `on_start` returned.
    Started(HookOutcome),
    /// The trigger driver returned: `fired` is false when the worker must
    /// stop; `paused` is the pause flag read right after.
    Triggered { fired: bool, paused: bool },
    /// In hard mode: the worker was found paused while it waited for its
    /// trigger, before the trigger fired.
    Halted,
    /// `work` returned.
    Worked(HookOutcome),
    /// A suspended worker was woken, by a notification or by cancellation;
    /// `paused` is the pause flag read right after.
    Woken { cancelled: bool, paused: bool },
    /// `on_shutdown` returned.
    ShutDown(HookOutcome),
}

/// What the driving task must do next.
#[derive(Debug, Clone, Copy, PartialEq, Eq, Structural)]
pub enum LifecycleAction {
    CallOnStart,
    WaitForTrigger,
    CallWork,
    AwaitResume,
    CallOnShutdown,
    Exit,
}

/// Whether `event` is the one that the phase waits for.
pub open spec fn accepts(phase: Phase, event: LifecycleEvent) -> bool {
    match phase {
        Phase::Starting => event is Started,
        Phase::Waiting => event is Triggered || event is Halted,
        Phase::Working => event is Worked,
        Phase::Suspended => event is Woken,
        Phase::ShuttingDown => event is ShutDown,
        Phase::Stopped => false,
    }
}

/// The phase that follows `phase` on `event`; an event that the phase does
/// not wait for leaves the phase as it is.
///
/// - A fatal `on_start` stops the worker without `on_shutdown`.
/// - A transient error is reported and the worker goes on.
/// - A fatal `work` leads to `on_shutdown`, then the worker stops.
/// - When the driver stops (`fired` false) the worker shuts down.
/// - A fired trigger while paused skips the work; in hard mode the worker
///   suspends until it is resumed.
/// - In hard mode a pause found while waiting suspends the worker at once,
///   before the trigger fires; in soft mode it changes nothing.
pub open spec fn transition(mode: PauseMode, phase: Phase, event: LifecycleEvent) -> Phase {
    if !accepts(phase, event) {
        phase
    } else {
        match event {
            LifecycleEvent::Started(o) => if o == HookOutcome::Fatal {
                Phase::Stopped
            } else {
                Phase::Waiting
            },
            LifecycleEvent::Triggered { fired, paused } => if !fired {
                Phase::ShuttingDown
            } else if !paused {
                Phase::Working
            } else if mode == PauseMode::Hard {
                Phase::Suspended
            } else {
                Phase::Waiting
            },
            LifecycleEvent::Halted => if mode == PauseMode::Hard {
                Phase::Suspended
            } else {
                Phase::Waiting
            },
            LifecycleEvent::Worked(o) => if o == HookOutcome::Fatal {
                Phase::ShuttingDown
            } else {
                Phase::Waiting
            },
            LifecycleEvent::Woken { cancelled, paused } => if cancelled {
                Phase::ShuttingDown
            } else if paused {
                Phase::Suspended
            } else {
                Phase::Waiting
            },
            LifecycleEvent::ShutDown(_) => Phase::Stopped,
        }
    }
}

/// The action that a phase asks for.
pub open spec fn action_for(phase: Phase) -> LifecycleAction {
    match phase {
        Phase::Starting => LifecycleAction::CallOnStart,
        Phase::Waiting => LifecycleAction::WaitForTrigger,
        Phase::Working => LifecycleAction::CallWork,
        Phase::Suspended => LifecycleAction::AwaitResume,
        Phase::ShuttingDown => LifecycleAction::CallOnShutdown,
        Phase::Stopped => LifecycleAction::Exit,
    }
}

/// Whether each event of `events`, in turn, is the one that the phase
/// reached so far waits for.
pub open spec fn valid_run(mode: PauseMode, phase: Phase, events: Seq<LifecycleEvent>) -> bool
    decreases events.len(),
{
    if events.len() == 0 {
        true
    } else {
        accepts(phase, events[0]) && valid_run(
            mode,
            transition(mode, phase, events[0]),
            events.drop_first(),
        )
    }
}

/// How many times a run from `phase` over `events` enters `target`.
pub open spec fn entries(
    mode: PauseMode,
    phase: Phase,
    events: Seq<LifecycleEvent>,
    target: Phase,
) -> nat
    decreases events.len(),
{
    if events.len() == 0 {
        0
    } else {
        let next = transition(mode, phase, events[0]);
        (if next == target {
            1nat
        } else {
            0nat
        }) + entries(mode, next, events.drop_first(), target)
    }
}

/// Where a phase stands in the order in which a worker's life goes.
pub open spec fn rank(phase: Phase) -> int {
    match phase {
        Phase::Starting => 0,
        Phase::Waiting | Phase::Working | Phase::Suspended => 1,
        Phase::ShuttingDown => 2,
        Phase::Stopped => 3,
    }
}

proof fn lemma_entries_bounded(mode: PauseMode, phase: Phase, events: Seq<LifecycleEvent>)
    requires
        valid_run(mode, phase, events),
    ensures
        entries(mode, phase, events, Phase::ShuttingDown) <= (if rank(phase) <= 1 {
            1nat
        } else {
            0nat
        }),
        entries(mode, phase, events, Phase::Starting) == 0,
    decreases events.len(),
{
    if events.len() > 0 {
        let next = transition(mode, phase, events[0]);
        lemma_entries_bounded(mode, next, events.drop_first());
        if phase == Phase::Stopped {
            assert(false);
        }
    }
}

/// A worker's `on_start` is called only at its beginning, and its
/// `on_shutdown` at most once, whatever the trigger, the pause flag and the
/// hooks report.
pub proof fn lemma_hooks_called_at_most_once(mode: PauseMode, events: Seq<LifecycleEvent>)
    requires
        valid_run(mode, Phase::Starting, events),
    ensures
        entries(mode, Phase::Starting, events, Phase::ShuttingDown) <= 1,
        entries(mode, Phase::Starting, events, Phase::Starting) == 0,
{
    lemma_entries_bounded(mode, Phase::Starting, events);
}

/// A fired trigger never leads to `work` while the worker is paused: a
/// waiting worker that is paused keeps waiting or suspends.
pub proof fn lemma_no_work_while_paused(mode: PauseMode, fired: bool)
    ensures
        transition(mode, Phase::Waiting, LifecycleEvent::Triggered { fired, paused: true })
            != Phase::Working,
        fired ==> transition(mode, Phase::Waiting, LifecycleEvent::Triggered { fired, paused: true })
            == (if mode == PauseMode::Hard { Phase::Suspended } else { Phase::Waiting }),
{
}

/// A hard pause stops the driver: a pause found while waiting suspends the
/// worker before its trigger fires, and a suspended worker never goes
/// straight to `work`; it waits for its trigger again only once it is
/// resumed (or shuts down when cancelled).
pub proof fn lemma_hard_pause_suspends(event: LifecycleEvent)
    ensures
        transition(PauseMode::Hard, Phase::Waiting, LifecycleEvent::Halted) == Phase::Suspended,
        transition(PauseMode::Soft, Phase::Waiting, LifecycleEvent::Halted) == Phase::Waiting,
        transition(PauseMode::Hard, Phase::Suspended, event) != Phase::Working,
        transition(PauseMode::Hard, Phase::Suspended, event) == Phase::Waiting <==> event
            == (LifecycleEvent::Woken { cancelled: false, paused: false }),
{
}

/// An error that is only transient never ends the worker: after a transient
/// `on_start` or `work`, the worker waits for its trigger again.
pub proof fn lemma_transient_errors_continue(mode: PauseMode)
    ensures
        transition(mode, Phase::Starting, LifecycleEvent::Started(HookOutcome::Transient))
            == Phase::Waiting,
        transition(mode, Phase::Working, LifecycleEvent::Worked(HookOutcome::Transient))
            == Phase::Waiting,
{
}

/// A fatal `on_start` stops the worker without `on_shutdown`; a fatal
/// `work` calls `on_shutdown` before the worker stops.
pub proof fn lemma_fatal_errors_stop(mode: PauseMode, outcome: HookOutcome)
    ensures
        transition(mode, Phase::Starting, LifecycleEvent::Started(HookOutcome::Fatal))
            == Phase::Stopped,
        transition(mode, Phase::Working, LifecycleEvent::Worked(HookOutcome::Fatal))
            == Phase::ShuttingDown,
        transition(mode, Phase::ShuttingDown, LifecycleEvent::ShutDown(outcome))
            == Phase::Stopped,
{
}

/// How a worker goes on after each hook and trigger, whatever the pause
/// mode: a successful or transiently failing `on_start` or `work` leads back
/// to waiting for the trigger (so `work` runs each time the trigger fires),
/// and only a fatal error ends the worker; a fired trigger on a worker that
/// is not paused leads to `work`; a driver that stopped (`fired` false)
/// shuts the worker down whether it is paused or not; a cancelled
/// suspended worker shuts down.
pub proof fn lemma_worker_goes_on_until_stopped(
    mode: PauseMode,
    o: HookOutcome,
    paused: bool,
)
    ensures
        transition(mode, Phase::Working, LifecycleEvent::Worked(o)) == (if o == HookOutcome::Fatal {
            Phase::ShuttingDown
        } else {
            Phase::Waiting
        }),
        transition(mode, Phase::Working, LifecycleEvent::Worked(HookOutcome::Success))
            == Phase::Waiting,
        transition(mode, Phase::Starting, LifecycleEvent::Started(o)) == (if o == HookOutcome::Fatal {
            Phase::Stopped
        } else {
            Phase::Waiting
        }),
        transition(mode, Phase::Waiting, LifecycleEvent::Triggered { fired: false, paused })
            == Phase::ShuttingDown,
        transition(mode, Phase::Waiting, LifecycleEvent::Triggered { fired: true, paused: false })
            == Phase::Working,
        transition(mode, Phase::Suspended, LifecycleEvent::Woken { cancelled: true, paused })
            == Phase::ShuttingDown,
        action_for(transition(mode, Phase::Working, LifecycleEvent::Worked(HookOutcome::Success)))
            == LifecycleAction::WaitForTrigger,
        action_for(transition(mode, Phase::Waiting, LifecycleEvent::Triggered { fired: false, paused }))
            == LifecycleAction::CallOnShutdown,
{
}

/// Whether an event asks the worker to stop: a stopped driver, a
/// cancellation while suspended, or a fatal hook.
pub open spec fn is_stop_event(e: LifecycleEvent) -> bool {
    ||| e matches LifecycleEvent::Triggered { fired: false, .. }
    ||| e matches LifecycleEvent::Woken { cancelled: true, .. }
    ||| e == LifecycleEvent::Worked(HookOutcome::Fatal)
    ||| e == LifecycleEvent::Started(HookOutcome::Fatal)
}

/// A worker that has not begun to stop keeps running for as long as nothing
/// asks it to stop: however many triggers, pauses and successful or
/// transiently failing hooks a run holds, it never enters `on_shutdown` or
/// stops.
pub proof fn lemma_runs_until_asked_to_stop(
    mode: PauseMode,
    phase: Phase,
    events: Seq<LifecycleEvent>,
)
    requires
        rank(phase) <= 1,
        valid_run(mode, phase, events),
        forall|i: int| 0 <= i < events.len() ==> !is_stop_event(#[trigger] events[i]),
    ensures
        entries(mode, phase, events, Phase::ShuttingDown) == 0,
        entries(mode, phase, events, Phase::Stopped) == 0,
    decreases events.len(),
{
    if events.len() > 0 {
        let next = transition(mode, phase, events[0]);
        assert(!is_stop_event(events[0]));
        assert forall|i: int| 0 <= i < events.drop_first().len() implies !is_stop_event(
            #[trigger] events.drop_first()[i],
        ) by {
            assert(events.drop_first()[i] == events[i + 1]);
        }
        lemma_runs_until_asked_to_stop(mode, next, events.drop_first());
    }
}

/// A stopped worker stays stopped and asks only to exit.
pub proof fn lemma_stopped_is_final(mode: PauseMode, event: LifecycleEvent)
    ensures
        transition(mode, Phase::Stopped, event) == Phase::Stopped,
        action_for(transition(mode, Phase::Stopped, event)) == LifecycleAction::Exit,
{
}

/// The decisions of a running worker: which hook to call, when to wait for
/// the trigger, when to skip work, and when to stop.
pub struct WorkerLifecycle {
    mode: PauseMode,
    phase: Phase,
}

impl WorkerLifecycle {
    /// The pause mode the worker was configured with.
    pub closed spec fn spec_mode(&self) -> PauseMode {
        self.mode
    }

    /// The phase the worker is in.
    pub closed spec fn spec_phase(&self) -> Phase {
        self.phase
    }

    /// A worker that has not started yet.
    pub fn new(mode: PauseMode) -> (l: WorkerLifecycle)
        ensures
            l.spec_mode() == mode,
            l.spec_phase() == Phase::Starting,
    {
        WorkerLifecycle { mode, phase: Phase::Starting }
    }

    /// Whether a pause must be watched for while waiting for the trigger
    /// (hard mode: the driver stops as soon as the worker is paused).
    pub fn halts_on_pause(&self) -> (b: bool)
        ensures
            b == (self.spec_mode() == PauseMode::Hard),
    {
        match self.mode {
            PauseMode::Hard => true,
            PauseMode::Soft => false,
        }
    }

    /// The phase the worker is in.
    pub fn phase(&self) -> (p: Phase)
        ensures
            p == self.spec_phase(),
    {
        self.phase
    }

    /// The action that the current phase asks for.
    pub fn next_action(&self) -> (a: LifecycleAction)
        ensures
            a == action_for(self.spec_phase()),
    {
        match self.phase {
            Phase::Starting => LifecycleAction::CallOnStart,
            Phase::Waiting => LifecycleAction::WaitForTrigger,
            Phase::Working => LifecycleAction::CallWork,
            Phase::Suspended => LifecycleAction::AwaitResume,
            Phase::ShuttingDown => LifecycleAction::CallOnShutdown,
            Phase::Stopped => LifecycleAction::Exit,
        }
    }

    /// Takes in what the driving task observed and says what it must do
    /// next.
    pub fn step(&mut self, event: LifecycleEvent) -> (a: LifecycleAction)
        ensures
            final(self).spec_mode() == old(self).spec_mode(),
            final(self).spec_phase() == transition(
                old(self).spec_mode(),
                old(self).spec_phase(),
                event,
            ),
            a == action_for(final(self).spec_phase()),
    {
        let next = match (self.phase, event) {
            (Phase::Starting, LifecycleEvent::Started(o)) => match o {
                HookOutcome::Fatal => Phase::Stopped,
                _ => Phase::Waiting,
            },
            (Phase::Waiting, LifecycleEvent::Triggered { fired, paused }) => if !fired {
                Phase::ShuttingDown
            } else if !paused {
                Phase::Working
            } else {
                match self.mode {
                    PauseMode::Hard => Phase::Suspended,
                    PauseMode::Soft => Phase::Waiting,
                }
            },
            (Phase::Waiting, LifecycleEvent::Halted) => match self.mode {
                PauseMode::Hard => Phase::Suspended,
                PauseMode::Soft => Phase::Waiting,
            },
            (Phase::Working, LifecycleEvent::Worked(o)) => match o {
                HookOutcome::Fatal => Phase::ShuttingDown,
                _ => Phase::Waiting,
            },
            (Phase::Suspended, LifecycleEvent::Woken { cancelled, paused }) => if cancelled {
                Phase::ShuttingDown
            } else if paused {
                Phase::Suspended
            } else {
                Phase::Waiting
            },
            (Phase::ShuttingDown, LifecycleEvent::ShutDown(_)) => Phase::Stopped,
            _ => self.phase,
        };
        self.phase = next;
        self.next_action()
    }
}

} // verus!
