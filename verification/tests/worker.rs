use std::time::Duration;

use yunara::worker::builder::{FallibleWorkerBuilder, WorkerBuilder};
use yunara::worker::driver::{cron_wait_plan, hold_interval, OnceDriver, TriggerDriver, WaitPlan, Wake, WakeSources};
use yunara::worker::error::{ErrorSeverity, WorkError};
use yunara::worker::handle::{Handle, OnceHandle};
use yunara::worker::infallible::InfallibleWorker;
use yunara::worker::lifecycle::{HookOutcome, LifecycleAction, LifecycleEvent, Phase, WorkerLifecycle};
use yunara::worker::shutdown::{remaining_until, JoinOutcome, ShutdownTally};
use yunara::worker::trigger::{parse_cron, PauseMode, Trigger};

#[test]
fn work_error_transient_and_fatal() {
    let t = WorkError::transient("Network temporarily unavailable");
    assert!(t.is_transient());
    assert!(!t.is_fatal());
    assert_eq!(t.severity(), ErrorSeverity::Transient);
    assert_eq!(t.message(), "Network temporarily unavailable");
    assert_eq!(t.source(), None);

    let f = WorkError::fatal("Invalid configuration");
    assert!(f.is_fatal());
    assert!(!f.is_transient());
    assert_eq!(f.severity(), ErrorSeverity::Fatal);
    assert_eq!(f.message(), "Invalid configuration");
}

#[test]
fn work_error_with_source() {
    let t = WorkError::transient_with_source("Database cleanup failed", "disk full".to_string());
    assert!(t.is_transient());
    assert_eq!(t.source(), Some("disk full"));
    let f = WorkError::fatal_with_source("broken", "corrupt page".to_string());
    assert!(f.is_fatal());
    assert_eq!(f.message(), "broken");
    assert_eq!(f.source(), Some("corrupt page"));
}

#[test]
fn work_error_display_text() {
    assert_eq!(WorkError::transient("retry later").to_display_string(), "[transient] retry later");
    assert_eq!(WorkError::fatal("stop").to_display_string(), "[fatal] stop");
}

#[test]
fn pause_mode_defaults_to_soft() {
    assert_eq!(PauseMode::default(), PauseMode::Soft);
}

#[test]
fn cron_expressions_parse_or_fail() {
    assert!(parse_cron("* * * * *").is_ok());
    assert!(parse_cron("0 0 * * *").is_ok());
    assert!(parse_cron("*/15 * * * *").is_ok());
    assert!(parse_cron("0 9 * * 1-5").is_ok());
    assert!(parse_cron("").is_err());
    assert!(parse_cron("invalid cron").is_err());
    assert!(parse_cron("60 * * * *").is_err());
}

#[test]
fn trigger_capabilities_follow_the_handle_table() {
    let d = Duration::from_secs(5);
    assert!(!Trigger::Once.is_pausable() && !Trigger::Once.is_notifiable());
    assert!(!Trigger::Notify.is_pausable() && Trigger::Notify.is_notifiable());
    assert!(Trigger::Interval(d).is_pausable() && !Trigger::Interval(d).is_notifiable());
    assert!(Trigger::IntervalOrNotify(d).is_pausable() && Trigger::IntervalOrNotify(d).is_notifiable());
    let c = parse_cron("0 0 * * *").ok().unwrap();
    assert!(Trigger::Cron(c.clone()).is_pausable() && !Trigger::Cron(c.clone()).is_notifiable());
    assert!(Trigger::CronOrNotify(c.clone()).is_pausable() && Trigger::CronOrNotify(c).is_notifiable());
}

#[test]
fn builder_defaults_name_and_pause_mode() {
    let plan = FallibleWorkerBuilder::new(7u32).once().spawn();
    assert_eq!(plan.worker, 7);
    assert_eq!(plan.name, "unnamed-worker");
    assert!(!plan.blocking);
    assert!(matches!(plan.trigger, Trigger::Once));
    assert_eq!(plan.pause_mode, PauseMode::Soft);
}

#[test]
fn builder_keeps_settings_across_states() {
    let plan = WorkerBuilder::new("w")
        .name("database-cleaner")
        .blocking()
        .pause_mode(PauseMode::Hard)
        .interval(Duration::from_secs(3600))
        .spawn();
    assert_eq!(plan.name, "database-cleaner");
    assert!(plan.blocking);
    assert_eq!(plan.pause_mode, PauseMode::Hard);
    match plan.trigger {
        Trigger::Interval(d) => assert_eq!(d, Duration::from_secs(3600)),
        _ => panic!("expected an interval trigger"),
    }

    let notify = FallibleWorkerBuilder::new(()).on_notify().name("late-name").spawn();
    assert_eq!(notify.name, "late-name");
    assert!(matches!(notify.trigger, Trigger::Notify));

    let hybrid = FallibleWorkerBuilder::new(()).interval_or_notify(Duration::from_millis(300)).spawn();
    assert!(matches!(hybrid.trigger, Trigger::IntervalOrNotify(_)));
}

#[test]
fn builder_cron_validates_expression() {
    let ok = FallibleWorkerBuilder::new(()).name("test-cron").cron("* * * * *");
    assert!(ok.is_ok());
    let plan = ok.ok().unwrap().spawn();
    assert_eq!(plan.name, "test-cron");
    assert!(matches!(&plan.trigger, Trigger::Cron(c) if c.expr() == "* * * * *"));

    assert!(FallibleWorkerBuilder::new(()).cron("not a cron").is_err());
    assert!(FallibleWorkerBuilder::new(()).cron_or_notify("0 2 * * *").is_ok());
    assert!(FallibleWorkerBuilder::new(()).cron_or_notify("").is_err());
}

#[test]
fn once_handle_reports_name() {
    let h = OnceHandle::new("init");
    assert_eq!(h.name(), "init");
    assert_eq!(h.clone().name(), "init");
}

#[test]
fn infallible_worker_wraps_and_unwraps() {
    let mut w = InfallibleWorker::new(vec![1, 2]);
    assert_eq!(w.inner(), &vec![1, 2]);
    w.inner_mut().push(3);
    assert_eq!(w.into_inner(), vec![1, 2, 3]);
}

#[test]
fn once_driver_fires_exactly_once() {
    let mut d = OnceDriver::new();
    assert_eq!(d.poll(), WaitPlan::FireNow);
    let cancel_only = WaitPlan::Await(WakeSources { tick: false, notify: false, sleep_ms: None });
    assert_eq!(d.poll(), cancel_only);
    assert_eq!(d.poll(), cancel_only);
}

#[test]
fn trigger_drivers_plan_their_waits() {
    let mut once = TriggerDriver::for_trigger(Trigger::Once);
    assert_eq!(once.plan(0, 0), WaitPlan::FireNow);
    assert!(matches!(once.plan(0, 0), WaitPlan::Await(WakeSources { tick: false, notify: false, sleep_ms: None })));

    let mut notify = TriggerDriver::for_trigger(Trigger::Notify);
    assert_eq!(notify.plan(0, 0), WaitPlan::Await(WakeSources { tick: false, notify: true, sleep_ms: None }));

    let mut interval = TriggerDriver::for_trigger(Trigger::Interval(Duration::from_millis(50)));
    assert_eq!(interval.plan(0, 0), WaitPlan::Await(WakeSources { tick: true, notify: false, sleep_ms: None }));

    let mut hybrid = TriggerDriver::for_trigger(Trigger::IntervalOrNotify(Duration::from_millis(50)));
    assert_eq!(hybrid.plan(0, 0), WaitPlan::Await(WakeSources { tick: true, notify: true, sleep_ms: None }));
    let r = hybrid.on_wake(Wake::Notified);
    assert!(r.fire && r.reset_interval);
    let r = hybrid.on_wake(Wake::Tick);
    assert!(r.fire && !r.reset_interval);
    let r = interval.on_wake(Wake::Notified);
    assert!(r.fire && !r.reset_interval);
    assert!(!interval.on_wake(Wake::Cancelled).fire);
}

#[test]
fn cron_driver_sleeps_until_next_minute() {
    // 2024-01-01T00:00:30Z in milliseconds.
    let now = 1_704_067_230_000i64;
    let cron = parse_cron("* * * * *").ok().unwrap();
    let mut d = TriggerDriver::for_trigger(Trigger::Cron(cron));
    assert_eq!(d.plan(now, now), WaitPlan::Await(WakeSources { tick: false, notify: false, sleep_ms: Some(30_000) }));
    let cron = parse_cron("* * * * *").ok().unwrap();
    let mut h = TriggerDriver::for_trigger(Trigger::CronOrNotify(cron));
    assert_eq!(h.plan(now, now), WaitPlan::Await(WakeSources { tick: false, notify: true, sleep_ms: Some(30_000) }));
}

#[test]
fn cron_wait_plan_cases() {
    assert_eq!(cron_wait_plan(None, 10, false), WaitPlan::Await(WakeSources { tick: false, notify: false, sleep_ms: None }));
    assert_eq!(cron_wait_plan(None, 10, true), WaitPlan::Await(WakeSources { tick: false, notify: true, sleep_ms: None }));
    assert_eq!(cron_wait_plan(Some(25), 10, false), WaitPlan::Await(WakeSources { tick: false, notify: false, sleep_ms: Some(15) }));
    assert_eq!(cron_wait_plan(Some(10), 10, true), WaitPlan::FireNow);
    assert_eq!(cron_wait_plan(Some(i64::MAX), i64::MIN, false), WaitPlan::Await(WakeSources { tick: false, notify: false, sleep_ms: Some(u64::MAX) }));
}

#[test]
fn lifecycle_runs_hooks_in_order() {
    let mut l = WorkerLifecycle::new(PauseMode::Soft);
    assert_eq!(l.next_action(), LifecycleAction::CallOnStart);
    assert_eq!(l.step(LifecycleEvent::Started(HookOutcome::Success)), LifecycleAction::WaitForTrigger);
    assert_eq!(l.step(LifecycleEvent::Triggered { fired: true, paused: false }), LifecycleAction::CallWork);
    assert_eq!(l.step(LifecycleEvent::Worked(HookOutcome::Transient)), LifecycleAction::WaitForTrigger);
    assert_eq!(l.step(LifecycleEvent::Triggered { fired: true, paused: true }), LifecycleAction::WaitForTrigger);
    assert_eq!(l.step(LifecycleEvent::Triggered { fired: false, paused: false }), LifecycleAction::CallOnShutdown);
    assert_eq!(l.step(LifecycleEvent::ShutDown(HookOutcome::Fatal)), LifecycleAction::Exit);
    assert_eq!(l.phase(), Phase::Stopped);
    assert_eq!(l.step(LifecycleEvent::Started(HookOutcome::Success)), LifecycleAction::Exit);
}

#[test]
fn lifecycle_fatal_errors() {
    let mut l = WorkerLifecycle::new(PauseMode::Soft);
    assert_eq!(l.step(LifecycleEvent::Started(HookOutcome::Fatal)), LifecycleAction::Exit);

    let mut l = WorkerLifecycle::new(PauseMode::Soft);
    l.step(LifecycleEvent::Started(HookOutcome::Transient));
    l.step(LifecycleEvent::Triggered { fired: true, paused: false });
    assert_eq!(l.step(LifecycleEvent::Worked(HookOutcome::Fatal)), LifecycleAction::CallOnShutdown);
    assert_eq!(l.phase(), Phase::ShuttingDown);
}

#[test]
fn lifecycle_hard_pause_suspends() {
    let mut l = WorkerLifecycle::new(PauseMode::Hard);
    l.step(LifecycleEvent::Started(HookOutcome::Success));
    assert_eq!(l.step(LifecycleEvent::Triggered { fired: true, paused: true }), LifecycleAction::AwaitResume);
    assert_eq!(l.step(LifecycleEvent::Woken { cancelled: false, paused: true }), LifecycleAction::AwaitResume);
    assert_eq!(l.step(LifecycleEvent::Woken { cancelled: false, paused: false }), LifecycleAction::WaitForTrigger);
    l.step(LifecycleEvent::Triggered { fired: true, paused: true });
    assert_eq!(l.step(LifecycleEvent::Woken { cancelled: true, paused: true }), LifecycleAction::CallOnShutdown);
    // An event the phase does not wait for changes nothing.
    assert_eq!(l.step(LifecycleEvent::Worked(HookOutcome::Success)), LifecycleAction::CallOnShutdown);
}

#[test]
fn shutdown_tally_counts() {
    let mut t = ShutdownTally::new();
    t.record(JoinOutcome::Finished);
    t.record(JoinOutcome::Aborted);
    t.record(JoinOutcome::Failed);
    t.record(JoinOutcome::Aborted);
    assert_eq!(t.total(), 4);
    assert_eq!(t.aborted(), 2);
    assert_eq!(t.stopped(), 2);
    assert!(t.any_aborted());
    assert!(!ShutdownTally::new().any_aborted());
    assert_eq!(remaining_until(500, 200), 300);
    assert_eq!(remaining_until(200, 500), 0);
}

#[test]
fn cron_schedule_keeps_its_expression() {
    let c = parse_cron("0 9 * * 1-5").ok().unwrap();
    assert_eq!(c.expr(), "0 9 * * 1-5");
    assert_eq!(c.clone().expr(), "0 9 * * 1-5");
    let plan = FallibleWorkerBuilder::new(()).cron_or_notify("0 2 * * *").ok().unwrap().spawn();
    assert!(matches!(&plan.trigger, Trigger::CronOrNotify(c) if c.expr() == "0 2 * * *"));
}

#[test]
fn cron_driver_follows_its_own_schedule() {
    // 2024-01-01T00:00:30Z in milliseconds.
    let now = 1_704_067_230_000i64;
    // Daily at midnight: the next occurrence is 2024-01-02T00:00:00Z.
    let daily = parse_cron("0 0 * * *").ok().unwrap();
    let mut d = TriggerDriver::for_trigger(Trigger::Cron(daily));
    assert_eq!(d.plan(now, now), WaitPlan::Await(WakeSources { tick: false, notify: false, sleep_ms: Some(86_370_000) }));
    // Every hour at minute 5: next is 00:05:00.
    let hourly = parse_cron("5 * * * *").ok().unwrap();
    let mut h = TriggerDriver::for_trigger(Trigger::CronOrNotify(hourly));
    assert_eq!(h.plan(now, now), WaitPlan::Await(WakeSources { tick: false, notify: true, sleep_ms: Some(270_000) }));
    // The occurrence found is compared with a later clock reading.
    assert_eq!(h.plan(now, now + 270_000), WaitPlan::FireNow);
}

#[test]
fn lifecycle_hard_pause_halts_while_waiting() {
    let mut l = WorkerLifecycle::new(PauseMode::Hard);
    assert!(l.halts_on_pause());
    l.step(LifecycleEvent::Started(HookOutcome::Success));
    assert_eq!(l.step(LifecycleEvent::Halted), LifecycleAction::AwaitResume);
    assert_eq!(l.phase(), Phase::Suspended);
    assert_eq!(l.step(LifecycleEvent::Woken { cancelled: false, paused: false }), LifecycleAction::WaitForTrigger);

    let mut soft = WorkerLifecycle::new(PauseMode::Soft);
    assert!(!soft.halts_on_pause());
    soft.step(LifecycleEvent::Started(HookOutcome::Success));
    assert_eq!(soft.step(LifecycleEvent::Halted), LifecycleAction::WaitForTrigger);
}

#[test]
fn hard_pause_holds_the_rest_of_the_period() {
    assert_eq!(hold_interval(1000, 300), 700);
    assert_eq!(hold_interval(1000, 0), 1000);
    assert_eq!(hold_interval(1000, 1000), 0);
    assert_eq!(hold_interval(1000, 5000), 0);
}
