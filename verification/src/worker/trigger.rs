use vstd::prelude::*;
use std::str::FromStr;
use std::time::Duration;

verus! {

/// How a worker behaves while paused.
///
/// - `Soft` (the default): the trigger keeps firing, the work is skipped.
/// - `Hard`: the worker suspends until it is resumed.
#[derive(Debug, Clone, Copy, PartialEq, Eq, Structural)]
pub enum PauseMode {
    Soft,
    Hard,
}

impl Default for PauseMode {
    fn default() -> (m: PauseMode)
        ensures
            m == PauseMode::Soft,
    {
        PauseMode::Soft
    }
}

/// Declares the parsed cron schedule of the `croner` crate.
#[verifier::external_type_specification]
#[verifier::external_body]
pub struct ExCron(croner::Cron);

/// Declares the parse error of the `croner` crate.
#[verifier::external_type_specification]
#[verifier::external_body]
pub struct ExCronError(croner::errors::CronError);

/// Specifies the clone of `std::time::Duration`, a `Copy` type: the clone
/// equals the value it was cloned from.
pub assume_specification[ <Duration as Clone>::clone ](d: &Duration) -> (r: Duration)
    ensures
        r == *d,
;

/// Defines when and how a worker is executed.
///
/// | Trigger | Handle capabilities |
/// |---------|---------------------|
/// | `Once` | none |
/// | `Notify` | notify |
/// | `Interval` | pause/resume |
/// | `Cron` | pause/resume |
/// | `IntervalOrNotify` | pause/resume and notify |
/// | `CronOrNotify` | pause/resume and notify |
#[derive(Debug, Clone)]
pub enum Trigger {
    /// Execute once immediately on startup, then stop.
    Once,
    /// Execute only when explicitly notified.
    Notify,
    /// Execute at fixed intervals.
    Interval(Duration),
    /// Execute on a cron schedule.
    Cron(CronSchedule),
    /// Execute at intervals or when notified; a notification resets the timer.
    IntervalOrNotify(Duration),
    /// Execute on a cron schedule or when notified.
    CronOrNotify(CronSchedule),
}

impl Trigger {
    /// Whether a handle for this trigger can pause and resume the worker.
    pub open spec fn spec_pausable(self) -> bool {
        !(self is Once || self is Notify)
    }

    /// Whether a handle for this trigger can notify the worker.
    pub open spec fn spec_notifiable(self) -> bool {
        self is Notify || self is IntervalOrNotify || self is CronOrNotify
    }

    /// Whether a handle for this trigger can pause and resume the worker.
    pub fn is_pausable(&self) -> (b: bool)
        ensures
            b == self.spec_pausable(),
    {
        match self {
            Trigger::Once | Trigger::Notify => false,
            _ => true,
        }
    }

    /// Whether a handle for this trigger can notify the worker.
    pub fn is_notifiable(&self) -> (b: bool)
        ensures
            b == self.spec_notifiable(),
    {
        match self {
            Trigger::Notify | Trigger::IntervalOrNotify(_) | Trigger::CronOrNotify(_) => true,
            _ => false,
        }
    }
}

/// Errors that can occur when parsing cron expressions.
#[derive(Debug)]
pub enum CronParseError {
    /// The cron expression could not be parsed.
    InvalidExpression { source: croner::errors::CronError },
}

/// Whether the `croner` parser accepts a cron expression.
pub uninterp spec fn cron_accepts(expr: Seq<char>) -> bool;

/// Parses a cron expression with `croner`'s `Cron::from_str`.
///
/// Trusted: the parser is a function of the text alone (it upper-cases and
/// trims the text and reads the fields), so its success is named by
/// `cron_accepts`; an empty text is refused (`CronError::EmptyPattern`).
#[verifier::external_body]
fn parse_cron_expression(expr: &str) -> (r: Result<croner::Cron, croner::errors::CronError>)
    ensures
        r is Ok <==> cron_accepts(expr@),
        expr@.len() == 0 ==> r is Err,
{
    croner::Cron::from_str(expr)
}

/// A cron schedule that `croner` accepted, kept as its expression text; the
/// times it names are found from that text (see
/// `crate::worker::driver::cron_next_after`).
#[derive(Debug, Clone)]
pub struct CronSchedule {
    expr: String,
}

impl CronSchedule {
    /// The expression text of the schedule.
    pub closed spec fn spec_expr(&self) -> Seq<char> {
        self.expr@
    }

    /// The expression text of the schedule.
    pub fn expr(&self) -> (r: &str)
        ensures
            r@ == self.spec_expr(),
    {
        self.expr.as_str()
    }
}

/// Parses a cron expression, mapping the parser's error into the worker's
/// own error type; on success the schedule keeps the expression text.
pub fn parse_cron(expr: &str) -> (r: Result<CronSchedule, CronParseError>)
    ensures
        r is Ok <==> cron_accepts(expr@),
        expr@.len() == 0 ==> r is Err,
        r matches Ok(s) ==> s.spec_expr() == expr@,
{
    match parse_cron_expression(expr) {
        Ok(_) => Ok(CronSchedule { expr: expr.to_owned() }),
        Err(e) => Err(CronParseError::InvalidExpression { source: e }),
    }
}

} // verus!
