use vstd::prelude::*;
use vstd::string::*;

verus! {

/// Error severity level for worker operations.
#[derive(Debug, Clone, Copy, PartialEq, Eq, Structural)]
pub enum ErrorSeverity {
    /// The worker continues and retries on the next trigger.
    Transient,
    /// The worker stops immediately.
    Fatal,
}

/// Abstract value of a [`WorkError`].
pub struct WorkErrorView {
    pub severity: ErrorSeverity,
    pub message: Seq<char>,
    pub source: Option<Seq<char>>,
}

/// Errors that can occur during worker execution.
///
/// The severity decides whether the worker goes on (transient) or stops
/// (fatal). The source of an error, where there is one, is kept as its
/// description.
#[derive(Debug)]
pub struct WorkError {
    severity: ErrorSeverity,
    message: String,
    source: Option<String>,
}

impl View for WorkError {
    type V = WorkErrorView;

    closed spec fn view(&self) -> WorkErrorView {
        WorkErrorView {
            severity: self.severity,
            message: self.message@,
            source: match self.source {
                Some(s) => Some(s@),
                None => None,
            },
        }
    }
}

/// The text shown for an error: its severity in brackets, then its message.
pub open spec fn display_text(severity: ErrorSeverity, message: Seq<char>) -> Seq<char> {
    let tag = match severity {
        ErrorSeverity::Transient => seq!['t', 'r', 'a', 'n', 's', 'i', 'e', 'n', 't'],
        ErrorSeverity::Fatal => seq!['f', 'a', 't', 'a', 'l'],
    };
    seq!['['] + tag + seq![']', ' '] + message
}

impl WorkError {
    /// Creates a new transient error.
    pub fn transient(message: &str) -> (e: WorkError)
        ensures
            e@.severity == ErrorSeverity::Transient,
            e@.message == message@,
            e@.source is None,
    {
        WorkError { severity: ErrorSeverity::Transient, message: message.to_string(), source: None }
    }

    /// Creates a new fatal error.
    pub fn fatal(message: &str) -> (e: WorkError)
        ensures
            e@.severity == ErrorSeverity::Fatal,
            e@.message == message@,
            e@.source is None,
    {
        WorkError { severity: ErrorSeverity::Fatal, message: message.to_string(), source: None }
    }

    /// Creates a transient error with the description of its source error.
    pub fn transient_with_source(message: &str, source: String) -> (e: WorkError)
        ensures
            e@.severity == ErrorSeverity::Transient,
            e@.message == message@,
            e@.source == Some(source@),
    {
        WorkError {
            severity: ErrorSeverity::Transient,
            message: message.to_string(),
            source: Some(source),
        }
    }

    /// Creates a fatal error with the description of its source error.
    pub fn fatal_with_source(message: &str, source: String) -> (e: WorkError)
        ensures
            e@.severity == ErrorSeverity::Fatal,
            e@.message == message@,
            e@.source == Some(source@),
    {
        WorkError { severity: ErrorSeverity::Fatal, message: message.to_string(), source: Some(source) }
    }

    /// Returns the error severity.
    pub fn severity(&self) -> (s: ErrorSeverity)
        ensures
            s == self@.severity,
    {
        self.severity
    }

    /// Returns `true` if this is a fatal error.
    pub fn is_fatal(&self) -> (b: bool)
        ensures
            b == (self@.severity == ErrorSeverity::Fatal),
    {
        self.severity == ErrorSeverity::Fatal
    }

    /// Returns `true` if this is a transient error.
    pub fn is_transient(&self) -> (b: bool)
        ensures
            b == (self@.severity == ErrorSeverity::Transient),
    {
        self.severity == ErrorSeverity::Transient
    }

    /// Returns the error message.
    pub fn message(&self) -> (m: &str)
        ensures
            m@ == self@.message,
    {
        self.message.as_str()
    }

    /// Returns the description of the source error, if there is one.
    pub fn source(&self) -> (s: Option<&str>)
        ensures
            match s {
                Some(t) => self@.source == Some(t@),
                None => self@.source is None,
            },
    {
        match &self.source {
            Some(t) => Some(t.as_str()),
            None => None,
        }
    }

    /// The error as text: `[transient] message` or `[fatal] message`.
    pub fn to_display_string(&self) -> (s: String)
        ensures
            s@ == display_text(self@.severity, self@.message),
    {
        let mut out = match self.severity {
            ErrorSeverity::Transient => String::from_str("[transient] "),
            ErrorSeverity::Fatal => String::from_str("[fatal] "),
        };
        proof {
            reveal_strlit("[transient] ");
            reveal_strlit("[fatal] ");
        }
        out.append(self.message.as_str());
        out
    }
}

/// Every error is exactly one of transient and fatal.
pub proof fn lemma_severity_exclusive(e: WorkErrorView)
    ensures
        (e.severity == ErrorSeverity::Fatal) != (e.severity == ErrorSeverity::Transient),
{
}

} // verus!
