//! The logging setup decision: which verbosity ceiling the process-global
//! log subscriber is installed with, if it is installed at all.
//!
//! Installing the subscriber is a process-global side effect performed by
//! the caller, once; the decision of whether and at which level is made
//! and proved here.

use vstd::prelude::*;
use crate::config::LogLevel;

verus! {

/// The verbosity ceiling a log subscriber is configured with.
#[derive(Debug, Clone, Copy, PartialEq, Eq, Structural)]
pub enum TraceLevel {
    Off,
    Error,
    Warn,
    Info,
    Debug,
    Trace,
}

/// The output style of the log subscriber.
#[derive(Debug, Clone, Copy, PartialEq, Eq, Structural)]
pub enum TraceStyle {
    Default,
    /// Pretty-printed output; the flag says whether file paths are shown.
    Pretty(bool),
    Compact,
    Json,
}

impl TraceStyle {
    /// A human-readable name for the style.
    pub fn as_text(&self) -> (r: &'static str)
        ensures
            r@ == self.text_spec(),
    {
        match self {
            TraceStyle::Default => "Default Style",
            TraceStyle::Pretty(path) => {
                if *path {
                    "Pretty Style with File Paths"
                } else {
                    "Pretty Style without File Paths"
                }
            },
            TraceStyle::Compact => "Compact Style",
            TraceStyle::Json => "Json Format",
        }
    }

    /// What `as_text` returns for each style.
    pub open spec fn text_spec(&self) -> Seq<char> {
        match self {
            TraceStyle::Default => "Default Style"@,
            TraceStyle::Pretty(path) => if *path {
                "Pretty Style with File Paths"@
            } else {
                "Pretty Style without File Paths"@
            },
            TraceStyle::Compact => "Compact Style"@,
            TraceStyle::Json => "Json Format"@,
        }
    }
}

/// The level the subscriber runs at for each configured log level:
/// informational when none is configured, and otherwise the configured
/// level itself.
pub open spec fn level_filter_of(log_level: Option<LogLevel>) -> TraceLevel {
    match log_level {
        None => TraceLevel::Info,
        Some(LogLevel::Off) => TraceLevel::Off,
        Some(LogLevel::Error) => TraceLevel::Error,
        Some(LogLevel::Warn) => TraceLevel::Warn,
        Some(LogLevel::Info) => TraceLevel::Info,
        Some(LogLevel::Debug) => TraceLevel::Debug,
        Some(LogLevel::Trace) => TraceLevel::Trace,
    }
}

/// Maps the configured log level to the subscriber's verbosity ceiling,
/// defaulting to `Info` when none is configured.
pub fn config_level_or_default(log_level: &Option<LogLevel>) -> (r: TraceLevel)
    ensures
        r == level_filter_of(*log_level),
{
    match log_level {
        None => TraceLevel::Info,
        Some(LogLevel::Off) => TraceLevel::Off,
        Some(LogLevel::Error) => TraceLevel::Error,
        Some(LogLevel::Warn) => TraceLevel::Warn,
        Some(LogLevel::Info) => TraceLevel::Info,
        Some(LogLevel::Debug) => TraceLevel::Debug,
        Some(LogLevel::Trace) => TraceLevel::Trace,
    }
}

/// Decides the logging setup for the configured level: the ceiling to
/// install the subscriber with, or nothing when logging is configured
/// off, in which case no subscriber is installed at all.
pub fn setup(log_level: &Option<LogLevel>) -> (r: Option<TraceLevel>)
    ensures
        r is None <==> level_filter_of(*log_level) == TraceLevel::Off,
        r matches Some(level) ==> level == level_filter_of(*log_level),
{
    let level = config_level_or_default(log_level);
    match level {
        TraceLevel::Off => None,
        _ => Some(level),
    }
}

} // verus!
