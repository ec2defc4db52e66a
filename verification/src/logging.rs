//! How the server logs, as the operator's settings ask for it.

use vstd::prelude::*;
use crate::config::CliArgs;

verus! {

/// How a log line is laid out.
#[derive(Clone, Copy, Debug, PartialEq, Eq, Structural)]
pub enum LogFormat {
    /// One JSON object on each line.
    Json,
    /// One line of text after a fixed pattern.
    Pattern,
}

/// The least severe level that is still written.
#[derive(Clone, Copy, Debug, PartialEq, Eq, Structural)]
pub enum LogLevel {
    Info,
    Debug,
    Trace,
}

/// What the logger is set up with.
#[derive(Clone, Copy, Debug, PartialEq, Eq, Structural)]
pub struct LogSetup {
    /// The layout of the lines.
    pub format: LogFormat,
    /// The level of the server's own messages.
    pub level: LogLevel,
}

/// The layout the settings ask for.
pub open spec fn format_of(cli: CliArgs) -> LogFormat {
    if cli.json {
        LogFormat::Json
    } else {
        LogFormat::Pattern
    }
}

/// The level the settings ask for: info, debug when verbosity was asked for
/// once, trace when it was asked for more often.
pub open spec fn level_of(cli: CliArgs) -> LogLevel {
    if cli.verbosity == 0 {
        LogLevel::Info
    } else if cli.verbosity == 1 {
        LogLevel::Debug
    } else {
        LogLevel::Trace
    }
}

/// The set-up of the logger for these settings.
pub fn init(cli: &CliArgs) -> (r: LogSetup)
    ensures
        r.format == format_of(*cli),
        r.level == level_of(*cli),
{
    let format: LogFormat = if cli.json {
        LogFormat::Json
    } else {
        LogFormat::Pattern
    };
    let level: LogLevel = match cli.verbosity {
        0 => LogLevel::Info,
        1 => LogLevel::Debug,
        _ => LogLevel::Trace,
    };
    LogSetup { format, level }
}

} // verus!
