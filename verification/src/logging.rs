//! Which lines the diagnostics log keeps.
use vstd::prelude::*;

verus! {

/// The severity of a log line, most severe first.
#[derive(Debug, Clone, Copy, PartialEq, Eq, Structural)]
pub enum LogLevel {
    Error,
    Warn,
    Info,
    Debug,
    Trace,
}

/// Errors, warnings and information are always written; debug and trace
/// lines only when verbose logging is on.
pub open spec fn written(level: LogLevel, verbose: bool) -> bool {
    match level {
        LogLevel::Debug | LogLevel::Trace => verbose,
        _ => true,
    }
}

/// Whether the logger writes a line of `level`.
pub fn writes_line(level: LogLevel, verbose: bool) -> (r: bool)
    ensures
        r == written(level, verbose),
{
    match level {
        LogLevel::Debug | LogLevel::Trace => verbose,
        _ => true,
    }
}

} // verus!
