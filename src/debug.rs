use vstd::prelude::*;

verus! {

/// Severity bit of an error message.
pub const SEVERITY_ERROR: u32 = 0x1000;

/// Severity bit of a warning message.
pub const SEVERITY_WARNING: u32 = 0x100;

/// Severity bit of an informational message.
pub const SEVERITY_INFO: u32 = 0x10;

/// Severity bit of a verbose message.
pub const SEVERITY_VERBOSE: u32 = 0x1;

/// Level at which a driver diagnostic is logged.
#[derive(Clone, Copy, Debug, PartialEq, Eq, Structural)]
pub enum LogLevel {
    Error,
    Warn,
    Debug,
    Trace,
}

/// Errors log as errors, warnings as warnings, information as debug
/// output, and anything less as trace output.
pub open spec fn level_of(severity: u32) -> LogLevel {
    if severity >= SEVERITY_ERROR {
        LogLevel::Error
    } else if severity >= SEVERITY_WARNING {
        LogLevel::Warn
    } else if severity >= SEVERITY_INFO {
        LogLevel::Debug
    } else {
        LogLevel::Trace
    }
}

/// Maps the raw severity flags of a driver diagnostic to a log level.
pub fn log_level_for_severity(severity: u32) -> (r: LogLevel)
    ensures
        r == level_of(severity),
{
    if severity >= SEVERITY_ERROR {
        LogLevel::Error
    } else if severity >= SEVERITY_WARNING {
        LogLevel::Warn
    } else if severity >= SEVERITY_INFO {
        LogLevel::Debug
    } else {
        LogLevel::Trace
    }
}

} // verus!
