//! Debug/validation message classification: mapping a message severity to
//! the log level the routing collaborator should use. Routing the message
//! is the collaborator's responsibility, not this core's.

use vstd::prelude::*;

verus! {

/// Severity bitmask code for verbose diagnostic messages.
pub const SEVERITY_VERBOSE: u32 = 0x1;

/// Severity bitmask code for informational messages.
pub const SEVERITY_INFO: u32 = 0x10;

/// Severity bitmask code for warnings.
pub const SEVERITY_WARNING: u32 = 0x100;

/// Severity bitmask code for errors.
pub const SEVERITY_ERROR: u32 = 0x1000;

/// The log level a message is routed at.
#[derive(Clone, Copy, Debug, PartialEq, Eq, Structural)]
pub enum LogLevel {
    Error,
    Warn,
    Info,
    Trace,
}

/// Severity-to-level policy: errors log as errors, warnings as warnings,
/// informational messages as info, everything below as trace.
pub open spec fn spec_log_level(severity: u32) -> LogLevel {
    if severity >= SEVERITY_ERROR {
        LogLevel::Error
    } else if severity >= SEVERITY_WARNING {
        LogLevel::Warn
    } else if severity >= SEVERITY_INFO {
        LogLevel::Info
    } else {
        LogLevel::Trace
    }
}

/// Maps a debug message severity to its log level.
pub fn log_level_for_severity(severity: u32) -> (r: LogLevel)
    ensures
        r == spec_log_level(severity),
{
    if severity >= SEVERITY_ERROR {
        LogLevel::Error
    } else if severity >= SEVERITY_WARNING {
        LogLevel::Warn
    } else if severity >= SEVERITY_INFO {
        LogLevel::Info
    } else {
        LogLevel::Trace
    }
}

} // verus!
