use vstd::prelude::*;

verus! {

/// Severity bit the driver sets on an error-class message.
pub const SEVERITY_ERROR: u32 = 0x1000;

/// Severity bit the driver sets on a warning-class message.
pub const SEVERITY_WARNING: u32 = 0x100;

/// Severity bit the driver sets on an informational message.
pub const SEVERITY_INFO: u32 = 0x10;

/// Severity bit the driver sets on a verbose message.
pub const SEVERITY_VERBOSE: u32 = 0x1;

/// The process-log level a driver message is routed to.
#[derive(Clone, Copy, Debug, PartialEq, Eq, Structural)]
pub enum LogLevel {
    Error,
    Warn,
    Info,
    Trace,
}

/// The level owed to a driver-reported severity value: the four severity
/// tiers map one-to-one onto the log's corresponding levels — error,
/// warning, informational and verbose onto `Error`, `Warn`, `Info` and
/// `Trace` — each tier taken at the lowest severity whose bit reaches it,
/// highest tier checked first.
pub open spec fn level_for_severity(severity: u32) -> LogLevel {
    if severity >= SEVERITY_ERROR {
        LogLevel::Error
    } else if severity >= SEVERITY_WARNING {
        LogLevel::Warn
    } else if severity >= SEVERITY_INFO {
        LogLevel::Info
    } else {
        LogLevel::Trace
    }
}

/// The routing decision for one driver message: the log level it goes to,
/// and the signal handed back to the driver — always the fixed
/// do-not-abort answer.
#[derive(Clone, Copy, Debug, PartialEq, Eq, Structural)]
pub struct SinkDecision {
    pub level: LogLevel,
    pub abort: bool,
}

/// Classifies one driver message by its severity. The decision is a pure
/// function of the severity value: the driver may invoke the sink
/// reentrantly from within any call the application makes, so nothing is
/// read or written here beyond the arguments.
pub fn classify_severity(severity: u32) -> (r: SinkDecision)
    ensures
        r.level == level_for_severity(severity),
        !r.abort,
{
    let level = if severity >= SEVERITY_ERROR {
        LogLevel::Error
    } else if severity >= SEVERITY_WARNING {
        LogLevel::Warn
    } else if severity >= SEVERITY_INFO {
        LogLevel::Info
    } else {
        LogLevel::Trace
    };
    SinkDecision { level, abort: false }
}

} // verus!
