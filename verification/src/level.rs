//! Severity levels and the threshold test that decides which records an
//! appender forwards to the delivery client.

use vstd::prelude::*;

verus! {

/// Severity of a log record, from most severe (`Error`) to least severe
/// (`Trace`).
#[derive(Clone, Copy, Debug, PartialEq, Eq, Structural)]
pub enum LogLevel {
    Error,
    Warn,
    Info,
    Debug,
    Trace,
}

/// Numeric rank of a level: smaller means more severe, matching the
/// usual ordering of logging frameworks (`Error` = 1 .. `Trace` = 5).
pub open spec fn spec_rank(level: LogLevel) -> int {
    match level {
        LogLevel::Error => 1,
        LogLevel::Warn => 2,
        LogLevel::Info => 3,
        LogLevel::Debug => 4,
        LogLevel::Trace => 5,
    }
}

/// A record at `level` passes a `threshold` when it is at least as
/// severe as the threshold.
pub open spec fn spec_passes(threshold: LogLevel, level: LogLevel) -> bool {
    spec_rank(level) <= spec_rank(threshold)
}

impl LogLevel {
    /// Executable rank, equal to [`spec_rank`].
    pub fn rank(self) -> (r: u8)
        ensures
            r as int == spec_rank(self),
    {
        match self {
            LogLevel::Error => 1,
            LogLevel::Warn => 2,
            LogLevel::Info => 3,
            LogLevel::Debug => 4,
            LogLevel::Trace => 5,
        }
    }

    /// Whether a record at level `level` passes `self` as the severity
    /// threshold: messages less severe than the threshold are ignored.
    pub fn passes(self, level: LogLevel) -> (b: bool)
        ensures
            b == spec_passes(self, level),
    {
        level.rank() <= self.rank()
    }
}

} // verus!
