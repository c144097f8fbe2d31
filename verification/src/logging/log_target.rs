use vstd::prelude::*;
use crate::logging::LogLevel;

verus! {

/// Placeholder destination for a log file. It conforms to the target
/// capability (it reports its kind, filters by level, accepts a same-kind
/// update), but its dispatch is not implemented: dispatching to it yields
/// a `DispatchError` instead of emitting anywhere.
#[derive(Debug)]
pub struct FileTarget {
    /// Minimum level a message must have to be emitted.
    pub level: LogLevel,
    /// Path of the file the target would write to.
    pub target_file: String,
}

impl FileTarget {
    /// Whether a message of level `level` is admitted: its severity must
    /// be at least the configured minimum.
    pub open spec fn spec_enabled(self, level: LogLevel) -> bool {
        level.spec_severity() >= self.level.spec_severity()
    }

    pub fn is_logging_enabled(&self, level: LogLevel) -> (r: bool)
        ensures
            r == self.spec_enabled(level),
    {
        level.severity() >= self.level.severity()
    }
}

} // verus!
