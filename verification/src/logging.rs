use vstd::prelude::*;

pub mod console_logger;
pub mod log_formatter;
pub mod log_manager;
pub mod log_queue;
pub mod log_target;

use crate::logging::console_logger::ConsoleTarget;
use crate::logging::log_formatter::ClockTime;
use crate::logging::log_formatter::spec_format_message;
use crate::logging::log_manager::LogMessage;
use crate::logging::log_target::FileTarget;

verus! {

/// Severity of a log message. The ordering is total:
/// Trace < Debug < Info < Warn < Error < Fatal.
#[derive(Clone, Copy, Debug, PartialEq, Eq, Structural)]
pub enum LogLevel {
    Trace,
    Debug,
    Info,
    Warn,
    Error,
    Fatal,
}

impl LogLevel {
    /// Numeric rank of the level; a target admits a message
    /// exactly when the message's rank is at least the target's.
    pub open spec fn spec_severity(self) -> int {
        match self {
            LogLevel::Trace => 0,
            LogLevel::Debug => 1,
            LogLevel::Info => 2,
            LogLevel::Warn => 3,
            LogLevel::Error => 4,
            LogLevel::Fatal => 5,
        }
    }

    pub fn severity(&self) -> (r: u8)
        ensures
            r as int == self.spec_severity(),
    {
        match self {
            LogLevel::Trace => 0,
            LogLevel::Debug => 1,
            LogLevel::Info => 2,
            LogLevel::Warn => 3,
            LogLevel::Error => 4,
            LogLevel::Fatal => 5,
        }
    }

    /// Upper-case name of the level, as it appears in rendered messages.
    pub open spec fn spec_name(self) -> Seq<char> {
        match self {
            LogLevel::Trace => "TRACE"@,
            LogLevel::Debug => "DEBUG"@,
            LogLevel::Info => "INFO"@,
            LogLevel::Warn => "WARN"@,
            LogLevel::Error => "ERROR"@,
            LogLevel::Fatal => "FATAL"@,
        }
    }

    pub fn as_str(&self) -> (r: &'static str)
        ensures
            r@ == self.spec_name(),
    {
        match self {
            LogLevel::Trace => "TRACE",
            LogLevel::Debug => "DEBUG",
            LogLevel::Info => "INFO",
            LogLevel::Warn => "WARN",
            LogLevel::Error => "ERROR",
            LogLevel::Fatal => "FATAL",
        }
    }
}

impl Default for LogLevel {
    fn default() -> (r: Self)
        ensures
            r == LogLevel::Info,
    {
        LogLevel::Info
    }
}

/// Law: a console target whose minimum level is Warn admits exactly the
/// messages of level Warn, Error or Fatal; Trace, Debug and Info are
/// filtered out. Admission depends only on the configured minimum, so the
/// outcome is the same however often the same configuration is applied.
pub proof fn lemma_warn_level_filtering(target: ConsoleTarget, level: LogLevel)
    requires
        target.level == LogLevel::Warn,
    ensures
        target.spec_enabled(level) <==> (level == LogLevel::Warn || level == LogLevel::Error
            || level == LogLevel::Fatal),
{
}

/// Failure of one dispatch to one target. It is caught at the queue's
/// drain loop, reported on the diagnostic stream and swallowed; it never
/// reaches the caller that enqueued the message.
#[derive(Debug)]
pub enum DispatchError {
    /// The target kind has no implemented destination.
    Unsupported,
}

/// A configured log destination. The concrete kinds form a closed set;
/// an update from a target of another kind is rejected by comparing the
/// kind tags, leaving the target unchanged.
#[derive(Debug)]
pub enum LogTarget {
    Console(ConsoleTarget),
    File(FileTarget),
}

impl LogTarget {
    /// Static identifier of the concrete kind, for diagnostics and for
    /// the kind check an update performs.
    pub open spec fn kind_name(self) -> Seq<char> {
        match self {
            LogTarget::Console(_) => "ConsoleTarget"@,
            LogTarget::File(_) => "FileTarget"@,
        }
    }

    pub fn target_name(&self) -> (r: &'static str)
        ensures
            r@ == self.kind_name(),
    {
        match self {
            LogTarget::Console(_) => "ConsoleTarget",
            LogTarget::File(_) => "FileTarget",
        }
    }

    /// The configured minimum level of the underlying target.
    pub open spec fn min_level(self) -> LogLevel {
        match self {
            LogTarget::Console(c) => c.level,
            LogTarget::File(f) => f.level,
        }
    }

    /// Whether a message of level `level` is admitted: its severity must
    /// be at least the configured minimum. This ordering is the sole
    /// admission rule.
    pub open spec fn spec_enabled(self, level: LogLevel) -> bool {
        level.spec_severity() >= self.min_level().spec_severity()
    }

    pub fn is_logging_enabled(&self, level: LogLevel) -> (r: bool)
        ensures
            r == self.spec_enabled(level),
    {
        match self {
            LogTarget::Console(c) => c.is_logging_enabled(level),
            LogTarget::File(f) => f.is_logging_enabled(level),
        }
    }

    /// Whether `self` and `other` are of the same concrete kind.
    pub open spec fn same_kind(self, other: LogTarget) -> bool {
        match (self, other) {
            (LogTarget::Console(_), LogTarget::Console(_)) => true,
            (LogTarget::File(_), LogTarget::File(_)) => true,
            _ => false,
        }
    }

    /// The target after accepting a same-kind update: the minimum level is
    /// taken from `other`, the destination configuration is kept. For a
    /// kind mismatch the target is unchanged.
    pub open spec fn merged(self, other: LogTarget) -> LogTarget {
        match (self, other) {
            (LogTarget::Console(a), LogTarget::Console(b)) => LogTarget::Console(
                ConsoleTarget { level: b.level, format: a.format },
            ),
            (LogTarget::File(a), LogTarget::File(b)) => LogTarget::File(
                FileTarget { level: b.level, target_file: a.target_file },
            ),
            _ => self,
        }
    }

    /// Reconfigures `self` from `other`'s state when the kinds agree;
    /// rejects the update, leaving `self` untouched, when they differ.
    pub fn update(&mut self, other: &LogTarget) -> (r: bool)
        ensures
            r == old(self).same_kind(*other),
            *final(self) == old(self).merged(*other),
    {
        match (&mut *self, other) {
            (LogTarget::Console(a), LogTarget::Console(b)) => {
                a.level = b.level;
                true
            },
            (LogTarget::File(a), LogTarget::File(b)) => {
                a.level = b.level;
                true
            },
            _ => false,
        }
    }

    /// Dispatches one message: a console target emits the rendered line
    /// (when admitted) and reports it; a file target has no implemented
    /// destination and fails with a `DispatchError`.
    pub fn log(&self, log_message: &LogMessage) -> (r: Result<Option<String>, DispatchError>)
        ensures
            match *self {
                LogTarget::Console(c) => match r {
                    Ok(Some(line)) => c.spec_enabled(log_message.level) && exists|ck: ClockTime|
                        ck.wf() && line@ == spec_format_message(
                            c.format@,
                            log_message.level,
                            log_message.message@,
                            ck,
                        ),
                    Ok(None) => !c.spec_enabled(log_message.level),
                    Err(_) => false,
                },
                LogTarget::File(_) => r matches Err(DispatchError::Unsupported),
            },
    {
        match self {
            LogTarget::Console(c) => Ok(c.log(log_message)),
            LogTarget::File(_) => Err(DispatchError::Unsupported),
        }
    }
}

} // verus!
