use vstd::prelude::*;
use vstd::string::StringExecFns;
use std::io::Write;
use crate::logging::LogLevel;
use crate::logging::log_formatter::ClockTime;
use crate::logging::log_formatter::default_format;
use crate::logging::log_formatter::format_message;
use crate::logging::log_formatter::spec_default_format;
use crate::logging::log_formatter::spec_format_message;
use crate::logging::log_manager::LogMessage;

verus! {

/// Destination that renders each admitted message through its template
/// and writes the result as one line to standard output.
#[derive(Debug)]
pub struct ConsoleTarget {
    /// Minimum level a message must have to be emitted.
    pub level: LogLevel,
    /// Template handed to the formatter.
    pub format: String,
}

impl Default for ConsoleTarget {
    fn default() -> (r: Self)
        ensures
            r.level == LogLevel::Info,
            r.format@ == spec_default_format(),
    {
        ConsoleTarget { level: LogLevel::Info, format: String::from_str(default_format()) }
    }
}

/// Relies on std's `writeln!` to standard output. The write result is
/// discarded: console output is treated as infallible by this design.
#[verifier::external_body]
fn emit_line(line: &str) {
    let _ = writeln!(std::io::stdout(), "{}", line);
}

impl ConsoleTarget {
    /// Whether a message of level `level` is admitted: its severity must
    /// be at least the configured minimum.
    pub open spec fn spec_enabled(self, level: LogLevel) -> bool {
        level.spec_severity() >= self.level.spec_severity()
    }

    pub fn is_logging_enabled(&self, level: LogLevel) -> (r: bool)
        ensures
            r == self.spec_enabled(level),
    {
        level.severity() >= self.level.severity()
    }

    /// Renders and emits `log_message` when it is admitted; the returned
    /// line is exactly what was written, `None` when the message was
    /// filtered out.
    pub fn log(&self, log_message: &LogMessage) -> (r: Option<String>)
        ensures
            r is Some <==> self.spec_enabled(log_message.level),
            match r {
                Some(line) => exists|c: ClockTime|
                    c.wf() && line@ == spec_format_message(
                        self.format@,
                        log_message.level,
                        log_message.message@,
                        c,
                    ),
                None => true,
            },
    {
        if self.is_logging_enabled(log_message.level) {
            let line = format_message(self.format.as_str(), log_message);
            emit_line(line.as_str());
            Some(line)
        } else {
            None
        }
    }
}

} // verus!
