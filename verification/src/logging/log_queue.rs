use vstd::prelude::*;
use std::io::Write;
use crate::logging::LogLevel;
use crate::logging::LogTarget;
use crate::logging::log_formatter::ClockTime;
use crate::logging::log_formatter::spec_format_message;
use crate::logging::log_manager::LogError;
use crate::logging::log_manager::LogMessage;
use crate::logging::log_manager::LoggerEntry;

verus! {

/// The format templates of the console targets among `entries` that admit
/// a message of level `level`, in registry order. Dispatching one message
/// emits exactly one line per element of this sequence.
pub open spec fn enabled_console_formats(entries: Seq<LoggerEntry>, level: LogLevel) -> Seq<
    Seq<char>,
>
    decreases entries.len(),
{
    if entries.len() == 0 {
        Seq::empty()
    } else {
        let rest = enabled_console_formats(entries.drop_last(), level);
        match entries.last().target {
            LogTarget::Console(c) => if c.spec_enabled(level) {
                rest.push(c.format@)
            } else {
                rest
            },
            LogTarget::File(_) => rest,
        }
    }
}

/// How many lines draining `msgs` against `entries` emits in all.
pub open spec fn spec_total_emitted(msgs: Seq<LogMessage>, entries: Seq<LoggerEntry>) -> nat
    decreases msgs.len(),
{
    if msgs.len() == 0 {
        0
    } else {
        spec_total_emitted(msgs.drop_last(), entries) + enabled_console_formats(
            entries,
            msgs.last().level,
        ).len()
    }
}

/// Law: a drain pass over an empty queue emits nothing, whatever targets
/// are registered. In particular, once the registry has emptied and the
/// queue has stopped, messages offered afterwards are dropped at intake
/// and no dispatch ever happens for them.
pub proof fn lemma_no_dispatch_when_empty(entries: Seq<LoggerEntry>)
    ensures
        spec_total_emitted(Seq::<LogMessage>::empty(), entries) == 0,
{
}

/// Whether `line` is a rendering of a message of level `level` and text
/// `text` through the template `fmt` at some well-formed clock reading.
pub open spec fn line_matches(line: Seq<char>, fmt: Seq<char>, level: LogLevel, text: Seq<char>) -> bool {
    exists|ck: ClockTime|
        ck.wf() && line == spec_format_message(fmt, level, text, ck)
}

/// Whether `line` is a rendering of one of the messages of `msgs` through
/// the template of a console target of `entries` that admits it.
pub open spec fn line_emitted_from(
    line: Seq<char>,
    msgs: Seq<LogMessage>,
    entries: Seq<LoggerEntry>,
) -> bool {
    exists|j: int, f: Seq<char>|
        0 <= j < msgs.len() && enabled_console_formats(entries, msgs[j].level).contains(f)
            && line_matches(line, f, msgs[j].level, msgs[j].message@)
}

/// Relies on std's `writeln!` to standard error, the diagnostic side
/// channel for dispatch failures.
#[verifier::external_body]
fn emit_diagnostic(target_name: &str) {
    let _ = writeln!(std::io::stderr(), "Error logging message to {}", target_name);
}

/// Delivers one message to every registered target that admits it.
/// A dispatch failure of one target is reported on the diagnostic stream
/// and does not keep the remaining targets from receiving the message.
/// The returned lines are what the console targets emitted, in registry
/// order.
pub fn dispatch_message(loggers: &Vec<LoggerEntry>, message: &LogMessage) -> (emitted: Vec<String>)
    ensures
        emitted@.len() == enabled_console_formats(loggers@, message.level).len(),
        forall|k: int| #![trigger emitted@[k]]
            0 <= k < emitted@.len() ==> line_matches(
                emitted@[k]@,
                enabled_console_formats(loggers@, message.level)[k],
                message.level,
                message.message@,
            ),
{
    let mut emitted: Vec<String> = Vec::new();
    let mut i: usize = 0;
    proof {
        assert(loggers@.take(0) =~= Seq::<LoggerEntry>::empty());
    }
    while i < loggers.len()
        invariant
            i <= loggers.len(),
            emitted@.len() == enabled_console_formats(loggers@.take(i as int), message.level).len(),
            forall|k: int| #![trigger emitted@[k]]
                0 <= k < emitted@.len() ==> line_matches(
                    emitted@[k]@,
                    enabled_console_formats(loggers@.take(i as int), message.level)[k],
                    message.level,
                    message.message@,
                ),
        decreases loggers.len() - i,
    {
        let ghost prefix = loggers@.take(i as int);
        let ghost prefix1 = loggers@.take(i + 1);
        proof {
            assert(prefix1.drop_last() =~= prefix);
            assert(prefix1.last() == loggers@[i as int]);
        }
        let entry = &loggers[i];
        match entry.target.log(message) {
            Ok(Some(line)) => {
                emitted.push(line);
            },
            Ok(None) => {
            },
            Err(_) => {
                emit_diagnostic(entry.target.target_name());
            },
        }
        proof {
            let new = enabled_console_formats(prefix1, message.level);
            let older = enabled_console_formats(prefix, message.level);
            assert(emitted@.len() == new.len());
            assert forall|k: int| #![trigger emitted@[k]] 0 <= k < emitted@.len() implies line_matches(
                emitted@[k]@,
                new[k],
                message.level,
                message.message@,
            ) by {
                if k < older.len() {
                    assert(new[k] == older[k]);
                } else {
                    assert(new[k] == new.last());
                }
            }
        }
        i += 1;
    }
    proof {
        assert(loggers@.take(loggers@.len() as int) =~= loggers@);
    }
    emitted
}

/// FIFO of captured messages between the producers and the single
/// background consumer, with the cooperative cancellation flag the
/// consumer checks after each full drain.
pub struct LogQueue {
    messages: Vec<LogMessage>,
    cancelled: bool,
}

impl LogQueue {
    /// The messages waiting to be dispatched, oldest first.
    pub closed spec fn queued(self) -> Seq<LogMessage> {
        self.messages@
    }

    /// Whether cancellation has been requested.
    pub closed spec fn is_cancelled(self) -> bool {
        self.cancelled
    }

    fn new() -> (r: Self)
        ensures
            r.queued().len() == 0,
            !r.is_cancelled(),
    {
        LogQueue { messages: Vec::new(), cancelled: false }
    }

    /// Creates the queue for a freshly started processing phase: empty and
    /// not cancelled. The caller runs the drain loop around
    /// `process_queue`.
    pub fn create_and_run() -> (r: Result<LogQueue, LogError>)
        ensures
            match r {
                Ok(q) => q.queued().len() == 0 && !q.is_cancelled(),
                Err(_) => false,
            },
    {
        Ok(Self::new())
    }

    /// Requests cooperative cancellation. Queued messages are kept; the
    /// consumer may still drain them or may stop first, so messages
    /// enqueued from here on can be lost. This is a best-effort shutdown,
    /// not a guaranteed flush.
    pub fn cancel(&mut self)
        ensures
            final(self).is_cancelled(),
            final(self).queued() == old(self).queued(),
    {
        self.cancelled = true;
    }

    /// Appends one message at the back of the FIFO.
    pub fn push_message(&mut self, log_message: LogMessage)
        ensures
            final(self).queued() == old(self).queued().push(log_message),
            final(self).is_cancelled() == old(self).is_cancelled(),
    {
        self.messages.push(log_message);
    }

    /// One full drain pass: every queued message is delivered, in FIFO
    /// order, to every target among `loggers` that admits it; the queue is
    /// left empty. The returned lines are everything the console targets
    /// emitted during the pass.
    pub fn process_queue(&mut self, loggers: &Vec<LoggerEntry>) -> (emitted: Vec<String>)
        ensures
            final(self).queued().len() == 0,
            final(self).is_cancelled() == old(self).is_cancelled(),
            emitted@.len() == spec_total_emitted(old(self).queued(), loggers@),
            forall|k: int| #![trigger emitted@[k]]
                0 <= k < emitted@.len() ==> line_emitted_from(
                    emitted@[k]@,
                    old(self).queued(),
                    loggers@,
                ),
    {
        let ghost msgs = self.messages@;
        let mut emitted: Vec<String> = Vec::new();
        let mut j: usize = 0;
        proof {
            assert(msgs.take(0) =~= Seq::<LogMessage>::empty());
        }
        while j < self.messages.len()
            invariant
                msgs == self.messages@,
                j <= msgs.len(),
                emitted@.len() == spec_total_emitted(msgs.take(j as int), loggers@),
                forall|k: int| #![trigger emitted@[k]]
                    0 <= k < emitted@.len() ==> line_emitted_from(emitted@[k]@, msgs, loggers@),
            decreases msgs.len() - j,
        {
            let ghost prefix1 = msgs.take(j + 1);
            proof {
                assert(prefix1.drop_last() =~= msgs.take(j as int));
                assert(prefix1.last() == msgs[j as int]);
            }
            let mut lines = dispatch_message(loggers, &self.messages[j]);
            let ghost formats = enabled_console_formats(loggers@, msgs[j as int].level);
            proof {
                assert forall|k: int| #![trigger lines@[k]] 0 <= k < lines@.len() implies line_emitted_from(
                    lines@[k]@,
                    msgs,
                    loggers@,
                ) by {
                    assert(formats.contains(formats[k]));
                    assert(line_matches(lines@[k]@, formats[k], msgs[j as int].level, msgs[j as int].message@));
                }
            }
            emitted.append(&mut lines);
            j += 1;
        }
        proof {
            assert(msgs.take(msgs.len() as int) =~= msgs);
        }
        self.messages.clear();
        emitted
    }
}

} // verus!
