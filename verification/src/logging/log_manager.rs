use vstd::prelude::*;
use vstd::string::StrSliceExecFns;
use crate::logging::LogLevel;
use crate::logging::LogTarget;
use crate::logging::log_formatter::clock_now;
use crate::logging::log_queue::LogQueue;
use crate::logging::log_queue::line_emitted_from;
use crate::logging::log_queue::spec_total_emitted;
use crate::runtime::string_utils::is_whitespace;
use crate::runtime::string_utils::spec_whitespace_char;
use crate::runtime::string_utils::str_eq;

verus! {

/// Errors returned by registry mutations. Dispatch failures are reported
/// separately (see `DispatchError`); they never reach the caller of `log`.
#[derive(Debug)]
pub enum LogError {
    /// The logger name was empty or held only whitespace.
    InvalidLoggerName,
    /// A logger with the given name is already registered.
    LoggerExists(String),
    /// No logger with the given name is registered.
    LoggerNotFound(String),
    /// An update offered a target of a different concrete kind;
    /// the fields hold the required and the offered kind name.
    WrongTargetType(String, String),
}

/// One log record: severity, text, and the nanosecond counter at capture.
/// Created once per `log` call and immutable afterwards.
pub struct LogMessage {
    pub level: LogLevel,
    pub message: String,
    pub log_time: i64,
}

impl LogMessage {
    pub fn new(level: LogLevel, message: &str) -> (r: Self)
        ensures
            r.level == level,
            r.message@ == message@,
    {
        LogMessage { level, message: message.to_owned(), log_time: clock_now().ticks }
    }
}

/// One registry entry: the unique name under which a target was
/// registered, and the target itself, exclusively owned by the registry.
pub struct LoggerEntry {
    pub name: String,
    pub target: LogTarget,
}

/// A name may identify a logger when it holds at least one
/// non-whitespace character; empty and whitespace-only names are invalid.
pub open spec fn spec_valid_name(name: Seq<char>) -> bool {
    exists|i: int| 0 <= i < name.len() && !spec_whitespace_char(#[trigger] name[i])
}

/// Whether some entry carries `name`.
pub open spec fn spec_has_logger(entries: Seq<LoggerEntry>, name: Seq<char>) -> bool {
    exists|i: int| 0 <= i < entries.len() && (#[trigger] entries[i]).name@ == name
}

/// The position of the entry carrying `name`; meaningful only when
/// `spec_has_logger` holds and names are unique.
pub open spec fn spec_index_of(entries: Seq<LoggerEntry>, name: Seq<char>) -> int {
    choose|i: int| 0 <= i < entries.len() && (#[trigger] entries[i]).name@ == name
}

/// Well-formedness of a registry's entries: names are unique and valid.
pub open spec fn spec_entries_wf(entries: Seq<LoggerEntry>) -> bool {
    &&& forall|i: int, j: int|
        0 <= i < j < entries.len() ==> (#[trigger] entries[i]).name@ != (
        #[trigger] entries[j]).name@
    &&& forall|i: int| 0 <= i < entries.len() ==> spec_valid_name((#[trigger] entries[i]).name@)
}

/// Law: once an admissible registration has appended its entry, the name
/// is present and the entry itself is intact. A second registration under
/// the same name therefore falls into the `LoggerExists` case of
/// `add_logger`'s contract, which leaves the registry unchanged and the
/// first registration unaffected.
pub proof fn lemma_register_twice(entries: Seq<LoggerEntry>, entry: LoggerEntry)
    requires
        spec_valid_name(entry.name@),
        !spec_has_logger(entries, entry.name@),
    ensures
        spec_has_logger(entries.push(entry), entry.name@),
        entries.push(entry).last() == entry,
        forall|i: int| 0 <= i < entries.len() ==> entries.push(entry)[i] == entries[i],
{
    assert(entries.push(entry)[entries.len() as int] == entry);
}

/// Named collection of log targets: the single source of truth for which
/// destinations exist. It owns the message queue's lifecycle, starting it
/// when the registry becomes occupied and stopping it when it empties.
pub struct LogManager {
    loggers: Vec<LoggerEntry>,
    logger_count: u32,
    message_queue: Option<LogQueue>,
}

impl LogManager {
    /// The registered entries, in registration order.
    pub closed spec fn entries(self) -> Seq<LoggerEntry> {
        self.loggers@
    }

    /// The queue instance, present exactly while processing is active.
    pub closed spec fn queue(self) -> Option<LogQueue> {
        self.message_queue
    }

    pub open spec fn processing_active(self) -> bool {
        self.queue() is Some
    }

    /// The messages waiting in the queue; empty while no queue runs.
    pub open spec fn queued_messages(self) -> Seq<LogMessage> {
        match self.queue() {
            Some(q) => q.queued(),
            None => Seq::empty(),
        }
    }

    pub closed spec fn count_invariant(self) -> bool {
        self.logger_count == self.loggers@.len()
    }

    /// Registry invariant: the cached count matches, names are unique and
    /// valid. Established by `new` and preserved by every mutation.
    pub open spec fn wf(self) -> bool {
        self.count_invariant() && spec_entries_wf(self.entries())
    }

    pub fn new() -> (r: Self)
        ensures
            r.wf(),
            r.entries().len() == 0,
            !r.processing_active(),
    {
        LogManager { loggers: Vec::new(), logger_count: 0, message_queue: None }
    }

    /// The position of the entry named `name`, if any.
    fn find_index(&self, name: &str) -> (r: Option<usize>)
        ensures
            match r {
                Some(i) => i < self.entries().len() && self.entries()[i as int].name@ == name@,
                None => !spec_has_logger(self.entries(), name@),
            },
    {
        let mut i: usize = 0;
        while i < self.loggers.len()
            invariant
                i <= self.loggers@.len(),
                forall|k: int| 0 <= k < i ==> (#[trigger] self.loggers@[k]).name@ != name@,
            decreases self.loggers@.len() - i,
        {
            if str_eq(self.loggers[i].name.as_str(), name) {
                return Some(i);
            }
            i += 1;
        }
        None
    }

    /// Registers `log_target` under `name`. An invalid name or a name
    /// already in use is rejected and leaves the registry untouched;
    /// otherwise the entry is appended and, if this occupied an empty
    /// registry, message processing is started.
    pub fn add_logger(&mut self, name: &str, log_target: LogTarget) -> (r: Result<(), LogError>)
        requires
            old(self).wf(),
            old(self).entries().len() < u32::MAX,
        ensures
            final(self).wf(),
            !spec_valid_name(name@) ==> *final(self) == *old(self) && (r matches Err(
                LogError::InvalidLoggerName,
            )),
            spec_valid_name(name@) && spec_has_logger(old(self).entries(), name@) ==> *final(self)
                == *old(self) && match r {
                Err(LogError::LoggerExists(n)) => n@ == name@,
                _ => false,
            },
            spec_valid_name(name@) && !spec_has_logger(old(self).entries(), name@) ==> {
                &&& r matches Ok(())
                &&& final(self).entries().len() == old(self).entries().len() + 1
                &&& final(self).entries().last().name@ == name@
                &&& final(self).entries().last().target == log_target
                &&& forall|i: int|
                    0 <= i < old(self).entries().len() ==> final(self).entries()[i] == old(self).entries()[i]
                &&& final(self).processing_active()
                &&& old(self).processing_active() ==> final(self).queue() == old(self).queue()
                &&& !old(self).processing_active() ==> final(self).queued_messages().len() == 0
            },
    {
        if is_whitespace(name) {
            return Err(LogError::InvalidLoggerName);
        }
        if let Some(_) = self.find_index(name) {
            return Err(LogError::LoggerExists(name.to_owned()));
        }
        self.loggers.push(LoggerEntry { name: name.to_owned(), target: log_target });
        self.logger_count = self.loggers.len() as u32;
        self.start_stop_processing();
        Ok(())
    }

    /// Reconfigures the logger registered under `name` from `log_target`'s
    /// state. A kind mismatch is rejected with `WrongTargetType`, naming
    /// the required and the offered kind, and leaves the existing entry
    /// untouched.
    pub fn update_logger(&mut self, name: &str, log_target: LogTarget) -> (r: Result<
        (),
        LogError,
    >)
        requires
            old(self).wf(),
        ensures
            final(self).wf(),
            final(self).queue() == old(self).queue(),
            !spec_valid_name(name@) ==> final(self).entries() == old(self).entries() && (
            r matches Err(LogError::InvalidLoggerName)),
            spec_valid_name(name@) && !spec_has_logger(old(self).entries(), name@) ==> final(self).entries() == old(self).entries() && match r {
                Err(LogError::LoggerNotFound(n)) => n@ == name@,
                _ => false,
            },
            spec_valid_name(name@) && spec_has_logger(old(self).entries(), name@) ==> {
                let idx = spec_index_of(old(self).entries(), name@);
                let existing = old(self).entries()[idx];
                if existing.target.same_kind(log_target) {
                    &&& r matches Ok(())
                    &&& final(self).entries() == old(self).entries().update(
                        idx,
                        LoggerEntry {
                            name: existing.name,
                            target: existing.target.merged(log_target),
                        },
                    )
                } else {
                    &&& final(self).entries() == old(self).entries()
                    &&& match r {
                        Err(LogError::WrongTargetType(required, offered)) => required@
                            == existing.target.kind_name() && offered@ == log_target.kind_name(),
                        _ => false,
                    }
                }
            },
    {
        if is_whitespace(name) {
            return Err(LogError::InvalidLoggerName);
        }
        let found = self.find_index(name);
        match found {
            Some(i) => {
                proof {
                    let ci = spec_index_of(old(self).entries(), name@);
                    assert(old(self).entries()[ci].name@ == name@);
                    assert(ci == i as int);
                }
                let offered_kind = log_target.target_name();
                let entry = self.loggers.remove(i);
                let required_kind = entry.target.target_name();
                let mut target = entry.target;
                let accepted = target.update(&log_target);
                self.loggers.insert(i, LoggerEntry { name: entry.name, target });
                proof {
                    assert(final(self).entries() =~= old(self).entries().update(
                        i as int,
                        final(self).entries()[i as int],
                    ));
                }
                if accepted {
                    Ok(())
                } else {
                    proof {
                        assert(final(self).entries() =~= old(self).entries());
                    }
                    Err(
                        LogError::WrongTargetType(required_kind.to_owned(), offered_kind.to_owned()),
                    )
                }
            },
            None => Err(LogError::LoggerNotFound(name.to_owned())),
        }
    }

    /// Removes the logger registered under `name`. A name not present is
    /// rejected with `LoggerNotFound` and the registry is unchanged.
    /// Removing the last entry stops message processing.
    pub fn remove_logger(&mut self, name: &str) -> (r: Result<(), LogError>)
        requires
            old(self).wf(),
        ensures
            final(self).wf(),
            !spec_valid_name(name@) ==> *final(self) == *old(self) && (r matches Err(
                LogError::InvalidLoggerName,
            )),
            spec_valid_name(name@) && !spec_has_logger(old(self).entries(), name@) ==> *final(self)
                == *old(self) && match r {
                Err(LogError::LoggerNotFound(n)) => n@ == name@,
                _ => false,
            },
            spec_valid_name(name@) && spec_has_logger(old(self).entries(), name@) ==> {
                &&& r matches Ok(())
                &&& final(self).entries() == old(self).entries().remove(
                    spec_index_of(old(self).entries(), name@),
                )
                &&& final(self).entries().len() == 0 ==> !final(self).processing_active()
                &&& final(self).entries().len() > 0 ==> final(self).processing_active() && (old(
                    self,
                ).processing_active() ==> final(self).queue() == old(self).queue())
            },
    {
        if is_whitespace(name) {
            return Err(LogError::InvalidLoggerName);
        }
        let found = self.find_index(name);
        match found {
            Some(i) => {
                proof {
                    let ci = spec_index_of(old(self).entries(), name@);
                    assert(old(self).entries()[ci].name@ == name@);
                    assert(ci == i as int);
                }
                self.loggers.remove(i);
                self.logger_count = self.loggers.len() as u32;
                self.start_stop_processing();
                Ok(())
            },
            None => Err(LogError::LoggerNotFound(name.to_owned())),
        }
    }

    /// Removes every entry unconditionally, stops message processing, and
    /// returns how many entries were removed.
    pub fn clear_all_loggers(&mut self) -> (r: u32)
        requires
            old(self).wf(),
        ensures
            final(self).wf(),
            r == old(self).entries().len(),
            final(self).entries().len() == 0,
            !final(self).processing_active(),
    {
        let removed = self.logger_count;
        self.loggers.clear();
        self.logger_count = 0;
        self.start_stop_processing();
        removed
    }

    /// The number of registered loggers, consistent with the last
    /// completed mutation.
    pub fn get_logger_count(&self) -> (r: u32)
        requires
            self.wf(),
        ensures
            r == self.entries().len(),
    {
        self.logger_count
    }

    /// Starts message processing if it is not already running: a fresh,
    /// empty, non-cancelled queue is put in place.
    pub fn start_log_processing(&mut self)
        ensures
            final(self).entries() == old(self).entries(),
            final(self).count_invariant() == old(self).count_invariant(),
            final(self).wf() == old(self).wf(),
            final(self).processing_active(),
            old(self).processing_active() ==> final(self).queue() == old(self).queue(),
            !old(self).processing_active() ==> final(self).queued_messages().len() == 0,
    {
        if self.message_queue.is_none() {
            match LogQueue::create_and_run() {
                Ok(log_queue) => {
                    self.message_queue = Some(log_queue);
                },
                Err(_) => {},
            }
        }
    }

    /// Requests cancellation of the running queue, if any, and discards
    /// the handle. No wait is performed: the background drain may still be
    /// finishing. Best-effort by design.
    pub fn stop_log_processing(&mut self)
        ensures
            final(self).entries() == old(self).entries(),
            final(self).count_invariant() == old(self).count_invariant(),
            final(self).wf() == old(self).wf(),
            !final(self).processing_active(),
    {
        match &mut self.message_queue {
            Some(msg_queue) => {
                msg_queue.cancel();
                self.message_queue = None;
            },
            None => {},
        }
    }

    /// Whether a queue instance currently exists.
    pub fn is_log_processing_active(&self) -> (r: bool)
        ensures
            r == self.processing_active(),
    {
        self.message_queue.is_some()
    }

    /// Derives the queue's lifecycle from registry occupancy: an occupied
    /// registry without a queue starts one; an empty registry with a queue
    /// stops it.
    fn start_stop_processing(&mut self)
        requires
            old(self).count_invariant(),
        ensures
            final(self).entries() == old(self).entries(),
            final(self).count_invariant(),
            final(self).wf() == old(self).wf(),
            old(self).entries().len() > 0 ==> final(self).processing_active(),
            old(self).entries().len() == 0 ==> !final(self).processing_active(),
            old(self).entries().len() > 0 && old(self).processing_active() ==> final(self).queue()
                == old(self).queue(),
            old(self).entries().len() > 0 && !old(self).processing_active() ==> final(self).queued_messages().len() == 0,
    {
        if self.logger_count > 0 && self.message_queue.is_none() {
            self.start_log_processing();
        } else if self.logger_count == 0 && self.message_queue.is_some() {
            self.stop_log_processing();
        }
    }

    /// Fire-and-forget intake: if processing is active, captures a message
    /// and appends it to the queue; if not, the message is silently
    /// dropped. This call never fails and never blocks the caller beyond
    /// the append itself.
    pub fn add_log_message(&mut self, level: LogLevel, message: &str)
        ensures
            final(self).entries() == old(self).entries(),
            final(self).wf() == old(self).wf(),
            !old(self).processing_active() ==> *final(self) == *old(self),
            old(self).processing_active() ==> {
                &&& final(self).processing_active()
                &&& final(self).queued_messages().len() == old(self).queued_messages().len() + 1
                &&& final(self).queued_messages().last().level == level
                &&& final(self).queued_messages().last().message@ == message@
                &&& forall|i: int|
                    0 <= i < old(self).queued_messages().len() ==> final(self).queued_messages()[i]
                        == old(self).queued_messages()[i]
            },
    {
        match &mut self.message_queue {
            Some(log_queue) => {
                let log_message = LogMessage::new(level, message);
                log_queue.push_message(log_message);
            },
            None => {},
        }
    }

    /// One drain pass over the queue, if one is running: every queued
    /// message goes to every registered target that admits it, in FIFO
    /// order, and the emitted console lines are returned. Without a
    /// running queue nothing happens.
    pub fn process_pending(&mut self) -> (emitted: Vec<String>)
        requires
            old(self).wf(),
        ensures
            final(self).wf(),
            final(self).entries() == old(self).entries(),
            final(self).processing_active() == old(self).processing_active(),
            final(self).queued_messages().len() == 0,
            emitted@.len() == spec_total_emitted(old(self).queued_messages(), old(self).entries()),
            forall|k: int| #![trigger emitted@[k]]
                0 <= k < emitted@.len() ==> line_emitted_from(
                    emitted@[k]@,
                    old(self).queued_messages(),
                    old(self).entries(),
                ),
    {
        match &mut self.message_queue {
            Some(log_queue) => log_queue.process_queue(&self.loggers),
            None => Vec::new(),
        }
    }
}

} // verus!
