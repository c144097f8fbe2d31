use vstd::prelude::*;
use crate::logging::LogLevel;
use crate::logging::LogTarget;
use crate::logging::log_manager::LogError;
use crate::logging::log_manager::LogManager;
use crate::logging::log_manager::LoggerEntry;
use crate::logging::log_manager::spec_has_logger;
use crate::logging::log_manager::spec_index_of;
use crate::logging::log_manager::spec_valid_name;

verus! {

/// Mutable runtime flags shared across the engine. A program embeds one
/// instance behind its process-wide handle and passes it to the free
/// functions below; keeping the state in a handle rather than a true
/// global keeps it testable.
pub struct DiegoRuntimeInternal {
    pub check_opengl_errors: bool,
}

impl DiegoRuntimeInternal {
    pub fn new() -> (r: Self)
        ensures
            !r.check_opengl_errors,
    {
        DiegoRuntimeInternal { check_opengl_errors: false }
    }
}

/// Enables or disables runtime checking for graphics-API errors.
pub fn set_check_opengl_errors(runtime: &mut DiegoRuntimeInternal, check_enabled: bool)
    ensures
        final(runtime).check_opengl_errors == check_enabled,
{
    runtime.check_opengl_errors = check_enabled;
}

/// Whether runtime checking for graphics-API errors is enabled.
pub fn check_opengl_errors(runtime: &DiegoRuntimeInternal) -> (r: bool)
    ensures
        r == runtime.check_opengl_errors,
{
    runtime.check_opengl_errors
}

/// Facade over `LogManager::add_logger` for call sites that hold the
/// process-wide manager handle.
pub fn add_logger(log_manager: &mut LogManager, name: &str, log_target: LogTarget) -> (r: Result<
    (),
    LogError,
>)
    requires
        old(log_manager).wf(),
        old(log_manager).entries().len() < u32::MAX,
    ensures
        final(log_manager).wf(),
        !spec_valid_name(name@) ==> *final(log_manager) == *old(log_manager) && (r matches Err(
            LogError::InvalidLoggerName,
        )),
        spec_valid_name(name@) && spec_has_logger(old(log_manager).entries(), name@) ==> *final(log_manager) == *old(log_manager) && (r matches Err(LogError::LoggerExists(n)) ==> n@ == name@) && (
        r matches Err(LogError::LoggerExists(n))),
        spec_valid_name(name@) && !spec_has_logger(old(log_manager).entries(), name@) ==> {
            &&& r matches Ok(())
            &&& final(log_manager).entries().len() == old(log_manager).entries().len() + 1
            &&& final(log_manager).entries().last().name@ == name@
            &&& final(log_manager).entries().last().target == log_target
            &&& forall|i: int|
                0 <= i < old(log_manager).entries().len() ==> final(log_manager).entries()[i]
                    == old(log_manager).entries()[i]
            &&& final(log_manager).processing_active()
        },
{
    log_manager.add_logger(name, log_target)
}

/// Like `add_logger`, reduced to whether the registration was taken.
pub fn try_add_logger(log_manager: &mut LogManager, name: &str, log_target: LogTarget) -> (r:
    bool)
    requires
        old(log_manager).wf(),
        old(log_manager).entries().len() < u32::MAX,
    ensures
        final(log_manager).wf(),
        r == (spec_valid_name(name@) && !spec_has_logger(old(log_manager).entries(), name@)),
        !r ==> *final(log_manager) == *old(log_manager),
{
    add_logger(log_manager, name, log_target).is_ok()
}

/// Facade over `LogManager::update_logger`.
pub fn update_logger(log_manager: &mut LogManager, name: &str, log_target: LogTarget) -> (r:
    Result<(), LogError>)
    requires
        old(log_manager).wf(),
    ensures
        final(log_manager).wf(),
        final(log_manager).queue() == old(log_manager).queue(),
        !spec_valid_name(name@) ==> final(log_manager).entries() == old(log_manager).entries() && (
        r matches Err(LogError::InvalidLoggerName)),
        spec_valid_name(name@) && !spec_has_logger(old(log_manager).entries(), name@) ==> final(log_manager).entries() == old(log_manager).entries() && (r matches Err(LogError::LoggerNotFound(_))),
        spec_valid_name(name@) && spec_has_logger(old(log_manager).entries(), name@) ==> {
            let idx = spec_index_of(old(log_manager).entries(), name@);
            let existing = old(log_manager).entries()[idx];
            if existing.target.same_kind(log_target) {
                &&& r matches Ok(())
                &&& final(log_manager).entries() == old(log_manager).entries().update(
                    idx,
                    LoggerEntry { name: existing.name, target: existing.target.merged(log_target) },
                )
            } else {
                final(log_manager).entries() == old(log_manager).entries() && (r matches Err(
                    LogError::WrongTargetType(_, _),
                ))
            }
        },
{
    log_manager.update_logger(name, log_target)
}

/// Like `update_logger`, reduced to whether the update was taken.
pub fn try_update_logger(log_manager: &mut LogManager, name: &str, log_target: LogTarget) -> (r:
    bool)
    requires
        old(log_manager).wf(),
    ensures
        final(log_manager).wf(),
        r == (spec_valid_name(name@) && spec_has_logger(old(log_manager).entries(), name@) && old(log_manager).entries()[spec_index_of(old(log_manager).entries(), name@)].target.same_kind(log_target)),
        !r ==> final(log_manager).entries() == old(log_manager).entries(),
{
    update_logger(log_manager, name, log_target).is_ok()
}

/// Facade over `LogManager::remove_logger`.
pub fn remove_logger(log_manager: &mut LogManager, name: &str) -> (r: Result<(), LogError>)
    requires
        old(log_manager).wf(),
    ensures
        final(log_manager).wf(),
        !spec_valid_name(name@) ==> *final(log_manager) == *old(log_manager) && (r matches Err(
            LogError::InvalidLoggerName,
        )),
        spec_valid_name(name@) && !spec_has_logger(old(log_manager).entries(), name@) ==> *final(log_manager) == *old(log_manager) && (r matches Err(LogError::LoggerNotFound(_))),
        spec_valid_name(name@) && spec_has_logger(old(log_manager).entries(), name@) ==> {
            &&& r matches Ok(())
            &&& final(log_manager).entries() == old(log_manager).entries().remove(
                spec_index_of(old(log_manager).entries(), name@),
            )
            &&& final(log_manager).entries().len() == 0 ==> !final(log_manager).processing_active()
        },
{
    log_manager.remove_logger(name)
}

/// Like `remove_logger`, reduced to whether an entry was removed.
pub fn try_remove_logger(log_manager: &mut LogManager, name: &str) -> (r: bool)
    requires
        old(log_manager).wf(),
    ensures
        final(log_manager).wf(),
        r == (spec_valid_name(name@) && spec_has_logger(old(log_manager).entries(), name@)),
        !r ==> *final(log_manager) == *old(log_manager),
{
    remove_logger(log_manager, name).is_ok()
}

/// The number of registered loggers.
pub fn get_logger_count(log_manager: &LogManager) -> (r: u32)
    requires
        log_manager.wf(),
    ensures
        r == log_manager.entries().len(),
{
    log_manager.get_logger_count()
}

/// Removes every logger, stops processing, and reports how many were
/// removed.
pub fn clear_all_loggers(log_manager: &mut LogManager) -> (r: u32)
    requires
        old(log_manager).wf(),
    ensures
        final(log_manager).wf(),
        r == old(log_manager).entries().len(),
        final(log_manager).entries().len() == 0,
        !final(log_manager).processing_active(),
{
    log_manager.clear_all_loggers()
}

/// Fire-and-forget logging entry point: captures the message if
/// processing is active, drops it silently otherwise; it never fails.
pub fn add_log_message(log_manager: &mut LogManager, log_level: LogLevel, log_message: &str)
    ensures
        final(log_manager).entries() == old(log_manager).entries(),
        final(log_manager).wf() == old(log_manager).wf(),
        !old(log_manager).processing_active() ==> *final(log_manager) == *old(log_manager),
        old(log_manager).processing_active() ==> {
            &&& final(log_manager).queued_messages().len() == old(log_manager).queued_messages().len() + 1
            &&& final(log_manager).queued_messages().last().level == log_level
            &&& final(log_manager).queued_messages().last().message@ == log_message@
        },
{
    log_manager.add_log_message(log_level, log_message);
}

} // verus!
