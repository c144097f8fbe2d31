use diego::logging::console_logger::ConsoleTarget;
use diego::logging::log_manager::{LogError, LogManager};
use diego::logging::log_target::FileTarget;
use diego::logging::{LogLevel, LogTarget};

fn console(level: LogLevel, format: &str) -> LogTarget {
    LogTarget::Console(ConsoleTarget { level, format: format.to_string() })
}

fn file(level: LogLevel) -> LogTarget {
    LogTarget::File(FileTarget { level, target_file: "out.log".to_string() })
}

#[test]
fn test_add_logger_empty_name_any_kind() {
    // An empty name yields InvalidLoggerName for every target kind.
    let mut manager = LogManager::new();
    let r = manager.add_logger("", console(LogLevel::Info, "${message}"));
    assert!(matches!(r, Err(LogError::InvalidLoggerName)));
    let r = manager.add_logger("", file(LogLevel::Info));
    assert!(matches!(r, Err(LogError::InvalidLoggerName)));
    let r = manager.add_logger("   \t", console(LogLevel::Info, "${message}"));
    assert!(matches!(r, Err(LogError::InvalidLoggerName)));
    assert_eq!(manager.get_logger_count(), 0);
    assert!(!manager.is_log_processing_active());
}

#[test]
fn test_add_logger_duplicate_name() {
    // The second registration under one name is rejected; the first stays.
    let mut manager = LogManager::new();
    assert!(manager.add_logger("c1", console(LogLevel::Warn, "${level}")).is_ok());
    let r = manager.add_logger("c1", console(LogLevel::Info, "${message}"));
    match r {
        Err(LogError::LoggerExists(name)) => assert_eq!(name, "c1"),
        _ => panic!("expected LoggerExists"),
    }
    assert_eq!(manager.get_logger_count(), 1);
    // The first registration is unaffected: its Warn filter still drops Info.
    manager.add_log_message(LogLevel::Info, "quiet");
    assert_eq!(manager.process_pending().len(), 0);
    manager.add_log_message(LogLevel::Error, "loud");
    assert_eq!(manager.process_pending().len(), 1);
}

#[test]
fn test_remove_logger_not_found() {
    let mut manager = LogManager::new();
    assert!(manager.add_logger("keep", console(LogLevel::Info, "${message}")).is_ok());
    let r = manager.remove_logger("absent");
    match r {
        Err(LogError::LoggerNotFound(name)) => assert_eq!(name, "absent"),
        _ => panic!("expected LoggerNotFound"),
    }
    assert_eq!(manager.get_logger_count(), 1);
    assert!(manager.is_log_processing_active());
}

#[test]
fn test_update_logger_wrong_target_type() {
    let mut manager = LogManager::new();
    assert!(manager.add_logger("c1", console(LogLevel::Warn, "${level}")).is_ok());
    let r = manager.update_logger("c1", file(LogLevel::Trace));
    match r {
        Err(LogError::WrongTargetType(required, offered)) => {
            assert_eq!(required, "ConsoleTarget");
            assert_eq!(offered, "FileTarget");
        },
        _ => panic!("expected WrongTargetType"),
    }
    // The original configuration is untouched: Info is still filtered out.
    manager.add_log_message(LogLevel::Info, "quiet");
    assert_eq!(manager.process_pending().len(), 0);
    manager.add_log_message(LogLevel::Warn, "warned");
    assert_eq!(manager.process_pending().len(), 1);
}

#[test]
fn test_update_logger_same_kind_merges_level_keeps_format() {
    let mut manager = LogManager::new();
    assert!(manager.add_logger("c1", console(LogLevel::Info, "${level}")).is_ok());
    // The update takes the new minimum level but keeps the template.
    assert!(manager.update_logger("c1", console(LogLevel::Warn, "${message}")).is_ok());
    manager.add_log_message(LogLevel::Info, "quiet");
    assert_eq!(manager.process_pending().len(), 0);
    manager.add_log_message(LogLevel::Error, "boom");
    let lines = manager.process_pending();
    assert_eq!(lines.len(), 1);
    assert_eq!(lines[0], "ERROR");
}

#[test]
fn test_whitespace_name_rejected_everywhere() {
    // The whitespace-only name guard is uniform across the mutations.
    let mut manager = LogManager::new();
    assert!(matches!(
        manager.update_logger(" ", console(LogLevel::Info, "${message}")),
        Err(LogError::InvalidLoggerName)
    ));
    assert!(matches!(manager.remove_logger(""), Err(LogError::InvalidLoggerName)));
}

#[test]
fn test_update_logger_not_found() {
    let mut manager = LogManager::new();
    let r = manager.update_logger("ghost", console(LogLevel::Info, "${message}"));
    assert!(matches!(r, Err(LogError::LoggerNotFound(_))));
}

#[test]
fn test_queue_stops_after_last_logger_removed() {
    // After the last logger is removed the count is 0 and nothing
    // enqueued afterwards is ever dispatched.
    let mut manager = LogManager::new();
    assert!(manager.add_logger("c1", console(LogLevel::Trace, "${message}")).is_ok());
    assert!(manager.is_log_processing_active());
    assert!(manager.remove_logger("c1").is_ok());
    assert_eq!(manager.get_logger_count(), 0);
    assert!(!manager.is_log_processing_active());
    manager.add_log_message(LogLevel::Fatal, "lost");
    assert_eq!(manager.process_pending().len(), 0);
}

#[test]
fn test_clear_all_loggers() {
    let mut manager = LogManager::new();
    assert!(manager.add_logger("a", console(LogLevel::Info, "${message}")).is_ok());
    assert!(manager.add_logger("b", file(LogLevel::Info)).is_ok());
    assert_eq!(manager.clear_all_loggers(), 2);
    assert_eq!(manager.get_logger_count(), 0);
    assert!(!manager.is_log_processing_active());
    assert_eq!(manager.clear_all_loggers(), 0);
}

#[test]
fn test_end_to_end_console_receives_line() {
    // Default console settings: Info minimum, longdate template.
    let mut manager = LogManager::new();
    let target = LogTarget::Console(ConsoleTarget::default());
    assert!(manager.add_logger("c1", target).is_ok());
    manager.add_log_message(LogLevel::Info, "hello");
    let lines = manager.process_pending();
    assert_eq!(lines.len(), 1);
    assert!(lines[0].contains("INFO"));
    assert!(lines[0].contains("hello"));
}

#[test]
fn test_end_to_end_removed_console_never_receives() {
    let mut manager = LogManager::new();
    let target = LogTarget::Console(ConsoleTarget::default());
    assert!(manager.add_logger("c1", target).is_ok());
    assert!(manager.remove_logger("c1").is_ok());
    manager.add_log_message(LogLevel::Info, "lost");
    let lines = manager.process_pending();
    assert!(lines.is_empty());
}

#[test]
fn test_messages_drain_in_fifo_order() {
    let mut manager = LogManager::new();
    assert!(manager.add_logger("c1", console(LogLevel::Trace, "${message}")).is_ok());
    manager.add_log_message(LogLevel::Info, "first");
    manager.add_log_message(LogLevel::Info, "second");
    manager.add_log_message(LogLevel::Info, "third");
    let lines = manager.process_pending();
    assert_eq!(lines, vec!["first", "second", "third"]);
    // A second pass has nothing left to dispatch.
    assert_eq!(manager.process_pending().len(), 0);
}

#[test]
fn test_file_target_dispatch_does_not_block_console() {
    // A failing target must not keep other targets from delivery.
    let mut manager = LogManager::new();
    assert!(manager.add_logger("f", file(LogLevel::Trace)).is_ok());
    assert!(manager.add_logger("c", console(LogLevel::Trace, "${message}")).is_ok());
    manager.add_log_message(LogLevel::Info, "through");
    let lines = manager.process_pending();
    assert_eq!(lines, vec!["through"]);
}

#[test]
fn test_manual_stop_and_restart_processing() {
    let mut manager = LogManager::new();
    assert!(manager.add_logger("c", console(LogLevel::Trace, "${message}")).is_ok());
    manager.stop_log_processing();
    assert!(!manager.is_log_processing_active());
    manager.add_log_message(LogLevel::Info, "dropped");
    assert_eq!(manager.process_pending().len(), 0);
    manager.start_log_processing();
    assert!(manager.is_log_processing_active());
    manager.add_log_message(LogLevel::Info, "kept");
    assert_eq!(manager.process_pending().len(), 1);
}
