use diego::logging::console_logger::ConsoleTarget;
use diego::logging::log_manager::{LogMessage, LoggerEntry};
use diego::logging::log_queue::{dispatch_message, LogQueue};
use diego::logging::log_target::FileTarget;
use diego::logging::{DispatchError, LogLevel, LogTarget};

#[test]
fn test_log_level_names() {
    assert_eq!(LogLevel::Trace.as_str(), "TRACE");
    assert_eq!(LogLevel::Debug.as_str(), "DEBUG");
    assert_eq!(LogLevel::Info.as_str(), "INFO");
    assert_eq!(LogLevel::Warn.as_str(), "WARN");
    assert_eq!(LogLevel::Error.as_str(), "ERROR");
    assert_eq!(LogLevel::Fatal.as_str(), "FATAL");
}

#[test]
fn test_log_level_default_and_order() {
    assert_eq!(LogLevel::default(), LogLevel::Info);
    assert!(LogLevel::Trace.severity() < LogLevel::Debug.severity());
    assert!(LogLevel::Debug.severity() < LogLevel::Info.severity());
    assert!(LogLevel::Info.severity() < LogLevel::Warn.severity());
    assert!(LogLevel::Warn.severity() < LogLevel::Error.severity());
    assert!(LogLevel::Error.severity() < LogLevel::Fatal.severity());
}

#[test]
fn test_console_warn_level_filtering() {
    // Minimum level Warn: Trace/Debug/Info are never admitted,
    // Warn/Error/Fatal always are.
    let target = LogTarget::Console(ConsoleTarget {
        level: LogLevel::Warn,
        format: "${message}".to_string(),
    });
    assert!(!target.is_logging_enabled(LogLevel::Trace));
    assert!(!target.is_logging_enabled(LogLevel::Debug));
    assert!(!target.is_logging_enabled(LogLevel::Info));
    assert!(target.is_logging_enabled(LogLevel::Warn));
    assert!(target.is_logging_enabled(LogLevel::Error));
    assert!(target.is_logging_enabled(LogLevel::Fatal));
}

#[test]
fn test_target_names() {
    let c = LogTarget::Console(ConsoleTarget::default());
    let f = LogTarget::File(FileTarget { level: LogLevel::Info, target_file: "x".to_string() });
    assert_eq!(c.target_name(), "ConsoleTarget");
    assert_eq!(f.target_name(), "FileTarget");
}

#[test]
fn test_target_update_rejects_other_kind() {
    let mut c = LogTarget::Console(ConsoleTarget {
        level: LogLevel::Info,
        format: "${message}".to_string(),
    });
    let f = LogTarget::File(FileTarget { level: LogLevel::Warn, target_file: "x".to_string() });
    assert!(!c.update(&f));
    // Unchanged: still admits Info.
    assert!(c.is_logging_enabled(LogLevel::Info));
    let c2 = LogTarget::Console(ConsoleTarget {
        level: LogLevel::Warn,
        format: "${level}".to_string(),
    });
    assert!(c.update(&c2));
    assert!(!c.is_logging_enabled(LogLevel::Info));
}

#[test]
fn test_console_default_settings() {
    let c = ConsoleTarget::default();
    assert_eq!(c.level, LogLevel::Info);
    assert_eq!(c.format, "${longdate} [${level}] ${message}");
}

#[test]
fn test_file_target_dispatch_unsupported() {
    let f = LogTarget::File(FileTarget { level: LogLevel::Trace, target_file: "x".to_string() });
    let m = LogMessage::new(LogLevel::Error, "boom");
    assert!(matches!(f.log(&m), Err(DispatchError::Unsupported)));
}

#[test]
fn test_log_message_new() {
    let m = LogMessage::new(LogLevel::Warn, "text");
    assert_eq!(m.level, LogLevel::Warn);
    assert_eq!(m.message, "text");
}

#[test]
fn test_dispatch_message_order_and_filter() {
    let entries = vec![
        LoggerEntry {
            name: "a".to_string(),
            target: LogTarget::Console(ConsoleTarget {
                level: LogLevel::Trace,
                format: "A ${message}".to_string(),
            }),
        },
        LoggerEntry {
            name: "b".to_string(),
            target: LogTarget::Console(ConsoleTarget {
                level: LogLevel::Error,
                format: "B ${message}".to_string(),
            }),
        },
    ];
    let info = LogMessage::new(LogLevel::Info, "hi");
    let lines = dispatch_message(&entries, &info);
    assert_eq!(lines, vec!["A hi"]);
    let fatal = LogMessage::new(LogLevel::Fatal, "bye");
    let lines = dispatch_message(&entries, &fatal);
    assert_eq!(lines, vec!["A bye", "B bye"]);
}

#[test]
fn test_log_queue_push_drain_cancel() {
    let mut queue = LogQueue::create_and_run().unwrap();
    let entries = vec![LoggerEntry {
        name: "c".to_string(),
        target: LogTarget::Console(ConsoleTarget {
            level: LogLevel::Trace,
            format: "${message}".to_string(),
        }),
    }];
    queue.push_message(LogMessage::new(LogLevel::Info, "one"));
    queue.push_message(LogMessage::new(LogLevel::Info, "two"));
    let lines = queue.process_queue(&entries);
    assert_eq!(lines, vec!["one", "two"]);
    // The drain leaves the queue empty.
    assert!(queue.process_queue(&entries).is_empty());
    // Cancellation is cooperative: pushes still land in the queue.
    queue.cancel();
    queue.push_message(LogMessage::new(LogLevel::Info, "late"));
    assert_eq!(queue.process_queue(&entries), vec!["late"]);
}
