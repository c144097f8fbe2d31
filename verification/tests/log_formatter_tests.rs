use diego::logging::LogLevel;
use diego::logging::log_formatter::{dec_i64, dec_padded, dec_u64, default_format, format_message, replace};
use diego::logging::log_manager::LogMessage;
use regex::Regex;

#[test]
fn test_format_message_with_longdate() {
    let log_message = LogMessage::new(LogLevel::Info, "Test message");
    let format = "${longdate} [${level}] ${message}";
    let result = format_message(format, &log_message);

    // Check whether the format is replaced correctly
    assert!(result.contains("INFO"));
    assert!(result.contains("Test message"));

    // Check whether the timestamp is in the correct format
    let regex = Regex::new(r"\d{4}-\d{2}-\d{2} \d{2}:\d{2}:\d{2}\.\d{3}").unwrap();
    assert!(regex.is_match(&result), "Timestamp format is incorrect");
}

#[test]
fn test_format_message_with_shortdate() {
    let log_message = LogMessage::new(LogLevel::Error, "An error occurred");
    let format = "${shortdate} [${level}] ${message}";
    let result = format_message(format, &log_message);

    // Check whether the date, level and message are formatted correctly
    assert!(result.contains("ERROR"));
    assert!(result.contains("An error occurred"));

    // Check whether the timestamp is in the correct format
    let regex = Regex::new(r"\d{4}-\d{2}-\d{2}").unwrap();
    assert!(regex.is_match(&result), "Short date format is incorrect");
}

#[test]
fn test_format_message_with_time() {
    let log_message = LogMessage::new(LogLevel::Debug, "Debugging");
    let format = "${time} [${level}] ${message}";
    let result = format_message(format, &log_message);

    // Check whether the time, level and message are formatted correctly
    assert!(result.contains("DEBUG"));
    assert!(result.contains("Debugging"));

    // Check whether the timestamp is in the correct format
    let regex = Regex::new(r"\d{2}:\d{2}:\d{2}\.\d{3}").unwrap();
    assert!(regex.is_match(&result), "Time format is incorrect");
}

#[test]
fn test_format_message_with_ticks() {
    let log_message = LogMessage::new(LogLevel::Warn, "Warning issued");

    let format = "${ticks} [${level}] ${message}";
    let result = format_message(format, &log_message);

    // Check whether the level and the message are formatted correctly
    assert!(result.contains("WARN"));
    assert!(result.contains("Warning issued"));

    // Check whether the ticks are formatted correctly
    let regex = Regex::new(r"\d+").unwrap();
    assert!(regex.is_match(&result), "Ticks format is incorrect");
}

#[test]
fn test_formatter_round_trip_level_and_message() {
    // render("${level} ${message}") for Error/"boom" gives exactly
    // "ERROR boom", with no leftover token syntax.
    let log_message = LogMessage::new(LogLevel::Error, "boom");
    let result = format_message("${level} ${message}", &log_message);
    assert_eq!(result, "ERROR boom");
    assert!(!result.contains("${"));
}

#[test]
fn test_formatter_message_text_is_not_rescanned() {
    // Caller-supplied token syntax in the message text is substituted
    // literally: tokens are expanded once, never recursively.
    let log_message = LogMessage::new(LogLevel::Info, "${level}");
    let result = format_message("${message}", &log_message);
    assert_eq!(result, "${level}");
}

#[test]
fn test_replace_all_occurrences() {
    assert_eq!(replace("aXbXc", "X", "Y"), "aYbYc");
    assert_eq!(replace("ab", "b", "bb"), "abb");
    assert_eq!(replace("no match", "zz", "y"), "no match");
    assert_eq!(replace("aaaa", "aa", "b"), "bb");
}

#[test]
fn test_decimal_rendering() {
    assert_eq!(dec_u64(0), "0");
    assert_eq!(dec_u64(1234567890), "1234567890");
    assert_eq!(dec_i64(-5), "-5");
    assert_eq!(dec_i64(i64::MIN), "-9223372036854775808");
    assert_eq!(dec_padded(7, 3), "007");
    assert_eq!(dec_padded(1234, 2), "1234");
}

#[test]
fn test_default_format_template() {
    assert_eq!(default_format(), "${longdate} [${level}] ${message}");
}
