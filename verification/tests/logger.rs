use video_player::logger::LogLevel;
use video_player::logger::Logger;
use video_player::logger::LoggerError;

#[test]
fn test_logger_functions() {
    assert!(Logger::log("Test log message").is_ok());
    assert!(Logger::warn("Test warning message").is_ok());
    assert!(Logger::debug("Test debug message").is_ok());
    assert!(Logger::log_with_style("Test styled message", "color: red").is_ok());
}

#[test]
fn records_carry_level_and_text() {
    let record = Logger::info("Entering toggle_mute()").unwrap();
    assert_eq!(record.level, LogLevel::Info);
    assert_eq!(record.text, "Entering toggle_mute()");
    assert_eq!(record.style, None);
    assert_eq!(Logger::log("a").unwrap().level, LogLevel::Log);
    assert_eq!(Logger::warn("a").unwrap().level, LogLevel::Warn);
    assert_eq!(Logger::debug("a").unwrap().level, LogLevel::Debug);
    assert_eq!(Logger::error("a").unwrap().level, LogLevel::Error);
}

#[test]
fn empty_message_is_refused_at_every_level() {
    let expected = LoggerError::InvalidMessage("Message cannot be empty".to_string());
    assert_eq!(Logger::log(""), Err(expected.clone()));
    assert_eq!(Logger::warn(""), Err(expected.clone()));
    assert_eq!(Logger::info(""), Err(expected.clone()));
    assert_eq!(Logger::debug(""), Err(expected.clone()));
    assert_eq!(Logger::error(""), Err(expected.clone()));
    assert_eq!(Logger::log_with_style("", "color: red"), Err(expected));
}

#[test]
fn empty_style_is_refused_after_the_message() {
    assert_eq!(
        Logger::log_with_style("Test styled message", ""),
        Err(LoggerError::InvalidStyle("Style cannot be empty".to_string()))
    );
    assert_eq!(
        Logger::log_with_style("", ""),
        Err(LoggerError::InvalidMessage("Message cannot be empty".to_string()))
    );
}

#[test]
fn styled_record_marks_its_text() {
    let record = Logger::log_with_style("Test styled message", "color: red").unwrap();
    assert_eq!(record.level, LogLevel::Log);
    assert_eq!(record.text, "%cTest styled message");
    assert_eq!(record.style, Some("color: red".to_string()));
}

#[test]
fn logger_errors_describe_themselves() {
    assert_eq!(
        LoggerError::InvalidMessage("Message cannot be empty".to_string()).message(),
        "Invalid message: Message cannot be empty"
    );
    assert_eq!(
        LoggerError::InvalidStyle("Style cannot be empty".to_string()).message(),
        "Invalid style: Style cannot be empty"
    );
}
