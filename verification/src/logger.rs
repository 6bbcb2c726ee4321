//! Console records and the checks a message must pass before it is logged.

use vstd::prelude::*;
use crate::text::copy_of_text;
use crate::text::text_view;

verus! {

/// Why a message was not logged.
#[derive(Debug, Clone, PartialEq, Eq)]
pub enum LoggerError {
    InvalidMessage(String),
    InvalidStyle(String),
}

/// The mathematical value of a [`LoggerError`].
pub enum LoggerErrorView {
    InvalidMessage(Seq<char>),
    InvalidStyle(Seq<char>),
}

impl View for LoggerError {
    type V = LoggerErrorView;

    open spec fn view(&self) -> LoggerErrorView {
        match self {
            LoggerError::InvalidMessage(detail) => LoggerErrorView::InvalidMessage(detail@),
            LoggerError::InvalidStyle(detail) => LoggerErrorView::InvalidStyle(detail@),
        }
    }
}

impl LoggerErrorView {
    /// The text that describes this failure.
    pub open spec fn message(self) -> Seq<char> {
        match self {
            LoggerErrorView::InvalidMessage(detail) => "Invalid message: "@ + detail,
            LoggerErrorView::InvalidStyle(detail) => "Invalid style: "@ + detail,
        }
    }
}

impl LoggerError {
    /// The text that describes this failure.
    pub fn message(&self) -> (r: String)
        ensures
            r@ == self@.message(),
    {
        match self {
            LoggerError::InvalidMessage(detail) => String::from_str("Invalid message: ").concat(
                detail.as_str(),
            ),
            LoggerError::InvalidStyle(detail) => String::from_str("Invalid style: ").concat(
                detail.as_str(),
            ),
        }
    }
}

/// The console method a record is written with.
#[derive(Debug, Clone, Copy, PartialEq, Eq, Structural)]
pub enum LogLevel {
    Log,
    Warn,
    Info,
    Debug,
    Error,
}

/// One line for the host console: what the host is asked to print.
#[derive(Debug, Clone, PartialEq, Eq)]
pub struct LogRecord {
    pub level: LogLevel,
    pub text: String,
    /// The CSS for a styled line, whose text starts with `%c`.
    pub style: Option<String>,
}

/// The mathematical value of a [`LogRecord`].
pub struct LogRecordView {
    pub level: LogLevel,
    pub text: Seq<char>,
    pub style: Option<Seq<char>>,
}

impl View for LogRecord {
    type V = LogRecordView;

    open spec fn view(&self) -> LogRecordView {
        LogRecordView {
            level: self.level,
            text: self.text@,
            style: text_view(self.style),
        }
    }
}

impl LogRecord {
    /// A copy of this record.
    pub fn duplicate(&self) -> (r: LogRecord)
        ensures
            r@ == self@,
    {
        LogRecord { level: self.level, text: self.text.clone(), style: copy_of_text(&self.style) }
    }
}

/// What logging `message` at `level` yields: the record, or the refusal of
/// an empty message.
pub open spec fn plain_record(level: LogLevel, message: Seq<char>) -> Result<
    LogRecordView,
    LoggerErrorView,
> {
    if message.len() == 0 {
        Err(LoggerErrorView::InvalidMessage("Message cannot be empty"@))
    } else {
        Ok(LogRecordView { level: level, text: message, style: None })
    }
}

/// What logging `message` with the CSS `style` yields.
pub open spec fn styled_record(message: Seq<char>, style: Seq<char>) -> Result<
    LogRecordView,
    LoggerErrorView,
> {
    if message.len() == 0 {
        Err(LoggerErrorView::InvalidMessage("Message cannot be empty"@))
    } else if style.len() == 0 {
        Err(LoggerErrorView::InvalidStyle("Style cannot be empty"@))
    } else {
        Ok(LogRecordView { level: LogLevel::Log, text: "%c"@ + message, style: Some(style) })
    }
}

/// The view of a logging result.
pub open spec fn logged_view(r: Result<LogRecord, LoggerError>) -> Result<
    LogRecordView,
    LoggerErrorView,
> {
    match r {
        Ok(record) => Ok(record@),
        Err(e) => Err(e@),
    }
}

/// Checks messages and turns them into console records.
pub struct Logger;

impl Logger {
    fn record(level: LogLevel, message: &str) -> (r: Result<LogRecord, LoggerError>)
        ensures
            logged_view(r) == plain_record(level, message@),
    {
        if message.is_empty() {
            Err(LoggerError::InvalidMessage(String::from_str("Message cannot be empty")))
        } else {
            Ok(LogRecord { level: level, text: String::from_str(message), style: None })
        }
    }

    /// A record at the plain level; an empty message is refused.
    pub fn log(message: &str) -> (r: Result<LogRecord, LoggerError>)
        ensures
            logged_view(r) == plain_record(LogLevel::Log, message@),
    {
        Logger::record(LogLevel::Log, message)
    }

    /// A record at the warning level; an empty message is refused.
    pub fn warn(message: &str) -> (r: Result<LogRecord, LoggerError>)
        ensures
            logged_view(r) == plain_record(LogLevel::Warn, message@),
    {
        Logger::record(LogLevel::Warn, message)
    }

    /// A record at the information level; an empty message is refused.
    pub fn info(message: &str) -> (r: Result<LogRecord, LoggerError>)
        ensures
            logged_view(r) == plain_record(LogLevel::Info, message@),
    {
        Logger::record(LogLevel::Info, message)
    }

    /// A record at the debugging level; an empty message is refused.
    pub fn debug(message: &str) -> (r: Result<LogRecord, LoggerError>)
        ensures
            logged_view(r) == plain_record(LogLevel::Debug, message@),
    {
        Logger::record(LogLevel::Debug, message)
    }

    /// A record at the error level; an empty message is refused.
    pub fn error(message: &str) -> (r: Result<LogRecord, LoggerError>)
        ensures
            logged_view(r) == plain_record(LogLevel::Error, message@),
    {
        Logger::record(LogLevel::Error, message)
    }

    /// A styled record: the text is `%c` followed by the message, and the
    /// style travels beside it. An empty message is refused first, then an
    /// empty style.
    pub fn log_with_style(message: &str, style: &str) -> (r: Result<LogRecord, LoggerError>)
        ensures
            logged_view(r) == styled_record(message@, style@),
    {
        if message.is_empty() {
            return Err(LoggerError::InvalidMessage(String::from_str("Message cannot be empty")));
        }
        if style.is_empty() {
            return Err(LoggerError::InvalidStyle(String::from_str("Style cannot be empty")));
        }
        let text = String::from_str("%c").concat(message);
        Ok(LogRecord { level: LogLevel::Log, text: text, style: Some(String::from_str(style)) })
    }
}

} // verus!
