//! Log messages and their formatting.
//!
//! The background writer thread, the log file and the clock live outside
//! the crate; here are the message type and the exact line layout.

use vstd::prelude::*;

verus! {

/// One message for the background log writer.
pub enum LogMessage {
    Info(String),
    Warn(String),
    Error(String),
    Debug(String),
    Shutdown,
}

/// Mathematical model of a [`LogMessage`].
pub enum LogMessageView {
    Info(Seq<char>),
    Warn(Seq<char>),
    Error(Seq<char>),
    Debug(Seq<char>),
    Shutdown,
}

impl View for LogMessage {
    type V = LogMessageView;

    open spec fn view(&self) -> LogMessageView {
        match self {
            LogMessage::Info(m) => LogMessageView::Info(m@),
            LogMessage::Warn(m) => LogMessageView::Warn(m@),
            LogMessage::Error(m) => LogMessageView::Error(m@),
            LogMessage::Debug(m) => LogMessageView::Debug(m@),
            LogMessage::Shutdown => LogMessageView::Shutdown,
        }
    }
}

/// The message a level tag maps to; unknown tags log as `Info`.
pub open spec fn spec_message_for_level(level: Seq<char>, msg: Seq<char>) -> LogMessageView {
    if level == "INFO"@ {
        LogMessageView::Info(msg)
    } else if level == "WARN"@ {
        LogMessageView::Warn(msg)
    } else if level == "ERROR"@ {
        LogMessageView::Error(msg)
    } else if level == "DEBUG"@ {
        LogMessageView::Debug(msg)
    } else {
        LogMessageView::Info(msg)
    }
}

/// The formatted line for a message, given the timestamp text.
pub open spec fn spec_log_line(m: LogMessageView, ts: Seq<char>) -> Seq<char> {
    match m {
        LogMessageView::Info(msg) => "[INFO "@ + ts + " src\\main.rs:0] "@ + msg,
        LogMessageView::Warn(msg) => "[WARN "@ + ts + " src\\main.rs:0] "@ + msg,
        LogMessageView::Error(msg) => "[ERROR "@ + ts + " src\\main.rs:0] "@ + msg,
        LogMessageView::Debug(msg) => "[DEBUG "@ + ts + " src\\main.rs:0] "@ + msg,
        LogMessageView::Shutdown => Seq::empty(),
    }
}

impl LogMessage {
    /// Wrap a message under its level tag, as the logging front end does.
    pub fn message_for_level(level: &str, message: &str) -> (r: LogMessage)
        ensures
            r@ == spec_message_for_level(level@, message@),
    {
        if crate::text::str_eq(level, "INFO") {
            LogMessage::Info(String::from_str(message))
        } else if crate::text::str_eq(level, "WARN") {
            LogMessage::Warn(String::from_str(message))
        } else if crate::text::str_eq(level, "ERROR") {
            LogMessage::Error(String::from_str(message))
        } else if crate::text::str_eq(level, "DEBUG") {
            LogMessage::Debug(String::from_str(message))
        } else {
            LogMessage::Info(String::from_str(message))
        }
    }

    /// Format the line the writer appends to the log file.  `Shutdown`
    /// carries no text and is never formatted.
    pub fn format_line(&self, timestamp: &str) -> (r: String)
        requires
            !(self@ is Shutdown),
        ensures
            r@ == spec_log_line(self@, timestamp@),
    {
        match self {
            LogMessage::Info(m) => String::from_str("[INFO ").concat(timestamp).concat(
                " src\\main.rs:0] ",
            ).concat(m.as_str()),
            LogMessage::Warn(m) => String::from_str("[WARN ").concat(timestamp).concat(
                " src\\main.rs:0] ",
            ).concat(m.as_str()),
            LogMessage::Error(m) => String::from_str("[ERROR ").concat(timestamp).concat(
                " src\\main.rs:0] ",
            ).concat(m.as_str()),
            LogMessage::Debug(m) => String::from_str("[DEBUG ").concat(timestamp).concat(
                " src\\main.rs:0] ",
            ).concat(m.as_str()),
            LogMessage::Shutdown => String::new(),
        }
    }
}

} // verus!
