//! The log line that is forwarded to the log collector.

use crate::text::{contains_text, has_substring};
use vstd::prelude::*;
use vstd::string::*;

verus! {

/// One forwarded log line.
#[derive(Debug, PartialEq, Eq)]
pub struct ParseLog {
    pub app: String,
    /// The level as text, as the logger writes it.
    pub level: String,
    pub message: String,
    pub serial: String,
}

/// What a [`ParseLog`] holds, as mathematical text.
pub struct ParseLogView {
    pub app: Seq<char>,
    pub level: Seq<char>,
    pub message: Seq<char>,
    pub serial: Seq<char>,
}

impl View for ParseLog {
    type V = ParseLogView;

    open spec fn view(&self) -> ParseLogView {
        ParseLogView {
            app: self.app@,
            level: self.level@,
            message: self.message@,
            serial: self.serial@,
        }
    }
}

impl DeepView for ParseLog {
    type V = ParseLogView;

    open spec fn deep_view(&self) -> ParseLogView {
        self@
    }
}

impl Clone for ParseLog {
    fn clone(&self) -> (copy: Self)
        ensures
            copy == *self,
    {
        ParseLog {
            app: self.app.clone(),
            level: self.level.clone(),
            message: self.message.clone(),
            serial: self.serial.clone(),
        }
    }
}

/// The line forwarded for a log record: the bridge's own records are
/// forwarded under its application name, those of other crates are not.
pub open spec fn forwarded(
    target: Seq<char>,
    level: Seq<char>,
    message: Seq<char>,
    serial: Seq<char>,
) -> Option<ParseLogView> {
    if has_substring(target, "esl_services_backend"@) {
        Some(ParseLogView { app: "hublot-esl-backend"@, level, message, serial })
    } else {
        None
    }
}

impl ParseLog {
    /// The line to forward for a log record with this target, if any.
    pub fn for_record(target: &str, level: &str, message: &str, serial: &str) -> (line: Option<
        ParseLog,
    >)
        ensures
            line.deep_view() == forwarded(target@, level@, message@, serial@),
    {
        if contains_text(target, "esl_services_backend") {
            Some(
                ParseLog {
                    app: String::from_str("hublot-esl-backend"),
                    level: String::from_str(level),
                    message: String::from_str(message),
                    serial: String::from_str(serial),
                },
            )
        } else {
            None
        }
    }
}

} // verus!
