//! The lines that a review logs.

use vstd::prelude::*;
use vstd::string::StringExecFns;
use crate::contract::{ContractResult, Verdict};

verus! {

/// How loud a record is.
#[derive(Debug, Clone, Copy, PartialEq, Eq, Structural)]
pub enum Level {
    Info,
    Warn,
    Error,
}

/// One line to log.
#[derive(Debug, PartialEq, Eq)]
pub struct LogRecord {
    pub level: Level,
    pub text: String,
}

/// The mathematical content of a `LogRecord`.
pub struct LogLine {
    pub level: Level,
    pub text: Seq<char>,
}

impl View for LogRecord {
    type V = LogLine;

    open spec fn view(&self) -> LogLine {
        LogLine { level: self.level, text: self.text@ }
    }
}

impl DeepView for LogRecord {
    type V = LogLine;

    open spec fn deep_view(&self) -> LogLine {
        self@
    }
}

/// The line that says that the contract called `label` is about to be tested.
pub open spec fn start_line(label: Seq<char>) -> LogLine {
    LogLine { level: Level::Info, text: "Testing contract '"@ + label + "'"@ }
}

/// The line that says what the contract called `label` found: an error for
/// `Fail`, a warning for `Warn`, both with the message, and a plain line for
/// `Pass`.
pub open spec fn outcome_line(label: Seq<char>, verdict: Verdict) -> LogLine {
    match verdict {
        Verdict::Fail { msg } => LogLine {
            level: Level::Error,
            text: "Contract '"@ + label + "' failed:\n"@ + msg,
        },
        Verdict::Warn { msg } => LogLine {
            level: Level::Warn,
            text: "Contract '"@ + label + "' warned: "@ + msg,
        },
        Verdict::Pass => LogLine {
            level: Level::Info,
            text: "Contract '"@ + label + "' passed"@,
        },
    }
}

/// The line that says that `url` is being cloned into `location`.
pub open spec fn cloning_line(url: Seq<char>, location: Seq<char>) -> LogLine {
    LogLine { level: Level::Info, text: "Cloning "@ + url + " to "@ + location }
}

/// The record that announces the test of the contract called `name`.
pub fn announce(name: &str) -> (record: LogRecord)
    ensures
        record@ == start_line(name@),
{
    LogRecord {
        level: Level::Info,
        text: String::from_str("Testing contract '").concat(name).concat("'"),
    }
}

/// The record that reports what the contract called `name` found.
pub fn report(name: &str, result: &ContractResult) -> (record: LogRecord)
    ensures
        record@ == outcome_line(name@, result@),
{
    let opening = String::from_str("Contract '").concat(name);
    match result {
        ContractResult::Fail { msg } => LogRecord {
            level: Level::Error,
            text: opening.concat("' failed:\n").concat(msg.as_str()),
        },
        ContractResult::Warn { msg } => LogRecord {
            level: Level::Warn,
            text: opening.concat("' warned: ").concat(msg.as_str()),
        },
        ContractResult::Pass => LogRecord {
            level: Level::Info,
            text: opening.concat("' passed"),
        },
    }
}

/// The record that says that `url` is being cloned into `location`.
pub fn announce_clone(url: &str, location: &str) -> (record: LogRecord)
    ensures
        record@ == cloning_line(url@, location@),
{
    LogRecord {
        level: Level::Info,
        text: String::from_str("Cloning ").concat(url).concat(" to ").concat(location),
    }
}

} // verus!
