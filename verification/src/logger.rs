//! The log level that a configuration asks for.

use vstd::prelude::*;
use crate::config::types::Config;
use crate::text::{join2, lowercased, same_text, to_lowercase};

verus! {

/// The levels of the log, most verbose first.
#[derive(Clone, Copy, Debug, PartialEq, Eq, Structural)]
pub enum LogLevel {
    Trace,
    Debug,
    Info,
    Warn,
    Error,
}

/// A level that the log does not have.
#[derive(Debug)]
pub struct UnsupportedLevel {
    /// The level as it was asked for, in lower case.
    pub level: String,
}

impl UnsupportedLevel {
    pub open spec fn message_text(&self) -> Seq<char> {
        "Unsupported log level: "@ + self.level@
    }

    pub fn message(&self) -> (text: String)
        ensures
            text@ == self.message_text(),
    {
        join2("Unsupported log level: ", self.level.as_str())
    }
}

/// The level that a lower-case name stands for.
pub open spec fn level_named(name: Seq<char>) -> Option<LogLevel> {
    if name == "trace"@ {
        Some(LogLevel::Trace)
    } else if name == "debug"@ {
        Some(LogLevel::Debug)
    } else if name == "info"@ {
        Some(LogLevel::Info)
    } else if name == "warn"@ {
        Some(LogLevel::Warn)
    } else if name == "error"@ {
        Some(LogLevel::Error)
    } else {
        None
    }
}

/// Reads the level at which the log is to be opened. Case does not matter.
pub fn init_logger(config: &Config) -> (level: Result<LogLevel, UnsupportedLevel>)
    ensures
        match level {
            Ok(l) => level_named(lowercased(config.logger.level@)) == Some(l),
            Err(e) => level_named(lowercased(config.logger.level@)) is None && e.level@
                == lowercased(config.logger.level@),
        },
{
    let lower = to_lowercase(config.logger.level.as_str());
    let name = lower.as_str();
    if same_text(name, "trace") {
        Ok(LogLevel::Trace)
    } else if same_text(name, "debug") {
        Ok(LogLevel::Debug)
    } else if same_text(name, "info") {
        Ok(LogLevel::Info)
    } else if same_text(name, "warn") {
        Ok(LogLevel::Warn)
    } else if same_text(name, "error") {
        Ok(LogLevel::Error)
    } else {
        Err(UnsupportedLevel { level: lower })
    }
}

} // verus!
