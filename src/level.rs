use vstd::prelude::*;
use crate::text::str_eq;

verus! {

/// How much the tool logs.
#[derive(Clone, Copy, Debug, PartialEq, Eq, Structural)]
pub enum LogLevel {
    Trace,
    Debug,
    Info,
    Warn,
    Error,
}

/// Failure to read a log level name.
#[derive(Clone, Copy, Debug, PartialEq, Eq, Structural)]
pub enum LevelError {
    InvalidLogLevel,
}

/// The level a name denotes; names are lowercase and exact.
pub open spec fn level_of(s: Seq<char>) -> Option<LogLevel> {
    if s == "trace"@ {
        Some(LogLevel::Trace)
    } else if s == "debug"@ {
        Some(LogLevel::Debug)
    } else if s == "info"@ {
        Some(LogLevel::Info)
    } else if s == "warn"@ {
        Some(LogLevel::Warn)
    } else if s == "error"@ {
        Some(LogLevel::Error)
    } else {
        None
    }
}

/// Reads a log level name.
pub fn string_to_log_level(level: &str) -> (r: Result<LogLevel, LevelError>)
    ensures
        r == match level_of(level@) {
            Some(l) => Ok::<LogLevel, LevelError>(l),
            None => Err(LevelError::InvalidLogLevel),
        },
{
    if str_eq(level, "trace") {
        Ok(LogLevel::Trace)
    } else if str_eq(level, "debug") {
        Ok(LogLevel::Debug)
    } else if str_eq(level, "info") {
        Ok(LogLevel::Info)
    } else if str_eq(level, "warn") {
        Ok(LogLevel::Warn)
    } else if str_eq(level, "error") {
        Ok(LogLevel::Error)
    } else {
        Err(LevelError::InvalidLogLevel)
    }
}

} // verus!
