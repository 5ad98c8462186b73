use vstd::prelude::*;

use crate::level::LogLevel;

verus! {

/// A point in time, as microseconds relative to the Unix epoch (negative
/// before it).
#[derive(Clone, Copy, Debug, PartialEq, Eq, Structural)]
pub struct Timestamp {
    pub micros: i128,
}

/// A normalized log record.
#[derive(Clone, Debug)]
pub struct LogItem {
    pub hostname: String,
    pub unit: String,
    pub timestamp: Timestamp,
    pub level: LogLevel,
    pub message: String,
}

/// The abstract value of a record: its strings as character sequences.
pub struct LogItemView {
    pub hostname: Seq<char>,
    pub unit: Seq<char>,
    pub timestamp: Timestamp,
    pub level: LogLevel,
    pub message: Seq<char>,
}

impl View for LogItem {
    type V = LogItemView;

    open spec fn view(&self) -> LogItemView {
        LogItemView {
            hostname: self.hostname@,
            unit: self.unit@,
            timestamp: self.timestamp,
            level: self.level,
            message: self.message@,
        }
    }
}

} // verus!
