//! The severity log sink: an append-only list of (level, message)
//! entries plus a marker for the most recently logged severity.  Guest
//! levels are small positive integers: 1 is Debug, 2 Info, 3 Warning,
//! and anything higher Error; logging never fails.

use vstd::prelude::*;

verus! {

/// Ordered severities; `Silent` is the state of a sink nothing has
/// logged to.
#[derive(Debug, Clone, Copy, PartialEq, Eq, Structural)]
pub enum LogLevel {
    Silent,
    Debug,
    Info,
    Warning,
    Error,
}

/// The severity a guest level number denotes.
pub open spec fn spec_level_from_int(n: int) -> LogLevel {
    if n <= 0 {
        LogLevel::Silent
    } else if n == 1 {
        LogLevel::Debug
    } else if n == 2 {
        LogLevel::Info
    } else if n == 3 {
        LogLevel::Warning
    } else {
        LogLevel::Error
    }
}

/// Map a guest level number to a severity.
pub fn level_from_i64(n: i64) -> (r: LogLevel)
    ensures
        r == spec_level_from_int(n as int),
{
    if n <= 0 {
        LogLevel::Silent
    } else if n == 1 {
        LogLevel::Debug
    } else if n == 2 {
        LogLevel::Info
    } else if n == 3 {
        LogLevel::Warning
    } else {
        LogLevel::Error
    }
}

/// One sink entry.
#[derive(Debug, Clone, PartialEq, Eq)]
pub struct LogEntry {
    pub level: LogLevel,
    pub message: String,
}

/// The append-only log sink.
#[derive(Debug)]
pub struct Logger {
    entries: Vec<LogEntry>,
    current: LogLevel,
}

impl Logger {
    /// The entries logged so far, oldest first.
    pub closed spec fn log(&self) -> Seq<LogEntry> {
        self.entries@
    }

    /// The most recently logged severity.
    pub closed spec fn current(&self) -> LogLevel {
        self.current
    }

    /// A fresh, empty sink.
    pub fn new() -> (r: Logger)
        ensures
            r.log() == Seq::<LogEntry>::empty(),
            r.current() == LogLevel::Silent,
    {
        let r = Logger { entries: Vec::new(), current: LogLevel::Silent };
        proof {
            assert(r.log() =~= Seq::<LogEntry>::empty());
        }
        r
    }

    /// Append one entry and move the current-severity marker to its
    /// level.
    pub fn log_message(&mut self, level: LogLevel, message: String)
        ensures
            final(self).log() == old(self).log().push(LogEntry { level, message }),
            final(self).current() == level,
    {
        self.entries.push(LogEntry { level, message });
        self.current = level;
    }

    /// Drop every entry and reset the marker.
    pub fn clear(&mut self)
        ensures
            final(self).log() == Seq::<LogEntry>::empty(),
            final(self).current() == LogLevel::Silent,
    {
        self.entries.clear();
        self.current = LogLevel::Silent;
    }

    /// The entries, for the host to render.
    pub fn entries(&self) -> (r: &Vec<LogEntry>)
        ensures
            r@ == self.log(),
    {
        &self.entries
    }

    /// The most recently logged severity.
    pub fn get_notification_level(&self) -> (r: LogLevel)
        ensures
            r == self.current(),
    {
        self.current
    }
}

} // verus!
