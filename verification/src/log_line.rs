//! Log lines the library decides on and the caller forwards as log events.
use vstd::prelude::*;

verus! {

/// The severity of a log line.
#[derive(Debug, Clone, Copy, PartialEq, Eq, Structural)]
pub enum LogLevel {
    Debug,
    Info,
    Warn,
    Error,
}

pub open spec fn spec_level_name(level: LogLevel) -> Seq<char> {
    match level {
        LogLevel::Debug => "debug"@,
        LogLevel::Info => "info"@,
        LogLevel::Warn => "warn"@,
        LogLevel::Error => "error"@,
    }
}

impl LogLevel {
    /// The level's name in log events.
    pub fn as_str(self) -> (r: &'static str)
        ensures
            r@ == spec_level_name(self),
    {
        match self {
            LogLevel::Debug => "debug",
            LogLevel::Info => "info",
            LogLevel::Warn => "warn",
            LogLevel::Error => "error",
        }
    }
}

/// One log line: its level and its text.
#[derive(Debug, Clone)]
pub struct LogLine {
    pub level: LogLevel,
    pub message: String,
}

/// The mathematical content of a log line.
pub type LogModel = (LogLevel, Seq<char>);

impl View for LogLine {
    type V = LogModel;

    open spec fn view(&self) -> LogModel {
        (self.level, self.message@)
    }
}

/// The views of a list of log lines.
pub open spec fn log_views(v: Seq<LogLine>) -> Seq<LogModel> {
    v.map_values(|l: LogLine| l@)
}

/// Appends a log line to a list, keeping the views in step.
pub fn push_log(logs: &mut Vec<LogLine>, level: LogLevel, message: String)
    ensures
        log_views(final(logs)@) == log_views(old(logs)@).push((level, message@)),
{
    logs.push(LogLine { level, message });
    assert(log_views(final(logs)@) =~= log_views(old(logs)@).push((level, message@)));
}

} // verus!
