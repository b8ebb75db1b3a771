//! The records the pipeline keeps and reports: severities, captured events and
//! source locations, each with the mathematical view its contracts speak of.

use vstd::prelude::*;

verus! {

/// Severity of a captured record, most severe first.
#[derive(Clone, Copy, Debug, PartialEq, Eq, Structural)]
pub enum Level {
    Error,
    Warn,
    Info,
    Debug,
    Trace,
}

impl Level {
    /// Position on the ordinal scale: 1 for `Error` up to 5 for `Trace`.
    pub open spec fn spec_ordinal(self) -> u8 {
        match self {
            Level::Error => 1,
            Level::Warn => 2,
            Level::Info => 3,
            Level::Debug => 4,
            Level::Trace => 5,
        }
    }

    /// The upper-case name a severity is printed with.
    pub open spec fn spec_label(self) -> Seq<char> {
        match self {
            Level::Error => "ERROR"@,
            Level::Warn => "WARN"@,
            Level::Info => "INFO"@,
            Level::Debug => "DEBUG"@,
            Level::Trace => "TRACE"@,
        }
    }

    /// Position on the ordinal scale: 1 for `Error` up to 5 for `Trace`.
    #[verifier::when_used_as_spec(spec_ordinal)]
    pub fn ordinal(self) -> (n: u8)
        ensures
            n == self.spec_ordinal(),
            1 <= n <= 5,
    {
        match self {
            Level::Error => 1,
            Level::Warn => 2,
            Level::Info => 3,
            Level::Debug => 4,
            Level::Trace => 5,
        }
    }

    /// The upper-case name a severity is printed with.
    pub fn label(self) -> (name: &'static str)
        ensures
            name@ == self.spec_label(),
    {
        match self {
            Level::Error => "ERROR",
            Level::Warn => "WARN",
            Level::Info => "INFO",
            Level::Debug => "DEBUG",
            Level::Trace => "TRACE",
        }
    }

    /// Whether a record of this severity can trigger a report.
    pub fn is_error(self) -> (b: bool)
        ensures
            b <==> self == Level::Error,
    {
        match self {
            Level::Error => true,
            _ => false,
        }
    }
}

/// The characters of an optional text.
pub open spec fn opt_text(text: Option<String>) -> Option<Seq<char>> {
    match text {
        Some(s) => Some(s@),
        None => None,
    }
}

/// A copy of an optional text.
pub fn clone_opt_text(text: &Option<String>) -> (copy: Option<String>)
    ensures
        opt_text(copy) == opt_text(*text),
{
    match text {
        Some(s) => Some(s.clone()),
        None => None,
    }
}

/// One captured log or trace record.
#[derive(Debug, PartialEq, Eq)]
pub struct LogEvent {
    /// Seconds since the Unix epoch at which the record arrived.
    pub timestamp: u64,
    pub level: Level,
    pub message: String,
    /// Module path or target the record came from.
    pub module: Option<String>,
    pub file: Option<String>,
    pub line: Option<u32>,
}

/// What a [`LogEvent`] holds, as mathematical values.
pub struct LogEventView {
    pub timestamp: u64,
    pub level: Level,
    pub message: Seq<char>,
    pub module: Option<Seq<char>>,
    pub file: Option<Seq<char>>,
    pub line: Option<u32>,
}

impl View for LogEvent {
    type V = LogEventView;

    open spec fn view(&self) -> LogEventView {
        LogEventView {
            timestamp: self.timestamp,
            level: self.level,
            message: self.message@,
            module: opt_text(self.module),
            file: opt_text(self.file),
            line: self.line,
        }
    }
}

impl Clone for LogEvent {
    fn clone(&self) -> (copy: Self)
        ensures
            copy@ == self@,
    {
        LogEvent {
            timestamp: self.timestamp,
            level: self.level,
            message: self.message.clone(),
            module: clone_opt_text(&self.module),
            file: clone_opt_text(&self.file),
            line: self.line,
        }
    }
}

/// The views of a run of events, in order.
pub open spec fn event_views(events: Seq<LogEvent>) -> Seq<LogEventView> {
    events.map_values(|e: LogEvent| e@)
}

/// Where in the source a fault or an error-level record arose.
#[derive(Debug, PartialEq, Eq)]
pub struct ReportLocation {
    pub file: String,
    pub line: u32,
    /// Known for faults only.
    pub col: Option<u32>,
}

/// What a [`ReportLocation`] holds, as mathematical values.
pub struct ReportLocationView {
    pub file: Seq<char>,
    pub line: u32,
    pub col: Option<u32>,
}

impl View for ReportLocation {
    type V = ReportLocationView;

    open spec fn view(&self) -> ReportLocationView {
        ReportLocationView { file: self.file@, line: self.line, col: self.col }
    }
}

impl Clone for ReportLocation {
    fn clone(&self) -> (copy: Self)
        ensures
            copy@ == self@,
    {
        ReportLocation { file: self.file.clone(), line: self.line, col: self.col }
    }
}

/// The view of an optional location.
pub open spec fn opt_location(location: Option<ReportLocation>) -> Option<ReportLocationView> {
    match location {
        Some(l) => Some(l@),
        None => None,
    }
}

} // verus!
