//! The adapter for the classic logger interface: what is read of a log record
//! and what becomes of it.

use crate::client::{capture_request, Client, ClientView};
use crate::error::Error;
use crate::event::{clone_opt_text, opt_text, Level, LogEvent, LogEventView};
use crate::report::{opt_request, ReportRequest};
use log::SetLoggerError;
use vstd::prelude::*;

verus! {

/// A record of the classic logger interface, with its message formatted.
#[derive(Debug, PartialEq, Eq)]
pub struct LogRecord {
    pub level: Level,
    pub message: String,
    pub module: Option<String>,
    pub file: Option<String>,
    pub line: Option<u32>,
}

/// What a [`LogRecord`] holds, as mathematical values.
pub struct LogRecordView {
    pub level: Level,
    pub message: Seq<char>,
    pub module: Option<Seq<char>>,
    pub file: Option<Seq<char>>,
    pub line: Option<u32>,
}

impl View for LogRecord {
    type V = LogRecordView;

    open spec fn view(&self) -> LogRecordView {
        LogRecordView {
            level: self.level,
            message: self.message@,
            module: opt_text(self.module),
            file: opt_text(self.file),
            line: self.line,
        }
    }
}

/// The event that a log record arriving at `timestamp` is captured as.
pub open spec fn event_of_record(record: LogRecordView, timestamp: u64) -> LogEventView {
    LogEventView {
        timestamp,
        level: record.level,
        message: record.message,
        module: record.module,
        file: record.file,
        line: record.line,
    }
}

impl LogRecord {
    /// The event the record is captured as when it arrives at `timestamp`,
    /// in seconds since the Unix epoch.
    pub fn to_event(&self, timestamp: u64) -> (event: LogEvent)
        ensures
            event@ == event_of_record(self@, timestamp),
    {
        LogEvent {
            timestamp,
            level: self.level,
            message: self.message.clone(),
            module: clone_opt_text(&self.module),
            file: clone_opt_text(&self.file),
            line: self.line,
        }
    }
}

/// The capture side of the logger that wraps the application's own: a
/// consumer of the recency buffer, through which log records come in and on
/// whose behalf the reports about them are sent.
#[derive(Clone, Copy, Debug, PartialEq, Eq)]
pub struct LogWrapper {
    /// The consumer the wrapper goes by.
    pub consumer: usize,
}

impl Client {
    /// A wrapper for the logger of the application, attached to the recency
    /// buffer as a consumer of its own. It is for [`Client::set_logger`] to
    /// say whether the wrapper came into use.
    pub fn log_wrapper(&mut self) -> (wrapper: LogWrapper)
        ensures
            wrapper.consumer == old(self)@.buffer.streams.len(),
            final(self)@ == (ClientView { buffer: old(self)@.buffer.attached(), ..old(self)@ }),
            final(self)@.buffer.wf(),
    {
        LogWrapper { consumer: self.attach() }
    }

    /// Settles the attempt to make `wrapper` the logger of the process. If
    /// it was installed, all stays as it is. If it was refused because a
    /// logger had been installed before, the wrapper is detached and the
    /// refusal is the error.
    pub fn set_logger(
        &mut self,
        wrapper: LogWrapper,
        installed: Result<(), SetLoggerError>,
    ) -> (outcome: Result<(), Error>)
        ensures
            outcome is Ok <==> installed is Ok,
            installed matches Err(e) ==> outcome == Err::<(), Error>(Error::SetLoggerError(e)),
            final(self)@ == (ClientView {
                buffer: if installed is Ok || wrapper.consumer == old(self)@.hook {
                    old(self)@.buffer
                } else {
                    old(self)@.buffer.detached(wrapper.consumer as int)
                },
                ..old(self)@
            }),
    {
        match installed {
            Ok(()) => Ok(()),
            Err(e) => {
                self.detach(wrapper.consumer);
                Err(Error::from(e))
            },
        }
    }
}

impl LogWrapper {
    /// Takes in a log record that arrives at `now`: buffers it as an event
    /// for every consumer and says whether it is to be reported. The record
    /// goes on to the wrapped logger whatever happens here.
    pub fn log(&self, client: &mut Client, record: &LogRecord, now: u64) -> (request: Option<
        ReportRequest,
    >)
        ensures
            final(client)@ == (ClientView {
                buffer: old(client)@.buffer.pushed(event_of_record(record@, now)),
                ..old(client)@
            }),
            final(client)@.buffer.wf(),
            opt_request(request) == capture_request(
                old(client)@.config,
                event_of_record(record@, now),
                self.consumer,
            ),
    {
        client.capture(self.consumer, record.to_event(now))
    }
}

} // verus!
