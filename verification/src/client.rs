//! The client: the configuration together with the recency buffer, and the
//! switch that turns reporting on and off.

use crate::buffer::{BufferView, RecencyBuffer, DEFAULT_CAPACITY};
use crate::config::{Config, ConfigView};
use crate::event::{Level, LogEvent, LogEventView};
use crate::report::{
    self, assembled, location_of_record, opt_request, record_location, Delivery, ReportRequest,
    ReportRequestView, RuntimeContext,
};
use vstd::prelude::*;

verus! {

/// The report that a captured event asks for on behalf of a consumer: one
/// for an error-level event while error reports are wanted and the client is
/// enabled, titled with the event's message; none otherwise.
pub open spec fn capture_request(config: ConfigView, event: LogEventView, consumer: usize)
    -> Option<ReportRequestView> {
    if event.level == Level::Error && config.report_on_log_errors && config.is_enabled {
        Some(
            ReportRequestView {
                title: event.message,
                location: record_location(event.file, event.line),
                consumer,
            },
        )
    } else {
        None
    }
}

/// The state of the capture pipeline of one process.
pub struct Client {
    config: Config,
    buffer: RecencyBuffer,
    hook: usize,
}

/// What a [`Client`] holds, as mathematical values.
pub struct ClientView {
    pub config: ConfigView,
    pub buffer: BufferView,
    /// The consumer that reads the buffer for the fault hook.
    pub hook: usize,
}

impl ClientView {
    /// The client as it is built: nothing buffered yet, and the fault hook
    /// as the one consumer.
    pub open spec fn initial(config: ConfigView) -> ClientView {
        ClientView {
            config,
            buffer: BufferView {
                capacity: DEFAULT_CAPACITY as nat,
                streams: seq![Some(Seq::<LogEventView>::empty())],
            },
            hook: 0,
        }
    }
}

impl View for Client {
    type V = ClientView;

    closed spec fn view(&self) -> ClientView {
        ClientView { config: self.config@, buffer: self.buffer@, hook: self.hook }
    }
}

impl Client {
    /// A client with the given settings: an empty recency buffer of
    /// [`DEFAULT_CAPACITY`] to which the fault hook is attached.
    pub(crate) fn assemble(config: Config) -> (client: Client)
        ensures
            client@ == ClientView::initial(config@),
    {
        let mut buffer = RecencyBuffer::with_default_capacity();
        let hook = buffer.attach();
        Client { config, buffer, hook }
    }

    /// The settings of the client.
    pub fn config(&self) -> (config: &Config)
        ensures
            config@ == self@.config,
    {
        &self.config
    }

    /// Whether faults and error-level records are reported.
    pub fn is_enabled(&self) -> (on: bool)
        ensures
            on == self@.config.is_enabled,
    {
        self.config.is_enabled()
    }

    /// The consumer that reads the buffer for the fault hook.
    pub fn hook_consumer(&self) -> (consumer: usize)
        ensures
            consumer == self@.hook,
    {
        self.hook
    }

    /// Switches reporting on or off. Records are buffered either way.
    pub fn set_enabled(&mut self, enabled: bool)
        ensures
            final(self)@ == (ClientView {
                config: ConfigView { is_enabled: enabled, ..old(self)@.config },
                ..old(self)@
            }),
    {
        self.config.set_enabled(enabled);
    }

    /// Attaches a consumer to the recency buffer and returns the number it
    /// goes by. The consumer reads the events taken in from now on.
    pub fn attach(&mut self) -> (consumer: usize)
        ensures
            consumer == old(self)@.buffer.streams.len(),
            final(self)@ == (ClientView { buffer: old(self)@.buffer.attached(), ..old(self)@ }),
            final(self)@.buffer.wf(),
    {
        self.buffer.attach()
    }

    /// Detaches a consumer from the recency buffer. The consumer of the
    /// fault hook stays attached.
    pub fn detach(&mut self, consumer: usize)
        ensures
            final(self)@ == (ClientView {
                buffer: if consumer == old(self)@.hook {
                    old(self)@.buffer
                } else {
                    old(self)@.buffer.detached(consumer as int)
                },
                ..old(self)@
            }),
    {
        if consumer != self.hook {
            self.buffer.detach(consumer);
        }
    }

    /// Takes in one event that came through a consumer: buffers it for every
    /// consumer, whether or not the client is enabled, and says whether it
    /// is to be reported.
    pub fn capture(&mut self, consumer: usize, event: LogEvent) -> (request: Option<ReportRequest>)
        ensures
            final(self)@ == (ClientView { buffer: old(self)@.buffer.pushed(event@), ..old(self)@ }),
            final(self)@.buffer.wf(),
            opt_request(request) == capture_request(old(self)@.config, event@, consumer),
    {
        let request = if event.level.is_error() && self.config.report_on_log_errors()
            && self.config.is_enabled() {
            Some(
                ReportRequest {
                    title: event.message.clone(),
                    location: location_of_record(&event.file, event.line),
                    consumer,
                },
            )
        } else {
            None
        };
        self.buffer.push(event);
        request
    }

    /// Assembles the one delivery that answers `request`: what waits for
    /// the consumer of the request leaves the buffer for the report, oldest
    /// event first.
    pub fn assemble_report(&mut self, request: ReportRequest, context: RuntimeContext) -> (delivery:
        Delivery)
        ensures
            delivery@ == assembled(
                old(self)@.config,
                request@,
                context@,
                old(self)@.buffer.pending(request.consumer as int),
            ),
            final(self)@ == (ClientView {
                buffer: old(self)@.buffer.drained(request.consumer as int),
                ..old(self)@
            }),
            final(self)@.buffer.wf(),
    {
        report::assemble_report(&self.config, request, &mut self.buffer, context)
    }
}

} // verus!
