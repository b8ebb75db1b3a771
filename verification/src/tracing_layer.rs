//! The adapter for structured tracing events: how the fields of an event
//! become its message, and what becomes of the event.

use crate::buffer::BufferView;
use crate::client::{capture_request, Client, ClientView};
use crate::config::ConfigView;
use crate::event::{clone_opt_text, opt_text, Level, LogEvent, LogEventView};
use crate::report::{opt_request, ReportRequest, ReportRequestView};
use crate::text::{debug_quote, debug_quoted, same_text};
use vstd::prelude::*;

verus! {

/// The name of the field that carries the message of an event.
pub const MESSAGE_FIELD: &'static str = "message";

/// The value of one field of a tracing event, as it reaches a visitor.
#[derive(Debug, PartialEq, Eq)]
pub enum FieldValue {
    /// A string, recorded as such.
    Str(String),
    /// Any other value, by the text its `Debug` form prints.
    Debug(String),
}

/// What a [`FieldValue`] holds, as mathematical values.
pub enum FieldValueView {
    Str(Seq<char>),
    Debug(Seq<char>),
}

impl View for FieldValue {
    type V = FieldValueView;

    open spec fn view(&self) -> FieldValueView {
        match self {
            FieldValue::Str(s) => FieldValueView::Str(s@),
            FieldValue::Debug(s) => FieldValueView::Debug(s@),
        }
    }
}

/// One field of a tracing event.
#[derive(Debug, PartialEq, Eq)]
pub struct TraceField {
    pub name: String,
    pub value: FieldValue,
}

/// What a [`TraceField`] holds, as mathematical values.
pub struct TraceFieldView {
    pub name: Seq<char>,
    pub value: FieldValueView,
}

impl View for TraceField {
    type V = TraceFieldView;

    open spec fn view(&self) -> TraceFieldView {
        TraceFieldView { name: self.name@, value: self.value@ }
    }
}

/// The views of a run of fields, in order.
pub open spec fn field_views(fields: Seq<TraceField>) -> Seq<TraceFieldView> {
    fields.map_values(|f: TraceField| f@)
}

/// What is read of a structured tracing event and its metadata.
#[derive(Debug, PartialEq, Eq)]
pub struct TraceEvent {
    pub level: Level,
    pub target: String,
    /// The name of the callsite.
    pub name: String,
    /// The fields in the order in which they are visited.
    pub fields: Vec<TraceField>,
    pub file: Option<String>,
    pub line: Option<u32>,
    /// Whether the metadata describes an event rather than a span.
    pub is_event: bool,
}

/// What a [`TraceEvent`] holds, as mathematical values.
pub struct TraceEventView {
    pub level: Level,
    pub target: Seq<char>,
    pub name: Seq<char>,
    pub fields: Seq<TraceFieldView>,
    pub file: Option<Seq<char>>,
    pub line: Option<u32>,
    pub is_event: bool,
}

impl View for TraceEvent {
    type V = TraceEventView;

    open spec fn view(&self) -> TraceEventView {
        TraceEventView {
            level: self.level,
            target: self.target@,
            name: self.name@,
            fields: field_views(self.fields@),
            file: opt_text(self.file),
            line: self.line,
            is_event: self.is_event,
        }
    }
}

/// The message after a field is visited whose value is given by the text
/// that its `Debug` form prints: the message field adds that text alone, any
/// other field adds `name=text` and a space.
pub open spec fn visit_debug(message: Seq<char>, field: Seq<char>, rendered: Seq<char>) -> Seq<
    char,
> {
    if field == MESSAGE_FIELD@ {
        message + rendered
    } else {
        message + field + "="@ + rendered + " "@
    }
}

/// The message after a string field is visited: the message field adds the
/// string as it is, any other field adds it quoted, like any other value.
pub open spec fn visit_str(message: Seq<char>, field: Seq<char>, value: Seq<char>) -> Seq<char> {
    if field == MESSAGE_FIELD@ {
        message + value
    } else {
        visit_debug(message, field, debug_quoted(value))
    }
}

/// The message after one field is visited.
pub open spec fn visit_field(message: Seq<char>, field: TraceFieldView) -> Seq<char> {
    match field.value {
        FieldValueView::Str(value) => visit_str(message, field.name, value),
        FieldValueView::Debug(rendered) => visit_debug(message, field.name, rendered),
    }
}

/// The message after a run of fields is visited in order, from nothing.
pub open spec fn fields_message(fields: Seq<TraceFieldView>) -> Seq<char>
    decreases fields.len(),
{
    if fields.len() == 0 {
        Seq::empty()
    } else {
        visit_field(fields_message(fields.drop_last()), fields.last())
    }
}

/// The message of a tracing event: what its fields record or, where they
/// record nothing, `<level> in <target>: <name>`.
pub open spec fn spec_event_message(event: TraceEventView) -> Seq<char> {
    let recorded = fields_message(event.fields);
    if recorded.len() == 0 {
        event.level.spec_label() + " in "@ + event.target + ": "@ + event.name
    } else {
        recorded
    }
}

/// Collects the message of a tracing event from the fields it is shown.
#[derive(Debug)]
pub struct MessageVisitor {
    message: String,
}

impl View for MessageVisitor {
    type V = Seq<char>;

    /// The message collected so far.
    closed spec fn view(&self) -> Seq<char> {
        self.message@
    }
}

impl MessageVisitor {
    /// A visitor that has seen no field.
    pub fn new() -> (visitor: MessageVisitor)
        ensures
            visitor@ == Seq::<char>::empty(),
    {
        MessageVisitor { message: String::new() }
    }

    /// Visits a field whose value is given by the text its `Debug` form
    /// prints.
    pub fn record_debug(&mut self, field: &str, rendered: &str)
        ensures
            final(self)@ == visit_debug(old(self)@, field@, rendered@),
    {
        if same_text(field, MESSAGE_FIELD) {
            self.message.append(rendered);
        } else {
            self.message.append(field);
            self.message.append("=");
            self.message.append(rendered);
            self.message.append(" ");
        }
    }

    /// Visits a string field.
    pub fn record_str(&mut self, field: &str, value: &str)
        ensures
            final(self)@ == visit_str(old(self)@, field@, value@),
    {
        if same_text(field, MESSAGE_FIELD) {
            self.message.append(value);
        } else {
            let quoted = debug_quote(value);
            self.record_debug(field, quoted.as_str());
        }
    }

    /// Visits one field of an event.
    pub fn record(&mut self, field: &TraceField)
        ensures
            final(self)@ == visit_field(old(self)@, field@),
    {
        match &field.value {
            FieldValue::Str(value) => self.record_str(field.name.as_str(), value.as_str()),
            FieldValue::Debug(rendered) => self.record_debug(
                field.name.as_str(),
                rendered.as_str(),
            ),
        }
    }

    /// The message collected.
    pub fn into_message(self) -> (message: String)
        ensures
            message@ == self@,
    {
        self.message
    }
}

/// The message of a tracing event: what its fields record or, where they
/// record nothing, `<level> in <target>: <name>`.
pub fn event_message(event: &TraceEvent) -> (message: String)
    ensures
        message@ == spec_event_message(event@),
{
    let mut visitor = MessageVisitor::new();
    let mut i: usize = 0;
    while i < event.fields.len()
        invariant
            i <= event.fields@.len(),
            visitor@ == fields_message(field_views(event.fields@).take(i as int)),
        decreases event.fields@.len() - i,
    {
        proof {
            let views = field_views(event.fields@);
            assert(views.take(i + 1).drop_last() == views.take(i as int));
        }
        visitor.record(&event.fields[i]);
        i = i + 1;
    }
    proof {
        let views = field_views(event.fields@);
        assert(views.take(i as int) == views);
    }
    let recorded = visitor.into_message();
    if recorded.as_str().is_empty() {
        let mut message = event.level.label().to_owned();
        message.append(" in ");
        message.append(event.target.as_str());
        message.append(": ");
        message.append(event.name.as_str());
        message
    } else {
        recorded
    }
}

/// The event that a tracing event arriving at `timestamp` is captured as.
pub open spec fn event_of_trace(event: TraceEventView, timestamp: u64) -> LogEventView {
    LogEventView {
        timestamp,
        level: event.level,
        message: spec_event_message(event),
        module: Some(event.target),
        file: event.file,
        line: event.line,
    }
}

impl TraceEvent {
    /// The event this one is captured as when it arrives at `timestamp`, in
    /// seconds since the Unix epoch.
    pub fn to_event(&self, timestamp: u64) -> (event: LogEvent)
        ensures
            event@ == event_of_trace(self@, timestamp),
    {
        LogEvent {
            timestamp,
            level: self.level,
            message: event_message(self),
            module: Some(self.target.clone()),
            file: clone_opt_text(&self.file),
            line: self.line,
        }
    }
}

/// The report that a tracing event asks for on behalf of a consumer. What
/// is not an event asks for none.
pub open spec fn trace_request(
    config: ConfigView,
    event: TraceEventView,
    now: u64,
    consumer: usize,
) -> Option<ReportRequestView> {
    if event.is_event {
        capture_request(config, event_of_trace(event, now), consumer)
    } else {
        None
    }
}

/// The buffer after a tracing event has been shown to the pipeline. What is
/// not an event leaves it as it is.
pub open spec fn trace_buffered(buffer: BufferView, event: TraceEventView, now: u64) -> BufferView {
    if event.is_event {
        buffer.pushed(event_of_trace(event, now))
    } else {
        buffer
    }
}

/// A layer that records the events of a tracing subscriber: a consumer of
/// the recency buffer, through which tracing events come in and on whose
/// behalf the reports about them are sent.
#[derive(Clone, Copy, Debug, PartialEq, Eq)]
pub struct TracingLayer {
    /// The consumer the layer goes by.
    pub consumer: usize,
}

impl Client {
    /// A tracing layer, attached to the recency buffer as a consumer of its
    /// own.
    pub fn tracing_layer(&mut self) -> (layer: TracingLayer)
        ensures
            layer.consumer == old(self)@.buffer.streams.len(),
            final(self)@ == (ClientView { buffer: old(self)@.buffer.attached(), ..old(self)@ }),
            final(self)@.buffer.wf(),
    {
        TracingLayer { consumer: self.attach() }
    }
}

impl TracingLayer {
    /// Takes in a tracing event that arrives at `now`: buffers it for every
    /// consumer and says whether it is to be reported. Metadata that
    /// describes no event is passed over.
    pub fn on_event(&self, client: &mut Client, event: &TraceEvent, now: u64) -> (request: Option<
        ReportRequest,
    >)
        ensures
            final(client)@ == (ClientView {
                buffer: trace_buffered(old(client)@.buffer, event@, now),
                ..old(client)@
            }),
            opt_request(request) == trace_request(
                old(client)@.config,
                event@,
                now,
                self.consumer,
            ),
    {
        if !event.is_event {
            return None;
        }
        client.capture(self.consumer, event.to_event(now))
    }
}

} // verus!
