//! Reports: what triggers one, what it carries, and how its delivery ends.

use crate::buffer::RecencyBuffer;
use crate::config::{Config, ConfigView};
use crate::event::{
    event_views, opt_location, opt_text, LogEvent, LogEventView, ReportLocation,
    ReportLocationView,
};
use crate::json::{number_or_null, text_or_null, Json, JsonView};
use crate::text::{decimal, decimal_string};
use vstd::prelude::*;

verus! {

/// A decision to send a report: its title, the place in the source that it
/// is about, where known, and the consumer whose events it is to carry.
#[derive(Debug, PartialEq, Eq)]
pub struct ReportRequest {
    pub title: String,
    pub location: Option<ReportLocation>,
    /// The consumer of the recency buffer on whose behalf the report is sent.
    pub consumer: usize,
}

/// What a [`ReportRequest`] holds, as mathematical values.
pub struct ReportRequestView {
    pub title: Seq<char>,
    pub location: Option<ReportLocationView>,
    pub consumer: usize,
}

impl View for ReportRequest {
    type V = ReportRequestView;

    open spec fn view(&self) -> ReportRequestView {
        ReportRequestView {
            title: self.title@,
            location: opt_location(self.location),
            consumer: self.consumer,
        }
    }
}

/// The view of an optional request.
pub open spec fn opt_request(request: Option<ReportRequest>) -> Option<ReportRequestView> {
    match request {
        Some(r) => Some(r@),
        None => None,
    }
}

/// The location of a record: known when both its file and its line are. A
/// record never carries a column.
pub open spec fn record_location(file: Option<Seq<char>>, line: Option<u32>) -> Option<
    ReportLocationView,
> {
    match (file, line) {
        (Some(f), Some(l)) => Some(ReportLocationView { file: f, line: l, col: None }),
        _ => None,
    }
}

/// The location of a record: known when both its file and its line are.
pub fn location_of_record(file: &Option<String>, line: Option<u32>) -> (location: Option<
    ReportLocation,
>)
    ensures
        opt_location(location) == record_location(opt_text(*file), line),
{
    match (file, line) {
        (Some(f), Some(l)) => Some(ReportLocation { file: f.clone(), line: l, col: None }),
        _ => None,
    }
}

/// What the running process says of itself at the moment of a report.
#[derive(Debug, PartialEq, Eq)]
pub struct RuntimeContext {
    pub thread_id: String,
    pub thread_name: Option<String>,
    pub os: String,
    pub arch: String,
    /// The stack trace of the reporting thread, as text.
    pub trace: String,
}

/// What a [`RuntimeContext`] holds, as mathematical values.
pub struct RuntimeContextView {
    pub thread_id: Seq<char>,
    pub thread_name: Option<Seq<char>>,
    pub os: Seq<char>,
    pub arch: Seq<char>,
    pub trace: Seq<char>,
}

impl View for RuntimeContext {
    type V = RuntimeContextView;

    open spec fn view(&self) -> RuntimeContextView {
        RuntimeContextView {
            thread_id: self.thread_id@,
            thread_name: opt_text(self.thread_name),
            os: self.os@,
            arch: self.arch@,
            trace: self.trace@,
        }
    }
}

/// The outbound unit: one fault or error with its context and the events that
/// led up to it, oldest first.
#[derive(Debug, PartialEq, Eq)]
pub struct Report {
    pub key: String,
    pub env: Option<String>,
    pub name: String,
    pub loc: Option<ReportLocation>,
    pub ver: Option<String>,
    pub tid: String,
    pub tname: Option<String>,
    pub os: String,
    pub arch: String,
    pub trace: String,
    pub log: Vec<LogEvent>,
}

/// What a [`Report`] holds, as mathematical values.
pub struct ReportView {
    pub key: Seq<char>,
    pub env: Option<Seq<char>>,
    pub name: Seq<char>,
    pub loc: Option<ReportLocationView>,
    pub ver: Option<Seq<char>>,
    pub tid: Seq<char>,
    pub tname: Option<Seq<char>>,
    pub os: Seq<char>,
    pub arch: Seq<char>,
    pub trace: Seq<char>,
    pub log: Seq<LogEventView>,
}

impl View for Report {
    type V = ReportView;

    open spec fn view(&self) -> ReportView {
        ReportView {
            key: self.key@,
            env: opt_text(self.env),
            name: self.name@,
            loc: opt_location(self.loc),
            ver: opt_text(self.ver),
            tid: self.tid@,
            tname: opt_text(self.tname),
            os: self.os@,
            arch: self.arch@,
            trace: self.trace@,
            log: event_views(self.log@),
        }
    }
}

/// One request to the collector: a report and the URL it is posted to, once.
#[derive(Debug, PartialEq, Eq)]
pub struct Delivery {
    pub url: String,
    pub report: Report,
}

/// What a [`Delivery`] holds, as mathematical values.
pub struct DeliveryView {
    pub url: Seq<char>,
    pub report: ReportView,
}

impl View for Delivery {
    type V = DeliveryView;

    open spec fn view(&self) -> DeliveryView {
        DeliveryView { url: self.url@, report: self.report@ }
    }
}

/// The delivery that a request leads to, given the settings, the state of the
/// process and the events that wait for the consumer of the request.
pub open spec fn assembled(
    config: ConfigView,
    request: ReportRequestView,
    context: RuntimeContextView,
    log: Seq<LogEventView>,
) -> DeliveryView {
    DeliveryView {
        url: config.backend_url,
        report: ReportView {
            key: config.api_key,
            env: config.environment,
            name: request.title,
            loc: request.location,
            ver: config.version,
            tid: context.thread_id,
            tname: context.thread_name,
            os: context.os,
            arch: context.arch,
            trace: context.trace,
            log,
        },
    }
}

/// Assembles the one delivery that a fault or an error leads to. What waits
/// for the consumer of the request leaves the buffer for the report, oldest
/// event first; what waits for other consumers stays.
pub fn assemble_report(
    config: &Config,
    request: ReportRequest,
    buffer: &mut RecencyBuffer,
    context: RuntimeContext,
) -> (delivery: Delivery)
    ensures
        delivery@ == assembled(
            config@,
            request@,
            context@,
            old(buffer)@.pending(request.consumer as int),
        ),
        final(buffer)@ == old(buffer)@.drained(request.consumer as int),
        final(buffer)@.wf(),
{
    let log = buffer.drain_available(request.consumer);
    Delivery {
        url: config.backend_url().to_owned(),
        report: Report {
            key: config.api_key().to_owned(),
            env: config.environment(),
            name: request.title,
            loc: request.location,
            ver: config.version(),
            tid: context.thread_id,
            tname: context.thread_name,
            os: context.os,
            arch: context.arch,
            trace: context.trace,
            log,
        },
    }
}

/// The JSON object that an event travels as.
pub open spec fn event_json(event: LogEventView) -> JsonView {
    JsonView::Object(
        seq![
            ("ts"@, JsonView::Number(event.timestamp)),
            ("lvl"@, JsonView::Number(event.level.spec_ordinal() as u64)),
            ("msg"@, JsonView::Text(event.message)),
            ("mod"@, text_or_null(event.module)),
            ("f"@, text_or_null(event.file)),
            ("l"@, number_or_null(event.line)),
        ],
    )
}

/// The JSON value that a location travels as: an object, or `null` for none.
pub open spec fn location_json(location: Option<ReportLocationView>) -> JsonView {
    match location {
        Some(l) => JsonView::Object(
            seq![
                ("f"@, JsonView::Text(l.file)),
                ("l"@, JsonView::Number(l.line as u64)),
                ("c"@, number_or_null(l.col)),
            ],
        ),
        None => JsonView::Null,
    }
}

/// The JSON document that a report travels as: the envelope with the key,
/// the environment and the name, and under `data` all the rest.
pub open spec fn report_json(report: ReportView) -> JsonView {
    JsonView::Object(
        seq![
            ("key"@, JsonView::Text(report.key)),
            ("env"@, text_or_null(report.env)),
            ("name"@, JsonView::Text(report.name)),
            (
                "data"@,
                JsonView::Object(
                    seq![
                        ("loc"@, location_json(report.loc)),
                        ("ver"@, text_or_null(report.ver)),
                        ("tid"@, JsonView::Text(report.tid)),
                        ("tname"@, text_or_null(report.tname)),
                        ("os"@, JsonView::Text(report.os)),
                        ("arch"@, JsonView::Text(report.arch)),
                        ("trace"@, JsonView::Text(report.trace)),
                        (
                            "log"@,
                            JsonView::List(
                                report.log.map_values(|e: LogEventView| event_json(e)),
                            ),
                        ),
                    ],
                ),
            ),
        ],
    )
}

impl LogEvent {
    /// The JSON object that the event travels as.
    pub fn to_json(&self) -> (json: Json)
        ensures
            json@ == event_json(self@),
    {
        let mut members: Vec<(String, Json)> = Vec::new();
        members.push(Json::member("ts", Json::Number(self.timestamp)));
        members.push(Json::member("lvl", Json::Number(self.level.ordinal() as u64)));
        members.push(Json::member("msg", Json::text(self.message.as_str())));
        members.push(Json::member("mod", Json::text_or_null(&self.module)));
        members.push(Json::member("f", Json::text_or_null(&self.file)));
        members.push(Json::member("l", Json::number_or_null(self.line)));
        let json = Json::object(members);
        assert(json@->Object_0 =~= event_json(self@)->Object_0);
        json
    }
}

/// The JSON value that a location travels as: an object, or `null` for none.
pub fn location_to_json(location: &Option<ReportLocation>) -> (json: Json)
    ensures
        json@ == location_json(opt_location(*location)),
{
    match location {
        Some(l) => {
            let mut members: Vec<(String, Json)> = Vec::new();
            members.push(Json::member("f", Json::text(l.file.as_str())));
            members.push(Json::member("l", Json::Number(l.line as u64)));
            members.push(Json::member("c", Json::number_or_null(l.col)));
            let json = Json::object(members);
            assert(json@->Object_0 =~= location_json(opt_location(*location))->Object_0);
            json
        },
        None => Json::Null,
    }
}

impl Report {
    /// The JSON document that the report travels as.
    pub fn to_json(&self) -> (json: Json)
        ensures
            json@ == report_json(self@),
    {
        let mut log: Vec<Json> = Vec::new();
        let mut i: usize = 0;
        while i < self.log.len()
            invariant
                i <= self.log@.len(),
                log@.len() == i,
                forall|k: int| 0 <= k < i ==> (#[trigger] log@[k])@ == event_json(self.log@[k]@),
            decreases self.log@.len() - i,
        {
            log.push(self.log[i].to_json());
            i = i + 1;
        }
        let ghost log_views = log@.map_values(|j: Json| j@);
        assert(log_views =~= self@.log.map_values(|e: LogEventView| event_json(e)));

        let mut data: Vec<(String, Json)> = Vec::new();
        data.push(Json::member("loc", location_to_json(&self.loc)));
        data.push(Json::member("ver", Json::text_or_null(&self.ver)));
        data.push(Json::member("tid", Json::text(self.tid.as_str())));
        data.push(Json::member("tname", Json::text_or_null(&self.tname)));
        data.push(Json::member("os", Json::text(self.os.as_str())));
        data.push(Json::member("arch", Json::text(self.arch.as_str())));
        data.push(Json::member("trace", Json::text(self.trace.as_str())));
        data.push(Json::member("log", Json::list(log)));
        let data_json = Json::object(data);
        assert(data_json@->Object_0 =~= report_json(self@)->Object_0[3].1->Object_0);

        let mut envelope: Vec<(String, Json)> = Vec::new();
        envelope.push(Json::member("key", Json::text(self.key.as_str())));
        envelope.push(Json::member("env", Json::text_or_null(&self.env)));
        envelope.push(Json::member("name", Json::text(self.name.as_str())));
        envelope.push(Json::member("data", data_json));
        let json = Json::object(envelope);
        assert(json@->Object_0 =~= report_json(self@)->Object_0);
        json
    }
}

/// How the one attempt to deliver a report ended.
#[derive(Debug, PartialEq, Eq)]
pub enum DeliveryOutcome {
    /// The collector answered with a success status.
    Delivered,
    /// The collector answered with another status.
    Status { code: u16, response: String },
    /// No answer was had.
    Transport { error: String },
}

/// What a [`DeliveryOutcome`] holds, as mathematical values.
pub enum DeliveryOutcomeView {
    Delivered,
    Status { code: u16, response: Seq<char> },
    Transport { error: Seq<char> },
}

impl View for DeliveryOutcome {
    type V = DeliveryOutcomeView;

    open spec fn view(&self) -> DeliveryOutcomeView {
        match self {
            DeliveryOutcome::Delivered => DeliveryOutcomeView::Delivered,
            DeliveryOutcome::Status { code, response } => DeliveryOutcomeView::Status {
                code: *code,
                response: response@,
            },
            DeliveryOutcome::Transport { error } => DeliveryOutcomeView::Transport {
                error: error@,
            },
        }
    }
}

/// The line that tells of a failed delivery; a successful one has none.
pub open spec fn diagnostic_line(url: Seq<char>, outcome: DeliveryOutcomeView) -> Option<
    Seq<char>,
> {
    match outcome {
        DeliveryOutcomeView::Delivered => None,
        DeliveryOutcomeView::Status { code, response } => Some(
            "Error sending report to "@ + url + ". Code: "@ + decimal(code as nat)
                + ", Response: "@ + response,
        ),
        DeliveryOutcomeView::Transport { error } => Some(
            "Transport error sending report to "@ + url + ". Error: "@ + error,
        ),
    }
}

/// What is left of a delivery for the operator to see: nothing when it
/// succeeded, one diagnostic line when it failed. A failure is never an error
/// to the caller, and nothing is tried again.
pub fn delivery_diagnostic(url: &str, outcome: &DeliveryOutcome) -> (line: Option<String>)
    ensures
        opt_text(line) == diagnostic_line(url@, outcome@),
{
    match outcome {
        DeliveryOutcome::Delivered => None,
        DeliveryOutcome::Status { code, response } => {
            let mut line = "Error sending report to ".to_owned();
            line.append(url);
            line.append(". Code: ");
            line.append(decimal_string(*code as u64).as_str());
            line.append(", Response: ");
            line.append(response.as_str());
            Some(line)
        },
        DeliveryOutcome::Transport { error } => {
            let mut line = "Transport error sending report to ".to_owned();
            line.append(url);
            line.append(". Error: ");
            line.append(error.as_str());
            Some(line)
        },
    }
}

} // verus!
