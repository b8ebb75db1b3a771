//! The fault hook: what the handler of a panic decides.
//!
//! The handler wraps the one that was installed before it. Whatever it
//! decides about reporting, the wrapped handler runs afterwards, so a fault
//! ends as it would have without this library.

use crate::client::Client;
use crate::config::ConfigView;
use crate::event::{ReportLocation, ReportLocationView};
use crate::report::{opt_request, ReportRequest, ReportRequestView};
use crate::text::{decimal, decimal_string};
use vstd::prelude::*;

verus! {

/// What a fault carries as its payload.
#[derive(Debug, PartialEq, Eq)]
pub enum FaultPayload {
    /// A string or a string slice: the message of the fault.
    Text(String),
    /// Anything else. Nothing displayable can be had from it.
    Opaque,
}

/// What a [`FaultPayload`] holds, as mathematical values.
pub enum FaultPayloadView {
    Text(Seq<char>),
    Opaque,
}

impl View for FaultPayload {
    type V = FaultPayloadView;

    open spec fn view(&self) -> FaultPayloadView {
        match self {
            FaultPayload::Text(s) => FaultPayloadView::Text(s@),
            FaultPayload::Opaque => FaultPayloadView::Opaque,
        }
    }
}

/// The place in the source at which a fault arose.
#[derive(Debug, PartialEq, Eq)]
pub struct PanicLocation {
    pub file: String,
    pub line: u32,
    pub column: u32,
}

/// What a [`PanicLocation`] holds, as mathematical values.
pub struct PanicLocationView {
    pub file: Seq<char>,
    pub line: u32,
    pub column: u32,
}

impl View for PanicLocation {
    type V = PanicLocationView;

    open spec fn view(&self) -> PanicLocationView {
        PanicLocationView { file: self.file@, line: self.line, column: self.column }
    }
}

/// The view of an optional fault location.
pub open spec fn opt_panic_location(location: Option<PanicLocation>) -> Option<PanicLocationView> {
    match location {
        Some(l) => Some(l@),
        None => None,
    }
}

/// What the handler does about one fault.
#[derive(Debug, PartialEq, Eq)]
pub struct FaultPlan {
    /// The report to send before anything else, if any.
    pub report: Option<ReportRequest>,
    /// Whether the wrapped handler is then called, once.
    pub call_previous: bool,
}

/// What a [`FaultPlan`] holds, as mathematical values.
pub struct FaultPlanView {
    pub report: Option<ReportRequestView>,
    pub call_previous: bool,
}

impl View for FaultPlan {
    type V = FaultPlanView;

    open spec fn view(&self) -> FaultPlanView {
        FaultPlanView { report: opt_request(self.report), call_previous: self.call_previous }
    }
}

/// The title of a fault: its message, followed by ` in <file>:<line>` where
/// the location is known.
pub open spec fn fault_title(message: Seq<char>, location: Option<PanicLocationView>) -> Seq<
    char,
> {
    match location {
        Some(l) => message + " in "@ + l.file + ":"@ + decimal(l.line as nat),
        None => message,
    }
}

/// The location a fault is reported with: file, line and column.
pub open spec fn fault_location(location: Option<PanicLocationView>) -> Option<
    ReportLocationView,
> {
    match location {
        Some(l) => Some(ReportLocationView { file: l.file, line: l.line, col: Some(l.column) }),
        None => None,
    }
}

/// What the handler decides: a report on behalf of the hook's consumer if
/// the client is enabled and the payload is text, and the wrapped handler in
/// every case.
pub open spec fn fault_plan(
    config: ConfigView,
    hook: usize,
    payload: FaultPayloadView,
    location: Option<PanicLocationView>,
) -> FaultPlanView {
    FaultPlanView {
        report: match payload {
            FaultPayloadView::Text(message) if config.is_enabled => Some(
                ReportRequestView {
                    title: fault_title(message, location),
                    location: fault_location(location),
                    consumer: hook,
                },
            ),
            _ => None,
        },
        call_previous: true,
    }
}

/// The report about a fault with the given message: its title and the
/// location it is reported with.
pub fn describe_fault(message: &str, location: &Option<PanicLocation>, consumer: usize) -> (request:
    ReportRequest)
    ensures
        request@ == (ReportRequestView {
            title: fault_title(message@, opt_panic_location(*location)),
            location: fault_location(opt_panic_location(*location)),
            consumer,
        }),
{
    let mut title = message.to_owned();
    match location {
        Some(l) => {
            title.append(" in ");
            title.append(l.file.as_str());
            title.append(":");
            title.append(decimal_string(l.line as u64).as_str());
            ReportRequest {
                title,
                location: Some(
                    ReportLocation { file: l.file.clone(), line: l.line, col: Some(l.column) },
                ),
                consumer,
            }
        },
        None => ReportRequest { title, location: None, consumer },
    }
}

impl Client {
    /// Decides what the handler does about a fault with the given payload
    /// and, where known, location. The buffer is left as it is: a report
    /// takes what waits for the hook when it is assembled.
    pub fn on_panic(&self, payload: &FaultPayload, location: &Option<PanicLocation>) -> (plan:
        FaultPlan)
        ensures
            plan@ == fault_plan(
                self@.config,
                self@.hook,
                payload@,
                opt_panic_location(*location),
            ),
    {
        if !self.is_enabled() {
            return FaultPlan { report: None, call_previous: true };
        }
        match payload {
            FaultPayload::Text(message) => FaultPlan {
                report: Some(describe_fault(message.as_str(), location, self.hook_consumer())),
                call_previous: true,
            },
            FaultPayload::Opaque => FaultPlan { report: None, call_previous: true },
        }
    }
}

/// A fault on a disabled client sends nothing, and the wrapped handler is
/// still called.
pub proof fn law_disabled_fault_is_not_reported(
    config: ConfigView,
    hook: usize,
    payload: FaultPayloadView,
    location: Option<PanicLocationView>,
)
    requires
        !config.is_enabled,
    ensures
        fault_plan(config, hook, payload, location) == (FaultPlanView {
            report: None,
            call_previous: true,
        }),
{
}

/// A fault whose payload is text, at a known location, is reported under the
/// title `<message> in <file>:<line>` with file, line and column.
pub proof fn law_located_fault_title(
    config: ConfigView,
    hook: usize,
    message: Seq<char>,
    location: PanicLocationView,
)
    requires
        config.is_enabled,
    ensures
        fault_plan(config, hook, FaultPayloadView::Text(message), Some(location)).report == Some(
            ReportRequestView {
                title: message + " in "@ + location.file + ":"@ + decimal(location.line as nat),
                location: Some(
                    ReportLocationView {
                        file: location.file,
                        line: location.line,
                        col: Some(location.column),
                    },
                ),
                consumer: hook,
            },
        ),
        fault_plan(config, hook, FaultPayloadView::Text(message), Some(location)).call_previous,
{
}

/// A fault whose payload is not text sends nothing, and the wrapped handler
/// is still called.
pub proof fn law_opaque_fault_is_not_reported(
    config: ConfigView,
    hook: usize,
    location: Option<PanicLocationView>,
)
    ensures
        fault_plan(config, hook, FaultPayloadView::Opaque, location) == (FaultPlanView {
            report: None,
            call_previous: true,
        }),
{
}

} // verus!
