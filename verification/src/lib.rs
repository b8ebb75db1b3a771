//! Crash and error telemetry capture.
//!
//! The crate holds the decisions of a panic-reporting client: what is kept of
//! the application's recent log and trace records, when a fault or an
//! error-level record leads to a report, and what that report says.
//!
//! A [`Client`] is built from a [`Builder`]. Records reach it through its
//! adapters, a [`LogWrapper`] for the classic logger interface and a
//! [`TracingLayer`] for structured tracing events; faults reach it through
//! [`Client::on_panic`]. Each of these answers with the report to send, if
//! any, as a [`ReportRequest`]. [`Client::assemble_report`] turns a request
//! into the one [`Delivery`] that answers it, whose report travels as the
//! JSON document that [`Report::to_json`] gives.
//!
//! The library does no input or output and keeps no time. The host hands it
//! plain records, the time and the state of the process, and carries out what
//! it gets back: it posts the delivery, prints the diagnostic and calls the
//! wrapped panic handler. A client is used by one caller at a time; a host
//! that feeds it from several threads puts it behind a lock.

pub mod buffer;
pub mod client;
pub mod config;
pub mod error;
pub mod event;
pub mod hook;
pub mod json;
pub mod log_wrapper;
pub mod pipeline;
pub mod report;
pub mod text;
pub mod tracing_layer;

pub use buffer::{RecencyBuffer, Ring};
pub use client::Client;
pub use config::{builder, Builder, Config};
pub use error::Error;
pub use event::{Level, LogEvent, ReportLocation};
pub use hook::{FaultPayload, FaultPlan, PanicLocation};
pub use json::Json;
pub use log_wrapper::{LogRecord, LogWrapper};
pub use report::{Delivery, DeliveryOutcome, Report, ReportRequest, RuntimeContext};
pub use tracing_layer::{
    event_message, FieldValue, MessageVisitor, TraceEvent, TraceField, TracingLayer,
};
