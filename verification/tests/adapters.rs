use dontpanic::client::Client;
use dontpanic::config::builder;
use dontpanic::event::{Level, LogEvent, ReportLocation};
use dontpanic::log_wrapper::{LogRecord, LogWrapper};
use dontpanic::report::{ReportRequest, RuntimeContext};
use dontpanic::tracing_layer::{
    event_message, FieldValue, MessageVisitor, TraceEvent, TraceField, TracingLayer,
};

fn enabled_client() -> Client {
    builder("project-key").build().unwrap()
}

fn context() -> RuntimeContext {
    RuntimeContext {
        thread_id: "ThreadId(1)".to_string(),
        thread_name: Some("main".to_string()),
        os: "linux".to_string(),
        arch: "x86_64".to_string(),
        trace: "0: frame".to_string(),
    }
}

fn record(level: Level, message: &str) -> LogRecord {
    LogRecord {
        level,
        message: message.to_string(),
        module: Some("app::db".to_string()),
        file: Some("src/db.rs".to_string()),
        line: Some(17),
    }
}

fn trace(level: Level, fields: Vec<TraceField>) -> TraceEvent {
    TraceEvent {
        level,
        target: "app::net".to_string(),
        name: "event src/net.rs:40".to_string(),
        fields,
        file: Some("src/net.rs".to_string()),
        line: Some(40),
        is_event: true,
    }
}

fn str_field(name: &str, value: &str) -> TraceField {
    TraceField { name: name.to_string(), value: FieldValue::Str(value.to_string()) }
}

fn debug_field(name: &str, rendered: &str) -> TraceField {
    TraceField { name: name.to_string(), value: FieldValue::Debug(rendered.to_string()) }
}

fn said(message: &str) -> Vec<TraceField> {
    vec![debug_field("message", message)]
}

fn title_of(request: &Option<ReportRequest>) -> Option<&str> {
    request.as_ref().map(|r| r.title.as_str())
}

fn location_of(request: &Option<ReportRequest>) -> Option<&ReportLocation> {
    request.as_ref().and_then(|r| r.location.as_ref())
}

fn messages(events: &[LogEvent]) -> Vec<&str> {
    events.iter().map(|e| e.message.as_str()).collect()
}

fn waiting_for(client: &mut Client, consumer: usize) -> Vec<String> {
    let request = ReportRequest { title: "look".to_string(), location: None, consumer };
    let delivery = client.assemble_report(request, context());
    delivery.report.log.into_iter().map(|e| e.message).collect()
}

#[test]
fn levels_map_onto_the_ordinal_scale() {
    assert_eq!(Level::Error.ordinal(), 1);
    assert_eq!(Level::Warn.ordinal(), 2);
    assert_eq!(Level::Info.ordinal(), 3);
    assert_eq!(Level::Debug.ordinal(), 4);
    assert_eq!(Level::Trace.ordinal(), 5);
}

#[test]
fn levels_have_upper_case_labels() {
    assert_eq!(Level::Error.label(), "ERROR");
    assert_eq!(Level::Warn.label(), "WARN");
    assert_eq!(Level::Info.label(), "INFO");
    assert_eq!(Level::Debug.label(), "DEBUG");
    assert_eq!(Level::Trace.label(), "TRACE");
}

#[test]
fn only_the_error_level_is_an_error() {
    assert!(Level::Error.is_error());
    assert!(!Level::Warn.is_error());
    assert!(!Level::Info.is_error());
    assert!(!Level::Debug.is_error());
    assert!(!Level::Trace.is_error());
}

#[test]
fn a_log_record_becomes_an_event_with_its_fields() {
    let event = record(Level::Warn, "slow query").to_event(1_700_000_123);
    assert_eq!(event.timestamp, 1_700_000_123);
    assert_eq!(event.level, Level::Warn);
    assert_eq!(event.message, "slow query");
    assert_eq!(event.module.as_deref(), Some("app::db"));
    assert_eq!(event.file.as_deref(), Some("src/db.rs"));
    assert_eq!(event.line, Some(17));
}

#[test]
fn a_copy_of_an_event_holds_the_same() {
    let event = record(Level::Warn, "slow query").to_event(3);
    assert_eq!(event.clone(), event);
    let location = ReportLocation { file: "f.rs".to_string(), line: 1, col: Some(2) };
    assert_eq!(location.clone(), location);
}

#[test]
fn a_tracing_event_becomes_an_event_under_its_target() {
    let event = trace(Level::Debug, said("connected")).to_event(55);
    assert_eq!(event.timestamp, 55);
    assert_eq!(event.level, Level::Debug);
    assert_eq!(event.message, "connected");
    assert_eq!(event.module.as_deref(), Some("app::net"));
    assert_eq!(event.file.as_deref(), Some("src/net.rs"));
    assert_eq!(event.line, Some(40));
}

#[test]
fn the_message_field_is_taken_as_it_is() {
    let mut visitor = MessageVisitor::new();
    visitor.record_debug("message", "pool exhausted");
    assert_eq!(visitor.into_message(), "pool exhausted");
    let mut visitor = MessageVisitor::new();
    visitor.record_str("message", "said \"hi\"");
    assert_eq!(visitor.into_message(), "said \"hi\"");
}

#[test]
fn other_fields_are_written_as_pairs() {
    let mut visitor = MessageVisitor::new();
    visitor.record_debug("the_answer", "42");
    assert_eq!(visitor.into_message(), "the_answer=42 ");
}

#[test]
fn a_string_field_is_quoted() {
    let mut visitor = MessageVisitor::new();
    visitor.record_str("user", "bob");
    assert_eq!(visitor.into_message(), "user=\"bob\" ");
    let mut visitor = MessageVisitor::new();
    visitor.record_str("path", "a\\b \"c\"\n");
    assert_eq!(visitor.into_message(), "path=\"a\\\\b \\\"c\\\"\\n\" ");
}

#[test]
fn fields_are_concatenated_in_order() {
    let mut visitor = MessageVisitor::new();
    visitor.record(&debug_field("message", "request failed"));
    visitor.record(&debug_field("status", "503"));
    visitor.record(&str_field("host", "db-1"));
    assert_eq!(visitor.into_message(), "request failedstatus=503 host=\"db-1\" ");
}

#[test]
fn the_message_of_an_event_is_what_its_fields_record() {
    let event = trace(
        Level::Info,
        vec![debug_field("attempt", "3"), debug_field("message", "retrying")],
    );
    assert_eq!(event_message(&event), "attempt=3 retrying");
}

#[test]
fn an_event_without_fields_falls_back_to_its_metadata() {
    let event = trace(Level::Error, vec![]);
    assert_eq!(event_message(&event), "ERROR in app::net: event src/net.rs:40");
    let event = trace(Level::Trace, vec![]);
    assert_eq!(event_message(&event), "TRACE in app::net: event src/net.rs:40");
}

#[test]
fn an_empty_message_field_falls_back_too() {
    let event = trace(Level::Warn, vec![str_field("message", "")]);
    assert_eq!(event_message(&event), "WARN in app::net: event src/net.rs:40");
}

#[test]
fn adapters_are_consumers_of_their_own() {
    let mut client = enabled_client();
    assert_eq!(client.hook_consumer(), 0);
    let logger = client.log_wrapper();
    let layer = client.tracing_layer();
    let second_layer = client.tracing_layer();
    assert_eq!(logger, LogWrapper { consumer: 1 });
    assert_eq!(layer, TracingLayer { consumer: 2 });
    assert_eq!(second_layer, TracingLayer { consumer: 3 });
}

#[test]
fn an_error_record_asks_for_one_report() {
    let mut client = enabled_client();
    let logger = client.log_wrapper();
    let request = logger.log(&mut client, &record(Level::Error, "connection lost"), 10);
    assert_eq!(title_of(&request), Some("connection lost"));
    assert_eq!(request.as_ref().unwrap().consumer, logger.consumer);
    let location = location_of(&request).unwrap();
    assert_eq!(location.file, "src/db.rs");
    assert_eq!(location.line, 17);
    assert_eq!(location.col, None);
}

#[test]
fn an_error_report_carries_the_buffered_events_in_order() {
    let mut client = enabled_client();
    let logger = client.log_wrapper();
    let layer = client.tracing_layer();
    assert!(logger.log(&mut client, &record(Level::Info, "starting"), 1).is_none());
    assert!(layer.on_event(&mut client, &trace(Level::Debug, said("dialing")), 2).is_none());
    assert!(logger.log(&mut client, &record(Level::Warn, "slow"), 3).is_none());
    let request = logger.log(&mut client, &record(Level::Error, "boom"), 4).unwrap();
    let delivery = client.assemble_report(request, context());
    assert_eq!(delivery.url, "http://localhost:8080/ingress");
    assert_eq!(delivery.report.name, "boom");
    assert_eq!(messages(&delivery.report.log), vec!["starting", "dialing", "slow", "boom"]);
    let times: Vec<u64> = delivery.report.log.iter().map(|e| e.timestamp).collect();
    assert_eq!(times, vec![1, 2, 3, 4]);
    assert!(waiting_for(&mut client, logger.consumer).is_empty());
}

#[test]
fn a_report_of_one_adapter_leaves_the_other_its_events() {
    let mut client = enabled_client();
    let logger = client.log_wrapper();
    let layer = client.tracing_layer();
    logger.log(&mut client, &record(Level::Info, "one"), 1);
    layer.on_event(&mut client, &trace(Level::Info, said("two")), 2);
    let request = logger.log(&mut client, &record(Level::Error, "three"), 3).unwrap();
    let delivery = client.assemble_report(request, context());
    assert_eq!(messages(&delivery.report.log), vec!["one", "two", "three"]);
    let request = layer.on_event(&mut client, &trace(Level::Error, said("four")), 4).unwrap();
    assert_eq!(request.consumer, layer.consumer);
    let delivery = client.assemble_report(request, context());
    assert_eq!(messages(&delivery.report.log), vec!["one", "two", "three", "four"]);
    let hook = client.hook_consumer();
    assert_eq!(waiting_for(&mut client, hook), vec!["one", "two", "three", "four"]);
    assert_eq!(waiting_for(&mut client, logger.consumer), vec!["four"]);
    assert!(waiting_for(&mut client, layer.consumer).is_empty());
}

#[test]
fn an_adapter_reads_what_came_in_after_its_attachment() {
    let mut client = enabled_client();
    let logger = client.log_wrapper();
    logger.log(&mut client, &record(Level::Info, "early"), 1);
    let layer = client.tracing_layer();
    logger.log(&mut client, &record(Level::Info, "late"), 2);
    layer.on_event(&mut client, &trace(Level::Info, said("later")), 3);
    assert_eq!(waiting_for(&mut client, layer.consumer), vec!["late", "later"]);
    assert_eq!(waiting_for(&mut client, logger.consumer), vec!["early", "late", "later"]);
}

#[test]
fn lesser_records_are_buffered_and_not_reported() {
    for level in [Level::Warn, Level::Info, Level::Debug, Level::Trace] {
        let mut client = enabled_client();
        let logger = client.log_wrapper();
        let layer = client.tracing_layer();
        assert!(logger.log(&mut client, &record(level, "fine"), 1).is_none());
        assert!(layer.on_event(&mut client, &trace(level, vec![]), 2).is_none());
        assert_eq!(waiting_for(&mut client, logger.consumer).len(), 2);
        let mut silent = builder("k").send_report_on_log_errors(false).build().unwrap();
        let logger = silent.log_wrapper();
        let layer = silent.tracing_layer();
        assert!(logger.log(&mut silent, &record(level, "fine"), 1).is_none());
        assert!(layer.on_event(&mut silent, &trace(level, vec![]), 2).is_none());
    }
}

#[test]
fn error_records_are_not_reported_with_the_toggle_off() {
    let mut client = builder("k").send_report_on_log_errors(false).build().unwrap();
    let logger = client.log_wrapper();
    let layer = client.tracing_layer();
    assert!(logger.log(&mut client, &record(Level::Error, "boom"), 1).is_none());
    assert!(layer.on_event(&mut client, &trace(Level::Error, vec![]), 2).is_none());
    assert_eq!(waiting_for(&mut client, layer.consumer).len(), 2);
}

#[test]
fn a_disabled_client_buffers_and_does_not_report() {
    let mut client = enabled_client();
    let logger = client.log_wrapper();
    let layer = client.tracing_layer();
    client.set_enabled(false);
    assert!(logger.log(&mut client, &record(Level::Error, "boom"), 1).is_none());
    assert!(layer.on_event(&mut client, &trace(Level::Error, vec![]), 2).is_none());
    client.set_enabled(true);
    let request = logger.log(&mut client, &record(Level::Error, "again"), 3).unwrap();
    let delivery = client.assemble_report(request, context());
    assert_eq!(
        messages(&delivery.report.log),
        vec!["boom", "ERROR in app::net: event src/net.rs:40", "again"]
    );
}

#[test]
fn an_error_event_asks_for_one_report() {
    let mut client = enabled_client();
    let layer = client.tracing_layer();
    let event = trace(
        Level::Error,
        vec![debug_field("message", "backend gone"), debug_field("code", "7")],
    );
    let request = layer.on_event(&mut client, &event, 9);
    assert_eq!(title_of(&request), Some("backend gonecode=7 "));
    assert_eq!(request.as_ref().unwrap().consumer, layer.consumer);
    let location = location_of(&request).unwrap();
    assert_eq!(location.file, "src/net.rs");
    assert_eq!(location.line, 40);
    assert_eq!(location.col, None);
}

#[test]
fn a_record_without_file_or_line_has_no_location() {
    let mut client = enabled_client();
    let logger = client.log_wrapper();
    let mut no_line = record(Level::Error, "a");
    no_line.line = None;
    let request = logger.log(&mut client, &no_line, 1);
    assert_eq!(title_of(&request), Some("a"));
    assert!(location_of(&request).is_none());
    let mut no_file = record(Level::Error, "b");
    no_file.file = None;
    let request = logger.log(&mut client, &no_file, 2);
    assert_eq!(title_of(&request), Some("b"));
    assert!(location_of(&request).is_none());
}

#[test]
fn what_is_not_an_event_is_passed_over() {
    let mut client = enabled_client();
    let layer = client.tracing_layer();
    let mut span = trace(Level::Error, said("a span"));
    span.is_event = false;
    assert!(layer.on_event(&mut client, &span, 1).is_none());
    assert!(waiting_for(&mut client, layer.consumer).is_empty());
    let hook = client.hook_consumer();
    assert!(waiting_for(&mut client, hook).is_empty());
}

#[test]
fn both_adapters_observe_every_event() {
    let mut client = enabled_client();
    let logger = client.log_wrapper();
    let layer = client.tracing_layer();
    for n in 0..20u64 {
        if n % 2 == 0 {
            logger.log(&mut client, &record(Level::Info, &format!("log {n}")), n);
        } else {
            layer.on_event(&mut client, &trace(Level::Info, said(&format!("trace {n}"))), n);
        }
    }
    let expected: Vec<String> = (0..20u64)
        .map(|n| if n % 2 == 0 { format!("log {n}") } else { format!("trace {n}") })
        .collect();
    assert_eq!(waiting_for(&mut client, logger.consumer), expected);
    assert_eq!(waiting_for(&mut client, layer.consumer), expected);
    let hook = client.hook_consumer();
    assert_eq!(waiting_for(&mut client, hook), expected);
}

#[test]
fn the_client_keeps_the_last_hundred_events() {
    let mut client = enabled_client();
    let logger = client.log_wrapper();
    for n in 0..130u64 {
        logger.log(&mut client, &record(Level::Info, "tick"), n);
    }
    let request = logger.log(&mut client, &record(Level::Error, "boom"), 130).unwrap();
    let delivery = client.assemble_report(request, context());
    let times: Vec<u64> = delivery.report.log.iter().map(|e| e.timestamp).collect();
    assert_eq!(times, (31..=130).collect::<Vec<u64>>());
}

#[test]
fn a_detached_adapter_reads_nothing_more() {
    let mut client = enabled_client();
    let logger = client.log_wrapper();
    logger.log(&mut client, &record(Level::Info, "kept for the hook"), 1);
    client.detach(logger.consumer);
    logger.log(&mut client, &record(Level::Info, "still taken in"), 2);
    assert!(waiting_for(&mut client, logger.consumer).is_empty());
    let hook = client.hook_consumer();
    client.detach(hook);
    assert_eq!(waiting_for(&mut client, hook), vec!["kept for the hook", "still taken in"]);
}

#[test]
fn a_captured_event_waits_for_every_consumer() {
    let mut client = enabled_client();
    let extra = client.attach();
    assert_eq!(extra, 1);
    let event = record(Level::Error, "direct").to_event(7);
    let request = client.capture(extra, event).unwrap();
    assert_eq!(request.title, "direct");
    assert_eq!(request.consumer, extra);
    assert_eq!(
        request.location,
        Some(ReportLocation { file: "src/db.rs".to_string(), line: 17, col: None })
    );
    let hook = client.hook_consumer();
    assert_eq!(waiting_for(&mut client, hook), vec!["direct"]);
    assert_eq!(waiting_for(&mut client, extra), vec!["direct"]);
    client.detach(extra);
    let event = record(Level::Info, "after").to_event(8);
    assert!(client.capture(extra, event).is_none());
    assert!(waiting_for(&mut client, extra).is_empty());
    assert_eq!(waiting_for(&mut client, hook), vec!["after"]);
}
