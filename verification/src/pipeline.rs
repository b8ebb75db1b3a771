//! What holds of the pipeline as a whole: how the adapters, the recency
//! buffer and the reports go together.

use crate::buffer::{lemma_push_all_keeps_newest, newest, push_all, BufferView};
use crate::client::capture_request;
use crate::config::ConfigView;
use crate::event::{Level, LogEventView};
use crate::log_wrapper::{event_of_record, LogRecordView};
use crate::report::{assembled, RuntimeContextView};
use crate::tracing_layer::{event_of_trace, trace_buffered, trace_request, TraceEventView};
use vstd::prelude::*;

verus! {

/// One thing that happens to the recency buffer of a client.
pub enum Step {
    /// A log record comes in through the logger adapter.
    Log { record: LogRecordView, now: u64 },
    /// A tracing event comes in through a tracing layer.
    Trace { event: TraceEventView, now: u64 },
    /// A report is assembled on behalf of a consumer.
    Report { consumer: int },
}

/// The buffer after a step.
pub open spec fn after(buffer: BufferView, step: Step) -> BufferView {
    match step {
        Step::Log { record, now } => buffer.pushed(event_of_record(record, now)),
        Step::Trace { event, now } => trace_buffered(buffer, event, now),
        Step::Report { consumer } => buffer.drained(consumer),
    }
}

/// The buffer after a run of steps, in order.
pub open spec fn after_all(buffer: BufferView, steps: Seq<Step>) -> BufferView
    decreases steps.len(),
{
    if steps.len() == 0 {
        buffer
    } else {
        after(after_all(buffer, steps.drop_last()), steps.last())
    }
}

/// Whether a report is assembled on behalf of a consumer in a run of steps.
pub open spec fn has_reported(steps: Seq<Step>, consumer: int) -> bool {
    exists|i: int| 0 <= i < steps.len() && #[trigger] steps[i] == (Step::Report { consumer })
}

/// The events that come in during a run of steps after the last report on
/// behalf of a consumer, or during all of it if there is no such report.
pub open spec fn unread(steps: Seq<Step>, consumer: int) -> Seq<LogEventView>
    decreases steps.len(),
{
    if steps.len() == 0 {
        Seq::empty()
    } else {
        let before = unread(steps.drop_last(), consumer);
        match steps.last() {
            Step::Log { record, now } => before.push(event_of_record(record, now)),
            Step::Trace { event, now } => if event.is_event {
                before.push(event_of_trace(event, now))
            } else {
                before
            },
            Step::Report { consumer: other } => if other == consumer {
                Seq::empty()
            } else {
                before
            },
        }
    }
}

/// An error-level log record, on an enabled client that reports such
/// records, asks for one report under the record's message, on behalf of
/// the adapter it came through. Assembled at once, that report carries what
/// then waits for the adapter: the events buffered before, oldest first, and
/// last the record itself. Nothing is left waiting for the adapter
/// afterwards.
pub proof fn law_error_record_reports_what_was_buffered(
    config: ConfigView,
    buffer: BufferView,
    consumer: usize,
    record: LogRecordView,
    now: u64,
    context: RuntimeContextView,
)
    requires
        config.is_enabled,
        config.report_on_log_errors,
        record.level == Level::Error,
        buffer.wf(),
        buffer.is_attached(consumer as int),
    ensures
        ({
            let event = event_of_record(record, now);
            let request = capture_request(config, event, consumer);
            let waiting = buffer.pending(consumer as int);
            let taken_in = buffer.pushed(event);
            let delivery = assembled(
                config,
                request->0,
                context,
                taken_in.pending(consumer as int),
            );
            &&& request is Some
            &&& request->0.title == record.message
            &&& request->0.consumer == consumer
            &&& delivery.url == config.backend_url
            &&& delivery.report.name == record.message
            &&& delivery.report.log == newest(waiting.push(event), buffer.capacity)
            &&& waiting.len() < buffer.capacity ==> delivery.report.log == waiting.push(event)
            &&& delivery.report.log.last() == event
            &&& taken_in.drained(consumer as int).pending(consumer as int).len() == 0
        }),
{
    let event = event_of_record(record, now);
    let waiting = buffer.pending(consumer as int);
}

/// A log record below the error level asks for no report, whatever the
/// settings.
pub proof fn law_lesser_record_is_not_reported(
    config: ConfigView,
    consumer: usize,
    record: LogRecordView,
    now: u64,
)
    requires
        record.level != Level::Error,
    ensures
        capture_request(config, event_of_record(record, now), consumer) is None,
{
}

/// A tracing event below the error level asks for no report, whatever the
/// settings.
pub proof fn law_lesser_trace_event_is_not_reported(
    config: ConfigView,
    consumer: usize,
    event: TraceEventView,
    now: u64,
)
    requires
        event.level != Level::Error,
    ensures
        trace_request(config, event, now, consumer) is None,
{
}

/// What waits for a consumer depends on what came in and on the reports
/// sent on its own behalf, and on nothing else: after any run of steps it is
/// what came in since its last report, pushed onto what waited at the start
/// if it has sent none. Reports on behalf of other consumers take nothing
/// away from it.
pub proof fn law_consumers_read_independently(
    buffer: BufferView,
    steps: Seq<Step>,
    consumer: int,
)
    requires
        buffer.wf(),
        buffer.is_attached(consumer),
    ensures
        after_all(buffer, steps).wf(),
        after_all(buffer, steps).capacity == buffer.capacity,
        after_all(buffer, steps).is_attached(consumer),
        after_all(buffer, steps).pending(consumer) == push_all(
            if has_reported(steps, consumer) {
                Seq::empty()
            } else {
                buffer.pending(consumer)
            },
            buffer.capacity,
            unread(steps, consumer),
        ),
    decreases steps.len(),
{
    if steps.len() > 0 {
        let front = steps.drop_last();
        law_consumers_read_independently(buffer, front, consumer);
        // A report found in the whole run, other than its last step, is one of the front.
        if has_reported(steps, consumer) && steps.last() != (Step::Report { consumer }) {
            let i = choose|i: int|
                0 <= i < steps.len() && #[trigger] steps[i] == (Step::Report { consumer });
            assert(front[i] == steps[i]);
        }
        // A report found in the front is one of the whole run.
        if has_reported(front, consumer) {
            let i = choose|i: int|
                0 <= i < front.len() && #[trigger] front[i] == (Step::Report { consumer });
            assert(steps[i] == front[i]);
        }
        let arrived = unread(front, consumer);
        match steps.last() {
            Step::Log { record, now } => {
                assert(arrived.push(event_of_record(record, now)).drop_last() == arrived);
            },
            Step::Trace { event, now } => {
                if event.is_event {
                    assert(arrived.push(event_of_trace(event, now)).drop_last() == arrived);
                }
            },
            Step::Report { .. } => {},
        }
    }
}

/// The events that come in during a run of steps, in order.
pub open spec fn came_in(steps: Seq<Step>) -> Seq<LogEventView>
    decreases steps.len(),
{
    if steps.len() == 0 {
        Seq::empty()
    } else {
        let before = came_in(steps.drop_last());
        match steps.last() {
            Step::Log { record, now } => before.push(event_of_record(record, now)),
            Step::Trace { event, now } => if event.is_event {
                before.push(event_of_trace(event, now))
            } else {
                before
            },
            Step::Report { .. } => before,
        }
    }
}

/// A consumer that has sent no report has everything that came in to read.
pub proof fn lemma_unread_without_report(steps: Seq<Step>, consumer: int)
    requires
        !has_reported(steps, consumer),
    ensures
        unread(steps, consumer) == came_in(steps),
    decreases steps.len(),
{
    if steps.len() > 0 {
        let front = steps.drop_last();
        assert forall|i: int| 0 <= i < front.len() implies #[trigger] front[i] != (Step::Report {
            consumer,
        }) by {
            assert(steps[i] == front[i]);
        }
        lemma_unread_without_report(front, consumer);
    }
}

/// Two adapters attached to one buffer each find every event that came in
/// after their attachment, through whichever of them, in the order of
/// arrival and for as long as there is room. The reports that one of them
/// sends take nothing away from the other.
pub proof fn law_adapters_observe_every_event(
    buffer: BufferView,
    steps: Seq<Step>,
    one: int,
    other: int,
)
    requires
        buffer.wf(),
        buffer.is_attached(one),
        buffer.is_attached(other),
        one != other,
        buffer.pending(one).len() == 0,
        buffer.pending(other).len() == 0,
        came_in(steps).len() <= buffer.capacity,
    ensures
        !has_reported(steps, one) ==> after_all(buffer, steps).pending(one) == came_in(steps),
        !has_reported(steps, other) ==> after_all(buffer, steps).pending(other) == came_in(steps),
        !has_reported(steps, other) ==> after_all(buffer, steps).drained(one).pending(other)
            == came_in(steps),
{
    lemma_push_all_keeps_newest(Seq::<LogEventView>::empty(), buffer.capacity, came_in(steps));
    if !has_reported(steps, one) {
        law_consumers_read_independently(buffer, steps, one);
        lemma_unread_without_report(steps, one);
        assert(buffer.pending(one) =~= Seq::<LogEventView>::empty());
    }
    if !has_reported(steps, other) {
        law_consumers_read_independently(buffer, steps, other);
        lemma_unread_without_report(steps, other);
        assert(buffer.pending(other) =~= Seq::<LogEventView>::empty());
    }
}

} // verus!
