//! The recency buffer: the latest captured events, kept for every consumer
//! that reads them.
//!
//! A [`RecencyBuffer`] takes in events and hands them out to its consumers: the
//! fault hook and each adapter. Every consumer reads the one stream of events
//! from its own position, so what one of them drains is still there for the
//! others. What waits for a consumer is bounded: it is the newest events
//! pushed since that consumer last drained, up to the capacity of the buffer.
//!
//! The events that wait for one consumer are stored in a [`Ring`], a
//! `ring_channel` ring. A `Ring` owns both ends of one channel and never hands
//! them out, so every push and every receive of that ring goes through it,
//! one at a time. Under that ownership the ring is a queue, and the contracts
//! below say how each call changes that queue.

use crate::event::{event_views, LogEvent, LogEventView};
use ring_channel::{RingReceiver, RingSender};
use std::num::NonZeroUsize;
use vstd::prelude::*;

verus! {

/// The sending end of a `ring_channel` channel, opaque to the verifier.
#[verifier::external_type_specification]
#[verifier::external_body]
#[verifier::reject_recursive_types(T)]
pub struct ExRingSender<T>(RingSender<T>);

/// The receiving end of a `ring_channel` channel, opaque to the verifier.
#[verifier::external_type_specification]
#[verifier::external_body]
#[verifier::reject_recursive_types(T)]
pub struct ExRingReceiver<T>(RingReceiver<T>);

/// Number of events the pipeline keeps for each consumer.
pub const DEFAULT_CAPACITY: usize = 100;

/// Largest capacity a buffer can be opened with. A ring allocates all its
/// slots up front; this keeps that allocation small on every target.
pub const MAX_CAPACITY: usize = 65_536;

/// A fixed-capacity queue of recent events that overwrites its oldest entry
/// when a push finds it full: the events that wait for one consumer.
pub struct Ring {
    tx: RingSender<LogEvent>,
    rx: RingReceiver<LogEvent>,
}

/// The messages pending in the channel of a ring, oldest first: what its
/// receiving end would hand out, in this order, if nothing more were sent.
pub uninterp spec fn ring_pending(ring: Ring) -> Seq<LogEventView>;

/// The capacity that the channel of a ring was opened with.
pub uninterp spec fn ring_capacity(ring: Ring) -> nat;

/// The queue after `item` arrives at a ring of `capacity` slots: appended, at
/// the cost of the oldest entry when the ring is full.
pub open spec fn push_lossy<T>(pending: Seq<T>, capacity: nat, item: T) -> Seq<T> {
    if pending.len() < capacity {
        pending.push(item)
    } else {
        pending.drop_first().push(item)
    }
}

/// The queue after every item of `items` has arrived in order.
pub open spec fn push_all<T>(pending: Seq<T>, capacity: nat, items: Seq<T>) -> Seq<T>
    decreases items.len(),
{
    if items.len() == 0 {
        pending
    } else {
        push_lossy(push_all(pending, capacity, items.drop_last()), capacity, items.last())
    }
}

/// The last `capacity` items of `items`, or all of them if there are fewer.
pub open spec fn newest<T>(items: Seq<T>, capacity: nat) -> Seq<T> {
    if items.len() <= capacity {
        items
    } else {
        items.subrange(items.len() - capacity, items.len() as int)
    }
}

/// `ring_channel::ring_channel`: opens a channel over an empty ring buffer of
/// the given capacity, which must not be 0. The two ends it returns are kept
/// together.
#[verifier::external_body]
fn ring_open(capacity: usize) -> (ring: Ring)
    requires
        0 < capacity <= MAX_CAPACITY,
    ensures
        ring_pending(ring) == Seq::<LogEventView>::empty(),
        ring_capacity(ring) == capacity,
{
    let (tx, rx) = ring_channel::ring_channel(NonZeroUsize::new(capacity).unwrap());
    Ring { tx, rx }
}

/// `RingSender::send`: pushes the message into the ring; if the ring is full,
/// the oldest pending message is overwritten. The receiving end is alive as
/// long as the ring is, so the channel is never disconnected.
#[verifier::external_body]
fn ring_send(ring: &mut Ring, event: LogEvent)
    ensures
        ring_pending(*final(ring)) == push_lossy(
            ring_pending(*old(ring)),
            ring_capacity(*old(ring)),
            event@,
        ),
        ring_capacity(*final(ring)) == ring_capacity(*old(ring)),
{
    let _ = ring.tx.send(event);
}

/// `RingReceiver::try_recv`: takes the oldest pending message out of the ring,
/// or reports without waiting that none is pending. Both ways in which it
/// says so, with the sending end alive or gone, are `None` here.
#[verifier::external_body]
fn ring_try_recv(ring: &mut Ring) -> (message: Option<LogEvent>)
    ensures
        ring_capacity(*final(ring)) == ring_capacity(*old(ring)),
        match message {
            Some(event) => {
                &&& ring_pending(*old(ring)).len() > 0
                &&& event@ == ring_pending(*old(ring)).first()
                &&& ring_pending(*final(ring)) == ring_pending(*old(ring)).drop_first()
            },
            None => {
                &&& ring_pending(*old(ring)).len() == 0
                &&& ring_pending(*final(ring)) == ring_pending(*old(ring))
            },
        },
{
    ring.rx.try_recv().ok()
}

impl View for Ring {
    type V = Seq<LogEventView>;

    /// The queued events, oldest first.
    closed spec fn view(&self) -> Seq<LogEventView> {
        ring_pending(*self)
    }
}

impl Ring {
    /// The number of events the ring holds at most.
    pub closed spec fn capacity(&self) -> nat {
        ring_capacity(*self)
    }

    #[verifier::type_invariant]
    spec fn bounded(&self) -> bool {
        0 < ring_capacity(*self) && ring_pending(*self).len() <= ring_capacity(*self)
    }

    /// An empty ring of the given capacity. There is none of capacity 0, nor
    /// of more than [`MAX_CAPACITY`].
    pub fn new(capacity: usize) -> (ring: Option<Ring>)
        ensures
            ring is Some <==> 0 < capacity <= MAX_CAPACITY,
            ring matches Some(r) ==> r@ == Seq::<LogEventView>::empty() && r.capacity()
                == capacity,
    {
        if capacity == 0 || capacity > MAX_CAPACITY {
            None
        } else {
            Some(ring_open(capacity))
        }
    }

    /// Queues an event. Never waits and never fails: a full ring gives up its
    /// oldest event.
    pub fn push(&mut self, event: LogEvent)
        ensures
            final(self)@ == push_lossy(old(self)@, old(self).capacity(), event@),
            final(self).capacity() == old(self).capacity(),
            final(self)@.len() <= final(self).capacity(),
    {
        proof {
            use_type_invariant(&*self);
        }
        ring_send(self, event);
    }

    /// Takes every queued event out, oldest first, and leaves the ring empty.
    /// Returns at once when nothing is queued.
    pub fn drain_available(&mut self) -> (events: Vec<LogEvent>)
        ensures
            event_views(events@) == old(self)@,
            events@.len() == old(self)@.len(),
            forall|i: int| 0 <= i < events@.len() ==> (#[trigger] events@[i])@ == old(self)@[i],
            final(self)@ == Seq::<LogEventView>::empty(),
            final(self).capacity() == old(self).capacity(),
    {
        let mut events: Vec<LogEvent> = Vec::new();
        proof {
            use_type_invariant(&*self);
        }
        loop
            invariant_except_break
                event_views(events@) + ring_pending(*self) == ring_pending(*old(self)),
            invariant
                ring_capacity(*self) == ring_capacity(*old(self)),
                0 < ring_capacity(*self),
            ensures
                event_views(events@) == ring_pending(*old(self)),
                ring_pending(*self) == Seq::<LogEventView>::empty(),
            decreases ring_pending(*self).len(),
        {
            match ring_try_recv(self) {
                Some(event) => {
                    events.push(event);
                },
                None => {
                    break ;
                },
            }
        }
        events
    }
}

/// What a [`RecencyBuffer`] holds, as mathematical values.
pub struct BufferView {
    /// The number of events kept for each consumer at most.
    pub capacity: nat,
    /// For each consumer ever attached, in the order of attachment, the
    /// events that wait for it, oldest first; `None` once it is detached.
    pub streams: Seq<Option<Seq<LogEventView>>>,
}

impl BufferView {
    /// Whether `consumer` names a consumer that is attached.
    pub open spec fn is_attached(self, consumer: int) -> bool {
        0 <= consumer < self.streams.len() && self.streams[consumer] is Some
    }

    /// The events that wait for a consumer; none for one that is not
    /// attached.
    pub open spec fn pending(self, consumer: int) -> Seq<LogEventView> {
        if self.is_attached(consumer) {
            self.streams[consumer]->0
        } else {
            Seq::empty()
        }
    }

    /// The buffer with one more consumer, for which nothing waits yet.
    pub open spec fn attached(self) -> BufferView {
        BufferView { streams: self.streams.push(Some(Seq::empty())), ..self }
    }

    /// The buffer without a consumer and what waited for it.
    pub open spec fn detached(self, consumer: int) -> BufferView {
        if self.is_attached(consumer) {
            BufferView { streams: self.streams.update(consumer, None), ..self }
        } else {
            self
        }
    }

    /// The buffer after an event has arrived: it waits for every attached
    /// consumer, at the cost of the oldest event of a full stream.
    pub open spec fn pushed(self, event: LogEventView) -> BufferView {
        BufferView {
            streams: Seq::new(
                self.streams.len(),
                |i: int|
                    match self.streams[i] {
                        Some(pending) => Some(push_lossy(pending, self.capacity, event)),
                        None => None,
                    },
            ),
            ..self
        }
    }

    /// The buffer after a run of events has arrived in order.
    pub open spec fn pushed_all(self, events: Seq<LogEventView>) -> BufferView
        decreases events.len(),
    {
        if events.len() == 0 {
            self
        } else {
            self.pushed_all(events.drop_last()).pushed(events.last())
        }
    }

    /// The buffer after a consumer has read all that waited for it.
    pub open spec fn drained(self, consumer: int) -> BufferView {
        if self.is_attached(consumer) {
            BufferView { streams: self.streams.update(consumer, Some(Seq::empty())), ..self }
        } else {
            self
        }
    }

    /// What holds of every buffer: it has room, and no more waits for any
    /// consumer than there is room for.
    pub open spec fn wf(self) -> bool {
        &&& 0 < self.capacity
        &&& forall|consumer: int|
            self.is_attached(consumer) ==> (#[trigger] self.streams[consumer])->0.len()
                <= self.capacity
    }
}

/// What waits in a slot of a buffer.
spec fn slot_view(slot: Option<Ring>) -> Option<Seq<LogEventView>> {
    match slot {
        Some(ring) => Some(ring@),
        None => None,
    }
}

/// A bounded, lossy store of recent events with any number of consumers, each
/// of which reads the stream of events from its own position.
pub struct RecencyBuffer {
    capacity: usize,
    rings: Vec<Option<Ring>>,
}

impl View for RecencyBuffer {
    type V = BufferView;

    closed spec fn view(&self) -> BufferView {
        BufferView {
            capacity: self.capacity as nat,
            streams: Seq::new(self.rings@.len(), |i: int| slot_view(self.rings@[i])),
        }
    }
}

impl RecencyBuffer {
    /// Whether the slots could be those of a buffer of the given capacity:
    /// every ring has that capacity and holds no more.
    spec fn fitting(rings: Seq<Option<Ring>>, capacity: usize) -> bool {
        forall|i: int|
            0 <= i < rings.len() && rings[i] is Some ==> {
                &&& (#[trigger] rings[i])->0.capacity() == capacity
                &&& rings[i]->0@.len() <= capacity
            }
    }

    #[verifier::type_invariant]
    spec fn consistent(&self) -> bool {
        0 < self.capacity <= MAX_CAPACITY && Self::fitting(self.rings@, self.capacity)
    }

    /// A buffer of the given capacity without consumers. There is none of
    /// capacity 0, nor of more than [`MAX_CAPACITY`].
    pub fn new(capacity: usize) -> (buffer: Option<RecencyBuffer>)
        ensures
            buffer is Some <==> 0 < capacity <= MAX_CAPACITY,
            buffer matches Some(b) ==> b@ == (BufferView {
                capacity: capacity as nat,
                streams: Seq::empty(),
            }),
    {
        if capacity == 0 || capacity > MAX_CAPACITY {
            None
        } else {
            let buffer = RecencyBuffer { capacity, rings: Vec::new() };
            assert(buffer@.streams =~= Seq::empty());
            Some(buffer)
        }
    }

    /// A buffer of [`DEFAULT_CAPACITY`] without consumers.
    pub fn with_default_capacity() -> (buffer: RecencyBuffer)
        ensures
            buffer@ == (BufferView { capacity: DEFAULT_CAPACITY as nat, streams: Seq::empty() }),
    {
        let buffer = RecencyBuffer { capacity: DEFAULT_CAPACITY, rings: Vec::new() };
        assert(buffer@.streams =~= Seq::empty());
        buffer
    }

    /// Moves the slots out, to be worked on and put back: the bounds that the
    /// buffer keeps are those of its slots, and are looked at again when the
    /// slots return.
    fn take_rings(&mut self) -> (rings: Vec<Option<Ring>>)
        ensures
            rings == old(self).rings,
            final(self).capacity == old(self).capacity,
            Self::fitting(rings@, old(self).capacity),
            0 < old(self).capacity <= MAX_CAPACITY,
    {
        proof {
            use_type_invariant(&*self);
        }
        let mut taken = RecencyBuffer { capacity: self.capacity, rings: Vec::new() };
        core::mem::swap(self, &mut taken);
        taken.rings
    }

    /// Puts slots in the place of those the buffer holds.
    fn put_rings(&mut self, rings: Vec<Option<Ring>>)
        requires
            Self::fitting(rings@, old(self).capacity),
        ensures
            final(self).rings == rings,
            final(self).capacity == old(self).capacity,
    {
        proof {
            use_type_invariant(&*self);
        }
        *self = RecencyBuffer { capacity: self.capacity, rings };
    }

    /// The bounds the type keeps hold of what the buffer shows.
    proof fn lemma_view_wf(self)
        requires
            0 < self.capacity,
            Self::fitting(self.rings@, self.capacity),
        ensures
            self@.wf(),
    {
        assert forall|consumer: int| self@.is_attached(consumer) implies (
        #[trigger] self@.streams[consumer])->0.len() <= self@.capacity by {
            assert(self.rings@[consumer] is Some);
        }
    }

    /// The number of events kept for each consumer at most.
    pub fn capacity(&self) -> (capacity: usize)
        ensures
            capacity == self@.capacity,
            0 < capacity <= MAX_CAPACITY,
    {
        proof {
            use_type_invariant(self);
        }
        self.capacity
    }

    /// Attaches a consumer and returns the number it goes by. The consumer
    /// reads the events pushed from now on.
    pub fn attach(&mut self) -> (consumer: usize)
        ensures
            consumer == old(self)@.streams.len(),
            final(self)@ == old(self)@.attached(),
            final(self)@.wf(),
    {
        let mut rings = self.take_rings();
        let consumer = rings.len();
        rings.push(Some(ring_open(self.capacity)));
        self.put_rings(rings);
        proof {
            assert(self@.streams =~= old(self)@.attached().streams);
            self.lemma_view_wf();
        }
        consumer
    }

    /// Detaches a consumer: what waited for it is dropped, and no event
    /// waits for it again. Leaves the buffer as it is if no such consumer is
    /// attached.
    pub fn detach(&mut self, consumer: usize)
        ensures
            final(self)@ == old(self)@.detached(consumer as int),
            final(self)@.wf(),
    {
        let mut rings = self.take_rings();
        if consumer < rings.len() {
            rings[consumer] = None;
        }
        self.put_rings(rings);
        proof {
            assert(self@.streams =~= old(self)@.detached(consumer as int).streams);
            self.lemma_view_wf();
        }
    }

    /// Takes in an event for every attached consumer. Never waits and never
    /// fails: a consumer for which a full stream waits loses the oldest
    /// event of it.
    pub fn push(&mut self, event: LogEvent)
        ensures
            final(self)@ == old(self)@.pushed(event@),
            final(self)@.wf(),
    {
        let mut rings = self.take_rings();
        let n = rings.len();
        let mut i: usize = 0;
        while i < n
            invariant
                i <= n,
                n == rings@.len(),
                n == old(self).rings@.len(),
                Self::fitting(rings@, old(self).capacity),
                forall|k: int|
                    0 <= k < i ==> slot_view(#[trigger] rings@[k]) == old(self)@.pushed(
                        event@,
                    ).streams[k],
                forall|k: int| i <= k < n ==> (#[trigger] rings@[k]) == old(self).rings@[k],
            decreases n - i,
        {
            match &mut rings[i] {
                Some(ring) => {
                    ring.push(event.clone());
                },
                None => {},
            }
            i = i + 1;
        }
        self.put_rings(rings);
        proof {
            assert(self@.streams =~= old(self)@.pushed(event@).streams);
            self.lemma_view_wf();
        }
    }

    /// Takes out all that waits for a consumer, oldest first. Returns at once
    /// when nothing waits, and with nothing for a consumer that is not
    /// attached. What waits for other consumers stays.
    pub fn drain_available(&mut self, consumer: usize) -> (events: Vec<LogEvent>)
        ensures
            event_views(events@) == old(self)@.pending(consumer as int),
            events@.len() == old(self)@.pending(consumer as int).len(),
            forall|i: int|
                0 <= i < events@.len() ==> (#[trigger] events@[i])@ == old(self)@.pending(
                    consumer as int,
                )[i],
            final(self)@ == old(self)@.drained(consumer as int),
            final(self)@.wf(),
    {
        let mut rings = self.take_rings();
        let events = if consumer < rings.len() {
            match &mut rings[consumer] {
                Some(ring) => ring.drain_available(),
                None => Vec::new(),
            }
        } else {
            Vec::new()
        };
        self.put_rings(rings);
        proof {
            assert(self@.streams =~= old(self)@.drained(consumer as int).streams);
            self.lemma_view_wf();
        }
        events
    }
}

/// A push never takes a queue beyond its capacity, and what was pushed is
/// the newest entry afterwards.
pub proof fn law_push_stays_within_capacity<T>(pending: Seq<T>, capacity: nat, item: T)
    requires
        0 < capacity,
        pending.len() <= capacity,
    ensures
        0 < push_lossy(pending, capacity, item).len() <= capacity,
        push_lossy(pending, capacity, item).last() == item,
{
}

/// Pushing a run of items leaves the newest `capacity` of all that was
/// queued and pushed, in arrival order.
pub proof fn lemma_push_all_keeps_newest<T>(pending: Seq<T>, capacity: nat, items: Seq<T>)
    requires
        0 < capacity,
        pending.len() <= capacity,
    ensures
        push_all(pending, capacity, items) == newest(pending + items, capacity),
    decreases items.len(),
{
    if items.len() > 0 {
        lemma_push_all_keeps_newest(pending, capacity, items.drop_last());
    }
}

/// A queue that starts empty and receives no more events than it has room
/// for holds exactly those events, in push order; a drain then returns them.
pub proof fn law_pushes_within_capacity_are_kept<T>(capacity: nat, items: Seq<T>)
    requires
        0 < capacity,
        items.len() <= capacity,
    ensures
        push_all(Seq::<T>::empty(), capacity, items) == items,
{
    lemma_push_all_keeps_newest(Seq::<T>::empty(), capacity, items);
}

/// A queue that starts empty and receives more events than it has room for
/// holds exactly `capacity` of them: the most recently pushed, oldest first.
pub proof fn law_overflow_keeps_most_recent<T>(capacity: nat, items: Seq<T>)
    requires
        0 < capacity,
        items.len() > capacity,
    ensures
        push_all(Seq::<T>::empty(), capacity, items).len() == capacity,
        push_all(Seq::<T>::empty(), capacity, items) == items.subrange(
            items.len() - capacity,
            items.len() as int,
        ),
        forall|i: int|
            0 <= i < capacity ==> #[trigger] push_all(Seq::<T>::empty(), capacity, items)[i]
                == items[items.len() - capacity + i],
{
    lemma_push_all_keeps_newest(Seq::<T>::empty(), capacity, items);
}

/// A run of pushes is a run of arrivals at the stream of each attached
/// consumer; it attaches and detaches nobody.
pub proof fn lemma_pushed_all_per_consumer(
    buffer: BufferView,
    events: Seq<LogEventView>,
    consumer: int,
)
    ensures
        buffer.pushed_all(events).capacity == buffer.capacity,
        buffer.pushed_all(events).streams.len() == buffer.streams.len(),
        buffer.pushed_all(events).is_attached(consumer) == buffer.is_attached(consumer),
        buffer.is_attached(consumer) ==> buffer.pushed_all(events).pending(consumer) == push_all(
            buffer.pending(consumer),
            buffer.capacity,
            events,
        ),
    decreases events.len(),
{
    if events.len() > 0 {
        lemma_pushed_all_per_consumer(buffer, events.drop_last(), consumer);
    }
}

/// Every consumer that is attached when a run of events arrives finds them
/// all, in push order, as long as there is room for them; and nothing at all
/// where nothing arrived.
pub proof fn law_consumer_reads_pushes_within_capacity(
    buffer: BufferView,
    events: Seq<LogEventView>,
    consumer: int,
)
    requires
        buffer.wf(),
        buffer.is_attached(consumer),
        buffer.pending(consumer).len() + events.len() <= buffer.capacity,
    ensures
        buffer.pushed_all(events).pending(consumer) == buffer.pending(consumer) + events,
        buffer.pending(consumer).len() == 0 ==> buffer.pushed_all(events).pending(consumer)
            == events,
{
    lemma_pushed_all_per_consumer(buffer, events, consumer);
    lemma_push_all_keeps_newest(buffer.pending(consumer), buffer.capacity, events);
}

/// A consumer for which more events arrive than there is room for finds
/// exactly as many as there is room for: the most recently pushed, oldest
/// first.
pub proof fn law_consumer_reads_most_recent_on_overflow(
    buffer: BufferView,
    events: Seq<LogEventView>,
    consumer: int,
)
    requires
        buffer.wf(),
        buffer.is_attached(consumer),
        events.len() > buffer.capacity,
    ensures
        buffer.pushed_all(events).pending(consumer) == events.subrange(
            events.len() - buffer.capacity,
            events.len() as int,
        ),
        buffer.pushed_all(events).pending(consumer).len() == buffer.capacity,
{
    lemma_pushed_all_per_consumer(buffer, events, consumer);
    lemma_push_all_keeps_newest(buffer.pending(consumer), buffer.capacity, events);
}

/// A consumer for which nothing waits drains nothing, and the buffer is as
/// it was.
pub proof fn law_empty_drain(buffer: BufferView, consumer: int)
    requires
        buffer.pending(consumer).len() == 0,
    ensures
        buffer.drained(consumer) == buffer,
{
    if buffer.is_attached(consumer) {
        assert(buffer.streams[consumer]->0 =~= Seq::<LogEventView>::empty());
        assert(buffer.drained(consumer).streams =~= buffer.streams);
    }
}

} // verus!
