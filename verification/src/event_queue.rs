//! The event bus: one bounded queue that carries what every input source
//! reports to the control loop.
//!
//! The bus never makes a producer wait. An event published while the bus is
//! full is dropped; everything else comes out in the order it went in.

use vstd::prelude::*;
use vstd::std_specs::convert::FromSpecImpl;
use crate::button::ButtonEvent;
use crate::conn::ble::LovenseMessage;

verus! {

/// What an input source reports to the control loop.
#[derive(Debug, Clone, Copy, PartialEq, Eq, Structural)]
pub enum Event {
    /// A decoded vendor message.
    Lovense(LovenseMessage),
    /// A direct request for an output level.
    SetPwm(u8),
    /// A button event and the number of the input it came from.
    Button(ButtonEvent, i32),
    /// The placeholder that fills an unused slot; no source produces it.
    Null,
}

impl Default for Event {
    fn default() -> (r: Self)
        ensures
            r == Event::Null,
    {
        Event::Null
    }
}

impl From<(ButtonEvent, i32)> for Event {
    fn from(value: (ButtonEvent, i32)) -> (r: Self) {
        Event::Button(value.0, value.1)
    }
}

impl FromSpecImpl<(ButtonEvent, i32)> for Event {
    open spec fn obeys_from_spec() -> bool {
        true
    }

    open spec fn from_spec(value: (ButtonEvent, i32)) -> Self {
        Event::Button(value.0, value.1)
    }
}

/// How many events the bus holds at most.
pub const EVENT_QUEUE_CAPACITY: usize = 64;

/// `thingbuf::mpsc::blocking::Sender`, the sending end of a channel. Nothing
/// is known of what is inside.
#[verifier::external_type_specification]
#[verifier::external_body]
#[verifier::reject_recursive_types(T)]
#[verifier::reject_recursive_types(R)]
pub struct ExSender<T, R>(thingbuf::mpsc::blocking::Sender<T, R>);

/// `thingbuf::mpsc::blocking::Receiver`, the receiving end of a channel.
/// Nothing is known of what is inside.
#[verifier::external_type_specification]
#[verifier::external_body]
#[verifier::reject_recursive_types(T)]
#[verifier::reject_recursive_types(R)]
pub struct ExReceiver<T, R>(thingbuf::mpsc::blocking::Receiver<T, R>);

/// `thingbuf::recycling::DefaultRecycle`, the way in which a channel makes
/// and reuses its slots unless told otherwise.
#[verifier::external_type_specification]
#[verifier::external_body]
pub struct ExDefaultRecycle(thingbuf::recycling::DefaultRecycle);

/// The events that wait in the channel behind `rx`, oldest first.
pub uninterp spec fn queued(rx: &thingbuf::mpsc::blocking::Receiver<Event>) -> Seq<Event>;

/// The capacity that the channel behind `rx` was made with.
pub uninterp spec fn channel_limit(rx: &thingbuf::mpsc::blocking::Receiver<Event>) -> nat;

/// What a bus of `capacity` holds after `event` was published on it: the
/// event goes to the back while there is room, and is dropped otherwise.
pub open spec fn published(queue: Seq<Event>, capacity: nat, event: Event) -> Seq<Event> {
    if queue.len() < capacity {
        queue.push(event)
    } else {
        queue
    }
}

/// What a bus of `capacity` holds after `events` were published on it one
/// after the other, with nothing taken out in between.
pub open spec fn published_all(queue: Seq<Event>, capacity: nat, events: Seq<Event>) -> Seq<
    Event,
>
    decreases events.len(),
{
    if events.len() == 0 {
        queue
    } else {
        published_all(published(queue, capacity, events[0]), capacity, events.drop_first())
    }
}

/// How many of `count` events fit into `room` places.
pub open spec fn fitting(count: nat, room: nat) -> nat {
    if count <= room {
        count
    } else {
        room
    }
}

/// Publishing without anyone taking events out keeps what the bus held,
/// adds the events in their order as long as there is room, and drops the
/// rest.
pub proof fn bus_keeps_the_first_events(queue: Seq<Event>, capacity: nat, events: Seq<Event>)
    requires
        queue.len() <= capacity,
    ensures
        published_all(queue, capacity, events) == queue + events.take(
            fitting(events.len(), (capacity - queue.len()) as nat) as int,
        ),
    decreases events.len(),
{
    let room = (capacity - queue.len()) as nat;
    if events.len() == 0 {
        assert(queue + events.take(0) =~= queue);
    } else {
        let next = published(queue, capacity, events[0]);
        let rest = events.drop_first();
        bus_keeps_the_first_events(next, capacity, rest);
        if queue.len() < capacity {
            let kept = fitting(rest.len(), (room - 1) as nat);
            assert(next + rest.take(kept as int) =~= queue + events.take(kept as int + 1));
        } else {
            assert(rest.take(0) =~= events.take(0));
        }
    }
}

/// A full bus drops whatever is published on it and stays as it was; an
/// empty bus of capacity 64 that is handed 65 events keeps the first 64.
pub proof fn full_bus_drops_events(queue: Seq<Event>, capacity: nat, events: Seq<Event>)
    requires
        queue.len() == capacity,
    ensures
        published_all(queue, capacity, events) == queue,
        events.len() > capacity ==> published_all(Seq::<Event>::empty(), capacity, events)
            == events.take(capacity as int),
{
    bus_keeps_the_first_events(queue, capacity, events);
    assert(queue + events.take(0) =~= queue);
    bus_keeps_the_first_events(Seq::<Event>::empty(), capacity, events);
    if events.len() > capacity {
        assert(Seq::<Event>::empty() + events.take(capacity as int) =~= events.take(
            capacity as int,
        ));
    }
}

/// The bus while one owner holds both of its ends. The two ends are made
/// together and handed to nobody else as long as the bus exists, so that
/// what the bus holds changes through its own methods only.
pub struct EventBus {
    tx: thingbuf::mpsc::blocking::Sender<Event>,
    rx: thingbuf::mpsc::blocking::Receiver<Event>,
}

/// `thingbuf::mpsc::blocking::channel`: a new channel that holds nothing and
/// takes up to `capacity` messages. The call panics on a capacity of zero
/// and allocates every slot at once, so the capacity is kept small here.
#[verifier::external_body]
fn open_channel(capacity: usize) -> (bus: EventBus)
    requires
        0 < capacity <= 4096,
    ensures
        queued(&bus.rx) == Seq::<Event>::empty(),
        channel_limit(&bus.rx) == capacity,
{
    let (tx, rx) = thingbuf::mpsc::blocking::channel::<Event>(capacity);
    EventBus { tx, rx }
}

/// `Sender::try_send` on a channel whose receiver is alive: the event goes
/// to the back if the channel holds fewer messages than its capacity, and is
/// handed back otherwise. It never waits. The result says whether it went in.
#[verifier::external_body]
fn try_send(bus: &mut EventBus, event: Event) -> (sent: bool)
    ensures
        sent == (queued(&old(bus).rx).len() < channel_limit(&old(bus).rx)),
        queued(&final(bus).rx) == if sent {
            queued(&old(bus).rx).push(event)
        } else {
            queued(&old(bus).rx)
        },
        channel_limit(&final(bus).rx) == channel_limit(&old(bus).rx),
{
    bus.tx.try_send(event).is_ok()
}

/// `Receiver::try_recv`: takes the oldest message out, or returns an error
/// at once if the channel holds none.
#[verifier::external_body]
fn try_recv(bus: &mut EventBus) -> (event: Option<Event>)
    ensures
        event == if queued(&old(bus).rx).len() > 0 {
            Some(queued(&old(bus).rx)[0])
        } else {
            None
        },
        queued(&final(bus).rx) == if queued(&old(bus).rx).len() > 0 {
            queued(&old(bus).rx).drop_first()
        } else {
            queued(&old(bus).rx)
        },
        channel_limit(&final(bus).rx) == channel_limit(&old(bus).rx),
{
    bus.rx.try_recv().ok()
}

/// `Receiver::len`: the number of messages in the channel.
#[verifier::external_body]
fn channel_len(bus: &EventBus) -> (n: usize)
    ensures
        n == queued(&bus.rx).len(),
{
    bus.rx.len()
}

impl EventBus {
    /// The events on the bus, oldest first.
    pub closed spec fn view(&self) -> Seq<Event> {
        queued(&self.rx)
    }

    /// How many events the bus holds at most.
    pub closed spec fn capacity(&self) -> nat {
        channel_limit(&self.rx)
    }

    /// An empty bus for 64 events.
    pub fn new() -> (bus: EventBus)
        ensures
            bus@ == Seq::<Event>::empty(),
            bus.capacity() == EVENT_QUEUE_CAPACITY,
    {
        open_channel(EVENT_QUEUE_CAPACITY)
    }

    /// Puts `event` on the bus without ever waiting. On a full bus the event
    /// is dropped and the bus stays as it was.
    pub fn publish(&mut self, event: Event)
        ensures
            final(self).capacity() == old(self).capacity(),
            final(self)@ == published(old(self)@, old(self).capacity(), event),
    {
        let _ = try_send(self, event);
    }

    /// Takes the oldest event off the bus; `None` if the bus is empty.
    pub fn poll(&mut self) -> (event: Option<Event>)
        ensures
            final(self).capacity() == old(self).capacity(),
            event == if old(self)@.len() > 0 {
                Some(old(self)@[0])
            } else {
                None
            },
            final(self)@ == if old(self)@.len() > 0 {
                old(self)@.drop_first()
            } else {
                old(self)@
            },
    {
        try_recv(self)
    }

    /// How many events wait on the bus.
    pub fn len(&self) -> (n: usize)
        ensures
            n == self@.len(),
    {
        channel_len(self)
    }

    /// Gives up the exclusive hold: the sending end can then be cloned into
    /// every producer and the receiving end handed to the control loop.
    pub fn split(self) -> (ends: (
        thingbuf::mpsc::blocking::Sender<Event>,
        thingbuf::mpsc::blocking::Receiver<Event>,
    ))
        ensures
            queued(&ends.1) == self@,
            channel_limit(&ends.1) == self.capacity(),
    {
        (self.tx, self.rx)
    }
}

} // verus!
