use vstd::prelude::*;
use crate::messages::{EventMessage, EventView};
use tokio::sync::broadcast;

verus! {

/// How many recent events the bus keeps for subscribers that fall behind.
pub const EVENT_BACKLOG: usize = 1024;

#[verifier::external_type_specification]
#[verifier::external_body]
#[verifier::reject_recursive_types(T)]
pub struct ExBroadcastSender<T>(broadcast::Sender<T>);

#[verifier::external_type_specification]
#[verifier::external_body]
#[verifier::reject_recursive_types(T)]
pub struct ExBroadcastReceiver<T>(broadcast::Receiver<T>);

/// Every value written into the channel through this sender, in order.
pub uninterp spec fn written(tx: broadcast::Sender<EventMessage>) -> Seq<EventView>;

/// How many of the most recent values the channel keeps.
pub uninterp spec fn capacity_of(tx: broadcast::Sender<EventMessage>) -> int;

/// Which channel a sender writes into.
pub uninterp spec fn sender_channel(tx: broadcast::Sender<EventMessage>) -> int;

/// Which channel a receiver reads from.
pub uninterp spec fn receiver_channel(rx: broadcast::Receiver<EventMessage>) -> int;

/// The position in the channel's values that a receiver reads next.
pub uninterp spec fn read_pos(rx: broadcast::Receiver<EventMessage>) -> int;

/// Relies on tokio::sync::broadcast::channel: an empty channel that keeps
/// the last `capacity` values (a power of two stays as it is), and a
/// receiver of it that starts at the first value. It panics on a zero
/// capacity and on one above `usize::MAX / 2`, which `requires` leaves out.
#[verifier::external_body]
fn broadcast_channel(capacity: usize) -> (r: (
    broadcast::Sender<EventMessage>,
    broadcast::Receiver<EventMessage>,
))
    requires
        0 < capacity <= usize::MAX / 2,
        capacity & ((capacity - 1) as usize) == 0,
    ensures
        written(r.0).len() == 0,
        capacity_of(r.0) == capacity,
        receiver_channel(r.1) == sender_channel(r.0),
        read_pos(r.1) == 0,
{
    broadcast::channel(capacity)
}

/// Relies on tokio::sync::broadcast::Sender::subscribe: a receiver of the
/// same channel that starts at the next value written.
#[verifier::external_body]
fn broadcast_subscribe(tx: &broadcast::Sender<EventMessage>) -> (r: broadcast::Receiver<
    EventMessage,
>)
    ensures
        receiver_channel(r) == sender_channel(*tx),
        read_pos(r) == written(*tx).len(),
{
    tx.subscribe()
}

/// Relies on tokio::sync::broadcast::Sender::send: without waiting, the
/// value is written into the channel, which fails only when no receiver is
/// alive; `alive` is one. Positions count in `u64`, which `requires` keeps
/// from wrapping.
#[verifier::external_body]
fn broadcast_send(
    tx: &mut broadcast::Sender<EventMessage>,
    alive: &broadcast::Receiver<EventMessage>,
    event: EventMessage,
)
    requires
        receiver_channel(*alive) == sender_channel(*old(tx)),
        written(*old(tx)).len() < u64::MAX,
    ensures
        written(*final(tx)) == written(*old(tx)).push(event@),
        capacity_of(*final(tx)) == capacity_of(*old(tx)),
        sender_channel(*final(tx)) == sender_channel(*old(tx)),
{
    let _ = tx.send(event);
}

/// Relies on tokio::sync::broadcast::Receiver::try_recv, whose values are
/// clones of the ones written. A receiver more than the capacity behind is
/// told how many values it missed and moves to the oldest one kept; one
/// within reach gets its next value; one at the end gets nothing. While
/// `tx` lives the channel is not closed.
#[verifier::external_body]
fn broadcast_try_recv(
    tx: &broadcast::Sender<EventMessage>,
    rx: &mut broadcast::Receiver<EventMessage>,
) -> (r: Received)
    requires
        receiver_channel(*old(rx)) == sender_channel(*tx),
    ensures
        receiver_channel(*final(rx)) == receiver_channel(*old(rx)),
        receive_step(written(*tx), capacity_of(*tx), read_pos(*old(rx)), r, read_pos(*final(rx))),
{
    match rx.try_recv() {
        Ok(e) => Received::Event(e),
        Err(broadcast::error::TryRecvError::Lagged(n)) => Received::Lagged(n),
        Err(broadcast::error::TryRecvError::Empty) => Received::Empty,
        Err(broadcast::error::TryRecvError::Closed) => Received::Empty,
    }
}

/// What a reader at position `p` of the values `w`, of which the last `cap`
/// are kept, receives (`r`) and where it goes on from (`q`).
pub open spec fn receive_step(w: Seq<EventView>, cap: int, p: int, r: Received, q: int) -> bool {
    if p < w.len() - cap {
        r == Received::Lagged((w.len() - cap - p) as u64) && q == w.len() - cap
    } else if p < w.len() {
        (r matches Received::Event(e) && e@ == w[p]) && q == p + 1
    } else {
        r is Empty && q == p
    }
}

/// A subscriber's receiving end.
pub struct Subscriber {
    rx: broadcast::Receiver<EventMessage>,
}

impl Subscriber {
    /// The position in the bus's events that this subscriber reads next.
    pub closed spec fn position(&self) -> int {
        read_pos(self.rx)
    }
}

/// What a subscriber gets when it asks for the next event.
pub enum Received {
    /// The next event in publish order.
    Event(EventMessage),
    /// This many events were overwritten before the subscriber read them;
    /// it resumes at the oldest event still kept.
    Lagged(u64),
    /// Nothing new has been published.
    Empty,
}

/// Fans each published event out to every subscriber. Publishing never
/// waits on a subscriber: one that falls more than the backlog behind is
/// told how many events it missed and resumes at the oldest one kept.
pub struct EventBus {
    tx: broadcast::Sender<EventMessage>,
    /// A receiver the bus keeps so that publishing always reaches the
    /// channel, subscribers or not. It is never read.
    keep: broadcast::Receiver<EventMessage>,
    count: u64,
}

impl EventBus {
    /// Every event published on the bus, in publish order.
    pub closed spec fn sent(&self) -> Seq<EventView> {
        written(self.tx)
    }

    /// Whether `sub` reads from this bus.
    pub closed spec fn serves(&self, sub: &Subscriber) -> bool {
        receiver_channel(sub.rx) == sender_channel(self.tx)
    }

    pub closed spec fn wf(&self) -> bool {
        &&& receiver_channel(self.keep) == sender_channel(self.tx)
        &&& self.count == written(self.tx).len()
        &&& capacity_of(self.tx) == EVENT_BACKLOG
    }

    pub fn new() -> (r: EventBus)
        ensures
            r.wf(),
            r.sent().len() == 0,
    {
        assert(1024usize & 1023usize == 0) by (bit_vector);
        let (tx, keep) = broadcast_channel(EVENT_BACKLOG);
        EventBus { tx, keep, count: 0 }
    }

    /// How many events have been published.
    pub fn sent_count(&self) -> (r: u64)
        requires
            self.wf(),
        ensures
            r == self.sent().len(),
    {
        self.count
    }

    /// A subscriber that will receive the events published from now on, and
    /// none published before.
    pub fn subscribe(&self) -> (r: Subscriber)
        ensures
            self.serves(&r),
            r.position() == self.sent().len(),
    {
        Subscriber { rx: broadcast_subscribe(&self.tx) }
    }

    /// Publishes `event` to every subscriber without waiting on any.
    pub fn publish(&mut self, event: EventMessage)
        requires
            old(self).wf(),
            old(self).sent().len() < u64::MAX,
        ensures
            final(self).wf(),
            final(self).sent() == old(self).sent().push(event@),
            forall|s: Subscriber| old(self).serves(&s) ==> final(self).serves(&s),
    {
        broadcast_send(&mut self.tx, &self.keep, event);
        self.count = self.count + 1;
    }

    /// The next event for `sub`: a subscriber more than the backlog behind
    /// is told how many events it missed and resumes at the oldest one kept;
    /// otherwise it gets the next event in publish order, or nothing when it
    /// has read everything.
    pub fn try_recv(&self, sub: &mut Subscriber) -> (r: Received)
        requires
            self.wf(),
            self.serves(old(sub)),
        ensures
            self.serves(final(sub)),
            receive_step(self.sent(), EVENT_BACKLOG as int, old(sub).position(), r, final(sub).position()),
    {
        broadcast_try_recv(&self.tx, &mut sub.rx)
    }
}

impl Default for EventBus {
    fn default() -> (r: EventBus)
        ensures
            r.wf(),
            r.sent().len() == 0,
    {
        EventBus::new()
    }
}

/// A subscriber that has read everything receives the next published event
/// right away, so one that reads after each publish sees every event in
/// publish order and never lags.
pub proof fn lemma_caught_up_receives_next(sent: Seq<EventView>, e: EventView, r: Received, q: int)
    requires
        receive_step(sent.push(e), EVENT_BACKLOG as int, sent.len() as int, r, q),
    ensures
        r matches Received::Event(x) && x@ == e,
        q == sent.len() + 1,
{
}

/// A subscriber that has fallen more than the backlog behind is told that
/// it lagged by how many events, and resumes at the oldest event kept.
pub proof fn lemma_slow_subscriber_lags(sent: Seq<EventView>, p: int, r: Received, q: int)
    requires
        0 <= p,
        sent.len() - p > EVENT_BACKLOG,
        receive_step(sent, EVENT_BACKLOG as int, p, r, q),
    ensures
        r == Received::Lagged((sent.len() - EVENT_BACKLOG - p) as u64),
        q == sent.len() - EVENT_BACKLOG,
{
}

} // verus!
