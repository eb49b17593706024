//! Bridges the domain's [`EventPublisher`] interface to an in-process broadcast bus.
use vstd::prelude::*;

use tokio::sync::broadcast::Sender;

use crate::event::DomainEvent;
use crate::service::EventPublisher;

verus! {

#[verifier::external_type_specification]
#[verifier::external_body]
#[verifier::reject_recursive_types(T)]
pub struct ExBroadcastSender<T>(Sender<T>);

/// Adapter: the domain's publisher interface on top of the sending half of a broadcast bus.
/// Its view is the sequence of events handed to the sender; only the trusted call that hands
/// an event over extends it.
pub struct EventBusPublisher {
    inner: Sender<DomainEvent>,
    handed_over: Ghost<Seq<DomainEvent>>,
}

/// Hands `event` to the bus and records the hand-over.
///
/// Calls `tokio::sync::broadcast::Sender::send` on the publisher's sender with `event`; the
/// record of events handed over grows by exactly that event. Having no subscriber is not an
/// error for the bus, so the outcome of `send` is dropped; whether a subscriber receives the
/// event depends on who listens at that moment and is not stated.
#[verifier::external_body]
fn bus_send(publisher: &mut EventBusPublisher, event: DomainEvent)
    ensures
        final(publisher).handed_over@ == old(publisher).handed_over@.push(event),
{
    let _ = publisher.inner.send(event);
}

impl EventBusPublisher {
    /// Wraps the sending half of a bus.
    pub fn new(inner: Sender<DomainEvent>) -> (publisher: EventBusPublisher)
        ensures
            publisher.published() == Seq::<DomainEvent>::empty(),
    {
        EventBusPublisher { inner, handed_over: Ghost(Seq::empty()) }
    }
}

impl EventPublisher for EventBusPublisher {
    /// Every event handed to the bus's `send` so far, oldest first. What became of each on the
    /// bus (which subscribers received it) is not part of the record.
    closed spec fn published(&self) -> Seq<DomainEvent> {
        self.handed_over@
    }

    fn publish(&mut self, event: DomainEvent) {
        bus_send(self, event);
    }
}

} // verus!
