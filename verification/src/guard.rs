//! The latch that holds the close signal back until the reply has left.
//!
//! The latch is an `event_listener::Event`. Its two sides are made together
//! while a request is handled: the guard stays with the scope that handles
//! the request and is released when that scope is left, the listener goes
//! to the task that will send the close signal and wakes on the release.
//! What the event does is the outside crate's business: the items below
//! only make its three calls known to Verus, and claim nothing of
//! them. What the guard's own functions state is which of these calls they
//! made, and on which event.

use event_listener::{Event, EventListener};
use vstd::prelude::*;

verus! {

/// `event_listener::Event`, of which nothing is known here but that it is
/// a value.
#[verifier::external_type_specification]
#[verifier::external_body]
pub struct ExEvent(event_listener::Event);

/// `event_listener::EventListener`, of which nothing is known here but
/// that it is a value.
#[verifier::external_type_specification]
#[verifier::external_body]
pub struct ExEventListener(event_listener::EventListener);

/// `Event::new` makes a new event, which has no listeners yet. Nothing is
/// claimed of the result.
pub assume_specification[ Event::new ]() -> (event: Event)
;

/// `Event::listen` registers a new listener with the event and returns
/// it. Nothing is claimed of the result.
pub assume_specification[ Event::listen ](event: &Event) -> (listener: EventListener)
;

/// `Event::notify` sees to it that at least `n` of the event's active
/// listeners are notified, or all of them where they are fewer. It returns
/// nothing and nothing is claimed of it.
pub assume_specification[ Event::notify ](event: &Event, n: usize)
;

/// The side of the latch that stays with the scope that handles a request.
pub struct DropGuard {
    event: Event,
}

impl DropGuard {
    /// The event that the guard holds.
    pub closed spec fn event(&self) -> Event {
        self.event
    }

    /// Makes a latch: the guard, and the listener that wakes when the guard
    /// is released. The guard holds an event that `Event::new` made for it,
    /// and the listener is the one that `Event::listen` registered with
    /// that same event.
    pub fn create() -> (sides: (DropGuard, EventListener))
        ensures
            call_ensures(Event::new, (), sides.0.event()),
            call_ensures(Event::listen, (&sides.0.event(),), sides.1),
    {
        let event = Event::new();
        let listener = event.listen();
        (DropGuard { event }, listener)
    }

    /// Opens the latch: has `Event::notify` notify one listener of the
    /// guard's event. It takes the guard, so a latch opens once at most.
    pub fn release(self)
        ensures
            call_ensures(Event::notify, (&self.event(), 1usize), ()),
    {
        self.event.notify(1);
    }
}

} // verus!
