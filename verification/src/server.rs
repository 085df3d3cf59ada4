//! The server's side: it gives each request an id, decodes it, runs the
//! handler, and says when the notification closes by itself.

use crate::actions::{
    actions_view, flattened, lemma_flatten_then_pair, paired, Action, ActionView,
};
use crate::guard::DropGuard;
use crate::hints::{
    carried, decode_all, decode_hints, distinct_hint_keys, encode_all, hints_view,
    lemma_decode_all_distinct, lemma_encode_then_decode, Hint, HintView,
};
use crate::lifecycle::{Lifecycle, Step};
use crate::notification::{Error, NotificationView, ServerInformation, ServerInformationView};
use crate::timeout::{policy_for, timeout_policy, AutoClose};
use crate::wire::{distinct_keys, entries_view, strings_view, DictEntry, DictEntryView};
use event_listener::{Event, EventListener};
use vstd::prelude::*;
use vstd::string::StringExecFns;

verus! {

/// The name that the server gives itself.
pub const SERVER_NAME: &'static str = "name";

/// The vendor that the server names.
pub const SERVER_VENDOR: &'static str = "hoodie";

/// The version that the server names.
pub const SERVER_VERSION: &'static str = "0.1.0";

/// The version of the protocol that the server speaks.
pub const SPEC_VERSION: &'static str = "1.1";

/// A request as the server hands it to its handler.
#[derive(Debug, PartialEq, Eq)]
pub struct ReceivedNotification {
    /// The name of the application that sent it.
    pub appname: String,
    /// The id of the notification that the client wants replaced, zero for
    /// none.
    pub id: u32,
    /// The icon, by name or path.
    pub icon: String,
    /// The title.
    pub summary: String,
    /// The text.
    pub body: String,
    /// The actions offered, in order.
    pub actions: Vec<Action>,
    /// The hints that could be decoded.
    pub hints: Vec<Hint>,
    /// The requested timeout in milliseconds.
    pub timeout: i32,
}

/// What a [`ReceivedNotification`] stands for.
pub struct ReceivedView {
    pub appname: Seq<char>,
    pub id: u32,
    pub icon: Seq<char>,
    pub summary: Seq<char>,
    pub body: Seq<char>,
    pub actions: Seq<ActionView>,
    pub hints: Seq<HintView>,
    pub timeout: i32,
}

impl View for ReceivedNotification {
    type V = ReceivedView;

    open spec fn view(&self) -> ReceivedView {
        ReceivedView {
            appname: self.appname@,
            id: self.id,
            icon: self.icon@,
            summary: self.summary@,
            body: self.body@,
            actions: actions_view(self.actions@),
            hints: hints_view(self.hints@),
            timeout: self.timeout,
        }
    }
}

/// Something that takes the requests a server receives.
pub trait NotificationHandler {
    /// Takes one request. The server calls it once for each request and
    /// waits for it to return before it replies.
    fn call(&self, notification: ReceivedNotification);
}

/// A closure as a handler. It is made only of a closure that takes every
/// request.
pub struct FnHandler<F: Fn(ReceivedNotification)> {
    f: F,
}

impl<F: Fn(ReceivedNotification)> FnHandler<F> {
    #[verifier::type_invariant]
    spec fn takes_every_request(&self) -> bool {
        forall|notification: ReceivedNotification| call_requires(self.f, (notification,))
    }

    /// The closure that the handler runs.
    pub closed spec fn closure(&self) -> F {
        self.f
    }

    /// The handler that runs `f` on each request.
    pub fn new(f: F) -> (handler: Self)
        requires
            forall|notification: ReceivedNotification| call_requires(f, (notification,)),
        ensures
            handler.closure() == f,
    {
        FnHandler { f }
    }
}

impl<F: Fn(ReceivedNotification)> NotificationHandler for FnHandler<F> {
    /// Runs the closure on the request.
    fn call(&self, notification: ReceivedNotification)
        ensures
            call_ensures(self.closure(), (notification,), ()),
    {
        proof {
            use_type_invariant(self);
        }
        (self.f)(notification)
    }
}

/// Whether `handler` has run on a record that stands for `received`.
pub open spec fn handled<H: NotificationHandler>(handler: H, received: ReceivedView) -> bool {
    exists|record: ReceivedNotification|
        record@ == received && #[trigger] call_ensures(H::call, (&handler, record), ())
}

/// Why the server does not take a request.
#[derive(Clone, Copy, Debug, PartialEq, Eq, Structural)]
pub enum Refusal {
    /// The server was told to stop.
    Stopped,
    /// Every id has been given out.
    IdsExhausted,
}

/// A request that has its id and waits for the handler.
pub struct Pending {
    id: u32,
    received: ReceivedNotification,
}

impl Pending {
    /// The id that the server assigned.
    pub closed spec fn spec_id(&self) -> u32 {
        self.id
    }

    /// The request as the handler will get it.
    pub closed spec fn received(&self) -> ReceivedView {
        self.received@
    }

    /// The tag of the action that is announced as invoked before the
    /// handler runs: that of the first action, if there is one.
    pub open spec fn announced(&self) -> Option<Seq<char>> {
        if self.received().actions.len() > 0 {
            Some(self.received().actions[0].tag)
        } else {
            None
        }
    }

    /// The id that the server assigned.
    pub fn id(&self) -> (id: u32)
        ensures
            id == self.spec_id(),
    {
        self.id
    }

    /// The request as the handler will get it.
    pub fn notification(&self) -> (received: &ReceivedNotification)
        ensures
            received@ == self.received(),
    {
        &self.received
    }

    /// The tag of the action that the server announces as invoked before
    /// it runs the handler, if the request offers any action.
    pub fn announcement(&self) -> (tag: Option<String>)
        ensures
            match tag {
                Some(tag) => self.announced() == Some(tag@),
                None => self.announced() is None,
            },
    {
        if self.received.actions.len() > 0 {
            assert(self.received().actions[0] == self.received.actions@[0]@);
            Some(self.received.actions[0].tag.clone())
        } else {
            None
        }
    }
}

/// What the server owes a request after the handler has run.
pub struct Reply {
    /// The id that goes back to the client.
    pub id: u32,
    /// When the notification closes by itself.
    pub auto_close: AutoClose,
    /// The request's state: the handler has run.
    pub lifecycle: Lifecycle,
    /// The guard to release when the scope that handles the request is
    /// left.
    pub guard: DropGuard,
    /// The listener that wakes on that release, for the task that sends
    /// the close signal.
    pub has_returned: EventListener,
}

/// A notification server: the counter of its ids, its handler and its stop
/// latch.
pub struct NotificationServer<H: NotificationHandler> {
    count: u32,
    handler: H,
    stop_listener: Event,
    stopped: bool,
}

/// The id that a server gives to its next request after it has given out
/// `count` ids: one more than the last, while one is left.
pub open spec fn next_id(count: u32) -> Option<u32> {
    if count < u32::MAX {
        Some((count + 1) as u32)
    } else {
        None
    }
}

/// The state of the request `id` once its handler has run, after the
/// announcement of its first action where it had one.
pub open spec fn dispatched(id: u32, timeout: i32, announced: bool) -> Lifecycle {
    if announced {
        Lifecycle::initial(id, timeout).next(Step::Announce).0.next(Step::Dispatch).0
    } else {
        Lifecycle::initial(id, timeout).next(Step::Dispatch).0
    }
}

/// The record that a request decodes to.
pub open spec fn received_view(
    appname: Seq<char>,
    id: u32,
    icon: Seq<char>,
    summary: Seq<char>,
    body: Seq<char>,
    raw_actions: Seq<Seq<char>>,
    raw_hints: Seq<DictEntryView>,
    timeout: i32,
) -> ReceivedView {
    ReceivedView {
        appname,
        id,
        icon,
        summary,
        body,
        actions: paired(raw_actions),
        hints: decode_all(raw_hints),
        timeout,
    }
}

impl<H: NotificationHandler> NotificationServer<H> {
    /// How many ids the server has given out, which is also the last id
    /// that it gave.
    pub closed spec fn count(&self) -> u32 {
        self.count
    }

    /// Whether the server was told to stop.
    pub closed spec fn stopped(&self) -> bool {
        self.stopped
    }

    /// The handler that takes the server's requests.
    pub closed spec fn handler(&self) -> H {
        self.handler
    }

    /// The event behind the stop latch: `stop` notifies it, and who waits
    /// for the stop listens to it.
    pub closed spec fn stop_event(&self) -> Event {
        self.stop_listener
    }

    /// A server that hands its requests to `handler`. It has given out no
    /// id and runs.
    pub fn with_handler(handler: H) -> (server: Self)
        ensures
            server.count() == 0,
            !server.stopped(),
            server.handler() == handler,
            call_ensures(Event::new, (), server.stop_event()),
    {
        let stop_listener = Event::new();
        NotificationServer { count: 0, handler, stop_listener, stopped: false }
    }

    /// A server that hands its requests to `handler` and counts on from
    /// `last_id`, the last id that an earlier server gave out. It runs.
    pub fn resuming_after(last_id: u32, handler: H) -> (server: Self)
        ensures
            server.count() == last_id,
            !server.stopped(),
            server.handler() == handler,
            call_ensures(Event::new, (), server.stop_event()),
    {
        let stop_listener = Event::new();
        NotificationServer { count: last_id, handler, stop_listener, stopped: false }
    }

    /// What the server says of itself. It is the same at every call.
    pub fn get_server_information(&self) -> (information: ServerInformation)
        ensures
            information@ == (ServerInformationView {
                name: SERVER_NAME@,
                vendor: SERVER_VENDOR@,
                version: SERVER_VERSION@,
                spec_version: SPEC_VERSION@,
            }),
    {
        ServerInformation {
            name: String::from_str(SERVER_NAME),
            vendor: String::from_str(SERVER_VENDOR),
            version: String::from_str(SERVER_VERSION),
            spec_version: String::from_str(SPEC_VERSION),
        }
    }

    /// What the server can do. It is the same at every call.
    pub fn get_capabilities(&self) -> (capabilities: Vec<String>)
        ensures
            strings_view(capabilities@) == seq!["actions"@, "body"@],
    {
        let mut capabilities: Vec<String> = Vec::new();
        capabilities.push(String::from_str("actions"));
        capabilities.push(String::from_str("body"));
        assert(strings_view(capabilities@) =~= seq!["actions"@, "body"@]);
        capabilities
    }

    /// Whether the server was told to stop.
    pub fn is_stopped(&self) -> (stopped: bool)
        ensures
            stopped == self.stopped(),
    {
        self.stopped
    }

    /// The last id that the server gave out, zero before the first.
    pub fn last_id(&self) -> (id: u32)
        ensures
            id == self.count(),
    {
        self.count
    }

    /// Takes a request: gives it the next id and decodes it. The first id
    /// is one, and each id is one more than the last. The actions are read
    /// two strings at a time and the hints one entry at a time, leaving out
    /// what cannot be read. A server that was told to stop, or that has
    /// given out every id, refuses the request and stays as it is.
    pub fn notify(
        &mut self,
        appname: String,
        id: u32,
        icon: String,
        summary: String,
        body: String,
        raw_actions: Vec<String>,
        raw_hints: Vec<DictEntry>,
        timeout: i32,
    ) -> (taken: Result<Pending, Refusal>)
        ensures
            final(self).stopped() == old(self).stopped(),
            final(self).handler() == old(self).handler(),
            final(self).stop_event() == old(self).stop_event(),
            match taken {
                Ok(pending) => {
                    &&& !old(self).stopped()
                    &&& next_id(old(self).count()) == Some(pending.spec_id())
                    &&& final(self).count() == pending.spec_id()
                    &&& pending.received() == received_view(
                        appname@,
                        id,
                        icon@,
                        summary@,
                        body@,
                        strings_view(raw_actions@),
                        entries_view(raw_hints@),
                        timeout,
                    )
                    &&& distinct_keys(entries_view(raw_hints@)) ==> distinct_hint_keys(
                        pending.received().hints,
                    )
                },
                Err(refusal) => {
                    &&& final(self).count() == old(self).count()
                    &&& refusal == Refusal::Stopped <==> old(self).stopped()
                    &&& refusal == Refusal::IdsExhausted <==> {
                        &&& !old(self).stopped()
                        &&& next_id(old(self).count()) is None
                    }
                },
            },
    {
        if self.stopped {
            return Err(Refusal::Stopped);
        }
        if self.count == u32::MAX {
            return Err(Refusal::IdsExhausted);
        }
        self.count += 1;
        let count = self.count;
        proof {
            if distinct_keys(entries_view(raw_hints@)) {
                lemma_decode_all_distinct(entries_view(raw_hints@));
            }
        }

        let actions = Action::from_vec(raw_actions.as_slice());
        let hints = decode_hints(&raw_hints);

        let received = ReceivedNotification {
            appname,
            id,
            icon,
            summary,
            body,
            actions,
            hints,
            timeout,
        };
        Ok(Pending { id: count, received })
    }

    /// Goes on with a request after its announcement, if it had one to
    /// make, was tried: `announced` is how that went. Where an
    /// announcement was due and failed, its error is the result and the
    /// handler is not run. Else the handler runs with the decoded record,
    /// and the result holds the id for the reply, the policy for the
    /// auto-close, the request's state, and the two sides of the latch that
    /// holds the close signal back until the reply has left.
    pub fn dispatch(&self, pending: Pending, announced: Result<(), Error>) -> (reply: Result<
        Reply,
        Error,
    >)
        ensures
            match reply {
                Ok(reply) => {
                    &&& !(pending.announced() is Some && announced is Err)
                    &&& handled(self.handler(), pending.received())
                    &&& reply.id == pending.spec_id()
                    &&& reply.auto_close == policy_for(pending.received().timeout as int)
                    &&& reply.lifecycle == dispatched(
                        pending.spec_id(),
                        pending.received().timeout,
                        pending.announced() is Some,
                    )
                    &&& call_ensures(Event::new, (), reply.guard.event())
                    &&& call_ensures(
                        Event::listen,
                        (&reply.guard.event(),),
                        reply.has_returned,
                    )
                },
                Err(e) => pending.announced() is Some && announced == Err::<(), Error>(e),
            },
    {
        let Pending { id, received } = pending;
        let timeout = received.timeout;
        let mut lifecycle = Lifecycle::new(id, timeout);
        if received.actions.len() > 0 {
            match announced {
                Err(e) => {
                    return Err(e);
                },
                Ok(_) => {
                    lifecycle.advance(Step::Announce);
                },
            }
        }
        lifecycle.advance(Step::Dispatch);
        let ghost record = received;
        self.handler.call(received);
        assert(call_ensures(H::call, (&self.handler, record), ()));
        let (guard, has_returned) = DropGuard::create();
        Ok(Reply { id, auto_close: timeout_policy(timeout), lifecycle, guard, has_returned })
    }

    /// Tells the server to stop: it refuses every later request. The
    /// stop latch opens for whoever waits on it, and the result, always
    /// `true`, acknowledges the call. Tasks that wait to send a close
    /// signal are left to run.
    pub fn stop(&mut self) -> (acknowledged: bool)
        ensures
            acknowledged,
            final(self).stopped(),
            final(self).count() == old(self).count(),
            final(self).handler() == old(self).handler(),
            final(self).stop_event() == old(self).stop_event(),
            call_ensures(Event::notify, (&old(self).stop_event(), 1usize), ()),
    {
        self.stopped = true;
        self.stop_listener.notify(1);
        true
    }

    /// A listener that wakes when the server is told to stop: the one that
    /// `Event::listen` registers, at this call, with the event that `stop`
    /// notifies.
    pub fn stop_listener(&self) -> (listener: EventListener)
        ensures
            call_ensures(Event::listen, (&self.stop_event(),), listener),
    {
        self.stop_listener.listen()
    }
}

/// The first id is one, no id is zero, and of two requests that a server
/// takes the later gets the greater id: after an id was given, whatever
/// the server has counted since, the next id is greater.
pub proof fn lemma_ids_increase(count: u32, later: u32)
    requires
        next_id(count) is Some,
        later >= next_id(count)->0,
        next_id(later) is Some,
    ensures
        next_id(0) == Some(1u32),
        next_id(count)->0 >= 1,
        next_id(count)->0 < next_id(later)->0,
{
}

/// What a server decodes from the arguments that a client packed is what
/// the client's notification held: the same texts and timeout, the same
/// actions in the same order, and the hints that can be carried, in their
/// order.
pub proof fn lemma_received_as_sent(notification: NotificationView, id: u32)
    ensures
        received_view(
            notification.appname,
            id,
            notification.icon,
            notification.summary,
            notification.body,
            flattened(notification.actions),
            encode_all(notification.hints),
            notification.timeout,
        ) == (ReceivedView {
            appname: notification.appname,
            id,
            icon: notification.icon,
            summary: notification.summary,
            body: notification.body,
            actions: notification.actions,
            hints: notification.hints.filter(carried()),
            timeout: notification.timeout,
        }),
{
    lemma_flatten_then_pair(notification.actions);
    lemma_encode_then_decode(notification.hints);
}

} // verus!
