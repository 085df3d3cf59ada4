//! What a client composes and what comes back to it.

use crate::actions::{actions_view, Action, ActionView};
use crate::hints::{distinct_hint_keys, hints_view, Hint, HintView};
use vstd::prelude::*;
use vstd::string::StringExecFns;

verus! {

/// The bus name under which a notification server is found.
pub const NOTIFICATION_NAMESPACE: &'static str = "org.freedesktop.Notifications";

/// The interface that declares the protocol's methods and signals.
pub const NOTIFICATION_INTERFACE: &'static str = "org.freedesktop.Notifications";

/// The path of the object that speaks the protocol.
pub const NOTIFICATION_OBJECTPATH: &'static str = "/org/freedesktop/Notifications";

/// How long a client waits for the reply to a call, in milliseconds.
pub const REPLY_TIMEOUT_MS: i32 = 2000;

/// How long a client waits for the next signal before it looks again, in
/// milliseconds.
pub const POLL_INTERVAL_MS: i32 = 1000;

/// The timeout that leaves the choice to the server.
pub const TIMEOUT_DEFAULT: i32 = -1;

/// The timeout of a notification that is not to close by itself.
pub const TIMEOUT_NEVER: i32 = 0;

/// The id that a client sends to have a new one assigned.
pub const ASSIGN_NEW_ID: u32 = 0;

/// Which server a notification goes to, by its bus name.
#[derive(Debug, PartialEq, Eq)]
pub struct NotificationBus {
    name: String,
}

impl View for NotificationBus {
    type V = Seq<char>;

    closed spec fn view(&self) -> Seq<char> {
        self.name@
    }
}

impl Clone for NotificationBus {
    fn clone(&self) -> (copy: Self)
        ensures
            copy@ == self@,
    {
        NotificationBus { name: self.name.clone() }
    }
}

impl Default for NotificationBus {
    /// The server under the well-known name.
    fn default() -> (bus: Self)
        ensures
            bus@ == NOTIFICATION_NAMESPACE@,
    {
        NotificationBus { name: String::from_str(NOTIFICATION_NAMESPACE) }
    }
}

impl NotificationBus {
    /// The server under the bus name `name`.
    pub fn named(name: String) -> (bus: Self)
        ensures
            bus@ == name@,
    {
        NotificationBus { name }
    }

    /// The bus name.
    pub fn into_name(self) -> (name: String)
        ensures
            name@ == self@,
    {
        self.name
    }
}

/// Why a notification was closed.
#[derive(Clone, Copy, Debug, PartialEq, Eq, Structural)]
pub enum CloseReason {
    /// Its time ran out.
    Expired,
    /// The user dismissed it.
    DismissedByUser,
    /// A call asked for it.
    ClosedByRequest,
    /// The server gave no cause.
    Undefined,
    /// A code that the protocol does not name.
    Custom(u32),
}

impl CloseReason {
    /// The reason that a code on the wire stands for.
    pub open spec fn of_code(code: u32) -> CloseReason {
        if code == 1 {
            CloseReason::Expired
        } else if code == 2 {
            CloseReason::DismissedByUser
        } else if code == 3 {
            CloseReason::ClosedByRequest
        } else if code == 4 {
            CloseReason::Undefined
        } else {
            CloseReason::Custom(code)
        }
    }

    /// The code that stands for the reason on the wire.
    pub open spec fn to_code(self) -> u32 {
        match self {
            CloseReason::Expired => 1,
            CloseReason::DismissedByUser => 2,
            CloseReason::ClosedByRequest => 3,
            CloseReason::Undefined => 4,
            CloseReason::Custom(code) => code,
        }
    }

    /// A custom reason holds a code that has no name of its own.
    pub open spec fn wf(self) -> bool {
        self matches CloseReason::Custom(code) ==> !(1 <= code <= 4)
    }

    /// The reason that a code on the wire stands for.
    pub fn from_code(code: u32) -> (reason: CloseReason)
        ensures
            reason == Self::of_code(code),
            reason.wf(),
            reason.to_code() == code,
    {
        if code == 1 {
            CloseReason::Expired
        } else if code == 2 {
            CloseReason::DismissedByUser
        } else if code == 3 {
            CloseReason::ClosedByRequest
        } else if code == 4 {
            CloseReason::Undefined
        } else {
            CloseReason::Custom(code)
        }
    }

    /// The code that stands for the reason on the wire.
    pub fn code(&self) -> (code: u32)
        ensures
            code == self.to_code(),
            self.wf() ==> Self::of_code(code) == *self,
    {
        match self {
            CloseReason::Expired => 1,
            CloseReason::DismissedByUser => 2,
            CloseReason::ClosedByRequest => 3,
            CloseReason::Undefined => 4,
            CloseReason::Custom(code) => *code,
        }
    }
}

/// What became of a notification.
#[derive(Debug, PartialEq, Eq)]
pub enum ActionResponse {
    /// The user chose the action with this tag.
    Custom(String),
    /// The notification was closed.
    Closed(CloseReason),
}

/// What an [`ActionResponse`] stands for.
pub enum ActionResponseView {
    Custom(Seq<char>),
    Closed(CloseReason),
}

impl View for ActionResponse {
    type V = ActionResponseView;

    open spec fn view(&self) -> ActionResponseView {
        match self {
            ActionResponse::Custom(tag) => ActionResponseView::Custom(tag@),
            ActionResponse::Closed(reason) => ActionResponseView::Closed(*reason),
        }
    }
}

/// What a server says of itself.
#[derive(Debug, PartialEq, Eq)]
pub struct ServerInformation {
    /// The server's name.
    pub name: String,
    /// Who made it.
    pub vendor: String,
    /// Its version.
    pub version: String,
    /// The version of the protocol that it speaks.
    pub spec_version: String,
}

/// What a [`ServerInformation`] stands for.
pub struct ServerInformationView {
    pub name: Seq<char>,
    pub vendor: Seq<char>,
    pub version: Seq<char>,
    pub spec_version: Seq<char>,
}

impl View for ServerInformation {
    type V = ServerInformationView;

    open spec fn view(&self) -> ServerInformationView {
        ServerInformationView {
            name: self.name@,
            vendor: self.vendor@,
            version: self.version@,
            spec_version: self.spec_version@,
        }
    }
}

/// Why a call did not come through.
#[derive(Clone, Copy, Debug, PartialEq, Eq, Structural)]
pub enum Error {
    /// The bus could not be reached, or no reply came in time.
    TransportFailure,
    /// The outgoing message could not be put together.
    MessageBuild,
}

/// A notification as a client composes it.
#[derive(Debug, PartialEq, Eq)]
pub struct Notification {
    /// The name of the application that sends it.
    pub appname: String,
    /// The title.
    pub summary: String,
    /// The text.
    pub body: String,
    /// The icon, by name or path.
    pub icon: String,
    /// The actions offered, in order.
    pub actions: Vec<Action>,
    /// The requested timeout in milliseconds: zero for none, a negative
    /// value for the server's own.
    pub timeout: i32,
    /// The id of the notification that this one replaces, if any.
    pub id: Option<u32>,
    /// The server it goes to.
    pub bus: NotificationBus,
    /// The hints. No two of a well-formed notification share a key.
    pub hints: Vec<Hint>,
}

/// What a [`Notification`] stands for.
pub struct NotificationView {
    pub appname: Seq<char>,
    pub summary: Seq<char>,
    pub body: Seq<char>,
    pub icon: Seq<char>,
    pub actions: Seq<ActionView>,
    pub hints: Seq<HintView>,
    pub timeout: i32,
    pub id: Option<u32>,
    pub bus: Seq<char>,
}

impl View for Notification {
    type V = NotificationView;

    open spec fn view(&self) -> NotificationView {
        NotificationView {
            appname: self.appname@,
            summary: self.summary@,
            body: self.body@,
            icon: self.icon@,
            actions: actions_view(self.actions@),
            hints: hints_view(self.hints@),
            timeout: self.timeout,
            id: self.id,
            bus: self.bus@,
        }
    }
}

/// Copies a notification.
pub fn copy_notification(notification: &Notification) -> (copy: Notification)
    ensures
        copy@ == notification@,
{
    let mut actions: Vec<Action> = Vec::new();
    let mut i: usize = 0;
    while i < notification.actions.len()
        invariant
            i <= notification.actions.len(),
            actions_view(actions@) == actions_view(notification.actions@).take(i as int),
        decreases notification.actions.len() - i,
    {
        let ghost before = actions_view(actions@);
        let action = notification.actions[i].clone();
        actions.push(action);
        assert(actions_view(actions@) == before.push(action@));
        assert(actions_view(notification.actions@).take(i as int + 1) == before.push(action@));
        i += 1;
    }
    assert(actions_view(notification.actions@).take(notification.actions.len() as int)
        == actions_view(notification.actions@));
    let mut hints: Vec<Hint> = Vec::new();
    let mut j: usize = 0;
    while j < notification.hints.len()
        invariant
            j <= notification.hints.len(),
            hints_view(hints@) == hints_view(notification.hints@).take(j as int),
        decreases notification.hints.len() - j,
    {
        let ghost before = hints_view(hints@);
        let hint = notification.hints[j].clone();
        hints.push(hint);
        assert(hints_view(hints@) == before.push(hint@));
        assert(hints_view(notification.hints@).take(j as int + 1) == before.push(hint@));
        j += 1;
    }
    assert(hints_view(notification.hints@).take(notification.hints.len() as int) == hints_view(
        notification.hints@,
    ));
    Notification {
        appname: notification.appname.clone(),
        summary: notification.summary.clone(),
        body: notification.body.clone(),
        icon: notification.icon.clone(),
        actions,
        timeout: notification.timeout,
        id: notification.id,
        bus: notification.bus.clone(),
        hints,
    }
}

/// The first place at which a hint with the key `key` stands.
pub open spec fn key_place(hints: Seq<HintView>, key: Seq<char>) -> Option<int>
    decreases hints.len(),
{
    if hints.len() == 0 {
        None
    } else if hints[0].key == key {
        Some(0)
    } else {
        match key_place(hints.drop_first(), key) {
            Some(at) => Some(at + 1),
            None => None,
        }
    }
}

/// The hints with `hint` set: in the place of the first hint of the same
/// key, or at the end where no hint has that key.
pub open spec fn with_hint(hints: Seq<HintView>, hint: HintView) -> Seq<HintView> {
    match key_place(hints, hint.key) {
        Some(at) => hints.update(at, hint),
        None => hints.push(hint),
    }
}

/// The first place of a key is the place before which no hint has the key
/// and at which one has it. There is none where no hint has the key.
pub proof fn lemma_key_place(hints: Seq<HintView>, key: Seq<char>)
    ensures
        match key_place(hints, key) {
            Some(at) => 0 <= at < hints.len() && hints[at].key == key && forall|j: int|
                0 <= j < at ==> (#[trigger] hints[j]).key != key,
            None => forall|j: int| 0 <= j < hints.len() ==> (#[trigger] hints[j]).key != key,
        },
    decreases hints.len(),
{
    if hints.len() > 0 && hints[0].key != key {
        let rest = hints.drop_first();
        lemma_key_place(rest, key);
        match key_place(rest, key) {
            Some(at) => {
                assert(hints[at + 1] == rest[at]);
                assert forall|j: int| 0 <= j < at + 1 implies (#[trigger] hints[j]).key != key by {
                    if j > 0 {
                        assert(hints[j] == rest[j - 1]);
                    }
                }
            },
            None => {
                assert forall|j: int| 0 <= j < hints.len() implies (#[trigger] hints[j]).key
                    != key by {
                    if j > 0 {
                        assert(hints[j] == rest[j - 1]);
                    }
                }
            },
        }
    }
}

/// Setting a hint keeps the keys distinct, and the hint is then the one
/// that stands under its key.
pub proof fn lemma_with_hint(hints: Seq<HintView>, hint: HintView)
    requires
        distinct_hint_keys(hints),
    ensures
        distinct_hint_keys(with_hint(hints, hint)),
        key_place(with_hint(hints, hint), hint.key) matches Some(at) && with_hint(hints, hint)[at]
            == hint,
{
    lemma_key_place(hints, hint.key);
    let after = with_hint(hints, hint);
    lemma_key_place(after, hint.key);
    match key_place(hints, hint.key) {
        Some(at) => {
            assert(after[at].key == hint.key);
        },
        None => {
            assert(after[hints.len() as int].key == hint.key);
        },
    }
    let found = key_place(after, hint.key)->0;
    assert(after[found] == hint) by {
        match key_place(hints, hint.key) {
            Some(at) => {
                if found != at {
                    if found < at {
                        assert(hints[found].key == hint.key);
                    } else {
                        assert(after[at].key == hint.key);
                    }
                }
            },
            None => {
                if found < hints.len() {
                    assert(hints[found].key == hint.key);
                }
            },
        }
    }
}

/// The notification without text, actions or hints, for the server under
/// the well-known name, whose timeout is left to the server.
pub open spec fn empty_notification() -> NotificationView {
    NotificationView {
        appname: Seq::empty(),
        summary: Seq::empty(),
        body: Seq::empty(),
        icon: Seq::empty(),
        actions: Seq::empty(),
        hints: Seq::empty(),
        timeout: TIMEOUT_DEFAULT,
        id: None,
        bus: NOTIFICATION_NAMESPACE@,
    }
}

impl Notification {
    /// No two hints share a key.
    pub open spec fn wf(&self) -> bool {
        distinct_hint_keys(self@.hints)
    }

    /// An empty notification for the server under the well-known name,
    /// whose timeout is left to the server.
    pub fn new() -> (notification: Notification)
        ensures
            notification@ == empty_notification(),
            notification.wf(),
    {
        let notification = Notification {
            appname: String::new(),
            summary: String::new(),
            body: String::new(),
            icon: String::new(),
            actions: Vec::new(),
            timeout: TIMEOUT_DEFAULT,
            id: None,
            bus: NotificationBus::default(),
            hints: Vec::new(),
        };
        assert(notification@.actions =~= Seq::empty());
        assert(notification@.hints =~= Seq::empty());
        notification
    }

    /// Adds an action after those that are there.
    pub fn action(&mut self, identifier: &str, label: &str)
        ensures
            final(self)@ == (NotificationView {
                actions: old(self)@.actions.push(
                    ActionView { tag: identifier@, description: label@ },
                ),
                ..old(self)@
            }),
    {
        let action = Action {
            tag: String::from_str(identifier),
            description: String::from_str(label),
        };
        self.actions.push(action);
        assert(self@.actions =~= old(self)@.actions.push(action@));
    }

    /// Sets a hint: it takes the place of the first hint of the same key,
    /// or comes after the others where no hint has that key. A
    /// well-formed notification stays well-formed.
    pub fn hint(&mut self, hint: Hint)
        ensures
            final(self)@ == (NotificationView {
                hints: with_hint(old(self)@.hints, hint@),
                ..old(self)@
            }),
            old(self).wf() ==> final(self).wf(),
    {
        proof {
            if self.wf() {
                lemma_with_hint(self@.hints, hint@);
            }
        }
        let mut i: usize = 0;
        while i < self.hints.len()
            invariant
                i <= self.hints.len(),
                *self == *old(self),
                old(self).wf() ==> distinct_hint_keys(with_hint(old(self)@.hints, hint@)),
                forall|j: int| 0 <= j < i ==> (#[trigger] self@.hints[j]).key != hint@.key,
            decreases self.hints.len() - i,
        {
            assert(self@.hints[i as int] == self.hints@[i as int]@);
            if self.hints[i].key == hint.key {
                assert(key_place(self@.hints, hint@.key) == Some(i as int)) by {
                    lemma_key_place(self@.hints, hint@.key);
                    match key_place(self@.hints, hint@.key) {
                        Some(at) => {
                            if at < i {
                                assert(self@.hints[at].key != hint@.key);
                            } else if at > i {
                                assert(self@.hints[i as int].key != hint@.key);
                            }
                        },
                        None => {
                            assert(self@.hints[i as int].key != hint@.key);
                        },
                    }
                }
                self.hints.set(i, hint);
                assert(self@.hints =~= with_hint(old(self)@.hints, hint@));
                return ;
            }
            i += 1;
        }
        assert(key_place(self@.hints, hint@.key) is None) by {
            lemma_key_place(self@.hints, hint@.key);
            if let Some(at) = key_place(self@.hints, hint@.key) {
                assert(self@.hints[at].key != hint@.key);
            }
        }
        self.hints.push(hint);
        assert(self@.hints =~= with_hint(old(self)@.hints, hint@));
    }
}

impl Default for Notification {
    /// The empty notification.
    fn default() -> (notification: Notification)
        ensures
            notification@ == empty_notification(),
            notification.wf(),
    {
        Notification::new()
    }
}

} // verus!
