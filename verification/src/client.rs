//! The client's side: the calls it sends, what it reads out of the replies,
//! and how it tells which signal belongs to which notification.

use crate::actions::{flatten, flattened};
use crate::hints::{encode_all, encode_hints, lemma_encode_all_distinct};
use crate::names::well_formed;
use crate::notification::{
    copy_notification, ActionResponse, ActionResponseView, CloseReason, Error, Notification,
    NotificationBus, NotificationView, ServerInformation, ServerInformationView, ASSIGN_NEW_ID,
    NOTIFICATION_INTERFACE, NOTIFICATION_NAMESPACE, NOTIFICATION_OBJECTPATH, REPLY_TIMEOUT_MS,
};
use crate::wire::{
    copy_strings, distinct_keys, strings_view, values_view, BusSignal, BusSignalView, MethodCall,
    MethodCallView, WireValue, WireValueView,
};
use vstd::prelude::*;
use vstd::string::StringExecFns;

verus! {

/// The call of the protocol's method `member` at the server `bus`, before
/// any argument is added.
pub open spec fn method_call(member: Seq<char>, bus: Seq<char>) -> MethodCallView {
    MethodCallView {
        destination: bus,
        path: NOTIFICATION_OBJECTPATH@,
        interface: NOTIFICATION_INTERFACE@,
        member,
        args: Seq::empty(),
        reply_timeout_ms: REPLY_TIMEOUT_MS,
    }
}

/// Starts the call of the protocol's method `method_name` at the server
/// `bus`. The call is made only where the bus takes its four names: else
/// the result is the error of a message that cannot be built.
pub fn build_message(method_name: &str, bus: NotificationBus) -> (built: Result<MethodCall, Error>)
    ensures
        match built {
            Ok(call) => call@ == method_call(method_name@, bus@) && well_formed(call@),
            Err(e) => e == Error::MessageBuild && !well_formed(method_call(method_name@, bus@)),
        },
{
    let call = MethodCall {
        destination: bus.into_name(),
        path: String::from_str(NOTIFICATION_OBJECTPATH),
        interface: String::from_str(NOTIFICATION_INTERFACE),
        member: String::from_str(method_name),
        args: Vec::new(),
        reply_timeout_ms: REPLY_TIMEOUT_MS,
    };
    assert(call@.args =~= Seq::empty());
    if call.is_well_formed() {
        Ok(call)
    } else {
        Err(Error::MessageBuild)
    }
}

/// The dictionary that carries the notification's hints. It is a typed
/// dictionary also where no hint is left to carry, and no hint makes the
/// packing fail: one that cannot be carried is left out.
pub fn pack_hints(notification: &Notification) -> (packed: Result<WireValue, Error>)
    ensures
        packed is Ok,
        packed->Ok_0@ == WireValueView::Dict(encode_all(notification@.hints)),
        packed->Ok_0@.signature() == "a{sv}"@,
        notification@.hints.len() == 0 ==> packed->Ok_0@ == WireValueView::Dict(Seq::empty()),
        notification.wf() ==> distinct_keys(encode_all(notification@.hints)),
{
    proof {
        if notification.wf() {
            lemma_encode_all_distinct(notification@.hints);
        }
    }
    Ok(WireValue::Dict(encode_hints(&notification.hints)))
}

/// The array that carries the notification's actions, each tag followed by
/// its label. It is a typed array also where there is no action.
pub fn pack_actions(notification: &Notification) -> (packed: WireValue)
    ensures
        packed@ == WireValueView::StrArray(flattened(notification@.actions)),
        packed@.signature() == "as"@,
        notification@.actions.len() == 0 ==> packed@ == WireValueView::StrArray(Seq::empty()),
{
    assert(notification@.actions.len() == 0 ==> flattened(notification@.actions) =~= Seq::empty());
    WireValue::StrArray(flatten(&notification.actions))
}

/// The call that submits `notification` to the server `bus`, to replace
/// the notification `id`, or as a new one where `id` is zero.
pub open spec fn notify_call(
    notification: NotificationView,
    id: u32,
    bus: Seq<char>,
) -> MethodCallView {
    MethodCallView {
        args: seq![
            WireValueView::Str(notification.appname),
            WireValueView::UInt32(id),
            WireValueView::Str(notification.icon),
            WireValueView::Str(notification.summary),
            WireValueView::Str(notification.body),
            WireValueView::StrArray(flattened(notification.actions)),
            WireValueView::Dict(encode_all(notification.hints)),
            WireValueView::Int32(notification.timeout),
        ],
        ..method_call("Notify"@, bus)
    }
}

/// Puts together the call that submits `notification`. It fails only
/// where the bus does not take the call's names.
pub fn notify_request(notification: &Notification, id: u32, bus: NotificationBus) -> (request:
    Result<MethodCall, Error>)
    ensures
        match request {
            Ok(call) => call@ == notify_call(notification@, id, bus@) && well_formed(call@),
            Err(e) => e == Error::MessageBuild && !well_formed(
                notify_call(notification@, id, bus@),
            ),
        },
{
    let mut message = match build_message("Notify", bus) {
        Ok(message) => message,
        Err(e) => {
            return Err(e);
        },
    };
    let hints = match pack_hints(notification) {
        Ok(hints) => hints,
        Err(e) => {
            return Err(e);
        },
    };
    let mut args: Vec<WireValue> = Vec::new();
    args.push(WireValue::Str(notification.appname.clone()));
    args.push(WireValue::UInt32(id));
    args.push(WireValue::Str(notification.icon.clone()));
    args.push(WireValue::Str(notification.summary.clone()));
    args.push(WireValue::Str(notification.body.clone()));
    args.push(pack_actions(notification));
    args.push(hints);
    args.push(WireValue::Int32(notification.timeout));
    message.args = args;
    assert(message@.args =~= notify_call(notification@, id, bus@).args);
    Ok(message)
}

/// The id that a reply to a submission assigns: its first item where that
/// is an unsigned integer, else zero.
pub open spec fn assigned_id(reply: Seq<WireValueView>) -> u32 {
    if reply.len() > 0 && reply[0] is UInt32 {
        reply[0]->UInt32_0
    } else {
        0
    }
}

/// Reads the assigned id out of the reply to a submission. A reply of
/// another shape gives zero.
pub fn reply_id(reply: &Vec<WireValue>) -> (id: u32)
    ensures
        id == assigned_id(values_view(reply@)),
{
    if reply.len() > 0 {
        match &reply[0] {
            WireValue::UInt32(id) => *id,
            _ => 0,
        }
    } else {
        0
    }
}

/// The capabilities that a reply lists: its first item where that is an
/// array of strings, else none.
pub open spec fn listed_capabilities(reply: Seq<WireValueView>) -> Seq<Seq<char>> {
    if reply.len() > 0 && reply[0] is StrArray {
        reply[0]->StrArray_0
    } else {
        Seq::empty()
    }
}

/// Reads the capabilities out of the reply to the query for them. A reply
/// of another shape gives none.
pub fn reply_capabilities(reply: &Vec<WireValue>) -> (capabilities: Vec<String>)
    ensures
        strings_view(capabilities@) == listed_capabilities(values_view(reply@)),
{
    if reply.len() > 0 {
        match &reply[0] {
            WireValue::StrArray(items) => {
                let capabilities = copy_strings(items);
                assert(strings_view(capabilities@) =~= strings_view(items@));
                capabilities
            },
            _ => {
                let capabilities: Vec<String> = Vec::new();
                assert(strings_view(capabilities@) =~= Seq::empty());
                capabilities
            },
        }
    } else {
        let capabilities: Vec<String> = Vec::new();
        assert(strings_view(capabilities@) =~= Seq::empty());
        capabilities
    }
}

/// The string that stands at place `at` of a reply, or the empty string
/// where the reply is shorter or holds something else there.
pub open spec fn string_at(reply: Seq<WireValueView>, at: int) -> Seq<char> {
    if 0 <= at < reply.len() && reply[at] is Str {
        reply[at]->Str_0
    } else {
        Seq::empty()
    }
}

/// Reads a string out of an item of a reply. No item, or an item of
/// another type, gives the empty string.
pub fn unwrap_message_string(item: Option<&WireValue>) -> (value: String)
    ensures
        value@ == match item {
            Some(WireValue::Str(s)) => s@,
            _ => Seq::<char>::empty(),
        },
{
    match item {
        Some(WireValue::Str(value)) => value.clone(),
        _ => String::new(),
    }
}

/// What the reply to the query for the server's information says.
pub open spec fn told_information(reply: Seq<WireValueView>) -> ServerInformationView {
    ServerInformationView {
        name: string_at(reply, 0),
        vendor: string_at(reply, 1),
        version: string_at(reply, 2),
        spec_version: string_at(reply, 3),
    }
}

/// The item at place `at` of a reply, if it has one.
fn item_at(reply: &Vec<WireValue>, at: usize) -> (item: Option<&WireValue>)
    ensures
        match item {
            Some(value) => at < reply.len() && *value == reply@[at as int],
            None => at >= reply.len(),
        },
{
    if at < reply.len() {
        Some(&reply[at])
    } else {
        None
    }
}

/// Reads the server's information out of the reply to the query for it.
/// Each field that the reply does not hold as a string is left empty.
pub fn reply_server_information(reply: &Vec<WireValue>) -> (information: ServerInformation)
    ensures
        information@ == told_information(values_view(reply@)),
{
    ServerInformation {
        name: unwrap_message_string(item_at(reply, 0)),
        vendor: unwrap_message_string(item_at(reply, 1)),
        version: unwrap_message_string(item_at(reply, 2)),
        spec_version: unwrap_message_string(item_at(reply, 3)),
    }
}

/// What a signal means to the client that waits for the outcome of the
/// notification `id`: nothing, unless it comes from the protocol's object
/// and interface and carries that id. Then an invoked action gives the
/// action's tag and a close gives the reason.
pub open spec fn outcome(signal: BusSignalView, id: u32) -> Option<ActionResponseView> {
    if signal.path == NOTIFICATION_OBJECTPATH@ && signal.interface == NOTIFICATION_INTERFACE@
        && signal.items.len() >= 2 && signal.items[0] == WireValueView::UInt32(id) {
        if signal.member == "ActionInvoked"@ {
            match signal.items[1] {
                WireValueView::Str(tag) => Some(ActionResponseView::Custom(tag)),
                _ => None,
            }
        } else if signal.member == "NotificationClosed"@ {
            match signal.items[1] {
                WireValueView::UInt32(code) => Some(
                    ActionResponseView::Closed(CloseReason::of_code(code)),
                ),
                _ => None,
            }
        } else {
            None
        }
    } else {
        None
    }
}

/// The view of a response that may be missing.
pub open spec fn response_view(response: Option<ActionResponse>) -> Option<ActionResponseView> {
    match response {
        Some(r) => Some(r@),
        None => None,
    }
}

/// Decides what one signal means to the client that waits for the outcome
/// of the notification `id`. `None` says that the signal is not for it and
/// that it goes on waiting.
pub fn resolve(signal: &BusSignal, id: u32) -> (response: Option<ActionResponse>)
    ensures
        response_view(response) == outcome(signal@, id),
{
    let path = String::from_str(NOTIFICATION_OBJECTPATH);
    let interface = String::from_str(NOTIFICATION_INTERFACE);
    if signal.path != path || signal.interface != interface || signal.items.len() < 2 {
        return None;
    }
    match &signal.items[0] {
        WireValue::UInt32(nid) => {
            if *nid != id {
                return None;
            }
        },
        _ => {
            return None;
        },
    }
    let action_invoked = String::from_str("ActionInvoked");
    let notification_closed = String::from_str("NotificationClosed");
    if signal.member == action_invoked {
        match &signal.items[1] {
            WireValue::Str(action) => Some(ActionResponse::Custom(action.clone())),
            _ => None,
        }
    } else if signal.member == notification_closed {
        match &signal.items[1] {
            WireValue::UInt32(reason) => Some(
                ActionResponse::Closed(CloseReason::from_code(*reason)),
            ),
            _ => None,
        }
    } else {
        None
    }
}

/// The signals of a sequence, each by what it stands for.
pub open spec fn signals_view(signals: Seq<BusSignal>) -> Seq<BusSignalView> {
    signals.map_values(|s: BusSignal| s@)
}

/// Whether none of the first `upto` signals means anything to the client
/// that waits for the notification `id`.
pub open spec fn all_ignored(signals: Seq<BusSignalView>, id: u32, upto: int) -> bool {
    forall|j: int| 0 <= j < upto ==> outcome(#[trigger] signals[j], id) is None
}

/// Where the wait for the outcome of the notification `id` ends: at the
/// first signal that means something to it. `None` says that it does not
/// end within `signals`.
pub open spec fn resolution(signals: Seq<BusSignalView>, id: u32) -> Option<
    (int, ActionResponseView),
> {
    if exists|i: int| 0 <= i < signals.len() && outcome(#[trigger] signals[i], id) is Some {
        let at = choose|i: int|
            0 <= i < signals.len() && outcome(#[trigger] signals[i], id) is Some && all_ignored(
                signals,
                id,
                i,
            );
        Some((at, outcome(signals[at], id)->0))
    } else {
        None
    }
}

/// The wait ends at the place `at` with `response` exactly where the
/// signal there means `response` and none before it means anything.
pub proof fn lemma_resolution(signals: Seq<BusSignalView>, id: u32)
    ensures
        match resolution(signals, id) {
            Some((at, response)) => 0 <= at < signals.len() && outcome(signals[at], id) == Some(
                response,
            ) && all_ignored(signals, id, at),
            None => all_ignored(signals, id, signals.len() as int),
        },
        forall|at: int|
            0 <= at < signals.len() && outcome(#[trigger] signals[at], id) is Some && all_ignored(
                signals,
                id,
                at,
            ) ==> resolution(signals, id) == Some((at, outcome(signals[at], id)->0)),
{
    if exists|i: int| 0 <= i < signals.len() && outcome(#[trigger] signals[i], id) is Some {
        let i = choose|i: int| 0 <= i < signals.len() && outcome(#[trigger] signals[i], id) is Some;
        lemma_first_match(signals, id, i);
        let at = choose|i: int|
            0 <= i < signals.len() && outcome(#[trigger] signals[i], id) is Some && all_ignored(
                signals,
                id,
                i,
            );
        assert forall|other: int|
            0 <= other < signals.len() && outcome(#[trigger] signals[other], id) is Some
                && all_ignored(signals, id, other) implies other == at by {
            if other < at {
                assert(outcome(signals[other], id) is None);
            } else if at < other {
                assert(outcome(signals[at], id) is None);
            }
        }
    }
}

/// Where some signal up to the place `i` means something, there is a first
/// one that does.
proof fn lemma_first_match(signals: Seq<BusSignalView>, id: u32, i: int)
    requires
        0 <= i < signals.len(),
        outcome(signals[i], id) is Some,
    ensures
        exists|at: int|
            0 <= at <= i && outcome(#[trigger] signals[at], id) is Some && all_ignored(
                signals,
                id,
                at,
            ),
    decreases i,
{
    if all_ignored(signals, id, i) {
        assert(outcome(signals[i], id) is Some);
    } else {
        let j = choose|j: int| 0 <= j < i && !(outcome(#[trigger] signals[j], id) is None);
        lemma_first_match(signals, id, j);
    }
}

/// Runs the wait for the outcome of the notification `id` over the signals
/// that came in, in their order. It passes over every signal that is not
/// for it and ends at the first that is: the result gives that signal's
/// place and what it means. `None` says that no signal was for it and that
/// the wait goes on.
pub fn wait_for_action_signal(signals: &Vec<BusSignal>, id: u32) -> (resolved: Option<
    (usize, ActionResponse),
>)
    ensures
        match resolved {
            Some((at, response)) => resolution(signals_view(signals@), id) == Some(
                (at as int, response@),
            ),
            None => resolution(signals_view(signals@), id) is None,
        },
{
    let mut i: usize = 0;
    while i < signals.len()
        invariant
            i <= signals.len(),
            all_ignored(signals_view(signals@), id, i as int),
        decreases signals.len() - i,
    {
        match resolve(&signals[i], id) {
            Some(response) => {
                proof {
                    assert(signals_view(signals@)[i as int] == signals@[i as int]@);
                    lemma_resolution(signals_view(signals@), id);
                }
                return Some((i, response));
            },
            None => {
                assert(signals_view(signals@)[i as int] == signals@[i as int]@);
            },
        }
        i += 1;
    }
    proof {
        lemma_resolution(signals_view(signals@), id);
    }
    None
}

/// One step of a wait that takes its signals one by one: whether the wait
/// is over after the signal, and what the signal brings. A wait that was
/// over stays over and takes nothing from the signal.
pub open spec fn step(over: bool, signal: BusSignalView, id: u32) -> (bool, Option<
    ActionResponseView,
>) {
    if over {
        (true, None)
    } else {
        (outcome(signal, id) is Some, outcome(signal, id))
    }
}

/// Whether a wait is over after it took `signals` one by one.
pub open spec fn over_after(over: bool, signals: Seq<BusSignalView>, id: u32) -> bool
    decreases signals.len(),
{
    if signals.len() == 0 {
        over
    } else {
        step(over_after(over, signals.drop_last(), id), signals.last(), id).0
    }
}

/// What the signal at the place `at` brings to a wait that took the
/// signals before it one by one.
pub open spec fn brought(signals: Seq<BusSignalView>, id: u32, at: int) -> Option<
    ActionResponseView,
> {
    step(over_after(false, signals.take(at), id), signals[at], id).1
}

/// A wait that takes its signals one by one is over exactly when one of
/// them was for it.
pub proof fn lemma_over_after(signals: Seq<BusSignalView>, id: u32)
    ensures
        over_after(false, signals, id) == !all_ignored(signals, id, signals.len() as int),
        over_after(true, signals, id),
    decreases signals.len(),
{
    if signals.len() > 0 {
        let rest = signals.drop_last();
        lemma_over_after(rest, id);
        if all_ignored(signals, id, signals.len() as int) {
            assert forall|j: int| 0 <= j < rest.len() implies outcome(#[trigger] rest[j], id)
                is None by {
                assert(rest[j] == signals[j]);
            }
            assert(outcome(signals[signals.len() - 1], id) is None);
        } else {
            let j = choose|j: int|
                0 <= j < signals.len() && !(outcome(#[trigger] signals[j], id) is None);
            if j < rest.len() {
                assert(rest[j] == signals[j]);
            }
        }
    }
}

/// Of the signals that a wait takes one by one, one at most brings it
/// something: the first that is for it, which is where the wait over the
/// whole sequence ends. Every other signal, before or after, brings
/// nothing.
pub proof fn lemma_one_outcome(signals: Seq<BusSignalView>, id: u32, at: int)
    requires
        0 <= at < signals.len(),
    ensures
        brought(signals, id, at) == match resolution(signals, id) {
            Some((end, response)) => if at == end {
                Some(response)
            } else {
                None
            },
            None => None,
        },
{
    let before = signals.take(at);
    lemma_over_after(before, id);
    lemma_resolution(signals, id);
    assert forall|j: int| 0 <= j < at implies before[j] == signals[j] by {}
    if all_ignored(before, id, at) {
        assert forall|j: int| 0 <= j < at implies outcome(#[trigger] signals[j], id) is None by {
            assert(before[j] == signals[j]);
        }
        match resolution(signals, id) {
            Some((end, response)) => {
                if end < at {
                    assert(outcome(signals[end], id) is None);
                }
            },
            None => {},
        }
    } else {
        let j = choose|j: int| 0 <= j < at && !(outcome(#[trigger] before[j], id) is None);
        assert(before[j] == signals[j]);
        match resolution(signals, id) {
            Some((end, response)) => {
                if end >= at {
                    assert(outcome(signals[j], id) is None);
                }
            },
            None => {
                assert(outcome(signals[j], id) is None);
            },
        }
    }
}

/// A signal means something only to the client whose notification it
/// names: no signal resolves the waits for two different ids.
pub proof fn lemma_outcome_names_id(signal: BusSignalView, id: u32, other: u32)
    requires
        id != other,
        outcome(signal, id) is Some,
    ensures
        outcome(signal, other) is None,
        signal.items[0] == WireValueView::UInt32(id),
{
}

/// A signal that names another notification, or that is neither of the
/// protocol's two signals, or that comes from another object or interface,
/// means nothing to the client, and the wait goes on past it: with such a
/// signal in front, the wait ends where it ends without it, one place
/// later.
pub proof fn lemma_wait_passes_over(signals: Seq<BusSignalView>, signal: BusSignalView, id: u32)
    requires
        signal.items.len() < 2 || signal.items[0] != WireValueView::UInt32(id) || (signal.member
            != "ActionInvoked"@ && signal.member != "NotificationClosed"@) || signal.path
            != NOTIFICATION_OBJECTPATH@ || signal.interface != NOTIFICATION_INTERFACE@,
    ensures
        outcome(signal, id) is None,
        resolution(seq![signal] + signals, id) == match resolution(signals, id) {
            Some((at, response)) => Some((at + 1, response)),
            None => None,
        },
{
    let longer = seq![signal] + signals;
    lemma_resolution(signals, id);
    lemma_resolution(longer, id);
    match resolution(signals, id) {
        Some((at, response)) => {
            assert(longer[at + 1] == signals[at]);
            assert forall|j: int| 0 <= j < at + 1 implies outcome(#[trigger] longer[j], id)
                is None by {
                if j > 0 {
                    assert(longer[j] == signals[j - 1]);
                }
            }
        },
        None => {
            if let Some((at, _)) = resolution(longer, id) {
                if at > 0 {
                    assert(longer[at] == signals[at - 1]);
                }
            }
        },
    }
}

/// Whether `reply` is what `connection` gave back when it was handed the
/// call `request`.
pub open spec fn exchanged<X: Fn(MethodCall) -> Result<Vec<WireValue>, Error>>(
    connection: &X,
    request: MethodCallView,
    reply: Result<Vec<WireValue>, Error>,
) -> bool {
    exists|call: MethodCall|
        call@ == request && #[trigger] call_ensures(*connection, (call,), reply)
}

/// Whether `reply` is what came of the call `request` over `connection`:
/// what the connection gave back when it was handed the call, or, where
/// the bus does not take the call's names, the error of a message that
/// cannot be built, with nothing handed to the connection.
pub open spec fn carried<X: Fn(MethodCall) -> Result<Vec<WireValue>, Error>>(
    connection: &X,
    request: MethodCallView,
    reply: Result<Vec<WireValue>, Error>,
) -> bool {
    if well_formed(request) {
        exchanged(connection, request, reply)
    } else {
        reply == Err::<Vec<WireValue>, Error>(Error::MessageBuild)
    }
}

/// What a submission comes to, given what the connection gave back: the
/// assigned id where a reply came, the error where none did.
pub open spec fn submitted(reply: Result<Vec<WireValue>, Error>) -> Result<u32, Error> {
    match reply {
        Ok(items) => Ok(assigned_id(values_view(items@))),
        Err(e) => Err(e),
    }
}

/// Reads the outcome of a submission out of what the connection gave back.
pub fn submission_outcome(reply: Result<Vec<WireValue>, Error>) -> (outcome: Result<u32, Error>)
    ensures
        outcome == submitted(reply),
{
    match reply {
        Ok(items) => Ok(reply_id(&items)),
        Err(e) => Err(e),
    }
}

/// Hands the call that `built` holds to `connection`, or hands its error
/// on.
fn carry<X>(
    connection: &X,
    built: Result<MethodCall, Error>,
    Ghost(request): Ghost<MethodCallView>,
) -> (reply: Result<Vec<WireValue>, Error>) where
    X: Fn(MethodCall) -> Result<Vec<WireValue>, Error>,

    requires
        forall|call: MethodCall| call_requires(*connection, (call,)),
        match built {
            Ok(call) => call@ == request && well_formed(request),
            Err(e) => e == Error::MessageBuild && !well_formed(request),
        },
    ensures
        carried(connection, request, reply),
{
    match built {
        Ok(message) => {
            let ghost handed = message;
            let reply = connection(message);
            assert(call_ensures(*connection, (handed,), reply));
            assert(exchanged(connection, request, reply));
            reply
        },
        Err(e) => Err(e),
    }
}

/// Submits `notification` over `connection` to the server `bus`, to replace
/// the notification `id`, or as a new one where `id` is zero. The
/// connection is handed exactly the call that `notify_call` describes, and
/// the result is read out of what it gives back. Where the bus does not
/// take the call's names, nothing is handed over and the result is the
/// error of a message that cannot be built.
pub fn send_notification_via_connection_at_bus<X>(
    notification: &Notification,
    id: u32,
    connection: &X,
    bus: NotificationBus,
) -> (sent: Result<u32, Error>) where X: Fn(MethodCall) -> Result<Vec<WireValue>, Error>
    requires
        forall|call: MethodCall| call_requires(*connection, (call,)),
    ensures
        exists|reply: Result<Vec<WireValue>, Error>| #[trigger]
            carried(connection, notify_call(notification@, id, bus@), reply) && sent == submitted(
                reply,
            ),
{
    let ghost request = notify_call(notification@, id, bus@);
    let built = notify_request(notification, id, bus);
    let reply = carry(connection, built, Ghost(request));
    submission_outcome(reply)
}

/// Submits `notification` over `connection` to the server under the
/// well-known name.
pub fn send_notification_via_connection<X>(
    notification: &Notification,
    id: u32,
    connection: &X,
) -> (sent: Result<u32, Error>) where X: Fn(MethodCall) -> Result<Vec<WireValue>, Error>
    requires
        forall|call: MethodCall| call_requires(*connection, (call,)),
    ensures
        exists|reply: Result<Vec<WireValue>, Error>| #[trigger]
            carried(connection, notify_call(notification@, id, NOTIFICATION_NAMESPACE@), reply)
                && sent == submitted(reply),
{
    send_notification_via_connection_at_bus(
        notification,
        id,
        connection,
        NotificationBus::default(),
    )
}

/// A notification that was submitted, with the id that the server gave it
/// and the connection over which its signals are awaited.
pub struct NotificationHandle<X> {
    id: u32,
    connection: X,
    notification: Notification,
    resolved: bool,
}

impl<X> NotificationHandle<X> {
    /// The id that the server assigned.
    pub closed spec fn spec_id(&self) -> u32 {
        self.id
    }

    /// The notification as it was submitted.
    pub closed spec fn held_notification(&self) -> NotificationView {
        self.notification@
    }

    /// The connection that the handle holds.
    pub closed spec fn held_connection(&self) -> X {
        self.connection
    }

    /// Whether the outcome of the notification has been handed out.
    pub closed spec fn resolved(&self) -> bool {
        self.resolved
    }

    /// Binds a submitted notification to its id and its connection.
    pub fn new(id: u32, connection: X, notification: Notification) -> (handle: Self)
        ensures
            handle.spec_id() == id,
            handle.held_notification() == notification@,
            handle.held_connection() == connection,
            !handle.resolved(),
    {
        NotificationHandle { id, connection, notification, resolved: false }
    }

    /// Whether the outcome of the notification has been handed out.
    pub fn is_resolved(&self) -> (resolved: bool)
        ensures
            resolved == self.resolved(),
    {
        self.resolved
    }

    /// The id that the server assigned.
    pub fn id(&self) -> (id: u32)
        ensures
            id == self.spec_id(),
    {
        self.id
    }

    /// The connection over which the notification's signals are awaited.
    pub fn connection(&self) -> (connection: &X)
        ensures
            *connection == self.held_connection(),
    {
        &self.connection
    }

    /// The notification as it was submitted.
    pub fn notification(&self) -> (notification: &Notification)
        ensures
            notification@ == self.held_notification(),
    {
        &self.notification
    }
}

/// Whether `connection` may be handed any call.
pub open spec fn takes_calls<X: Fn(MethodCall) -> Result<Vec<WireValue>, Error>>(
    connection: Result<X, Error>,
) -> bool {
    connection matches Ok(x) ==> forall|call: MethodCall| #[trigger] call_requires(x, (call,))
}

/// Whether `reply` is what came of connecting and then sending the call
/// `request`: the error with which connecting failed, or what came of the
/// call over the connection.
pub open spec fn connected_and_carried<X: Fn(MethodCall) -> Result<Vec<WireValue>, Error>>(
    connection: Result<X, Error>,
    request: MethodCallView,
    reply: Result<Vec<WireValue>, Error>,
) -> bool {
    match connection {
        Ok(x) => carried(&x, request, reply),
        Err(e) => reply == Err::<Vec<WireValue>, Error>(e),
    }
}

/// Whether `reply` is what came of building the call `request` and then
/// sending it over the connection that connecting gave: the error of a
/// message that cannot be built, or the error with which connecting
/// failed, or what the connection gave back.
pub open spec fn built_and_exchanged<X: Fn(MethodCall) -> Result<Vec<WireValue>, Error>>(
    connection: Result<X, Error>,
    request: MethodCallView,
    reply: Result<Vec<WireValue>, Error>,
) -> bool {
    if !well_formed(request) {
        reply == Err::<Vec<WireValue>, Error>(Error::MessageBuild)
    } else {
        match connection {
            Ok(x) => exchanged(&x, request, reply),
            Err(e) => reply == Err::<Vec<WireValue>, Error>(e),
        }
    }
}

/// The id that goes out with a notification as the one to replace: its
/// own, or zero to have a new one assigned.
pub open spec fn replaced_id(notification: NotificationView) -> u32 {
    match notification.id {
        Some(id) => id,
        None => ASSIGN_NEW_ID,
    }
}

/// What a submission over a fresh connection comes to, given what came
/// back: a handle that binds the notification to the assigned id and to
/// the connection, or the error.
pub open spec fn handed_out<X>(
    notification: NotificationView,
    connection: Result<X, Error>,
    reply: Result<Vec<WireValue>, Error>,
    result: Result<NotificationHandle<X>, Error>,
) -> bool {
    match submitted(reply) {
        Ok(id) => connection is Ok && result is Ok && result->Ok_0.spec_id() == id
            && result->Ok_0.held_notification() == notification && result->Ok_0.held_connection()
            == connection->Ok_0 && !result->Ok_0.resolved(),
        Err(e) => result is Err && result->Err_0 == e,
    }
}

/// Submits `notification` to the server `bus` over a fresh connection and
/// binds the notification to the id that the reply assigns. `connection`
/// is what connecting gave. The notification's own id goes out as the one
/// to replace, zero where it has none. An error of connecting, of building
/// the message or of the connection is handed on.
pub fn connect_and_send_notification_at_bus<X>(
    notification: &Notification,
    bus: NotificationBus,
    connection: Result<X, Error>,
) -> (result: Result<NotificationHandle<X>, Error>) where
    X: Fn(MethodCall) -> Result<Vec<WireValue>, Error>,

    requires
        takes_calls(connection),
    ensures
        exists|reply: Result<Vec<WireValue>, Error>| #[trigger]
            connected_and_carried(
                connection,
                notify_call(notification@, replaced_id(notification@), bus@),
                reply,
            ) && handed_out(notification@, connection, reply, result),
{
    let ghost request = notify_call(notification@, replaced_id(notification@), bus@);
    let ghost given = connection;
    let connection = match connection {
        Ok(connection) => connection,
        Err(e) => {
            assert(connected_and_carried(given, request, Err::<Vec<WireValue>, Error>(e)));
            return Err(e);
        },
    };
    let inner_id = match notification.id {
        Some(id) => id,
        None => ASSIGN_NEW_ID,
    };
    let built = notify_request(notification, inner_id, bus);
    let reply = carry(&connection, built, Ghost(request));
    assert(connected_and_carried(given, request, reply));
    match reply {
        Ok(items) => {
            let id = reply_id(&items);
            Ok(NotificationHandle::new(id, connection, copy_notification(notification)))
        },
        Err(e) => Err(e),
    }
}

/// Submits `notification` to the server that it names over a fresh
/// connection, and binds it to the id that the reply assigns.
pub fn connect_and_send_notification<X>(
    notification: &Notification,
    connection: Result<X, Error>,
) -> (result: Result<NotificationHandle<X>, Error>) where
    X: Fn(MethodCall) -> Result<Vec<WireValue>, Error>,

    requires
        takes_calls(connection),
    ensures
        exists|reply: Result<Vec<WireValue>, Error>| #[trigger]
            connected_and_carried(
                connection,
                notify_call(notification@, replaced_id(notification@), notification@.bus),
                reply,
            ) && handed_out(notification@, connection, reply, result),
{
    let bus = notification.bus.clone();
    assert(bus@ == notification@.bus);
    let result = connect_and_send_notification_at_bus(notification, bus, connection);
    proof {
        let reply = choose|reply: Result<Vec<WireValue>, Error>| #[trigger]
            connected_and_carried(
                connection,
                notify_call(notification@, replaced_id(notification@), bus@),
                reply,
            ) && handed_out(notification@, connection, reply, result);
        assert(connected_and_carried(
            connection,
            notify_call(notification@, replaced_id(notification@), notification@.bus),
            reply,
        ));
    }
    result
}

/// What the query for the capabilities comes to, given what came back.
pub open spec fn capabilities_told(reply: Result<Vec<WireValue>, Error>) -> Result<
    Seq<Seq<char>>,
    Error,
> {
    match reply {
        Ok(items) => Ok(listed_capabilities(values_view(items@))),
        Err(e) => Err(e),
    }
}

/// The view of a list of capabilities, or the error in its place.
pub open spec fn capabilities_view(result: Result<Vec<String>, Error>) -> Result<
    Seq<Seq<char>>,
    Error,
> {
    match result {
        Ok(capabilities) => Ok(strings_view(capabilities@)),
        Err(e) => Err(e),
    }
}

/// Reads the outcome of the query for the capabilities out of what came
/// back.
pub fn capabilities_outcome(reply: Result<Vec<WireValue>, Error>) -> (outcome: Result<
    Vec<String>,
    Error,
>)
    ensures
        capabilities_view(outcome) == capabilities_told(reply),
{
    match reply {
        Ok(items) => Ok(reply_capabilities(&items)),
        Err(e) => Err(e),
    }
}

/// Hands the call that `built` holds to the connection that connecting
/// gave, or hands on the error of building or of connecting.
fn exchange<X>(
    connection: Result<X, Error>,
    built: Result<MethodCall, Error>,
    Ghost(request): Ghost<MethodCallView>,
) -> (reply: Result<Vec<WireValue>, Error>) where
    X: Fn(MethodCall) -> Result<Vec<WireValue>, Error>,

    requires
        takes_calls(connection),
        match built {
            Ok(call) => call@ == request && well_formed(request),
            Err(e) => e == Error::MessageBuild && !well_formed(request),
        },
    ensures
        built_and_exchanged(connection, request, reply),
{
    let message = match built {
        Ok(message) => message,
        Err(e) => {
            return Err(e);
        },
    };
    match connection {
        Ok(connection) => {
            let ghost handed = message;
            let reply = connection(message);
            assert(call_ensures(connection, (handed,), reply));
            assert(exchanged(&connection, request, reply));
            reply
        },
        Err(e) => Err(e),
    }
}

/// Asks the server under the well-known name what it can do, over a fresh
/// connection. `connection` is what connecting gave. An error of building
/// the message, of connecting or of the connection is handed on.
pub fn get_capabilities<X>(connection: Result<X, Error>) -> (capabilities: Result<
    Vec<String>,
    Error,
>) where X: Fn(MethodCall) -> Result<Vec<WireValue>, Error>
    requires
        takes_calls(connection),
    ensures
        exists|reply: Result<Vec<WireValue>, Error>| #[trigger]
            built_and_exchanged(
                connection,
                method_call("GetCapabilities"@, NOTIFICATION_NAMESPACE@),
                reply,
            ) && capabilities_view(capabilities) == capabilities_told(reply),
{
    let built = build_message("GetCapabilities", NotificationBus::default());
    let reply = exchange(
        connection,
        built,
        Ghost(method_call("GetCapabilities"@, NOTIFICATION_NAMESPACE@)),
    );
    capabilities_outcome(reply)
}

/// What the query for the server's information comes to, given what came
/// back.
pub open spec fn information_told(reply: Result<Vec<WireValue>, Error>) -> Result<
    ServerInformationView,
    Error,
> {
    match reply {
        Ok(items) => Ok(told_information(values_view(items@))),
        Err(e) => Err(e),
    }
}

/// The view of a server's information, or the error in its place.
pub open spec fn information_view(result: Result<ServerInformation, Error>) -> Result<
    ServerInformationView,
    Error,
> {
    match result {
        Ok(information) => Ok(information@),
        Err(e) => Err(e),
    }
}

/// Reads the outcome of the query for the server's information out of what
/// came back.
pub fn information_outcome(reply: Result<Vec<WireValue>, Error>) -> (outcome: Result<
    ServerInformation,
    Error,
>)
    ensures
        information_view(outcome) == information_told(reply),
{
    match reply {
        Ok(items) => Ok(reply_server_information(&items)),
        Err(e) => Err(e),
    }
}

/// Asks the server under the well-known name what it is, over a fresh
/// connection. `connection` is what connecting gave. An error of building
/// the message, of connecting or of the connection is handed on.
pub fn get_server_information<X>(connection: Result<X, Error>) -> (information: Result<
    ServerInformation,
    Error,
>) where X: Fn(MethodCall) -> Result<Vec<WireValue>, Error>
    requires
        takes_calls(connection),
    ensures
        exists|reply: Result<Vec<WireValue>, Error>| #[trigger]
            built_and_exchanged(
                connection,
                method_call("GetServerInformation"@, NOTIFICATION_NAMESPACE@),
                reply,
            ) && information_view(information) == information_told(reply),
{
    let built = build_message("GetServerInformation", NotificationBus::default());
    let reply = exchange(
        connection,
        built,
        Ghost(method_call("GetServerInformation"@, NOTIFICATION_NAMESPACE@)),
    );
    information_outcome(reply)
}

/// The place of the signal at which the wait for the outcome of the
/// notification `id` ends, if it ends within `signals`.
pub open spec fn resolved_at(signals: Seq<BusSignalView>, id: u32) -> Option<usize> {
    match resolution(signals, id) {
        Some((at, _)) => Some(at as usize),
        None => None,
    }
}

/// Something that takes the outcome of a notification.
pub trait ActionResponseHandler {
    /// Takes the outcome. It is called once at most.
    fn call(self, response: &ActionResponse);
}

/// A closure as a handler of a notification's outcome. It is made only of
/// a closure that takes every outcome.
pub struct FnResponseHandler<F: FnOnce(&ActionResponse)> {
    f: F,
}

impl<F: FnOnce(&ActionResponse)> FnResponseHandler<F> {
    #[verifier::type_invariant]
    spec fn takes_every_outcome(&self) -> bool {
        forall|response: &ActionResponse| call_requires(self.f, (response,))
    }

    /// The closure that the handler runs.
    pub closed spec fn closure(&self) -> F {
        self.f
    }

    /// The handler that runs `f` on the outcome.
    pub fn new(f: F) -> (handler: Self)
        requires
            forall|response: &ActionResponse| call_requires(f, (response,)),
        ensures
            handler.closure() == f,
    {
        FnResponseHandler { f }
    }
}

impl<F: FnOnce(&ActionResponse)> ActionResponseHandler for FnResponseHandler<F> {
    /// Runs the closure on the outcome.
    fn call(self, response: &ActionResponse)
        ensures
            call_ensures(self.closure(), (response,), ()),
    {
        proof {
            use_type_invariant(&self);
        }
        (self.f)(response)
    }
}

/// Whether `func` was handed a response that stands for `outcome`.
pub open spec fn told<H: ActionResponseHandler>(func: H, outcome: ActionResponseView) -> bool {
    exists|response: ActionResponse|
        response@ == outcome && #[trigger] call_ensures(H::call, (func, &response), ())
}

/// Waits over the signals that came in for the outcome of the notification
/// `id` and hands it to `func`. The result is the place of the signal that
/// ended the wait. `None` says that no signal was for this notification:
/// then `func` was not called.
pub fn handle_action<H: ActionResponseHandler>(signals: &Vec<BusSignal>, id: u32, func: H) -> (at:
    Option<usize>)
    ensures
        at == resolved_at(signals_view(signals@), id),
        resolution(signals_view(signals@), id) matches Some((_, outcome)) ==> told(func, outcome),
{
    match wait_for_action_signal(signals, id) {
        Some((at, response)) => {
            func.call(&response);
            assert(call_ensures(H::call, (func, &response), ()));
            Some(at)
        },
        None => None,
    }
}

impl<X> NotificationHandle<X> {
    /// Takes one signal from the bus. The result is the outcome of this
    /// notification where the signal brings it and no earlier signal did,
    /// which ends the wait. `None` says that the wait goes on, or that it
    /// was over before: a handle gives one outcome in its life.
    pub fn on_signal(&mut self, signal: &BusSignal) -> (response: Option<ActionResponse>)
        ensures
            final(self).spec_id() == old(self).spec_id(),
            final(self).held_notification() == old(self).held_notification(),
            final(self).held_connection() == old(self).held_connection(),
            (final(self).resolved(), response_view(response)) == step(
                old(self).resolved(),
                signal@,
                old(self).spec_id(),
            ),
    {
        if self.resolved {
            return None;
        }
        let response = resolve(signal, self.id);
        if response.is_some() {
            self.resolved = true;
        }
        response
    }

    /// Waits over the signals that came in for the outcome of this
    /// notification and hands it to `func`. A handle hands out one outcome
    /// in its life: once it has, it passes over every signal and calls
    /// nothing. The result is the place of the signal that ended the wait,
    /// `None` where the wait goes on or was over before.
    pub fn wait_for_action<H: ActionResponseHandler>(
        &mut self,
        signals: &Vec<BusSignal>,
        func: H,
    ) -> (at: Option<usize>)
        ensures
            final(self).spec_id() == old(self).spec_id(),
            final(self).held_notification() == old(self).held_notification(),
            final(self).held_connection() == old(self).held_connection(),
            old(self).resolved() ==> at is None && final(self).resolved(),
            !old(self).resolved() ==> {
                &&& at == resolved_at(signals_view(signals@), old(self).spec_id())
                &&& final(self).resolved() == (at is Some)
                &&& resolution(signals_view(signals@), old(self).spec_id()) matches Some(
                    (_, outcome),
                ) ==> told(func, outcome)
            },
    {
        if self.resolved {
            return None;
        }
        let at = handle_action(signals, self.id, func);
        if at.is_some() {
            self.resolved = true;
        }
        at
    }
}

impl<X: Fn(MethodCall) -> Result<Vec<WireValue>, Error>> NotificationHandle<X> {
    /// Sends the notification again over the handle's connection, to
    /// replace the one that the server shows under the handle's id. The
    /// handle takes the id that the reply assigns. Where no reply comes,
    /// the error is the result and the handle stays as it is.
    pub fn update(&mut self) -> (updated: Result<(), Error>)
        requires
            forall|call: MethodCall| call_requires(old(self).held_connection(), (call,)),
        ensures
            final(self).held_notification() == old(self).held_notification(),
            final(self).held_connection() == old(self).held_connection(),
            final(self).resolved() == old(self).resolved(),
            exists|reply: Result<Vec<WireValue>, Error>| #[trigger]
                carried(
                    &old(self).held_connection(),
                    notify_call(
                        old(self).held_notification(),
                        old(self).spec_id(),
                        old(self).held_notification().bus,
                    ),
                    reply,
                ) && match submitted(reply) {
                    Ok(id) => updated is Ok && final(self).spec_id() == id,
                    Err(e) => updated == Err::<(), Error>(e) && final(self).spec_id() == old(
                        self,
                    ).spec_id(),
                },
    {
        let bus = self.notification.bus.clone();
        let sent = send_notification_via_connection_at_bus(
            &self.notification,
            self.id,
            &self.connection,
            bus,
        );
        proof {
            let reply = choose|reply: Result<Vec<WireValue>, Error>| #[trigger]
                carried(&self.connection, notify_call(self.notification@, self.id, bus@), reply)
                    && sent == submitted(reply);
            assert(carried(
                &old(self).held_connection(),
                notify_call(
                    old(self).held_notification(),
                    old(self).spec_id(),
                    old(self).held_notification().bus,
                ),
                reply,
            ));
        }
        match sent {
            Ok(id) => {
                self.id = id;
                Ok(())
            },
            Err(e) => Err(e),
        }
    }
}

} // verus!
