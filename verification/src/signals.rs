//! The two signals of the protocol as the server sends them, and what a
//! waiting client makes of them.

use crate::client::outcome;
use crate::notification::{
    ActionResponseView, CloseReason, NOTIFICATION_INTERFACE, NOTIFICATION_OBJECTPATH,
};
use crate::wire::{values_view, BusSignal, BusSignalView, WireValue, WireValueView};
use vstd::prelude::*;
use vstd::string::StringExecFns;

verus! {

/// The signal that says that the action `action` of the notification `id`
/// was invoked.
pub open spec fn invoked_signal(id: u32, action: Seq<char>) -> BusSignalView {
    BusSignalView {
        path: NOTIFICATION_OBJECTPATH@,
        interface: NOTIFICATION_INTERFACE@,
        member: "ActionInvoked"@,
        items: seq![WireValueView::UInt32(id), WireValueView::Str(action)],
    }
}

/// The signal that says that the notification `id` was closed for
/// `reason`.
pub open spec fn closed_signal(id: u32, reason: CloseReason) -> BusSignalView {
    BusSignalView {
        path: NOTIFICATION_OBJECTPATH@,
        interface: NOTIFICATION_INTERFACE@,
        member: "NotificationClosed"@,
        items: seq![WireValueView::UInt32(id), WireValueView::UInt32(reason.to_code())],
    }
}

/// Makes the signal that says that the action `action` of the notification
/// `id` was invoked.
pub fn action_invoked(id: u32, action: &str) -> (signal: BusSignal)
    ensures
        signal@ == invoked_signal(id, action@),
{
    let mut items: Vec<WireValue> = Vec::new();
    items.push(WireValue::UInt32(id));
    items.push(WireValue::Str(String::from_str(action)));
    assert(values_view(items@) =~= invoked_signal(id, action@).items);
    BusSignal {
        path: String::from_str(NOTIFICATION_OBJECTPATH),
        interface: String::from_str(NOTIFICATION_INTERFACE),
        member: String::from_str("ActionInvoked"),
        items,
    }
}

/// Makes the signal that says that the notification `id` was closed for
/// `reason`.
pub fn notification_closed(id: u32, reason: CloseReason) -> (signal: BusSignal)
    ensures
        signal@ == closed_signal(id, reason),
{
    let mut items: Vec<WireValue> = Vec::new();
    items.push(WireValue::UInt32(id));
    items.push(WireValue::UInt32(reason.code()));
    assert(values_view(items@) =~= closed_signal(id, reason).items);
    BusSignal {
        path: String::from_str(NOTIFICATION_OBJECTPATH),
        interface: String::from_str(NOTIFICATION_INTERFACE),
        member: String::from_str("NotificationClosed"),
        items,
    }
}

/// The names of the two signals differ.
pub proof fn lemma_signal_names_differ()
    ensures
        "ActionInvoked"@ != "NotificationClosed"@,
{
    reveal_strlit("ActionInvoked");
    reveal_strlit("NotificationClosed");
    assert("ActionInvoked"@.len() == 13);
    assert("NotificationClosed"@.len() == 18);
}

/// The signal that the server sends for an invoked action ends the wait of
/// the client that waits for that notification, with the action's tag, and
/// means nothing to a client that waits for another.
pub proof fn lemma_client_hears_action(id: u32, action: Seq<char>, waiting: u32)
    ensures
        outcome(invoked_signal(id, action), waiting) == if waiting == id {
            Some(ActionResponseView::Custom(action))
        } else {
            None
        },
{
}

/// The signal that the server sends for a close ends the wait of the
/// client that waits for that notification, with the server's reason, and
/// means nothing to a client that waits for another.
pub proof fn lemma_client_hears_close(id: u32, reason: CloseReason, waiting: u32)
    requires
        reason.wf(),
    ensures
        outcome(closed_signal(id, reason), waiting) == if waiting == id {
            Some(ActionResponseView::Closed(reason))
        } else {
            None
        },
{
    lemma_signal_names_differ();
}

} // verus!
