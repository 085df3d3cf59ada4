use notify_rust::actions::Action;
use notify_rust::hints::{Hint, HintValue};
use notify_rust::notification::{
    copy_notification, CloseReason, Notification, NotificationBus, ASSIGN_NEW_ID,
    NOTIFICATION_INTERFACE, NOTIFICATION_NAMESPACE, NOTIFICATION_OBJECTPATH, POLL_INTERVAL_MS,
    REPLY_TIMEOUT_MS, TIMEOUT_DEFAULT, TIMEOUT_NEVER,
};

fn hint(key: &str, value: HintValue) -> Hint {
    Hint { key: key.to_string(), value }
}

#[test]
fn protocol_constants() {
    assert_eq!(NOTIFICATION_NAMESPACE, "org.freedesktop.Notifications");
    assert_eq!(NOTIFICATION_INTERFACE, "org.freedesktop.Notifications");
    assert_eq!(NOTIFICATION_OBJECTPATH, "/org/freedesktop/Notifications");
    assert_eq!(REPLY_TIMEOUT_MS, 2000);
    assert_eq!(POLL_INTERVAL_MS, 1000);
    assert_eq!(ASSIGN_NEW_ID, 0);
    assert_eq!(TIMEOUT_DEFAULT, -1);
    assert_eq!(TIMEOUT_NEVER, 0);
}

#[test]
fn close_reasons_by_code() {
    assert_eq!(CloseReason::from_code(1), CloseReason::Expired);
    assert_eq!(CloseReason::from_code(2), CloseReason::DismissedByUser);
    assert_eq!(CloseReason::from_code(3), CloseReason::ClosedByRequest);
    assert_eq!(CloseReason::from_code(4), CloseReason::Undefined);
    assert_eq!(CloseReason::from_code(0), CloseReason::Custom(0));
    assert_eq!(CloseReason::from_code(5), CloseReason::Custom(5));
    assert_eq!(CloseReason::from_code(u32::MAX), CloseReason::Custom(u32::MAX));
}

#[test]
fn close_reason_codes_round_trip() {
    for code in [0u32, 1, 2, 3, 4, 5, 77, u32::MAX] {
        assert_eq!(CloseReason::from_code(code).code(), code);
    }
    assert_eq!(CloseReason::Expired.code(), 1);
    assert_eq!(CloseReason::DismissedByUser.code(), 2);
    assert_eq!(CloseReason::ClosedByRequest.code(), 3);
    assert_eq!(CloseReason::Undefined.code(), 4);
    assert_eq!(CloseReason::Custom(9).code(), 9);
}

#[test]
fn the_default_bus_is_the_well_known_name() {
    assert_eq!(NotificationBus::default().into_name(), "org.freedesktop.Notifications");
    assert_eq!(NotificationBus::named("de.hoodie.Notifications".to_string()).into_name(), "de.hoodie.Notifications");
    let bus = NotificationBus::named("a.b".to_string());
    assert_eq!(bus.clone(), bus);
}

#[test]
fn a_new_notification_is_empty() {
    let n = Notification::new();
    assert_eq!(n.appname, "");
    assert_eq!(n.summary, "");
    assert_eq!(n.body, "");
    assert_eq!(n.icon, "");
    assert!(n.actions.is_empty());
    assert!(n.hints.is_empty());
    assert_eq!(n.timeout, -1);
    assert_eq!(n.id, None);
    assert_eq!(n.bus, NotificationBus::default());
    assert_eq!(Notification::default(), n);
}

#[test]
fn actions_are_added_in_order() {
    let mut n = Notification::new();
    n.action("open", "Open");
    n.action("close", "Close");
    assert_eq!(
        n.actions,
        vec![
            Action { tag: "open".to_string(), description: "Open".to_string() },
            Action { tag: "close".to_string(), description: "Close".to_string() },
        ]
    );
}

#[test]
fn a_hint_replaces_the_one_of_its_key() {
    let mut n = Notification::new();
    n.hint(hint("urgency", HintValue::Byte(0)));
    n.hint(hint("category", HintValue::Str("im".to_string())));
    n.hint(hint("urgency", HintValue::Byte(2)));
    assert_eq!(
        n.hints,
        vec![hint("urgency", HintValue::Byte(2)), hint("category", HintValue::Str("im".to_string()))]
    );
    n.hint(hint("x", HintValue::Int32(3)));
    assert_eq!(n.hints.len(), 3);
    assert_eq!(n.hints[2], hint("x", HintValue::Int32(3)));
}

#[test]
fn a_copy_is_equal() {
    let mut n = Notification::new();
    n.appname = "app".to_string();
    n.summary = "title".to_string();
    n.body = "text".to_string();
    n.icon = "clock".to_string();
    n.timeout = 1500;
    n.id = Some(4);
    n.bus = NotificationBus::named("x.y".to_string());
    n.action("a", "A");
    n.hint(hint("k", HintValue::Bytes(vec![1])));
    assert_eq!(copy_notification(&n), n);
}
