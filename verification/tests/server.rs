use std::cell::RefCell;
use std::rc::Rc;
use std::time::Duration;

use notify_rust::actions::Action;
use notify_rust::client::{resolve, wait_for_action_signal};
use notify_rust::guard::DropGuard;
use notify_rust::hints::{Hint, HintValue};
use notify_rust::lifecycle::{Effect, Lifecycle, Phase, Step};
use notify_rust::notification::{ActionResponse, CloseReason, Error, ServerInformation};
use notify_rust::server::{
    FnHandler, NotificationHandler, NotificationServer, ReceivedNotification, Refusal,
};
use notify_rust::signals::{action_invoked, notification_closed};
use notify_rust::timeout::AutoClose;
use notify_rust::wire::{BusSignal, DictEntry, Variant, WireValue};

struct Recorder(Rc<RefCell<Vec<ReceivedNotification>>>);

impl NotificationHandler for Recorder {
    fn call(&self, notification: ReceivedNotification) {
        self.0.borrow_mut().push(notification);
    }
}

fn server() -> (NotificationServer<Recorder>, Rc<RefCell<Vec<ReceivedNotification>>>) {
    let seen = Rc::new(RefCell::new(Vec::new()));
    (NotificationServer::with_handler(Recorder(seen.clone())), seen)
}

fn strings(items: &[&str]) -> Vec<String> {
    items.iter().map(|s| s.to_string()).collect()
}

fn plain(server: &mut NotificationServer<Recorder>, timeout: i32) -> u32 {
    let pending = server
        .notify(
            "app".to_string(),
            0,
            "".to_string(),
            "s".to_string(),
            "b".to_string(),
            vec![],
            vec![],
            timeout,
        )
        .ok()
        .unwrap();
    let reply = server.dispatch(pending, Ok(())).ok().unwrap();
    reply.id
}

#[test]
fn a_new_server_has_given_no_id() {
    let (server, _) = server();
    assert_eq!(server.last_id(), 0);
    assert!(!server.is_stopped());
}

#[test]
fn the_first_id_is_one_and_ids_count_up() {
    let (mut server, _) = server();
    assert_eq!(plain(&mut server, 0), 1);
    assert_eq!(plain(&mut server, 0), 2);
    assert_eq!(plain(&mut server, 0), 3);
    assert_eq!(server.last_id(), 3);
}

#[test]
fn a_server_that_has_given_every_id_refuses_requests() {
    let seen = Rc::new(RefCell::new(Vec::new()));
    let mut server = NotificationServer::resuming_after(u32::MAX - 1, Recorder(seen.clone()));
    assert_eq!(server.last_id(), u32::MAX - 1);
    assert_eq!(plain(&mut server, 0), u32::MAX);
    let refused = server.notify(
        "a".to_string(),
        0,
        "".to_string(),
        "".to_string(),
        "".to_string(),
        vec![],
        vec![],
        0,
    );
    assert!(matches!(refused, Err(Refusal::IdsExhausted)));
    assert_eq!(server.last_id(), u32::MAX);
    assert_eq!(seen.borrow().len(), 1);
    server.stop();
    let refused = server.notify(
        "a".to_string(),
        0,
        "".to_string(),
        "".to_string(),
        "".to_string(),
        vec![],
        vec![],
        0,
    );
    assert!(matches!(refused, Err(Refusal::Stopped)));
}

#[test]
fn notify_decodes_the_request() {
    let (mut server, seen) = server();
    let raw_hints = vec![
        DictEntry { key: "urgency".to_string(), value: Variant::Byte(2) },
        DictEntry { key: "odd".to_string(), value: Variant::Unrecognized("d".to_string()) },
        DictEntry { key: "x".to_string(), value: Variant::Int32(10) },
    ];
    let pending = server
        .notify(
            "mail".to_string(),
            17,
            "inbox".to_string(),
            "New mail".to_string(),
            "text".to_string(),
            strings(&["open", "Open", "later", "Later", "stray"]),
            raw_hints,
            1500,
        )
        .ok()
        .unwrap();
    assert_eq!(pending.id(), 1);
    assert_eq!(pending.announcement(), Some("open".to_string()));
    let expected = ReceivedNotification {
        appname: "mail".to_string(),
        id: 17,
        icon: "inbox".to_string(),
        summary: "New mail".to_string(),
        body: "text".to_string(),
        actions: vec![
            Action { tag: "open".to_string(), description: "Open".to_string() },
            Action { tag: "later".to_string(), description: "Later".to_string() },
        ],
        hints: vec![
            Hint { key: "urgency".to_string(), value: HintValue::Byte(2) },
            Hint { key: "x".to_string(), value: HintValue::Int32(10) },
        ],
        timeout: 1500,
    };
    assert_eq!(pending.notification(), &expected);
    assert!(seen.borrow().is_empty());

    let reply = server.dispatch(pending, Ok(())).ok().unwrap();
    assert_eq!(reply.id, 1);
    assert_eq!(reply.auto_close, AutoClose::Requested(1500));
    assert_eq!(reply.lifecycle.phase, Phase::HandlerDispatched);
    assert_eq!(reply.lifecycle.id, 1);
    assert_eq!(reply.lifecycle.timeout, 1500);
    assert!(reply.lifecycle.announced);
    assert_eq!(*seen.borrow(), vec![expected]);
}

#[test]
fn a_request_without_actions_announces_nothing() {
    let (mut server, seen) = server();
    let pending = server
        .notify("a".to_string(), 0, "".to_string(), "".to_string(), "".to_string(), vec![], vec![], 0)
        .ok()
        .unwrap();
    assert_eq!(pending.announcement(), None);
    let reply = server.dispatch(pending, Err(Error::TransportFailure)).ok().unwrap();
    assert_eq!(reply.id, 1);
    assert_eq!(reply.auto_close, AutoClose::Never);
    assert!(!reply.lifecycle.announced);
    assert_eq!(seen.borrow().len(), 1);
}

#[test]
fn a_failed_announcement_keeps_the_handler_from_running() {
    let (mut server, seen) = server();
    let pending = server
        .notify(
            "a".to_string(),
            0,
            "".to_string(),
            "".to_string(),
            "".to_string(),
            strings(&["open", "Open"]),
            vec![],
            0,
        )
        .ok()
        .unwrap();
    let reply = server.dispatch(pending, Err(Error::TransportFailure));
    assert!(matches!(reply, Err(Error::TransportFailure)));
    assert!(seen.borrow().is_empty());
    assert_eq!(plain(&mut server, 0), 2);
}

#[test]
fn the_reply_carries_the_policy() {
    let (mut server, _) = server();
    for (timeout, policy) in [
        (0, AutoClose::Never),
        (-1, AutoClose::ServerDefault),
        (5, AutoClose::RaisedToMinimum),
        (50, AutoClose::Requested(50)),
    ] {
        let pending = server
            .notify(
                "a".to_string(),
                0,
                "".to_string(),
                "".to_string(),
                "".to_string(),
                vec![],
                vec![],
                timeout,
            )
            .ok()
            .unwrap();
        let reply = server.dispatch(pending, Ok(())).ok().unwrap();
        assert_eq!(reply.auto_close, policy);
    }
}

#[test]
fn a_stopped_server_refuses_requests() {
    let (mut server, seen) = server();
    assert_eq!(plain(&mut server, 0), 1);
    assert!(server.stop());
    assert!(server.is_stopped());
    let refused = server.notify(
        "a".to_string(),
        0,
        "".to_string(),
        "".to_string(),
        "".to_string(),
        vec![],
        vec![],
        0,
    );
    assert!(matches!(refused, Err(Refusal::Stopped)));
    assert_eq!(server.last_id(), 1);
    assert_eq!(seen.borrow().len(), 1);
    assert!(server.stop());
}

#[test]
fn stop_wakes_who_listens_for_it() {
    let (mut server, _) = server();
    let early = server.stop_listener();
    let idle = server.stop_listener();
    assert!(!idle.wait_timeout(Duration::from_millis(20)));
    assert!(server.stop());
    assert!(early.wait_timeout(Duration::from_millis(2000)));
}

#[test]
fn the_guard_wakes_its_listener_on_release() {
    let (guard, listener) = DropGuard::create();
    guard.release();
    assert!(listener.wait_timeout(Duration::from_millis(2000)));
}

#[test]
fn the_listener_sleeps_while_the_guard_is_held() {
    let (guard, listener) = DropGuard::create();
    assert!(!listener.wait_timeout(Duration::from_millis(20)));
    guard.release();
}

#[test]
fn the_reply_brings_both_sides_of_the_latch() {
    let (mut server, _) = server();
    let pending = server
        .notify("a".to_string(), 0, "".to_string(), "".to_string(), "".to_string(), vec![], vec![], -1)
        .ok()
        .unwrap();
    let reply = server.dispatch(pending, Ok(())).ok().unwrap();
    reply.guard.release();
    assert!(reply.has_returned.wait_timeout(Duration::from_millis(2000)));
}

#[test]
fn server_information_is_static() {
    let (server, _) = server();
    let expected = ServerInformation {
        name: "name".to_string(),
        vendor: "hoodie".to_string(),
        version: "0.1.0".to_string(),
        spec_version: "1.1".to_string(),
    };
    assert_eq!(server.get_server_information(), expected);
    assert_eq!(server.get_server_information(), expected);
}

#[test]
fn capabilities_are_static() {
    let (server, _) = server();
    assert_eq!(server.get_capabilities(), strings(&["actions", "body"]));
}

#[test]
fn signals_are_made_for_the_protocols_object() {
    assert_eq!(
        action_invoked(3, "open"),
        BusSignal {
            path: "/org/freedesktop/Notifications".to_string(),
            interface: "org.freedesktop.Notifications".to_string(),
            member: "ActionInvoked".to_string(),
            items: vec![WireValue::UInt32(3), WireValue::Str("open".to_string())],
        }
    );
    assert_eq!(
        notification_closed(3, CloseReason::Expired),
        BusSignal {
            path: "/org/freedesktop/Notifications".to_string(),
            interface: "org.freedesktop.Notifications".to_string(),
            member: "NotificationClosed".to_string(),
            items: vec![WireValue::UInt32(3), WireValue::UInt32(1)],
        }
    );
}

#[test]
fn the_client_hears_what_the_server_sends() {
    assert_eq!(resolve(&action_invoked(3, "open"), 3), Some(ActionResponse::Custom("open".to_string())));
    assert_eq!(resolve(&action_invoked(3, "open"), 4), None);
    for reason in [
        CloseReason::Expired,
        CloseReason::DismissedByUser,
        CloseReason::ClosedByRequest,
        CloseReason::Undefined,
        CloseReason::Custom(9),
    ] {
        assert_eq!(resolve(&notification_closed(3, reason), 3), Some(ActionResponse::Closed(reason)));
        assert_eq!(resolve(&notification_closed(3, reason), 2), None);
    }
}

#[test]
fn a_default_timeout_ends_in_an_expired_close_for_the_assigned_id() {
    let (mut server, _) = server();
    let pending = server
        .notify("a".to_string(), 0, "".to_string(), "".to_string(), "".to_string(), vec![], vec![], -1)
        .ok()
        .unwrap();
    let reply = server.dispatch(pending, Ok(())).ok().unwrap();
    assert_eq!(reply.auto_close.delay_ms(), Some(10));
    let mut lifecycle: Lifecycle = reply.lifecycle;
    assert_eq!(lifecycle.advance(Step::Expire), None);
    assert_eq!(lifecycle.advance(Step::Reply), Some(Effect::Reply(1)));
    assert_eq!(lifecycle.advance(Step::Arm), None);
    assert_eq!(lifecycle.phase, Phase::PendingClose);
    let effect = lifecycle.advance(Step::Expire);
    assert_eq!(effect, Some(Effect::Closed(1, CloseReason::Expired)));
    let sent = vec![notification_closed(1, CloseReason::Expired)];
    assert_eq!(
        wait_for_action_signal(&sent, reply.id),
        Some((0, ActionResponse::Closed(CloseReason::Expired)))
    );
}

#[test]
fn a_timeout_of_zero_never_ends_in_a_close() {
    let (mut server, _) = server();
    let pending = server
        .notify("a".to_string(), 0, "".to_string(), "".to_string(), "".to_string(), vec![], vec![], 0)
        .ok()
        .unwrap();
    let reply = server.dispatch(pending, Ok(())).ok().unwrap();
    assert_eq!(reply.auto_close.delay_ms(), None);
    let mut lifecycle: Lifecycle = reply.lifecycle;
    assert_eq!(lifecycle.advance(Step::Reply), Some(Effect::Reply(1)));
    assert_eq!(lifecycle.advance(Step::Arm), None);
    assert_eq!(lifecycle.phase, Phase::NeverCloses);
    for _ in 0..3 {
        assert_eq!(lifecycle.advance(Step::Expire), None);
        assert_eq!(lifecycle.phase, Phase::NeverCloses);
    }
}

#[test]
fn a_closure_is_a_handler() {
    let seen = Rc::new(RefCell::new(Vec::new()));
    let log = seen.clone();
    let handler = FnHandler::new(move |notification: ReceivedNotification| {
        log.borrow_mut().push(notification.summary);
    });
    let mut server = NotificationServer::with_handler(handler);
    for summary in ["first", "second"] {
        let pending = server
            .notify(
                "a".to_string(),
                0,
                "".to_string(),
                summary.to_string(),
                "".to_string(),
                vec![],
                vec![],
                0,
            )
            .ok()
            .unwrap();
        server.dispatch(pending, Ok(())).ok().unwrap();
    }
    assert_eq!(*seen.borrow(), vec!["first".to_string(), "second".to_string()]);
}
