use notify_rust::lifecycle::{Effect, Lifecycle, Phase, Step};
use notify_rust::notification::CloseReason;

#[test]
fn a_new_request_is_received() {
    let lifecycle = Lifecycle::new(7, 100);
    assert_eq!(lifecycle, Lifecycle { id: 7, timeout: 100, phase: Phase::Received, announced: false });
}

#[test]
fn the_steps_in_their_turn() {
    let mut lifecycle = Lifecycle::new(7, 100);
    assert_eq!(lifecycle.advance(Step::Announce), Some(Effect::ActionInvoked(7)));
    assert_eq!(lifecycle.phase, Phase::Received);
    assert_eq!(lifecycle.advance(Step::Dispatch), Some(Effect::HandlerCalled));
    assert_eq!(lifecycle.phase, Phase::HandlerDispatched);
    assert_eq!(lifecycle.advance(Step::Reply), Some(Effect::Reply(7)));
    assert_eq!(lifecycle.phase, Phase::Replied);
    assert_eq!(lifecycle.advance(Step::Arm), None);
    assert_eq!(lifecycle.phase, Phase::PendingClose);
    assert_eq!(lifecycle.advance(Step::Expire), Some(Effect::Closed(7, CloseReason::Expired)));
    assert_eq!(lifecycle.phase, Phase::Closed);
}

#[test]
fn an_action_is_announced_once() {
    let mut lifecycle = Lifecycle::new(1, 0);
    assert_eq!(lifecycle.advance(Step::Announce), Some(Effect::ActionInvoked(1)));
    assert_eq!(lifecycle.advance(Step::Announce), None);
    lifecycle.advance(Step::Dispatch);
    assert_eq!(lifecycle.advance(Step::Announce), None);
}

#[test]
fn a_step_out_of_turn_changes_nothing() {
    let fresh = Lifecycle::new(3, 20);
    for step in [Step::Reply, Step::Arm, Step::Expire] {
        let mut lifecycle = fresh;
        assert_eq!(lifecycle.advance(step), None);
        assert_eq!(lifecycle, fresh);
    }
    let mut dispatched = fresh;
    dispatched.advance(Step::Dispatch);
    for step in [Step::Announce, Step::Dispatch, Step::Arm, Step::Expire] {
        let mut lifecycle = dispatched;
        assert_eq!(lifecycle.advance(step), None);
        assert_eq!(lifecycle, dispatched);
    }
}

#[test]
fn the_close_cannot_overtake_the_reply() {
    let mut lifecycle = Lifecycle::new(3, 20);
    lifecycle.advance(Step::Dispatch);
    assert_eq!(lifecycle.advance(Step::Arm), None);
    assert_eq!(lifecycle.advance(Step::Expire), None);
    assert_eq!(lifecycle.phase, Phase::HandlerDispatched);
    assert_eq!(lifecycle.advance(Step::Reply), Some(Effect::Reply(3)));
    assert_eq!(lifecycle.advance(Step::Expire), None);
    assert_eq!(lifecycle.advance(Step::Arm), None);
    assert_eq!(lifecycle.advance(Step::Expire), Some(Effect::Closed(3, CloseReason::Expired)));
}

#[test]
fn nothing_follows_the_close() {
    let mut lifecycle = Lifecycle::new(3, -1);
    for step in [Step::Dispatch, Step::Reply, Step::Arm, Step::Expire] {
        lifecycle.advance(step);
    }
    let closed = lifecycle;
    assert_eq!(closed.phase, Phase::Closed);
    for step in [Step::Announce, Step::Dispatch, Step::Reply, Step::Arm, Step::Expire] {
        assert_eq!(lifecycle.advance(step), None);
        assert_eq!(lifecycle, closed);
    }
}

#[test]
fn a_timeout_of_zero_never_closes() {
    let mut lifecycle = Lifecycle::new(3, 0);
    let mut effects = Vec::new();
    for step in [
        Step::Expire,
        Step::Dispatch,
        Step::Expire,
        Step::Reply,
        Step::Expire,
        Step::Arm,
        Step::Expire,
        Step::Arm,
        Step::Expire,
    ] {
        if let Some(effect) = lifecycle.advance(step) {
            effects.push(effect);
        }
    }
    assert_eq!(effects, vec![Effect::HandlerCalled, Effect::Reply(3)]);
    assert_eq!(lifecycle.phase, Phase::NeverCloses);
}

#[test]
fn any_nonzero_timeout_closes_once() {
    for timeout in [-1, 1, 5, 10, 50, i32::MAX, i32::MIN] {
        let mut lifecycle = Lifecycle::new(9, timeout);
        let mut effects = Vec::new();
        for step in [
            Step::Dispatch,
            Step::Reply,
            Step::Arm,
            Step::Expire,
            Step::Expire,
            Step::Arm,
            Step::Reply,
        ] {
            if let Some(effect) = lifecycle.advance(step) {
                effects.push(effect);
            }
        }
        assert_eq!(
            effects,
            vec![Effect::HandlerCalled, Effect::Reply(9), Effect::Closed(9, CloseReason::Expired)]
        );
    }
}
