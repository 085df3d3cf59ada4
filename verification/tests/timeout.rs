use notify_rust::timeout::{timeout_policy, AutoClose, MINIMUM_TIMEOUT_MS};

#[test]
fn zero_never_closes() {
    let policy = timeout_policy(0);
    assert_eq!(policy, AutoClose::Never);
    assert_eq!(policy.delay_ms(), None);
    assert!(!policy.closes());
}

#[test]
fn negative_takes_the_server_default() {
    let policy = timeout_policy(-1);
    assert_eq!(policy, AutoClose::ServerDefault);
    assert_eq!(policy.delay_ms(), Some(10));
    assert_eq!(timeout_policy(i32::MIN).delay_ms(), Some(10));
}

#[test]
fn below_the_minimum_is_raised() {
    let policy = timeout_policy(5);
    assert_eq!(policy, AutoClose::RaisedToMinimum);
    assert_eq!(policy.delay_ms(), Some(10));
    assert_eq!(timeout_policy(1).delay_ms(), Some(10));
    assert_eq!(timeout_policy(9).delay_ms(), Some(10));
}

#[test]
fn at_or_above_the_minimum_stands() {
    assert_eq!(timeout_policy(50), AutoClose::Requested(50));
    assert_eq!(timeout_policy(50).delay_ms(), Some(50));
    assert_eq!(timeout_policy(10), AutoClose::Requested(10));
    assert_eq!(timeout_policy(i32::MAX).delay_ms(), Some(2147483647));
    assert_eq!(MINIMUM_TIMEOUT_MS, 10);
}
