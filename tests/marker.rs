use idle_marker::{decide_marker_op, timeout_ms_from_minutes, MarkerOp, MarkerPolicy, Notification, Session};

fn subscribed(policy: MarkerPolicy) -> Session {
    let mut s = Session::new(timeout_ms_from_minutes(5).unwrap(), String::from("/tmp/idle"), policy);
    s.on_global(1, "wl_seat");
    s.on_global(2, "ext_idle_notifier_v1");
    s
}

fn apply(exists: bool, op: MarkerOp) -> Option<bool> {
    match op {
        MarkerOp::Create => Some(true),
        MarkerOp::Remove => Some(false),
        MarkerOp::Keep => Some(exists),
        MarkerOp::Violation => None,
    }
}

#[test]
fn timeout_in_minutes_becomes_milliseconds() {
    assert_eq!(timeout_ms_from_minutes(5), Some(300000));
    assert_eq!(timeout_ms_from_minutes(0), Some(0));
    assert_eq!(timeout_ms_from_minutes(1), Some(60000));
    assert_eq!(timeout_ms_from_minutes(71582), Some(4294920000));
    assert_eq!(timeout_ms_from_minutes(71583), None);
    assert_eq!(timeout_ms_from_minutes(u32::MAX), None);
}

#[test]
fn idled_creates_then_resumed_removes() {
    let s = subscribed(MarkerPolicy::Strict);
    assert_eq!(s.timeout_ms(), 300000);
    assert_eq!(s.marker_path(), "/tmp/idle");
    assert_eq!(s.on_notification(Notification::Idled, false), MarkerOp::Create);
    assert_eq!(s.on_notification(Notification::Resumed, true), MarkerOp::Remove);
}

#[test]
fn strict_policy_treats_repeats_as_violations() {
    let s = subscribed(MarkerPolicy::Strict);
    assert_eq!(s.on_notification(Notification::Idled, true), MarkerOp::Violation);
    assert_eq!(s.on_notification(Notification::Resumed, false), MarkerOp::Violation);
}

#[test]
fn idempotent_policy_ignores_repeats() {
    let s = subscribed(MarkerPolicy::Idempotent);
    assert_eq!(s.on_notification(Notification::Idled, true), MarkerOp::Keep);
    assert_eq!(s.on_notification(Notification::Resumed, false), MarkerOp::Keep);
    assert_eq!(s.on_notification(Notification::Idled, false), MarkerOp::Create);
    assert_eq!(s.on_notification(Notification::Resumed, true), MarkerOp::Remove);
}

#[test]
fn unknown_notification_is_ignored() {
    for policy in [MarkerPolicy::Strict, MarkerPolicy::Idempotent] {
        for exists in [false, true] {
            assert_eq!(decide_marker_op(policy, Notification::Unknown, exists), MarkerOp::Keep);
        }
    }
}

#[test]
fn no_marker_operation_without_subscription() {
    let mut s = Session::new(300000, String::from("/tmp/idle"), MarkerPolicy::Strict);
    s.on_global(7, "ext_idle_notifier_v1");
    for ev in [Notification::Idled, Notification::Resumed, Notification::Unknown] {
        for exists in [false, true] {
            assert_eq!(s.on_notification(ev, exists), MarkerOp::Keep);
        }
    }
}

#[test]
fn alternating_events_track_the_last_one() {
    for policy in [MarkerPolicy::Strict, MarkerPolicy::Idempotent] {
        let s = subscribed(policy);
        let mut exists = false;
        for i in 0..7u32 {
            let ev = if i % 2 == 0 { Notification::Idled } else { Notification::Resumed };
            exists = apply(exists, s.on_notification(ev, exists)).unwrap();
            assert_eq!(exists, ev == Notification::Idled);
        }
        assert!(exists);
    }
}
