use idle_marker::{classify_interface, str_equal, Capability, MarkerPolicy, Request, Session, IDLE_NOTIFIER_INTERFACE, SEAT_INTERFACE};

fn session() -> Session {
    Session::new(300000, String::from("/tmp/idle"), MarkerPolicy::Strict)
}

#[test]
fn classify_known_and_unknown_interfaces() {
    assert_eq!(classify_interface("wl_seat"), Capability::Seat);
    assert_eq!(classify_interface("ext_idle_notifier_v1"), Capability::IdleNotifier);
    assert_eq!(classify_interface("wl_compositor"), Capability::Other);
    assert_eq!(classify_interface("wl_seat2"), Capability::Other);
    assert_eq!(classify_interface(""), Capability::Other);
    assert_eq!(classify_interface(SEAT_INTERFACE), Capability::Seat);
    assert_eq!(classify_interface(IDLE_NOTIFIER_INTERFACE), Capability::IdleNotifier);
}

#[test]
fn str_equal_compares_characters() {
    assert!(str_equal("wl_seat", "wl_seat"));
    assert!(!str_equal("wl_seat", "wl_seaT"));
    assert!(!str_equal("wl_seat", "wl_sea"));
    assert!(str_equal("", ""));
    assert!(str_equal("séat", "séat"));
}

#[test]
fn idle_notifier_first_then_seat() {
    let mut s = session();
    let r = s.on_global(7, "ext_idle_notifier_v1");
    assert_eq!(r, vec![Request::BindIdleNotifier { name: 7, version: 1 }]);
    assert!(!s.is_subscribed());
    let r = s.on_global(2, "wl_seat");
    assert_eq!(
        r,
        vec![Request::BindSeat { name: 2, version: 1 }, Request::Subscribe { timeout_ms: 300000 }]
    );
    assert!(s.is_subscribed());
    assert_eq!(s.seat(), Some(2));
    assert_eq!(s.idle_notifier(), Some(7));
}

#[test]
fn seat_first_then_idle_notifier() {
    let mut s = session();
    let r = s.on_global(2, "wl_seat");
    assert_eq!(r, vec![Request::BindSeat { name: 2, version: 1 }]);
    assert!(!s.is_subscribed());
    let r = s.on_global(7, "ext_idle_notifier_v1");
    assert_eq!(
        r,
        vec![Request::BindIdleNotifier { name: 7, version: 1 }, Request::Subscribe { timeout_ms: 300000 }]
    );
    assert!(s.is_subscribed());
}

#[test]
fn unrelated_interface_changes_nothing() {
    let mut s = session();
    let r = s.on_global(9, "zwlr_data_control_manager_v1");
    assert!(r.is_empty());
    assert_eq!(s.seat(), None);
    assert_eq!(s.idle_notifier(), None);
    assert!(!s.is_subscribed());
    s.on_global(2, "wl_seat");
    let r = s.on_global(10, "wl_output");
    assert!(r.is_empty());
    assert_eq!(s.seat(), Some(2));
    assert!(!s.is_subscribed());
}

#[test]
fn only_seat_never_subscribes() {
    let mut s = session();
    let mut all: Vec<Request> = Vec::new();
    all.extend(s.on_global(1, "wl_compositor"));
    all.extend(s.on_global(2, "wl_seat"));
    all.extend(s.on_global(3, "wl_shm"));
    assert_eq!(all, vec![Request::BindSeat { name: 2, version: 1 }]);
    assert!(!s.is_subscribed());
}

#[test]
fn repeated_advertisements_bind_and_subscribe_once() {
    let mut s = session();
    let mut all: Vec<Request> = Vec::new();
    all.extend(s.on_global(2, "wl_seat"));
    all.extend(s.on_global(7, "ext_idle_notifier_v1"));
    all.extend(s.on_global(8, "wl_seat"));
    all.extend(s.on_global(9, "ext_idle_notifier_v1"));
    assert_eq!(
        all,
        vec![
            Request::BindSeat { name: 2, version: 1 },
            Request::BindIdleNotifier { name: 7, version: 1 },
            Request::Subscribe { timeout_ms: 300000 },
        ]
    );
    assert_eq!(s.seat(), Some(2));
    assert_eq!(s.idle_notifier(), Some(7));
}

#[test]
fn configuration_is_kept() {
    let mut s = Session::new(60000, String::from("/run/user/idle"), MarkerPolicy::Idempotent);
    s.on_global(2, "wl_seat");
    let r = s.on_global(7, "ext_idle_notifier_v1");
    assert_eq!(r[1], Request::Subscribe { timeout_ms: 60000 });
    assert_eq!(s.timeout_ms(), 60000);
    assert_eq!(s.marker_path(), "/run/user/idle");
    assert_eq!(s.policy(), MarkerPolicy::Idempotent);
}
