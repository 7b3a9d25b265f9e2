use vstd::prelude::*;
use crate::interface::{classify_interface, interface_kind, Capability};
use crate::marker::{decide_marker_op, marker_op_spec, MarkerOp, MarkerPolicy, Notification};

verus! {

/// Protocol version at which both globals are bound.
pub const BIND_VERSION: u32 = 1;

/// Milliseconds in one minute.
pub const MS_PER_MINUTE: u32 = 60000;

/// A protocol request that the caller must issue.
#[derive(Clone, Copy, Debug, PartialEq, Eq, Structural)]
pub enum Request {
    /// Bind the seat global with this numeric name.
    BindSeat { name: u32, version: u32 },
    /// Bind the idle-notifier global with this numeric name.
    BindIdleNotifier { name: u32, version: u32 },
    /// Ask the bound idle notifier for a notification object on the bound seat.
    Subscribe { timeout_ms: u32 },
}

/// The abstract state of a session.
pub struct SessionView {
    pub timeout_ms: u32,
    pub marker_path: Seq<char>,
    pub policy: MarkerPolicy,
    /// Numeric name of the bound seat global, once bound.
    pub seat: Option<u32>,
    /// Numeric name of the bound idle-notifier global, once bound.
    pub idle_notifier: Option<u32>,
    /// Whether the subscription has been requested.
    pub subscribed: bool,
}

impl SessionView {
    /// The subscription is requested exactly when both globals are bound.
    pub open spec fn wf(self) -> bool {
        self.subscribed == (self.seat is Some && self.idle_notifier is Some)
    }

    /// Both capabilities are present.
    pub open spec fn ready(self) -> bool {
        self.seat is Some && self.idle_notifier is Some
    }
}

/// A session before any advertisement has been seen.
pub open spec fn fresh_session(timeout_ms: u32, marker_path: Seq<char>, policy: MarkerPolicy) -> SessionView {
    SessionView {
        timeout_ms,
        marker_path,
        policy,
        seat: None,
        idle_notifier: None,
        subscribed: false,
    }
}

/// Requests the subscription if both globals are bound and it was not yet requested.
pub open spec fn subscribe_step(v: SessionView) -> (SessionView, Seq<Request>) {
    if v.ready() && !v.subscribed {
        (SessionView { subscribed: true, ..v }, seq![Request::Subscribe { timeout_ms: v.timeout_ms }])
    } else {
        (v, Seq::empty())
    }
}

/// The new state and the requests owed for one advertised global.
/// A capability that is already bound is not bound again.
pub open spec fn global_step(v: SessionView, name: u32, interface: Seq<char>) -> (SessionView, Seq<Request>) {
    match interface_kind(interface) {
        Capability::Seat => if v.seat is None {
            let (w, r) = subscribe_step(SessionView { seat: Some(name), ..v });
            (w, seq![Request::BindSeat { name, version: BIND_VERSION }] + r)
        } else {
            (v, Seq::empty())
        },
        Capability::IdleNotifier => if v.idle_notifier is None {
            let (w, r) = subscribe_step(SessionView { idle_notifier: Some(name), ..v });
            (w, seq![Request::BindIdleNotifier { name, version: BIND_VERSION }] + r)
        } else {
            (v, Seq::empty())
        },
        Capability::Other => (v, Seq::empty()),
    }
}

/// The marker operation owed for a notification: none before the subscription exists.
pub open spec fn notification_step(v: SessionView, ev: Notification, exists: bool) -> MarkerOp {
    if v.subscribed {
        marker_op_spec(v.policy, ev, exists)
    } else {
        MarkerOp::Keep
    }
}

/// Milliseconds in `minutes`, where that fits in a `u32`.
pub open spec fn timeout_ms_spec(minutes: u32) -> Option<u32> {
    if minutes * MS_PER_MINUTE <= u32::MAX {
        Some((minutes * MS_PER_MINUTE) as u32)
    } else {
        None
    }
}

/// Converts the timeout given in minutes to the milliseconds that the
/// protocol takes; `None` where it does not fit in a `u32`.
pub fn timeout_ms_from_minutes(minutes: u32) -> (r: Option<u32>)
    ensures
        r == timeout_ms_spec(minutes),
{
    minutes.checked_mul(MS_PER_MINUTE)
}

/// The state of one connection: the fixed configuration, the globals bound so
/// far, and whether the idle subscription has been requested.
pub struct Session {
    timeout_ms: u32,
    marker_path: String,
    policy: MarkerPolicy,
    seat: Option<u32>,
    idle_notifier: Option<u32>,
    subscribed: bool,
}

impl View for Session {
    type V = SessionView;

    closed spec fn view(&self) -> SessionView {
        SessionView {
            timeout_ms: self.timeout_ms,
            marker_path: self.marker_path@,
            policy: self.policy,
            seat: self.seat,
            idle_notifier: self.idle_notifier,
            subscribed: self.subscribed,
        }
    }
}

impl Session {
    /// A session with the given timeout (milliseconds) and marker path that
    /// has seen no advertisement yet.
    pub fn new(timeout_ms: u32, marker_path: String, policy: MarkerPolicy) -> (r: Session)
        ensures
            r@ == fresh_session(timeout_ms, marker_path@, policy),
            r@.wf(),
    {
        Session { timeout_ms, marker_path, policy, seat: None, idle_notifier: None, subscribed: false }
    }

    /// Requests the subscription once both globals are bound; does nothing
    /// when one is missing or the subscription was already requested.
    fn try_subscribe(&mut self) -> (r: Vec<Request>)
        ensures
            (final(self)@, r@) == subscribe_step(old(self)@),
    {
        let mut r: Vec<Request> = Vec::new();
        if self.seat.is_some() && self.idle_notifier.is_some() && !self.subscribed {
            self.subscribed = true;
            r.push(Request::Subscribe { timeout_ms: self.timeout_ms });
        }
        proof {
            assert(r@ =~= subscribe_step(old(self)@).1);
        }
        r
    }

    /// Handles one advertised global: binds the seat and the idle notifier
    /// the first time each is advertised, then requests the subscription once
    /// both are bound. Other interfaces change nothing.
    pub fn on_global(&mut self, name: u32, interface: &str) -> (r: Vec<Request>)
        ensures
            (final(self)@, r@) == global_step(old(self)@, name, interface@),
            old(self)@.wf() ==> final(self)@.wf(),
            final(self)@.timeout_ms == old(self)@.timeout_ms,
            final(self)@.marker_path == old(self)@.marker_path,
            final(self)@.policy == old(self)@.policy,
    {
        let mut r: Vec<Request> = Vec::new();
        match classify_interface(interface) {
            Capability::Seat => {
                if self.seat.is_none() {
                    self.seat = Some(name);
                    r.push(Request::BindSeat { name, version: BIND_VERSION });
                    let mut s = self.try_subscribe();
                    r.append(&mut s);
                }
            },
            Capability::IdleNotifier => {
                if self.idle_notifier.is_none() {
                    self.idle_notifier = Some(name);
                    r.push(Request::BindIdleNotifier { name, version: BIND_VERSION });
                    let mut s = self.try_subscribe();
                    r.append(&mut s);
                }
            },
            Capability::Other => {},
        }
        proof {
            assert(r@ =~= global_step(old(self)@, name, interface@).1);
        }
        r
    }

    /// The subscription timeout in milliseconds.
    pub fn timeout_ms(&self) -> (r: u32)
        ensures
            r == self@.timeout_ms,
    {
        self.timeout_ms
    }

    /// The path of the marker file.
    pub fn marker_path(&self) -> (r: &str)
        ensures
            r@ == self@.marker_path,
    {
        self.marker_path.as_str()
    }

    /// How notifications that contradict the marker's presence are met.
    pub fn policy(&self) -> (r: MarkerPolicy)
        ensures
            r == self@.policy,
    {
        self.policy
    }

    /// Numeric name of the bound seat global, if bound.
    pub fn seat(&self) -> (r: Option<u32>)
        ensures
            r == self@.seat,
    {
        self.seat
    }

    /// Numeric name of the bound idle-notifier global, if bound.
    pub fn idle_notifier(&self) -> (r: Option<u32>)
        ensures
            r == self@.idle_notifier,
    {
        self.idle_notifier
    }

    /// Whether the idle subscription has been requested.
    pub fn is_subscribed(&self) -> (r: bool)
        ensures
            r == self@.subscribed,
    {
        self.subscribed
    }

    /// The marker operation owed for a notification, given whether the
    /// marker file exists now.
    pub fn on_notification(&self, ev: Notification, marker_exists: bool) -> (r: MarkerOp)
        ensures
            r == notification_step(self@, ev, marker_exists),
    {
        if self.subscribed {
            decide_marker_op(self.policy, ev, marker_exists)
        } else {
            MarkerOp::Keep
        }
    }
}

} // verus!
