use vstd::prelude::*;

verus! {

/// The notifications that an idle subscription delivers.
#[derive(Clone, Copy, Debug, PartialEq, Eq, Structural)]
pub enum Notification {
    /// The seat has been idle for the subscription's timeout.
    Idled,
    /// Activity resumed on the seat after an `Idled`.
    Resumed,
    /// A variant that a later version of the protocol added.
    Unknown,
}

/// How a notification that does not fit the marker's current presence is met.
#[derive(Clone, Copy, Debug, PartialEq, Eq, Structural)]
pub enum MarkerPolicy {
    /// `Idled` while the marker exists, or `Resumed` while it is absent, is a
    /// fatal violation of the protocol's alternation.
    Strict,
    /// Create only if absent, remove only if present.
    Idempotent,
}

/// The filesystem operation that a notification calls for.
#[derive(Clone, Copy, Debug, PartialEq, Eq, Structural)]
pub enum MarkerOp {
    /// Create the marker file, empty.
    Create,
    /// Delete the marker file.
    Remove,
    /// Leave the filesystem as it is.
    Keep,
    /// The notification contradicts the marker's presence: the process aborts.
    Violation,
}

/// The operation owed for `ev` when the marker's presence is `exists`.
pub open spec fn marker_op_spec(policy: MarkerPolicy, ev: Notification, exists: bool) -> MarkerOp {
    match ev {
        Notification::Idled => if !exists {
            MarkerOp::Create
        } else if policy == MarkerPolicy::Strict {
            MarkerOp::Violation
        } else {
            MarkerOp::Keep
        },
        Notification::Resumed => if exists {
            MarkerOp::Remove
        } else if policy == MarkerPolicy::Strict {
            MarkerOp::Violation
        } else {
            MarkerOp::Keep
        },
        Notification::Unknown => MarkerOp::Keep,
    }
}

/// The marker's presence after `op`, or `None` where the process aborts.
pub open spec fn apply_marker_op(exists: bool, op: MarkerOp) -> Option<bool> {
    match op {
        MarkerOp::Create => Some(true),
        MarkerOp::Remove => Some(false),
        MarkerOp::Keep => Some(exists),
        MarkerOp::Violation => None,
    }
}

/// Decides the filesystem operation for one notification.
pub fn decide_marker_op(policy: MarkerPolicy, ev: Notification, exists: bool) -> (r: MarkerOp)
    ensures
        r == marker_op_spec(policy, ev, exists),
        ev == Notification::Idled && !exists ==> r == MarkerOp::Create,
        ev == Notification::Resumed && exists ==> r == MarkerOp::Remove,
        ev == Notification::Unknown ==> r == MarkerOp::Keep,
        policy == MarkerPolicy::Strict && (ev == Notification::Idled && exists
            || ev == Notification::Resumed && !exists) ==> r == MarkerOp::Violation,
        policy == MarkerPolicy::Idempotent && (ev == Notification::Idled && exists
            || ev == Notification::Resumed && !exists) ==> r == MarkerOp::Keep,
{
    match ev {
        Notification::Idled => {
            if !exists {
                MarkerOp::Create
            } else {
                match policy {
                    MarkerPolicy::Strict => MarkerOp::Violation,
                    MarkerPolicy::Idempotent => MarkerOp::Keep,
                }
            }
        },
        Notification::Resumed => {
            if exists {
                MarkerOp::Remove
            } else {
                match policy {
                    MarkerPolicy::Strict => MarkerOp::Violation,
                    MarkerPolicy::Idempotent => MarkerOp::Keep,
                }
            }
        },
        Notification::Unknown => MarkerOp::Keep,
    }
}

} // verus!
