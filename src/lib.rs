//! Decision logic of an idle-presence bridge: it watches a compositor's
//! capability advertisements, decides which globals to bind and when to
//! request the single idle-notification subscription, and turns each
//! idle/resume notification into an operation on a marker file.
//!
//! Every function here is pure: the caller performs the protocol requests and
//! filesystem operations that these functions return.
mod interface;
mod laws;
mod marker;
mod session;

pub use interface::{classify_interface, interface_kind, str_equal, Capability, IDLE_NOTIFIER_INTERFACE, SEAT_INTERFACE};
pub use laws::{
    advertises, alternating, count_subscribes, lemma_alternation_tracks_last, lemma_missing_capability_is_inert,
    lemma_subscription_once, run_globals, run_notifications, subscribe_follows_binds,
};
pub use marker::{apply_marker_op, decide_marker_op, marker_op_spec, MarkerOp, MarkerPolicy, Notification};
pub use session::{
    fresh_session, global_step, notification_step, subscribe_step, timeout_ms_from_minutes, timeout_ms_spec, Request,
    Session, SessionView, BIND_VERSION, MS_PER_MINUTE,
};
