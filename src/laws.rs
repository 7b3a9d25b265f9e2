use vstd::prelude::*;
use crate::interface::{interface_kind, Capability};
use crate::marker::{apply_marker_op, MarkerOp, MarkerPolicy, Notification};
use crate::session::{fresh_session, global_step, notification_step, Request, SessionView};

verus! {

/// The state and all requests after a sequence of advertisements
/// `(numeric name, interface name)`, handled in order.
pub open spec fn run_globals(v: SessionView, ads: Seq<(u32, Seq<char>)>) -> (SessionView, Seq<Request>)
    decreases ads.len(),
{
    if ads.len() == 0 {
        (v, Seq::empty())
    } else {
        let (w, r) = run_globals(v, ads.drop_last());
        let (x, s) = global_step(w, ads.last().0, ads.last().1);
        (x, r + s)
    }
}

/// How many subscription requests a sequence of requests holds.
pub open spec fn count_subscribes(reqs: Seq<Request>) -> nat
    decreases reqs.len(),
{
    if reqs.len() == 0 {
        0
    } else {
        count_subscribes(reqs.drop_last()) + if reqs.last() is Subscribe { 1nat } else { 0nat }
    }
}

/// Some advertisement in `ads` is of capability `k`.
pub open spec fn advertises(ads: Seq<(u32, Seq<char>)>, k: Capability) -> bool {
    exists|i: int| 0 <= i < ads.len() && interface_kind(#[trigger] ads[i].1) == k
}

/// Every subscription request comes after a seat bind and an idle-notifier bind.
pub open spec fn subscribe_follows_binds(reqs: Seq<Request>) -> bool {
    forall|i: int| 0 <= i < reqs.len() && (#[trigger] reqs[i]) is Subscribe ==> {
        &&& exists|j: int| 0 <= j < i && (#[trigger] reqs[j]) is BindSeat
        &&& exists|k: int| 0 <= k < i && (#[trigger] reqs[k]) is BindIdleNotifier
    }
}

/// The marker's presence after a sequence of notifications, starting from
/// `exists`; `None` where some notification aborts the process.
pub open spec fn run_notifications(v: SessionView, exists: bool, evs: Seq<Notification>) -> Option<bool>
    decreases evs.len(),
{
    if evs.len() == 0 {
        Some(exists)
    } else {
        match run_notifications(v, exists, evs.drop_last()) {
            Some(e) => apply_marker_op(e, notification_step(v, evs.last(), e)),
            None => None,
        }
    }
}

/// `evs` alternates `Idled`, `Resumed`, `Idled`, ... from its start.
pub open spec fn alternating(evs: Seq<Notification>) -> bool {
    forall|i: int| 0 <= i < evs.len() ==> #[trigger] evs[i] == if i % 2 == 0 {
        Notification::Idled
    } else {
        Notification::Resumed
    }
}

proof fn lemma_count_append(a: Seq<Request>, b: Seq<Request>)
    ensures
        count_subscribes(a + b) == count_subscribes(a) + count_subscribes(b),
    decreases b.len(),
{
    if b.len() == 0 {
        assert(a + b =~= a);
    } else {
        lemma_count_append(a, b.drop_last());
        assert((a + b).drop_last() =~= a + b.drop_last());
    }
}

proof fn lemma_count_single(r: Request)
    ensures
        count_subscribes(seq![r]) == if r is Subscribe { 1nat } else { 0nat },
{
    let s = seq![r];
    assert(s.drop_last() =~= Seq::<Request>::empty());
    assert(count_subscribes(s.drop_last()) == 0);
    assert(s.last() == r);
}

/// What one advertisement does to the state and which requests it yields.
proof fn lemma_step(w: SessionView, name: u32, iface: Seq<char>)
    ensures
        ({
            let (x, s) = global_step(w, name, iface);
            &&& w.wf() ==> x.wf()
            &&& x.timeout_ms == w.timeout_ms
            &&& x.policy == w.policy
            &&& (x.seat is Some) == (w.seat is Some || interface_kind(iface) == Capability::Seat)
            &&& (x.idle_notifier is Some) == (w.idle_notifier is Some || interface_kind(iface)
                == Capability::IdleNotifier)
            &&& w.wf() ==> count_subscribes(s) == if x.subscribed && !w.subscribed { 1nat } else { 0nat }
            &&& forall|j: int| 0 <= j < s.len() && (#[trigger] s[j]) is Subscribe ==> {
                &&& j == 1
                &&& x.seat is Some && x.idle_notifier is Some
                &&& w.seat is None ==> s[0] is BindSeat
                &&& w.idle_notifier is None ==> s[0] is BindIdleNotifier
            }
            &&& w.seat is None && x.seat is Some ==> s.len() >= 1 && s[0] is BindSeat
            &&& w.idle_notifier is None && x.idle_notifier is Some ==> s.len() >= 1
                && s[0] is BindIdleNotifier
        }),
{
    let (x, s) = global_step(w, name, iface);
    if s.len() == 1 {
        lemma_count_single(s[0]);
        assert(s =~= seq![s[0]]);
    } else if s.len() == 2 {
        lemma_count_single(s[0]);
        lemma_count_single(s[1]);
        assert(s =~= seq![s[0]] + seq![s[1]]);
        lemma_count_append(seq![s[0]], seq![s[1]]);
    } else {
        assert(s.len() == 0);
    }
}

proof fn lemma_advertises_last(ads: Seq<(u32, Seq<char>)>, k: Capability)
    requires
        ads.len() > 0,
    ensures
        advertises(ads, k) == (advertises(ads.drop_last(), k) || interface_kind(ads.last().1) == k),
{
    let prev = ads.drop_last();
    if advertises(ads, k) {
        let i = choose|i: int| 0 <= i < ads.len() && interface_kind(#[trigger] ads[i].1) == k;
        if i < prev.len() {
            assert(prev[i] == ads[i]);
        }
    }
    if advertises(prev, k) {
        let i = choose|i: int| 0 <= i < prev.len() && interface_kind(#[trigger] prev[i].1) == k;
        assert(ads[i] == prev[i]);
    }
    if interface_kind(ads.last().1) == k {
        assert(ads[ads.len() - 1] == ads.last());
    }
}

/// The state after any sequence of advertisements handled from a fresh
/// session, and how many subscription requests were made.
proof fn lemma_run_state(timeout_ms: u32, marker_path: Seq<char>, policy: MarkerPolicy, ads: Seq<(u32, Seq<char>)>)
    ensures
        ({
            let (v, reqs) = run_globals(fresh_session(timeout_ms, marker_path, policy), ads);
            &&& v.wf()
            &&& (v.seat is Some) == advertises(ads, Capability::Seat)
            &&& (v.idle_notifier is Some) == advertises(ads, Capability::IdleNotifier)
            &&& count_subscribes(reqs) == if v.subscribed { 1nat } else { 0nat }
        }),
    decreases ads.len(),
{
    let v0 = fresh_session(timeout_ms, marker_path, policy);
    if ads.len() == 0 {
        return;
    }
    let prev = ads.drop_last();
    lemma_run_state(timeout_ms, marker_path, policy, prev);
    let (w, r) = run_globals(v0, prev);
    let (x, s) = global_step(w, ads.last().0, ads.last().1);
    lemma_step(w, ads.last().0, ads.last().1);
    lemma_count_append(r, s);
    lemma_advertises_last(ads, Capability::Seat);
    lemma_advertises_last(ads, Capability::IdleNotifier);
}

/// After any sequence of advertisements, each capability that is bound has
/// its bind request among the requests, and every subscription request
/// follows both binds.
proof fn lemma_run_order(v0: SessionView, ads: Seq<(u32, Seq<char>)>)
    requires
        v0.seat is None,
        v0.idle_notifier is None,
    ensures
        ({
            let (v, reqs) = run_globals(v0, ads);
            &&& subscribe_follows_binds(reqs)
            &&& v.seat is Some ==> exists|j: int| 0 <= j < reqs.len() && (#[trigger] reqs[j]) is BindSeat
            &&& v.idle_notifier is Some ==> exists|j: int| 0 <= j < reqs.len() && (#[trigger] reqs[j]) is BindIdleNotifier
        }),
    decreases ads.len(),
{
    if ads.len() == 0 {
        return;
    }
    let prev = ads.drop_last();
    lemma_run_order(v0, prev);
    let (w, r) = run_globals(v0, prev);
    let (x, s) = global_step(w, ads.last().0, ads.last().1);
    let reqs = r + s;
    lemma_step(w, ads.last().0, ads.last().1);

    let b = r.len() as int;
    assert forall|i: int| 0 <= i < r.len() implies reqs[i] == r[i] by {}
    assert forall|i: int| 0 <= i < s.len() implies reqs[b + i] == s[i] by {}
    if x.seat is Some {
        if w.seat is Some {
            let j = choose|j: int| 0 <= j < r.len() && (#[trigger] r[j]) is BindSeat;
            assert(reqs[j] is BindSeat);
        } else {
            assert(reqs[b] is BindSeat);
        }
    }
    if x.idle_notifier is Some {
        if w.idle_notifier is Some {
            let j = choose|j: int| 0 <= j < r.len() && (#[trigger] r[j]) is BindIdleNotifier;
            assert(reqs[j] is BindIdleNotifier);
        } else {
            assert(reqs[b] is BindIdleNotifier);
        }
    }
    assert forall|i: int| 0 <= i < reqs.len() && (#[trigger] reqs[i]) is Subscribe implies {
        &&& exists|j: int| 0 <= j < i && (#[trigger] reqs[j]) is BindSeat
        &&& exists|k: int| 0 <= k < i && (#[trigger] reqs[k]) is BindIdleNotifier
    } by {
        if i < b {
            assert(r[i] is Subscribe);
        } else {
            assert(s[i - b] is Subscribe);
            if w.seat is Some {
                let j = choose|j: int| 0 <= j < r.len() && (#[trigger] r[j]) is BindSeat;
                assert(reqs[j] is BindSeat);
            } else {
                assert(reqs[b] is BindSeat);
            }
            if w.idle_notifier is Some {
                let j = choose|j: int| 0 <= j < r.len() && (#[trigger] r[j]) is BindIdleNotifier;
                assert(reqs[j] is BindIdleNotifier);
            } else {
                assert(reqs[b] is BindIdleNotifier);
            }
        }
    }
}

/// Whatever the order of the advertisements, and whatever else is advertised
/// or repeated, the subscription is requested once if both the seat and the
/// idle notifier are advertised and never otherwise, and every subscription
/// request comes after both binds.
pub proof fn lemma_subscription_once(
    timeout_ms: u32,
    marker_path: Seq<char>,
    policy: MarkerPolicy,
    ads: Seq<(u32, Seq<char>)>,
)
    ensures
        ({
            let (v, reqs) = run_globals(fresh_session(timeout_ms, marker_path, policy), ads);
            &&& count_subscribes(reqs) == if advertises(ads, Capability::Seat) && advertises(
                ads,
                Capability::IdleNotifier,
            ) {
                1nat
            } else {
                0nat
            }
            &&& subscribe_follows_binds(reqs)
        }),
{
    lemma_run_state(timeout_ms, marker_path, policy, ads);
    lemma_run_order(fresh_session(timeout_ms, marker_path, policy), ads);
}

/// Where the seat or the idle notifier is never advertised, no subscription
/// is requested and no notification leads to a marker-file operation.
pub proof fn lemma_missing_capability_is_inert(
    timeout_ms: u32,
    marker_path: Seq<char>,
    policy: MarkerPolicy,
    ads: Seq<(u32, Seq<char>)>,
    ev: Notification,
    exists: bool,
)
    requires
        !advertises(ads, Capability::Seat) || !advertises(ads, Capability::IdleNotifier),
    ensures
        ({
            let (v, reqs) = run_globals(fresh_session(timeout_ms, marker_path, policy), ads);
            &&& count_subscribes(reqs) == 0
            &&& notification_step(v, ev, exists) == MarkerOp::Keep
        }),
{
    lemma_run_state(timeout_ms, marker_path, policy, ads);
}

/// Once subscribed, under either policy, notifications that alternate from
/// `Idled` and start with the marker absent leave the marker present exactly
/// when the last one was `Idled`, and never abort.
pub proof fn lemma_alternation_tracks_last(v: SessionView, evs: Seq<Notification>)
    requires
        v.subscribed,
        alternating(evs),
    ensures
        run_notifications(v, false, evs) == Some(evs.len() > 0 && evs.last() == Notification::Idled),
    decreases evs.len(),
{
    if evs.len() > 0 {
        let prev = evs.drop_last();
        assert(alternating(prev)) by {
            assert forall|i: int| 0 <= i < prev.len() implies #[trigger] prev[i] == if i % 2 == 0 {
                Notification::Idled
            } else {
                Notification::Resumed
            } by {
                assert(prev[i] == evs[i]);
            }
        }
        lemma_alternation_tracks_last(v, prev);
        assert(evs.last() == evs[evs.len() - 1]);
        if prev.len() > 0 {
            assert(prev.last() == evs[evs.len() - 2]);
        }
    }
}

} // verus!
