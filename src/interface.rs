use vstd::prelude::*;

verus! {

/// Interface name under which the compositor advertises an input seat.
pub const SEAT_INTERFACE: &'static str = "wl_seat";

/// Interface name under which the compositor advertises the idle notifier.
pub const IDLE_NOTIFIER_INTERFACE: &'static str = "ext_idle_notifier_v1";

/// What an advertised global is, as far as this bridge is concerned.
#[derive(Clone, Copy, Debug, PartialEq, Eq, Structural)]
pub enum Capability {
    Seat,
    IdleNotifier,
    Other,
}

/// The capability that an advertised interface name stands for.
pub open spec fn interface_kind(name: Seq<char>) -> Capability {
    if name == SEAT_INTERFACE@ {
        Capability::Seat
    } else if name == IDLE_NOTIFIER_INTERFACE@ {
        Capability::IdleNotifier
    } else {
        Capability::Other
    }
}

/// Character-wise equality of two strings.
pub fn str_equal(a: &str, b: &str) -> (r: bool)
    ensures
        r == (a@ == b@),
{
    let n = a.unicode_len();
    let m = b.unicode_len();
    if n != m {
        return false;
    }
    let mut i: usize = 0;
    while i < n
        invariant
            n == a@.len(),
            m == b@.len(),
            n == m,
            i <= n,
            forall|k: int| 0 <= k < i ==> a@[k] == b@[k],
        decreases n - i,
    {
        if a.get_char(i) != b.get_char(i) {
            return false;
        }
        i = i + 1;
    }
    assert(a@ =~= b@);
    true
}

/// Classifies an advertised interface name.
pub fn classify_interface(name: &str) -> (r: Capability)
    ensures
        r == interface_kind(name@),
{
    if str_equal(name, SEAT_INTERFACE) {
        Capability::Seat
    } else if str_equal(name, IDLE_NOTIFIER_INTERFACE) {
        Capability::IdleNotifier
    } else {
        Capability::Other
    }
}

} // verus!
