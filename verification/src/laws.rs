//! General properties of the scheduler's activation discipline, stated and
//! proved over the same spec functions the executable contracts use.

use vstd::prelude::*;
use crate::protocol::ActivateEvent;
use crate::scheduler::{apply_event, drain, drain_from};

verus! {

/// The activation set after `n` consecutive `Activate` events for one token.
pub open spec fn after_activates(s: Set<u64>, t: u64, n: nat) -> Set<u64>
    decreases n,
{
    if n == 0 {
        s
    } else {
        apply_event(after_activates(s, t, (n - 1) as nat), (ActivateEvent::Activate { token: t }))
    }
}

/// The activation set after `m` consecutive `Deactivate` events for one
/// token.
pub open spec fn after_deactivates(s: Set<u64>, t: u64, m: nat) -> Set<u64>
    decreases m,
{
    if m == 0 {
        s
    } else {
        apply_event(
            after_deactivates(s, t, (m - 1) as nat),
            (ActivateEvent::Deactivate { token: t }),
        )
    }
}

/// Activation is idempotent: any positive number of `Activate` events for
/// one token adds exactly that token, once.
pub proof fn lemma_activates_idempotent(s: Set<u64>, t: u64, n: nat)
    requires
        n >= 1,
    ensures
        after_activates(s, t, n) == s.insert(t),
    decreases n,
{
    if n == 1 {
        assert(after_activates(s, t, 0nat) == s);
        assert(after_activates(s, t, 1nat) == s.insert(t));
    } else {
        lemma_activates_idempotent(s, t, (n - 1) as nat);
        assert(s.insert(t).insert(t) =~= s.insert(t));
    }
}

/// Deactivation of an absent token is a no-op: any positive number of
/// `Deactivate` events for one token removes exactly that token, once.
pub proof fn lemma_deactivates_idempotent(s: Set<u64>, t: u64, m: nat)
    requires
        m >= 1,
    ensures
        after_deactivates(s, t, m) == s.remove(t),
    decreases m,
{
    if m == 1 {
        assert(after_deactivates(s, t, 0nat) == s);
        assert(after_deactivates(s, t, 1nat) == s.remove(t));
    } else {
        lemma_deactivates_idempotent(s, t, (m - 1) as nat);
        assert(s.remove(t).remove(t) =~= s.remove(t));
    }
}

/// Law: for any token, `n` `Activate` events followed by at least as many
/// `Deactivate` events leave the token absent from the activation set — the
/// set is exactly the starting set without the token — and the extra
/// `Deactivate` events beyond the first change nothing.
pub proof fn lemma_matched_activation(s: Set<u64>, t: u64, n: nat, m: nat)
    requires
        m >= n,
        m >= 1,
    ensures
        after_deactivates(after_activates(s, t, n), t, m) == s.remove(t),
        !after_deactivates(after_activates(s, t, n), t, m).contains(t),
{
    if n == 0 {
        lemma_deactivates_idempotent(s, t, m);
    } else {
        lemma_activates_idempotent(s, t, n);
        lemma_deactivates_idempotent(s.insert(t), t, m);
        assert(s.insert(t).remove(t) =~= s.remove(t));
    }
}

/// Law: the one activation event a `Scanning` signal emits empties the
/// activation set within the tick that drains it, consuming only that event
/// and pulsing nothing; `apply_signal` guarantees in turn that the same
/// signal leaves the registry and the presentation list empty, so after a
/// scan begins all three are empty together.
pub proof fn lemma_scanning_clears_activations(s: Set<u64>)
    ensures
        drain(s, seq![(ActivateEvent::Clear)]).0 == Set::<u64>::empty(),
        drain(s, seq![(ActivateEvent::Clear)]).1 == 1,
        drain(s, seq![(ActivateEvent::Clear)]).2,
{
    assert(drain(s, seq![(ActivateEvent::Clear)]).0 =~= Set::<u64>::empty());
}

/// Draining from any position before the first `Clear` runs straight to
/// that `Clear` and stops right after it with an empty set.
proof fn lemma_drain_reaches_clear(s: Set<u64>, q: Seq<ActivateEvent>, k: int, i: int)
    requires
        0 <= k <= i < q.len(),
        q[i] is Clear,
        forall|j: int| k <= j < i ==> !(q[j] is Clear),
    ensures
        drain_from(s, q, k) == (Set::<u64>::empty(), i + 1, true),
    decreases i - k,
{
    if k == i {
        assert(drain_from(s, q, k) == (Set::<u64>::empty(), i + 1, true));
    } else {
        lemma_drain_reaches_clear(apply_event(s, q[k]), q, k + 1, i);
    }
}

/// Law: a `Clear` activation event empties the activation set and causes no
/// pulse in its own tick, even when other events were queued before it in
/// the same drain — the drain stops right after the first `Clear`, so every
/// later event is deferred to the next tick.
pub proof fn lemma_clear_short_circuits(s: Set<u64>, q: Seq<ActivateEvent>, i: int)
    requires
        0 <= i < q.len(),
        q[i] is Clear,
        forall|j: int| 0 <= j < i ==> !(q[j] is Clear),
    ensures
        drain(s, q).0 == Set::<u64>::empty(),
        drain(s, q).1 == i + 1,
        drain(s, q).2,
{
    lemma_drain_reaches_clear(s, q, 0, i);
}

} // verus!


