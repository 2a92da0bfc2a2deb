//! The progress animation scheduler: the set of currently animating tokens
//! and the periodic tick that drains queued activation events and pulses
//! every token still active.

use vstd::prelude::*;
use crate::protocol::ActivateEvent;

verus! {

/// The set of progress tokens currently animating, in activation order.
pub struct ActivationSet {
    pub tokens: Vec<u64>,
}

/// One activation event applied to the set of animating tokens.
pub open spec fn apply_event(s: Set<u64>, e: ActivateEvent) -> Set<u64> {
    match e {
        ActivateEvent::Activate { token } => s.insert(token),
        ActivateEvent::Deactivate { token } => s.remove(token),
        ActivateEvent::Clear => Set::empty(),
    }
}

/// The result of draining a queue of activation events from position `i`:
/// the set afterwards, the position after the last event consumed, and
/// whether a `Clear` short-circuited the drain. A `Clear` empties the set and
/// leaves every later event for the next tick.
pub open spec fn drain_from(s: Set<u64>, q: Seq<ActivateEvent>, i: int) -> (Set<u64>, int, bool)
    decreases q.len() - i,
{
    if i < 0 || i >= q.len() {
        (s, i, false)
    } else if q[i] is Clear {
        (Set::empty(), i + 1, true)
    } else {
        drain_from(apply_event(s, q[i]), q, i + 1)
    }
}

/// Draining a whole queue of activation events.
pub open spec fn drain(s: Set<u64>, q: Seq<ActivateEvent>) -> (Set<u64>, int, bool) {
    drain_from(s, q, 0)
}

impl ActivationSet {
    /// The set of animating tokens.
    pub open spec fn view_set(self) -> Set<u64> {
        self.tokens@.to_set()
    }

    /// Each token is listed once.
    pub open spec fn wf(self) -> bool {
        self.tokens@.no_duplicates()
    }

    /// An empty set: nothing animating.
    pub fn new() -> (r: ActivationSet)
        ensures
            r.wf(),
            r.view_set() =~= Set::<u64>::empty(),
            r.tokens@ == Seq::<u64>::empty(),
    {
        let r = ActivationSet { tokens: Vec::new() };
        proof {
            assert(r.view_set() =~= Set::<u64>::empty());
        }
        r
    }

    /// Whether the token is animating.
    pub fn contains(&self, t: u64) -> (r: bool)
        ensures
            r == self.view_set().contains(t),
    {
        let mut i: usize = 0;
        while i < self.tokens.len()
            invariant
                0 <= i <= self.tokens.len(),
                forall|j: int| 0 <= j < i ==> self.tokens@[j] != t,
            decreases self.tokens.len() - i,
        {
            if self.tokens[i] == t {
                return true;
            }
            i = i + 1;
        }
        proof {
            assert(!self.tokens@.contains(t));
        }
        false
    }

    /// Begins animating a token. Idempotent: activating an animating token
    /// changes nothing.
    pub fn activate(&mut self, t: u64)
        requires
            old(self).wf(),
        ensures
            final(self).wf(),
            final(self).view_set() == old(self).view_set().insert(t),
            old(self).view_set().contains(t) ==> final(self).tokens == old(self).tokens,
            !old(self).view_set().contains(t) ==> final(self).tokens@ == old(self).tokens@.push(t),
    {
        if !self.contains(t) {
            self.tokens.push(t);
            proof {
                assert(self.view_set() =~= old(self).view_set().insert(t)) by {
                    assert forall|j: u64| self.view_set().contains(j) implies old(
                        self,
                    ).view_set().insert(t).contains(j) by {
                        let i = choose|i: int|
                            0 <= i < self.tokens@.len() && self.tokens@[i] == j;
                        if i < old(self).tokens@.len() {
                            assert(old(self).tokens@[i] == j);
                        }
                    };
                    assert(self.tokens@[self.tokens@.len() - 1] == t);
                    assert forall|j: u64|
                        old(self).view_set().insert(t).contains(j) implies self.view_set().contains(
                        j,
                    ) by {
                        if j != t {
                            let i = choose|i: int|
                                0 <= i < old(self).tokens@.len() && old(self).tokens@[i] == j;
                            assert(self.tokens@[i] == j);
                        }
                    };
                };
            }
        } else {
            proof {
                assert(self.view_set() =~= old(self).view_set().insert(t));
            }
        }
    }

    /// Stops animating a token. Deactivating an absent token is a no-op.
    pub fn deactivate(&mut self, t: u64)
        requires
            old(self).wf(),
        ensures
            final(self).wf(),
            final(self).view_set() == old(self).view_set().remove(t),
            !old(self).view_set().contains(t) ==> final(self).tokens == old(self).tokens,
    {
        let ghost prior = self.tokens@;
        let mut i: usize = 0;
        while i < self.tokens.len()
            invariant
                self.tokens == old(self).tokens,
                self.tokens@ == prior,
                prior.no_duplicates(),
                0 <= i <= self.tokens.len(),
                forall|j: int| 0 <= j < i ==> self.tokens@[j] != t,
            decreases self.tokens.len() - i,
        {
            if self.tokens[i] == t {
                self.tokens.remove(i);
                proof {
                    assert(self.tokens@ == prior.remove(i as int));
                    assert(self.wf()) by {
                        let cur = self.tokens@;
                        assert forall|x: int, y: int|
                            0 <= x < cur.len() && 0 <= y < cur.len() && x != y implies cur[x]
                            != cur[y] by {
                            let px: int = if x < i { x } else { x + 1 };
                            let py: int = if y < i { y } else { y + 1 };
                            assert(cur[x] == prior[px]);
                            assert(cur[y] == prior[py]);
                        };
                    };
                    assert(self.view_set() =~= old(self).view_set().remove(t)) by {
                        assert forall|j: u64| self.view_set().contains(j) implies old(
                            self,
                        ).view_set().remove(t).contains(j) by {
                            let x = choose|x: int|
                                0 <= x < self.tokens@.len() && self.tokens@[x] == j;
                            if x < i {
                                assert(prior[x] == j);
                            } else {
                                assert(prior[x + 1] == j);
                            }
                            assert(j != t) by {
                                if j == t {
                                    if x < i {
                                        assert(prior[x] != t);
                                    } else {
                                        assert(prior.no_duplicates());
                                        assert(prior[i as int] == t);
                                        assert(prior[x + 1] == t);
                                        assert(x + 1 != i as int);
                                    }
                                }
                            };
                        };
                        assert forall|j: u64|
                            old(self).view_set().remove(t).contains(j) implies self.view_set()
                            .contains(j) by {
                            let x = choose|x: int| 0 <= x < prior.len() && prior[x] == j;
                            if x < i {
                                assert(self.tokens@[x] == j);
                            } else {
                                assert(x != i as int);
                                assert(self.tokens@[x - 1] == j);
                            }
                        };
                    };
                }
                return ;
            }
            i = i + 1;
        }
        proof {
            assert(!self.tokens@.contains(t));
            assert(self.view_set() =~= old(self).view_set().remove(t));
        }
    }

    /// Stops animating everything.
    pub fn clear(&mut self)
        ensures
            final(self).wf(),
            final(self).view_set() =~= Set::<u64>::empty(),
            final(self).tokens@ == Seq::<u64>::empty(),
    {
        self.tokens = Vec::new();
        proof {
            assert(self.view_set() =~= Set::<u64>::empty());
        }
    }

    /// One scheduler tick over the events queued since the last one: applies
    /// them in order, stopping right after a `Clear` and leaving later events
    /// for the next tick; then reports one pulse for every token still
    /// animating, in activation order — none at all on the tick a `Clear`
    /// arrived.
    pub fn tick(&mut self, queue: &Vec<ActivateEvent>) -> (r: (usize, Vec<u64>))
        requires
            old(self).wf(),
        ensures
            final(self).wf(),
            final(self).view_set() == drain(old(self).view_set(), queue@).0,
            r.0 == drain(old(self).view_set(), queue@).1,
            drain(old(self).view_set(), queue@).2 ==> r.1@ == Seq::<u64>::empty(),
            !drain(old(self).view_set(), queue@).2 ==> r.1@ == final(self).tokens@ && r.0
                == queue@.len(),
    {
        let ghost start = old(self).view_set();
        let mut i: usize = 0;
        while i < queue.len()
            invariant
                self.wf(),
                0 <= i <= queue.len(),
                start == old(self).view_set(),
                drain_from(start, queue@, 0) == drain_from(self.view_set(), queue@, i as int),
            decreases queue.len() - i,
        {
            let ghost pre = self.view_set();
            match queue[i] {
                ActivateEvent::Activate { token } => {
                    self.activate(token);
                    proof {
                        assert(drain_from(pre, queue@, i as int) == drain_from(
                            self.view_set(),
                            queue@,
                            i as int + 1,
                        ));
                    }
                },
                ActivateEvent::Deactivate { token } => {
                    self.deactivate(token);
                    proof {
                        assert(drain_from(pre, queue@, i as int) == drain_from(
                            self.view_set(),
                            queue@,
                            i as int + 1,
                        ));
                    }
                },
                ActivateEvent::Clear => {
                    self.clear();
                    proof {
                        assert(drain_from(start, queue@, 0) == (
                            Set::<u64>::empty(),
                            i as int + 1,
                            true,
                        )) by {
                            assert(drain_from(pre, queue@, i as int) == (
                                Set::<u64>::empty(),
                                i as int + 1,
                                true,
                            ));
                        };
                        assert(self.view_set() =~= Set::<u64>::empty());
                    }
                    return (i + 1, Vec::new());
                },
            }
            i = i + 1;
        }
        let mut pulses: Vec<u64> = Vec::new();
        let mut j: usize = 0;
        while j < self.tokens.len()
            invariant
                0 <= j <= self.tokens.len(),
                pulses@ == self.tokens@.take(j as int),
            decreases self.tokens.len() - j,
        {
            pulses.push(self.tokens[j]);
            proof {
                assert(pulses@ =~= self.tokens@.take(j as int + 1));
            }
            j = j + 1;
        }
        proof {
            assert(pulses@ =~= self.tokens@);
        }
        (i, pulses)
    }
}

} // verus!
