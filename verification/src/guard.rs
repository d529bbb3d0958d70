//! Bounded re-entrancy tracking for self-referential schemas.
//!
//! A guard is created fresh for every top-level `validate` call and
//! threaded through every nested call.  Any validator that may
//! re-invoke the tree against logically the same input enters the guard
//! first; entering fails when the same marker is already active (a
//! cycle) or when the number of active markers has reached the ceiling.

use vstd::prelude::*;

use crate::value::{value_eq, SpecValue, Value};

verus! {

/// The validator identity half of a re-entrancy marker: either the
/// slot a reference validator points at, or the build-assigned id of a
/// default-value decorator re-validating its own default.
#[derive(Clone, Copy, PartialEq, Eq, Structural)]
pub enum MarkerId {
    Slot(usize),
    Decorator(u64),
}

/// The active markers, innermost last, together with the depth ceiling.
pub struct RecursionGuard {
    markers: Vec<(MarkerId, Value)>,
    ceiling: usize,
}

impl RecursionGuard {
    /// The markers currently active, as (validator identity, input model)
    /// pairs, in the order they were entered.
    pub closed spec fn active(&self) -> Seq<(MarkerId, SpecValue)> {
        Seq::new(self.markers@.len(), |i: int| (self.markers@[i].0, self.markers@[i].1@))
    }

    /// The fixed maximum number of concurrently active markers.
    pub closed spec fn ceiling(&self) -> nat {
        self.ceiling as nat
    }

    /// A fresh guard with no active markers.
    pub fn new(ceiling: usize) -> (g: RecursionGuard)
        ensures
            g.active() == Seq::<(MarkerId, SpecValue)>::empty(),
            g.ceiling() == ceiling as nat,
    {
        let g = RecursionGuard { markers: Vec::new(), ceiling };
        proof {
            assert(g.active() =~= Seq::<(MarkerId, SpecValue)>::empty());
        }
        g
    }

    /// Whether the marker `(id, input)` is active right now.
    pub fn contains(&self, id: MarkerId, input: &Value) -> (r: bool)
        ensures
            r == self.active().contains((id, input@)),
    {
        let mut i: usize = 0;
        while i < self.markers.len()
            invariant
                0 <= i <= self.markers@.len(),
                forall|j: int| 0 <= j < i ==> self.active()[j] != (id, input@),
            decreases self.markers@.len() - i,
        {
            let m = &self.markers[i];
            if m.0 == id && value_eq(&m.1, input) {
                proof {
                    assert(self.active()[i as int] == (id, input@));
                }
                return true;
            }
            i = i + 1;
        }
        proof {
            if self.active().contains((id, input@)) {
                let j = choose|j: int|
                    0 <= j < self.active().len() && self.active()[j] == (id, input@);
                assert(self.active()[j] != (id, input@));
            }
        }
        false
    }

    /// Record the marker as active.  Fails, leaving the guard
    /// unchanged, when the marker is already active (a cycle) or when
    /// the count of active markers has reached the ceiling.
    pub fn enter(&mut self, id: MarkerId, input: &Value) -> (entered: bool)
        ensures
            entered == (!old(self).active().contains((id, input@))
                && old(self).active().len() < old(self).ceiling()),
            entered ==> final(self).active() == old(self).active().push((id, input@)),
            !entered ==> final(self).active() == old(self).active(),
            final(self).ceiling() == old(self).ceiling(),
    {
        if self.contains(id, input) {
            return false;
        }
        if self.markers.len() >= self.ceiling {
            return false;
        }
        let owned = crate::value::clone_value(input);
        self.markers.push((id, owned));
        proof {
            assert(self.active() =~= old(self).active().push((id, input@)));
        }
        true
    }

    /// Remove the innermost active marker; every exit path of a
    /// re-entrant call runs this before returning.
    pub fn exit(&mut self)
        requires
            old(self).active().len() > 0,
        ensures
            final(self).active() == old(self).active().drop_last(),
            final(self).ceiling() == old(self).ceiling(),
    {
        self.markers.pop();
        proof {
            assert(self.active() =~= old(self).active().drop_last());
        }
    }
}

/// No marker is active twice concurrently.
pub open spec fn distinct_markers(g: Seq<(MarkerId, SpecValue)>) -> bool {
    forall|i: int, j: int| 0 <= i < j < g.len() ==> g[i] != g[j]
}

/// The guard's invariant is preserved by a successful `enter`: markers
/// stay pairwise distinct and the active count never exceeds the
/// ceiling.
pub proof fn law_enter_keeps_guard_invariant(
    g: Seq<(MarkerId, SpecValue)>,
    m: (MarkerId, SpecValue),
    ceiling: nat,
)
    requires
        distinct_markers(g),
        !g.contains(m),
        g.len() < ceiling,
    ensures
        distinct_markers(g.push(m)),
        g.push(m).len() <= ceiling,
{
    let g2 = g.push(m);
    assert forall|i: int, j: int| 0 <= i < j < g2.len() implies g2[i] != g2[j] by {
        if j == g.len() as int {
            assert(g2[i] == g[i]);
            if g[i] == m {
                assert(g.contains(m));
            }
        }
    }
}

/// The guard's invariant is preserved by `exit`, which removes the
/// innermost marker.
pub proof fn law_exit_keeps_guard_invariant(g: Seq<(MarkerId, SpecValue)>, ceiling: nat)
    requires
        distinct_markers(g),
        g.len() <= ceiling,
        g.len() > 0,
    ensures
        distinct_markers(g.drop_last()),
        g.drop_last().len() <= ceiling,
{
    assert forall|i: int, j: int| 0 <= i < j < g.drop_last().len() implies g.drop_last()[i]
        != g.drop_last()[j] by {
        assert(g[i] != g[j]);
    }
}

} // verus!
