//! The latest-order cache: a single slot holding the most recently
//! accepted order. The slot itself is plain data; the surrounding
//! process shares it behind one exclusive lock, taken around every read
//! and write, so each `set` and `get` acts on the whole slot at once.

use vstd::prelude::*;
use crate::model::Order;

verus! {

/// Single-slot holder of the most recently accepted order.
pub struct Cache {
    pub slot: Option<Order>,
}

impl Cache {
    /// The slot's contents.
    pub open spec fn spec_slot(&self) -> Option<Order> {
        self.slot
    }

    /// A fresh cache holds nothing.
    pub fn new() -> (c: Cache)
        ensures
            c.spec_slot() is None,
    {
        Cache { slot: None }
    }

    /// Overwrites the slot with the given order, unconditionally: no
    /// merge, no history, no versioning.
    pub fn set(&mut self, o: Order)
        ensures
            final(self).spec_slot() == Some(o),
    {
        self.slot = Some(o);
    }

    /// A snapshot of the slot: the held order, or nothing.
    pub fn get(&self) -> (r: &Option<Order>)
        ensures
            *r == self.spec_slot(),
    {
        &self.slot
    }
}

/// The cache after a run of sets, applied first to last.
pub open spec fn after_sets(c: Cache, os: Seq<Order>) -> Cache
    decreases os.len(),
{
    if os.len() == 0 {
        c
    } else {
        after_sets(Cache { slot: Some(os[0]) }, os.skip(1))
    }
}

/// The last write wins: after setting `a` and then `b`, the slot holds
/// exactly `b`.
pub proof fn lemma_last_write_wins(c: Cache, a: Order, b: Order)
    ensures
        after_sets(c, seq![a, b]).spec_slot() == Some(b),
{
    assert(seq![a, b].skip(1) =~= seq![b]);
    assert(seq![b].skip(1) =~= Seq::<Order>::empty());
    assert(after_sets(Cache { slot: Some(b) }, Seq::<Order>::empty()) == Cache {
        slot: Some(b),
    });
    assert(after_sets(Cache { slot: Some(a) }, seq![b]).spec_slot() == Some(b));
}

/// A run of sets, in whatever order the lock admitted them, leaves the
/// slot holding the one that came last — a whole order among those
/// given, never a mixture.
pub proof fn lemma_sets_last_wins(c: Cache, os: Seq<Order>)
    requires
        os.len() > 0,
    ensures
        after_sets(c, os).spec_slot() == Some(os.last()),
        exists|i: int| 0 <= i < os.len() && after_sets(c, os).spec_slot() == Some(os[i]),
    decreases os.len(),
{
    if os.len() == 1 {
        assert(os.skip(1) =~= Seq::<Order>::empty());
        assert(os[0] == os.last());
        assert(after_sets(Cache { slot: Some(os[0]) }, Seq::<Order>::empty()) == Cache {
            slot: Some(os[0]),
        });
        assert(after_sets(c, os).spec_slot() == Some(os.last()));
    } else {
        lemma_sets_last_wins(Cache { slot: Some(os[0]) }, os.skip(1));
        assert(os.skip(1).last() == os.last());
    }
    assert(os.last() == os[os.len() - 1]);
    assert(0 <= os.len() - 1 < os.len() && after_sets(c, os).spec_slot() == Some(
        os[os.len() - 1],
    ));
}

} // verus!
