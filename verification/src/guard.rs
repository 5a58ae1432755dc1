//! The consumption guard: a per-(unit, recipient) marker set once when
//! an administration offer is made and never cleared, preventing a unit
//! from being allocated twice to the same recipient.

use vstd::prelude::*;
use vstd::hash_map::HashMapWithView;

verus! {

broadcast use vstd::std_specs::hash::group_hash_axioms;

/// The marker key of one (unit, recipient) pair, packed into one word.
pub open spec fn pair_key(vac_id: u64, user_id: u64) -> u128 {
    ((vac_id as u128) * 0x1_0000_0000_0000_0000 + (user_id as u128)) as u128
}

/// Packing is injective: distinct pairs have distinct keys.
proof fn lemma_pair_key_injective(v1: u64, u1: u64, v2: u64, u2: u64)
    requires
        pair_key(v1, u1) == pair_key(v2, u2),
    ensures
        v1 == v2 && u1 == u2,
{
    assert(v1 == v2 && u1 == u2) by (nonlinear_arith)
        requires
            (v1 as int) * 0x1_0000_0000_0000_0000 + (u1 as int) == (v2 as int)
                * 0x1_0000_0000_0000_0000 + (u2 as int),
            u1 < 0x1_0000_0000_0000_0000,
            u2 < 0x1_0000_0000_0000_0000,
    ;
}

/// The set of (unit, recipient) pairs marked as consumed.
pub struct ConsumptionGuard {
    marks: HashMapWithView<u128, bool>,
}

impl View for ConsumptionGuard {
    type V = Set<(u64, u64)>;

    closed spec fn view(&self) -> Set<(u64, u64)> {
        Set::new(|p: (u64, u64)| self.marks@.contains_key(pair_key(p.0, p.1)))
    }
}

impl ConsumptionGuard {
    /// An empty guard: nothing is marked.
    pub fn new() -> (r: Self)
        ensures
            r@ == Set::<(u64, u64)>::empty(),
    {
        let r = ConsumptionGuard { marks: HashMapWithView::new() };
        proof {
            assert(r@ =~= Set::<(u64, u64)>::empty());
        }
        r
    }

    /// Whether the pair was marked.
    pub fn is_used(&self, vac_id: u64, user_id: u64) -> (r: bool)
        ensures
            r == self@.contains((vac_id, user_id)),
    {
        let key: u128 = (vac_id as u128) * 0x1_0000_0000_0000_0000 + (user_id as u128);
        self.marks.contains_key(&key)
    }

    /// Marks the pair; marking an already marked pair changes nothing.
    pub fn mark(&mut self, vac_id: u64, user_id: u64)
        ensures
            final(self)@ == old(self)@.insert((vac_id, user_id)),
    {
        let key: u128 = (vac_id as u128) * 0x1_0000_0000_0000_0000 + (user_id as u128);
        self.marks.insert(key, true);
        proof {
            assert forall|p: (u64, u64)|
                self@.contains(p) == old(self)@.insert((vac_id, user_id)).contains(p) by {
                if self@.contains(p) && p != (vac_id, user_id) {
                    if pair_key(p.0, p.1) == pair_key(vac_id, user_id) {
                        lemma_pair_key_injective(p.0, p.1, vac_id, user_id);
                    }
                }
            }
            assert(self@ =~= old(self)@.insert((vac_id, user_id)));
        }
    }
}

} // verus!
