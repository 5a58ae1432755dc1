//! The content-identifier store: opaque digests registered by the host,
//! checked before the proof gate is consulted.

use vstd::prelude::*;

verus! {

/// Compares two byte strings.
fn bytes_eq(a: &Vec<u8>, b: &Vec<u8>) -> (r: bool)
    ensures
        r == (a@ == b@),
{
    if a.len() != b.len() {
        return false;
    }
    let mut i: usize = 0;
    while i < a.len()
        invariant
            i <= a.len(),
            a@.len() == b@.len(),
            forall|j: int| 0 <= j < i ==> a@[j] == b@[j],
        decreases a.len() - i,
    {
        if a[i] != b[i] {
            return false;
        }
        i = i + 1;
    }
    proof {
        assert(a@ =~= b@);
    }
    true
}

/// The set of registered content identifiers.
pub struct CidStore {
    cids: Vec<Vec<u8>>,
}

impl View for CidStore {
    type V = Set<Seq<u8>>;

    closed spec fn view(&self) -> Set<Seq<u8>> {
        Set::new(|s: Seq<u8>| exists|i: int| 0 <= i < self.cids@.len() && self.cids@[i]@ == s)
    }
}

impl CidStore {
    /// An empty store.
    pub fn new() -> (r: Self)
        ensures
            r@ == Set::<Seq<u8>>::empty(),
    {
        let r = CidStore { cids: Vec::new() };
        proof {
            assert(r@ =~= Set::<Seq<u8>>::empty());
        }
        r
    }

    /// Registers a content identifier; registering one twice changes
    /// nothing.
    pub fn register(&mut self, cid: Vec<u8>)
        ensures
            final(self)@ == old(self)@.insert(cid@),
    {
        let ghost c = cid@;
        self.cids.push(cid);
        proof {
            assert forall|s: Seq<u8>| self@.contains(s) == old(self)@.insert(c).contains(s) by {
                if self@.contains(s) {
                    let i = choose|i: int|
                        0 <= i < self.cids@.len() && self.cids@[i]@ == s;
                    if i < self.cids@.len() - 1 {
                        assert(old(self).cids@[i]@ == s);
                    }
                }
                if old(self)@.contains(s) {
                    let i = choose|i: int|
                        0 <= i < old(self).cids@.len() && old(self).cids@[i]@ == s;
                    assert(self.cids@[i]@ == s);
                }
                if s == c {
                    assert(self.cids@[self.cids@.len() - 1]@ == s);
                }
            }
            assert(self@ =~= old(self)@.insert(c));
        }
    }

    /// Whether the identifier is registered.
    pub fn contains(&self, cid: &Vec<u8>) -> (r: bool)
        ensures
            r == self@.contains(cid@),
    {
        let mut i: usize = 0;
        while i < self.cids.len()
            invariant
                i <= self.cids@.len(),
                forall|j: int| 0 <= j < i ==> self.cids@[j]@ != cid@,
            decreases self.cids@.len() - i,
        {
            if bytes_eq(&self.cids[i], cid) {
                assert(self@.contains(cid@));
                return true;
            }
            i = i + 1;
        }
        false
    }
}

} // verus!
