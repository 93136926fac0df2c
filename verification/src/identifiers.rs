//! A set of identifiers that remembers what was inserted.

use vstd::prelude::*;
use crate::text::text_eq;

verus! {

/// The identifiers seen so far, each held once, in the order of insertion.
pub struct IdentifierSet {
    items: Vec<String>,
}

impl IdentifierSet {
    /// The identifiers of the set, in the order of insertion.
    pub closed spec fn view(&self) -> Seq<Seq<char>> {
        Seq::new(self.items@.len(), |k: int| self.items@[k]@)
    }

    /// No identifier is held twice.
    pub open spec fn wf(&self) -> bool {
        self@.no_duplicates()
    }

    /// The empty set.
    pub fn new() -> (r: IdentifierSet)
        ensures
            r@ == Seq::<Seq<char>>::empty(),
            r.wf(),
    {
        let r = IdentifierSet { items: Vec::new() };
        assert(r@ =~= Seq::<Seq<char>>::empty());
        r
    }

    /// The number of identifiers held.
    pub fn len(&self) -> (r: usize)
        ensures
            r == self@.len(),
    {
        self.items.len()
    }

    /// Whether `value` is in the set.
    pub fn contains(&self, value: &str) -> (r: bool)
        ensures
            r == self@.contains(value@),
    {
        let mut k: usize = 0;
        while k < self.items.len()
            invariant
                k <= self.items.len(),
                forall|j: int| 0 <= j < k ==> self@[j] != value@,
            decreases self.items.len() - k,
        {
            if text_eq(self.items[k].as_str(), value) {
                assert(self@[k as int] == value@);
                return true;
            }
            k += 1;
        }
        false
    }

    /// Adds `value` to the set. Returns whether it was new; a value that is
    /// already held leaves the set unchanged.
    pub fn insert(&mut self, value: String) -> (r: bool)
        requires
            old(self).wf(),
        ensures
            final(self).wf(),
            r == !old(self)@.contains(value@),
            final(self)@ == if r {
                old(self)@.push(value@)
            } else {
                old(self)@
            },
    {
        if self.contains(value.as_str()) {
            return false;
        }
        let ghost before = self@;
        self.items.push(value);
        assert(self@ =~= before.push(value@));
        true
    }
}

} // verus!
