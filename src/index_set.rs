//! A set of entry indices, such as the ones already asked in a round.

use vstd::prelude::*;

verus! {

broadcast use vstd::std_specs::hash::group_hash_axioms;

/// A set of indices.
pub struct HashSet {
    inner: std::collections::HashSet<usize>,
}

impl View for HashSet {
    type V = Set<usize>;

    closed spec fn view(&self) -> Set<usize> {
        self.inner@
    }
}

impl HashSet {
    /// An empty set.
    pub fn new() -> (r: Self)
        ensures
            r@ == Set::<usize>::empty(),
    {
        HashSet { inner: std::collections::HashSet::new() }
    }

    /// Adds `item`.
    pub fn insert(&mut self, item: usize)
        ensures
            final(self)@ == old(self)@.insert(item),
    {
        self.inner.insert(item);
    }

    /// Whether `item` is in the set.
    pub fn contains(&self, item: usize) -> (r: bool)
        ensures
            r == self@.contains(item),
    {
        self.inner.contains(&item)
    }

    /// Removes every item.
    pub fn clear(&mut self)
        ensures
            final(self)@ == Set::<usize>::empty(),
    {
        self.inner.clear();
    }
}

} // verus!
