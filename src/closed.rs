use vstd::prelude::*;
use vstd::hash_map::HashMapWithView;
use crate::state::StateKey;

verus! {

broadcast use vstd::std_specs::hash::group_hash_axioms;

/// The closed set of a search: for each state key, the cost (in half ticks)
/// with which it was last expanded.
pub struct ClosedSet {
    best: HashMapWithView<u128, u64>,
}

impl View for ClosedSet {
    type V = Map<u128, u64>;

    closed spec fn view(&self) -> Map<u128, u64> {
        self.best@
    }
}

/// Whether a state reached with cost `g` is pruned: its key was expanded
/// before with a cost lower by more than one half tick.
pub open spec fn pruned(best: Map<u128, u64>, key: u128, g: u64) -> bool {
    best.contains_key(key) && g > best[key] + 1
}

impl ClosedSet {
    pub fn new() -> (c: ClosedSet)
        ensures
            c@ == Map::<u128, u64>::empty(),
    {
        ClosedSet { best: HashMapWithView::new() }
    }

    /// Decides whether to expand a state with key `key` reached at cost `g`:
    /// not when it is pruned (and then nothing changes); otherwise `g`
    /// becomes the key's recorded cost.
    pub fn visit(&mut self, key: StateKey, g: u64) -> (expand: bool)
        ensures
            expand == !pruned(old(self)@, key.0, g),
            expand ==> final(self)@ == old(self)@.insert(key.0, g),
            !expand ==> final(self)@ == old(self)@,
    {
        match self.best.get(&key.0) {
            Some(b) => {
                if g > *b && g - *b > 1 {
                    return false;
                }
            },
            None => {},
        }
        self.best.insert(key.0, g);
        true
    }

    /// Number of keys recorded.
    pub fn len(&self) -> (n: usize)
        ensures
            n == self@.len(),
    {
        self.best.len()
    }
}

} // verus!
