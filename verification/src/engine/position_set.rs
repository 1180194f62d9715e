//! A set of grid positions.

use vstd::prelude::*;

verus! {

/// A finite set of positions, each a pair of coordinates.
#[derive(Debug, Clone)]
pub struct PositionSet {
    items: Vec<(i32, i32)>,
}

impl View for PositionSet {
    type V = Set<(i32, i32)>;

    closed spec fn view(&self) -> Set<(i32, i32)> {
        self.items@.to_set()
    }
}

impl PositionSet {
    /// The empty set.
    pub fn new() -> (set: Self)
        ensures
            set@ == Set::<(i32, i32)>::empty(),
    {
        let set = Self { items: Vec::new() };
        assert(set.items@.to_set() =~= Set::<(i32, i32)>::empty());
        set
    }

    /// Whether `position` is in the set.
    pub fn contains(&self, position: (i32, i32)) -> (found: bool)
        ensures
            found == self@.contains(position),
    {
        let mut i: usize = 0;
        while i < self.items.len()
            invariant
                i <= self.items@.len(),
                forall|k: int| 0 <= k < i ==> self.items@[k] != position,
            decreases self.items@.len() - i,
        {
            let item = self.items[i];
            if item.0 == position.0 && item.1 == position.1 {
                assert(self.items@[i as int] == position);
                return true;
            }
            i = i + 1;
        }
        false
    }

    /// Puts `position` into the set.
    pub fn insert(&mut self, position: (i32, i32))
        ensures
            final(self)@ == old(self)@.insert(position),
    {
        if !self.contains(position) {
            self.items.push(position);
            assert(self.items@.to_set() =~= old(self).items@.to_set().insert(position)) by {
                let before = old(self).items@;
                let after = self.items@;
                assert forall|p: (i32, i32)| after.contains(p) <==> (before.contains(p) || p
                    == position) by {
                    if after.contains(p) {
                        let k = choose|k: int| 0 <= k < after.len() && after[k] == p;
                        if k < before.len() {
                            assert(before[k] == p);
                        }
                    }
                    if before.contains(p) {
                        let k = choose|k: int| 0 <= k < before.len() && before[k] == p;
                        assert(after[k] == p);
                    }
                    if p == position {
                        assert(after[after.len() - 1] == p);
                    }
                }
            }
        } else {
            assert(self@ =~= old(self)@.insert(position));
        }
    }

    /// Takes `position` out of the set.
    pub fn remove(&mut self, position: (i32, i32))
        ensures
            final(self)@ == old(self)@.remove(position),
    {
        let mut kept: Vec<(i32, i32)> = Vec::new();
        let mut i: usize = 0;
        while i < self.items.len()
            invariant
                i <= self.items@.len(),
                forall|k: int| 0 <= k < kept@.len() ==> kept@[k] != position && self.items@.contains(
                    #[trigger] kept@[k],
                ),
                forall|k: int|
                    0 <= k < i && self.items@[k] != position ==> kept@.contains(
                        #[trigger] self.items@[k],
                    ),
            decreases self.items@.len() - i,
        {
            let item = self.items[i];
            if !(item.0 == position.0 && item.1 == position.1) {
                let ghost before = kept@;
                kept.push(item);
                proof {
                    assert(kept@[kept@.len() - 1] == item);
                    assert forall|k: int|
                        0 <= k < i + 1 && self.items@[k] != position implies kept@.contains(
                        #[trigger] self.items@[k],
                    ) by {
                        if k < i {
                            let j = choose|j: int|
                                0 <= j < before.len() && before[j] == self.items@[k];
                            assert(kept@[j] == self.items@[k]);
                        }
                    }
                }
            }
            i = i + 1;
        }
        proof {
            assert(kept@.to_set() =~= self.items@.to_set().remove(position)) by {
                assert forall|p: (i32, i32)| kept@.contains(p) <==> (self.items@.contains(p) && p
                    != position) by {
                    if kept@.contains(p) {
                        let k = choose|k: int| 0 <= k < kept@.len() && kept@[k] == p;
                    }
                    if self.items@.contains(p) && p != position {
                        let k = choose|k: int| 0 <= k < self.items@.len() && self.items@[k] == p;
                    }
                }
            }
        }
        self.items = kept;
    }

    /// The positions of the set, each once or more, in no particular order.
    pub fn to_vec(&self) -> (positions: Vec<(i32, i32)>)
        ensures
            positions@.to_set() == self@,
    {
        let mut positions: Vec<(i32, i32)> = Vec::new();
        let mut i: usize = 0;
        while i < self.items.len()
            invariant
                i <= self.items@.len(),
                positions@ =~= self.items@.take(i as int),
            decreases self.items@.len() - i,
        {
            positions.push(self.items[i]);
            i = i + 1;
        }
        assert(self.items@.take(i as int) =~= self.items@);
        positions
    }
}

} // verus!
