//! Small tables that hold one entry for each of the four directions.

use vstd::prelude::*;
use crate::wire::messages::RelativeDirection;

verus! {

/// A set of directions.
#[derive(Debug, Clone, Copy, PartialEq, Eq, Structural)]
pub struct DirectionSet {
    pub front: bool,
    pub right: bool,
    pub back: bool,
    pub left: bool,
}

impl DirectionSet {
    /// Whether `direction` is in the set.
    pub open spec fn has(self, direction: RelativeDirection) -> bool {
        match direction {
            RelativeDirection::Front => self.front,
            RelativeDirection::Right => self.right,
            RelativeDirection::Back => self.back,
            RelativeDirection::Left => self.left,
        }
    }

    /// The set with `direction` put in or taken out.
    pub open spec fn with(self, direction: RelativeDirection, present: bool) -> DirectionSet {
        match direction {
            RelativeDirection::Front => DirectionSet { front: present, ..self },
            RelativeDirection::Right => DirectionSet { right: present, ..self },
            RelativeDirection::Back => DirectionSet { back: present, ..self },
            RelativeDirection::Left => DirectionSet { left: present, ..self },
        }
    }

    /// The set that holds no direction.
    pub open spec fn empty() -> DirectionSet {
        DirectionSet { front: false, right: false, back: false, left: false }
    }

    /// The empty set.
    pub fn new() -> (set: Self)
        ensures
            set == Self::empty(),
    {
        Self { front: false, right: false, back: false, left: false }
    }

    /// Whether `direction` is in the set.
    pub fn contains(&self, direction: RelativeDirection) -> (b: bool)
        ensures
            b == self.has(direction),
    {
        match direction {
            RelativeDirection::Front => self.front,
            RelativeDirection::Right => self.right,
            RelativeDirection::Back => self.back,
            RelativeDirection::Left => self.left,
        }
    }

    /// Puts `direction` into the set.
    pub fn insert(&mut self, direction: RelativeDirection)
        ensures
            *final(self) == old(self).with(direction, true),
    {
        match direction {
            RelativeDirection::Front => self.front = true,
            RelativeDirection::Right => self.right = true,
            RelativeDirection::Back => self.back = true,
            RelativeDirection::Left => self.left = true,
        }
    }

    /// Takes `direction` out of the set.
    pub fn remove(&mut self, direction: RelativeDirection)
        ensures
            *final(self) == old(self).with(direction, false),
    {
        match direction {
            RelativeDirection::Front => self.front = false,
            RelativeDirection::Right => self.right = false,
            RelativeDirection::Back => self.back = false,
            RelativeDirection::Left => self.left = false,
        }
    }
}

/// How often a move has failed, for each direction.
#[derive(Debug, Clone, Copy, PartialEq, Eq, Structural)]
pub struct FailCounts {
    pub front: usize,
    pub right: usize,
    pub back: usize,
    pub left: usize,
}

impl FailCounts {
    /// The count of `direction`.
    pub open spec fn of(self, direction: RelativeDirection) -> usize {
        match direction {
            RelativeDirection::Front => self.front,
            RelativeDirection::Right => self.right,
            RelativeDirection::Back => self.back,
            RelativeDirection::Left => self.left,
        }
    }

    /// The table with the count of `direction` set to `count`.
    pub open spec fn with(self, direction: RelativeDirection, count: usize) -> FailCounts {
        match direction {
            RelativeDirection::Front => FailCounts { front: count, ..self },
            RelativeDirection::Right => FailCounts { right: count, ..self },
            RelativeDirection::Back => FailCounts { back: count, ..self },
            RelativeDirection::Left => FailCounts { left: count, ..self },
        }
    }

    /// The table in which every count is zero.
    pub open spec fn zero() -> FailCounts {
        FailCounts { front: 0, right: 0, back: 0, left: 0 }
    }

    /// A table in which every count is zero.
    pub fn new() -> (counts: Self)
        ensures
            counts == Self::zero(),
    {
        Self { front: 0, right: 0, back: 0, left: 0 }
    }

    /// The count of `direction`.
    pub fn get(&self, direction: RelativeDirection) -> (n: usize)
        ensures
            n == self.of(direction),
    {
        match direction {
            RelativeDirection::Front => self.front,
            RelativeDirection::Right => self.right,
            RelativeDirection::Back => self.back,
            RelativeDirection::Left => self.left,
        }
    }

    /// Sets the count of `direction`.
    pub fn set(&mut self, direction: RelativeDirection, count: usize)
        ensures
            *final(self) == old(self).with(direction, count),
    {
        match direction {
            RelativeDirection::Front => self.front = count,
            RelativeDirection::Right => self.right = count,
            RelativeDirection::Back => self.back = count,
            RelativeDirection::Left => self.left = count,
        }
    }
}

} // verus!
