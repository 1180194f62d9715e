//! The exploration policy of a player: which way to go next, given what
//! the radar shows and what the player remembers.
//!
//! A direction can be taken when it has failed fewer than `MAX_FAILS` times,
//! is not banned, and the wall tile next to the player in that direction is
//! open. When more than one direction can be taken, the way straight back is
//! set aside. Among what remains, the first direction in the order front,
//! right, left, back that leads to a position not yet visited is chosen; if
//! all lead to visited positions, the one that has failed least, and among
//! equals the first in that order. When nothing remains the player undoes
//! its last move, and with no move to undo it goes anywhere.

use std::collections::VecDeque;
use std::ops::RangeInclusive;
use vstd::prelude::*;
use crate::engine::directions::{DirectionSet, FailCounts};
use crate::engine::position_set::PositionSet;
use crate::trusted::sample_range;
use crate::wire::messages::RelativeDirection;
use crate::wire::radar::rows_of;

verus! {

/// A direction is left alone once it has failed this often.
pub const MAX_FAILS: usize = 3;

/// The change of position that one step in the given direction makes.
pub open spec fn delta_of(direction: RelativeDirection) -> (int, int) {
    match direction {
        RelativeDirection::Front => (0, -1),
        RelativeDirection::Right => (1, 0),
        RelativeDirection::Back => (0, 1),
        RelativeDirection::Left => (-1, 0),
    }
}

/// Whether the radar shows an opening next to the player in the given
/// direction. The player is in the middle of the radar.
pub open spec fn open_on_radar(radar: Seq<Seq<char>>, direction: RelativeDirection) -> bool {
    match direction {
        RelativeDirection::Front => radar[1][3] == ' ',
        RelativeDirection::Right => radar[3][5] == ' ',
        RelativeDirection::Back => radar[5][3] == ' ',
        RelativeDirection::Left => radar[3][1] == ' ',
    }
}

/// The first direction, in the order front, right, left, back, for which
/// the flag is set.
pub open spec fn first_of(front: bool, right: bool, left: bool, back: bool) -> Option<
    RelativeDirection,
> {
    if front {
        Some(RelativeDirection::Front)
    } else if right {
        Some(RelativeDirection::Right)
    } else if left {
        Some(RelativeDirection::Left)
    } else if back {
        Some(RelativeDirection::Back)
    } else {
        None
    }
}

/// The direction at place `i` of the order in which directions are tried.
pub open spec fn in_order(i: int) -> RelativeDirection {
    if i == 0 {
        RelativeDirection::Front
    } else if i == 1 {
        RelativeDirection::Right
    } else if i == 2 {
        RelativeDirection::Left
    } else {
        RelativeDirection::Back
    }
}

/// The bits of the single-precision number 45.
pub const ANGLE_45: u32 = 0x4234_0000;

/// The bits of the single-precision number 135.
pub const ANGLE_135: u32 = 0x4307_0000;

/// The bits of the single-precision infinity; every bit pattern whose
/// magnitude lies above it is not a number.
pub const ANGLE_INFINITY: u32 = 0x7f80_0000;

/// The magnitude of a single-precision number, given by its bits: the bits
/// without the sign. Among numbers the larger magnitude has the larger bits.
pub open spec fn magnitude_bits(angle_bits: u32) -> u32 {
    angle_bits & 0x7fff_ffff
}

/// Whether the single-precision number with the given bits is below zero
/// or the negative zero.
pub open spec fn sign_bit(angle_bits: u32) -> bool {
    angle_bits & 0x8000_0000 != 0
}

/// The direction that a bearing in degrees points to, the bearing given by
/// the bits of a single-precision number. Up to 45 degrees to either side
/// is `Front`; from 135 degrees on to either side is `Back`; what lies
/// between is `Right` for a bearing above zero and `Left` for one below.
/// What is not a number points nowhere.
pub open spec fn direction_of_angle(angle_bits: u32) -> Option<RelativeDirection> {
    let magnitude = magnitude_bits(angle_bits);
    if magnitude > ANGLE_INFINITY {
        None
    } else if magnitude <= ANGLE_45 {
        Some(RelativeDirection::Front)
    } else if magnitude >= ANGLE_135 {
        Some(RelativeDirection::Back)
    } else if sign_bit(angle_bits) {
        Some(RelativeDirection::Left)
    } else {
        Some(RelativeDirection::Right)
    }
}

/// What a navigator remembers, as plain values.
pub struct NavigatorState {
    /// The direction of the last move that was chosen freely.
    pub last_direction: Option<RelativeDirection>,
    /// The moves made and not undone, oldest first.
    pub history: Seq<RelativeDirection>,
    /// The positions that the player has been on.
    pub visited: Set<(i32, i32)>,
    /// Where the player is.
    pub position: (i32, i32),
    /// How often each direction has failed.
    pub fails: FailCounts,
    /// The directions that are banned.
    pub banned: DirectionSet,
}

impl NavigatorState {
    /// The memory of a navigator that has not moved yet: it stands at the
    /// origin, has made no move and visited no position, and no direction
    /// has failed or is banned.
    pub open spec fn initial() -> NavigatorState {
        NavigatorState {
            last_direction: None,
            history: Seq::empty(),
            visited: Set::empty(),
            position: (0i32, 0i32),
            fails: FailCounts::zero(),
            banned: DirectionSet::empty(),
        }
    }

    /// Both coordinates leave room for one step either way.
    pub open spec fn can_step(self) -> bool {
        &&& i32::MIN < self.position.0 < i32::MAX
        &&& i32::MIN < self.position.1 < i32::MAX
    }

    /// The failures of `direction` can still be counted one higher.
    pub open spec fn can_count(self, direction: RelativeDirection) -> bool {
        self.fails.of(direction) < usize::MAX
    }

    /// The position one step from the player in the given direction.
    pub open spec fn target(self, direction: RelativeDirection) -> (i32, i32) {
        (
            (self.position.0 + delta_of(direction).0) as i32,
            (self.position.1 + delta_of(direction).1) as i32,
        )
    }

    /// The position one step from the player against the given direction.
    pub open spec fn origin(self, direction: RelativeDirection) -> (i32, i32) {
        (
            (self.position.0 - delta_of(direction).0) as i32,
            (self.position.1 - delta_of(direction).1) as i32,
        )
    }

    /// Whether the direction can be taken at all.
    pub open spec fn eligible(self, radar: Seq<Seq<char>>, direction: RelativeDirection) -> bool {
        &&& self.fails.of(direction) < MAX_FAILS
        &&& !self.banned.has(direction)
        &&& open_on_radar(radar, direction)
    }

    /// How many directions can be taken.
    pub open spec fn eligible_count(self, radar: Seq<Seq<char>>) -> int {
        (if self.eligible(radar, RelativeDirection::Front) {
            1int
        } else {
            0int
        }) + (if self.eligible(radar, RelativeDirection::Right) {
            1int
        } else {
            0int
        }) + (if self.eligible(radar, RelativeDirection::Left) {
            1int
        } else {
            0int
        }) + (if self.eligible(radar, RelativeDirection::Back) {
            1int
        } else {
            0int
        })
    }

    /// Whether the direction is considered: it can be taken, and it is not
    /// the way straight back while there is another way.
    pub open spec fn is_candidate(self, radar: Seq<Seq<char>>, direction: RelativeDirection) -> bool {
        &&& self.eligible(radar, direction)
        &&& !(self.eligible_count(radar) > 1 && self.last_direction == Some(direction.opposite()))
    }

    /// Whether the direction is considered and leads to a position that has
    /// not been visited.
    pub open spec fn is_fresh(self, radar: Seq<Seq<char>>, direction: RelativeDirection) -> bool {
        self.is_candidate(radar, direction) && !self.visited.contains(self.target(direction))
    }

    /// Whether the direction is considered and no direction that is
    /// considered has failed less often.
    pub open spec fn is_least_failed(
        self,
        radar: Seq<Seq<char>>,
        direction: RelativeDirection,
    ) -> bool {
        &&& self.is_candidate(radar, direction)
        &&& forall|i: int|
            0 <= i < 4 && self.is_candidate(radar, #[trigger] in_order(i)) ==> self.fails.of(
                direction,
            ) <= self.fails.of(in_order(i))
    }

    /// The direction that the policy chooses, if any direction is considered.
    pub open spec fn choice(self, radar: Seq<Seq<char>>) -> Option<RelativeDirection> {
        let fresh = first_of(
            self.is_fresh(radar, RelativeDirection::Front),
            self.is_fresh(radar, RelativeDirection::Right),
            self.is_fresh(radar, RelativeDirection::Left),
            self.is_fresh(radar, RelativeDirection::Back),
        );
        if fresh is Some {
            fresh
        } else {
            first_of(
                self.is_least_failed(radar, RelativeDirection::Front),
                self.is_least_failed(radar, RelativeDirection::Right),
                self.is_least_failed(radar, RelativeDirection::Left),
                self.is_least_failed(radar, RelativeDirection::Back),
            )
        }
    }

    /// The memory after a move in `direction` to `new_position`: the move
    /// is the last of the history, the position is visited, and the
    /// direction is neither banned nor counted as failed any more.
    pub open spec fn moved(
        self,
        direction: RelativeDirection,
        new_position: (i32, i32),
    ) -> NavigatorState {
        NavigatorState {
            history: self.history.push(direction),
            visited: self.visited.insert(new_position),
            position: new_position,
            fails: self.fails.with(direction, 0),
            banned: self.banned.with(direction, false),
            ..self
        }
    }

    /// The memory after `direction` has let the player down: it is banned
    /// and its failures are counted one higher.
    pub open spec fn blamed(self, direction: RelativeDirection) -> NavigatorState {
        NavigatorState {
            fails: self.fails.with(direction, (self.fails.of(direction) + 1) as usize),
            banned: self.banned.with(direction, true),
            ..self
        }
    }

    /// The memory after the last move has been taken back because nothing
    /// else was left: the move leaves the history and is blamed. Without a
    /// history nothing changes.
    pub open spec fn turned_back(self) -> NavigatorState {
        if self.history.len() > 0 {
            NavigatorState { history: self.history.drop_last(), ..self }.blamed(
                self.history.last(),
            )
        } else {
            self
        }
    }

    /// The memory after the server has refused the move in `direction`
    /// that was already booked: the player is back one step, the position
    /// that it never reached is not visited, the last move leaves the
    /// history, and the direction is blamed.
    pub open spec fn failed(self, direction: RelativeDirection) -> NavigatorState {
        NavigatorState {
            history: if self.history.len() > 0 {
                self.history.drop_last()
            } else {
                self.history
            },
            visited: self.visited.remove(self.position),
            position: self.origin(direction),
            ..self
        }.blamed(direction)
    }

    /// The memory after the next move has been chosen, and the move.
    /// `anywhere` is where the player goes when no direction is considered
    /// and there is no move to undo.
    pub open spec fn chosen(self, radar: Seq<Seq<char>>, anywhere: RelativeDirection) -> (
        NavigatorState,
        RelativeDirection,
    ) {
        match self.choice(radar) {
            Some(direction) => (
                NavigatorState {
                    last_direction: Some(direction),
                    ..self.moved(direction, self.target(direction))
                },
                direction,
            ),
            None => if self.history.len() > 0 {
                (self.turned_back(), self.history.last().opposite())
            } else {
                (self, anywhere)
            },
        }
    }
}

/// A move that the policy has chosen and the server then refuses is
/// undone: the player is back where it was, the history is as before, the
/// position that it never reached does not count as visited, and the
/// direction is banned and has failed once.
pub proof fn lemma_refused_move_is_undone(
    state: NavigatorState,
    radar: Seq<Seq<char>>,
    anywhere: RelativeDirection,
)
    requires
        state.can_step(),
        state.choice(radar) is Some,
    ensures
        ({
            let (booked, direction) = state.chosen(radar, anywhere);
            let undone = booked.failed(direction);
            &&& direction == state.choice(radar)->0
            &&& booked.position == state.target(direction)
            &&& undone.position == state.position
            &&& undone.history == state.history
            &&& undone.visited == state.visited.remove(state.target(direction))
            &&& undone.banned.has(direction)
            &&& undone.fails.of(direction) == 1
            &&& undone.last_direction == Some(direction)
        }),
{
    let (booked, direction) = state.chosen(radar, anywhere);
    let undone = booked.failed(direction);
    assert(booked.history.drop_last() =~= state.history);
    assert(undone.visited =~= state.visited.remove(state.target(direction)));
}

/// The memory of a player that explores a maze.
pub struct Navigator {
    /// The direction of the last move that was chosen freely.
    pub last_direction: Option<RelativeDirection>,
    /// The moves made and not undone, oldest first.
    pub movement_history: VecDeque<RelativeDirection>,
    /// The positions that the player has been on.
    pub visited_positions: PositionSet,
    /// Where the player is, counted from where it started.
    pub current_position: (i32, i32),
    /// How often each direction has failed.
    pub fail_count: FailCounts,
    /// The directions that are banned.
    pub banned_directions: DirectionSet,
}

impl View for Navigator {
    type V = NavigatorState;

    open spec fn view(&self) -> NavigatorState {
        NavigatorState {
            last_direction: self.last_direction,
            history: self.movement_history@,
            visited: self.visited_positions@,
            position: self.current_position,
            fails: self.fail_count,
            banned: self.banned_directions,
        }
    }
}

impl Navigator {
    /// A navigator at the origin that remembers nothing.
    pub fn new() -> (navigator: Self)
        ensures
            navigator@ == NavigatorState::initial(),
    {
        Self {
            last_direction: None,
            movement_history: VecDeque::new(),
            visited_positions: PositionSet::new(),
            current_position: (0, 0),
            fail_count: FailCounts::new(),
            banned_directions: DirectionSet::new(),
        }
    }

    /// Whether the radar shows an opening next to the player in the given
    /// direction.
    pub fn is_open(&self, radar_view: &[[char; 7]; 7], direction: RelativeDirection) -> (b: bool)
        ensures
            b == open_on_radar(rows_of(*radar_view), direction),
    {
        match direction {
            RelativeDirection::Front => radar_view[1][3] == ' ',
            RelativeDirection::Right => radar_view[3][5] == ' ',
            RelativeDirection::Back => radar_view[5][3] == ' ',
            RelativeDirection::Left => radar_view[3][1] == ' ',
        }
    }

    /// The change of position that one step in the given direction makes.
    pub fn delta(direction: RelativeDirection) -> (d: (i32, i32))
        ensures
            (d.0 as int, d.1 as int) == delta_of(direction),
    {
        match direction {
            RelativeDirection::Front => (0, -1),
            RelativeDirection::Right => (1, 0),
            RelativeDirection::Back => (0, 1),
            RelativeDirection::Left => (-1, 0),
        }
    }

    /// The direction that leads straight back.
    pub fn turn_back(direction: RelativeDirection) -> (back: RelativeDirection)
        ensures
            back == direction.opposite(),
    {
        match direction {
            RelativeDirection::Front => RelativeDirection::Back,
            RelativeDirection::Back => RelativeDirection::Front,
            RelativeDirection::Left => RelativeDirection::Right,
            RelativeDirection::Right => RelativeDirection::Left,
        }
    }

    /// The position one step from `position` in the given direction.
    pub fn calculate_new_position(position: (i32, i32), direction: RelativeDirection) -> (next: (
        i32,
        i32,
    ))
        requires
            i32::MIN <= position.0 + delta_of(direction).0 <= i32::MAX,
            i32::MIN <= position.1 + delta_of(direction).1 <= i32::MAX,
        ensures
            next.0 == position.0 + delta_of(direction).0,
            next.1 == position.1 + delta_of(direction).1,
    {
        let (dx, dy) = Self::delta(direction);
        (position.0 + dx, position.1 + dy)
    }

    /// The direction that a bearing in degrees points to, the bearing
    /// given by the bits of a single-precision number.
    pub fn compute_direction_from_angle(angle_bits: u32) -> (direction: Option<RelativeDirection>)
        ensures
            direction == direction_of_angle(angle_bits),
    {
        let magnitude = angle_bits & 0x7fff_ffff;
        if magnitude > ANGLE_INFINITY {
            None
        } else if magnitude <= ANGLE_45 {
            Some(RelativeDirection::Front)
        } else if magnitude >= ANGLE_135 {
            Some(RelativeDirection::Back)
        } else if angle_bits & 0x8000_0000 != 0 {
            Some(RelativeDirection::Left)
        } else {
            Some(RelativeDirection::Right)
        }
    }

    /// Whether `direction` is banned.
    pub fn is_banned(&self, direction: RelativeDirection) -> (b: bool)
        ensures
            b == self@.banned.has(direction),
    {
        self.banned_directions.contains(direction)
    }

    /// How often `direction` has failed.
    pub fn fail_count_of(&self, direction: RelativeDirection) -> (n: usize)
        ensures
            n == self@.fails.of(direction),
    {
        self.fail_count.get(direction)
    }

    /// Whether the player has been on `position`.
    pub fn has_visited(&self, position: (i32, i32)) -> (b: bool)
        ensures
            b == self@.visited.contains(position),
    {
        self.visited_positions.contains(position)
    }

    /// The last move of the history, if there is one.
    pub fn last_move(&self) -> (r: Option<RelativeDirection>)
        ensures
            r == (if self@.history.len() > 0 {
                Some(self@.history.last())
            } else {
                None
            }),
    {
        let n = self.movement_history.len();
        if n > 0 {
            Some(self.movement_history[n - 1])
        } else {
            None
        }
    }

    /// Books a move in `direction` that leads to `new_pos`.
    pub fn execute_move(&mut self, direction: RelativeDirection, new_pos: (i32, i32))
        ensures
            final(self)@ == old(self)@.moved(direction, new_pos),
    {
        self.banned_directions.remove(direction);
        self.fail_count.set(direction, 0);
        self.movement_history.push_back(direction);
        self.current_position = new_pos;
        self.visited_positions.insert(new_pos);
    }

    fn is_eligible(&self, radar_view: &[[char; 7]; 7], direction: RelativeDirection) -> (b: bool)
        ensures
            b == self@.eligible(rows_of(*radar_view), direction),
    {
        self.fail_count.get(direction) < MAX_FAILS && !self.banned_directions.contains(direction)
            && self.is_open(radar_view, direction)
    }

    fn search_order(i: usize) -> (d: RelativeDirection)
        requires
            i < 4,
        ensures
            d == in_order(i as int),
    {
        if i == 0 {
            RelativeDirection::Front
        } else if i == 1 {
            RelativeDirection::Right
        } else if i == 2 {
            RelativeDirection::Left
        } else {
            RelativeDirection::Back
        }
    }

    fn count_eligible(&self, radar_view: &[[char; 7]; 7]) -> (n: usize)
        ensures
            n == self@.eligible_count(rows_of(*radar_view)),
    {
        let mut n: usize = 0;
        if self.is_eligible(radar_view, RelativeDirection::Front) {
            n = n + 1;
        }
        if self.is_eligible(radar_view, RelativeDirection::Right) {
            n = n + 1;
        }
        if self.is_eligible(radar_view, RelativeDirection::Left) {
            n = n + 1;
        }
        if self.is_eligible(radar_view, RelativeDirection::Back) {
            n = n + 1;
        }
        n
    }

    fn is_considered(
        &self,
        radar_view: &[[char; 7]; 7],
        direction: RelativeDirection,
        eligible: usize,
    ) -> (b: bool)
        requires
            eligible == self@.eligible_count(rows_of(*radar_view)),
        ensures
            b == self@.is_candidate(rows_of(*radar_view), direction),
    {
        if !self.is_eligible(radar_view, direction) {
            return false;
        }
        if eligible > 1 {
            if let Some(last_dir) = self.last_direction {
                let reverse_dir = Self::turn_back(last_dir);
                if reverse_dir == direction {
                    return false;
                }
            }
        }
        true
    }

    /// The direction that the policy chooses from what the radar shows,
    /// if any direction is considered. Nothing is booked.
    pub fn pick_move(&self, radar_view: &[[char; 7]; 7]) -> (choice: Option<RelativeDirection>)
        requires
            self@.can_step(),
        ensures
            choice == self@.choice(rows_of(*radar_view)),
    {
        let eligible = self.count_eligible(radar_view);
        let mut i: usize = 0;
        while i < 4
            invariant
                i <= 4,
                self@.can_step(),
                eligible == self@.eligible_count(rows_of(*radar_view)),
                forall|j: int| 0 <= j < i ==> !self@.is_fresh(rows_of(*radar_view), #[trigger] in_order(j)),
            decreases 4 - i,
        {
            let dir = Self::search_order(i);
            if self.is_considered(radar_view, dir, eligible) {
                let new_pos = Self::calculate_new_position(self.current_position, dir);
                if !self.visited_positions.contains(new_pos) {
                    proof {
                        assert(i > 0 ==> !self@.is_fresh(rows_of(*radar_view), in_order(0)));
                        assert(i > 1 ==> !self@.is_fresh(rows_of(*radar_view), in_order(1)));
                        assert(i > 2 ==> !self@.is_fresh(rows_of(*radar_view), in_order(2)));
                    }
                    return Some(dir);
                }
            }
            i = i + 1;
        }
        proof {
            assert(!self@.is_fresh(rows_of(*radar_view), in_order(0)));
            assert(!self@.is_fresh(rows_of(*radar_view), in_order(1)));
            assert(!self@.is_fresh(rows_of(*radar_view), in_order(2)));
            assert(!self@.is_fresh(rows_of(*radar_view), in_order(3)));
        }
        let mut best: Option<(RelativeDirection, usize)> = None;
        let mut k: usize = 0;
        while k < 4
            invariant
                k <= 4,
                eligible == self@.eligible_count(rows_of(*radar_view)),
                best is None ==> forall|j: int|
                    0 <= j < k ==> !self@.is_candidate(rows_of(*radar_view), #[trigger] in_order(j)),
                best is Some ==> {
                    let (d, at) = best->0;
                    &&& at < k
                    &&& d == in_order(at as int)
                    &&& self@.is_candidate(rows_of(*radar_view), d)
                    &&& forall|j: int|
                        0 <= j < k && self@.is_candidate(rows_of(*radar_view), #[trigger] in_order(j))
                            ==> self@.fails.of(d) <= self@.fails.of(in_order(j))
                    &&& forall|j: int|
                        0 <= j < at && self@.is_candidate(rows_of(*radar_view), #[trigger] in_order(j))
                            ==> self@.fails.of(d) < self@.fails.of(in_order(j))
                },
            decreases 4 - k,
        {
            let dir = Self::search_order(k);
            if self.is_considered(radar_view, dir, eligible) {
                match best {
                    None => {
                        best = Some((dir, k));
                    },
                    Some((d, _)) => {
                        if self.fail_count.get(dir) < self.fail_count.get(d) {
                            best = Some((dir, k));
                        }
                    },
                }
            }
            k = k + 1;
        }
        match best {
            None => {
                proof {
                    assert(!self@.is_candidate(rows_of(*radar_view), in_order(0)));
                    assert(!self@.is_candidate(rows_of(*radar_view), in_order(1)));
                    assert(!self@.is_candidate(rows_of(*radar_view), in_order(2)));
                    assert(!self@.is_candidate(rows_of(*radar_view), in_order(3)));
                }
                None
            },
            Some((d, at)) => {
                proof {
                    assert(self@.is_least_failed(rows_of(*radar_view), d));
                    assert(at > 0 ==> !self@.is_least_failed(rows_of(*radar_view), in_order(0))) by {
                        if at > 0 && self@.is_candidate(rows_of(*radar_view), in_order(0)) {
                            assert(self@.fails.of(d) < self@.fails.of(in_order(0)));
                        }
                    }
                    assert(at > 1 ==> !self@.is_least_failed(rows_of(*radar_view), in_order(1))) by {
                        if at > 1 && self@.is_candidate(rows_of(*radar_view), in_order(1)) {
                            assert(self@.fails.of(d) < self@.fails.of(in_order(1)));
                        }
                    }
                    assert(at > 2 ==> !self@.is_least_failed(rows_of(*radar_view), in_order(2))) by {
                        if at > 2 && self@.is_candidate(rows_of(*radar_view), in_order(2)) {
                            assert(self@.fails.of(d) < self@.fails.of(in_order(2)));
                        }
                    }
                }
                Some(d)
            },
        }
    }

    /// Undoes the last move because no direction is left: the move leaves
    /// the history and is blamed, and the way back comes out. With no move
    /// to undo the memory stays as it is and a direction drawn at random
    /// comes out.
    pub fn handle_no_moves(&mut self) -> (direction: RelativeDirection)
        requires
            old(self)@.history.len() > 0 ==> old(self)@.can_count(old(self)@.history.last()),
        ensures
            final(self)@ == old(self)@.turned_back(),
            old(self)@.history.len() > 0 ==> direction == old(self)@.history.last().opposite(),
    {
        if let Some(last_move) = self.movement_history.pop_back() {
            assert(self.movement_history@ =~= old(self)@.history.drop_last());
            self.banned_directions.insert(last_move);
            let fails = self.fail_count.get(last_move);
            self.fail_count.set(last_move, fails + 1);
            return Self::turn_back(last_move);
        }
        RelativeDirection::from_index(sample_range(RangeInclusive::new(0, 3)))
    }

    /// Chooses the next move from what the radar shows and books it.
    ///
    /// The outcome is that of `NavigatorState::chosen`. Only when no
    /// direction is considered and there is no move to undo is the move
    /// drawn at random; the memory then stays as it is.
    pub fn choose_next_move(&mut self, radar_view: &[[char; 7]; 7]) -> (direction:
        RelativeDirection)
        requires
            old(self)@.can_step(),
            old(self)@.history.len() > 0 ==> old(self)@.can_count(old(self)@.history.last()),
        ensures
            (final(self)@, direction) == old(self)@.chosen(rows_of(*radar_view), direction),
    {
        match self.pick_move(radar_view) {
            Some(dir) => {
                let new_pos = Self::calculate_new_position(self.current_position, dir);
                self.execute_move(dir, new_pos);
                self.last_direction = Some(dir);
                dir
            },
            None => self.handle_no_moves(),
        }
    }

    /// Takes back the move in `direction` that the server has refused.
    pub fn handle_move_failure(&mut self, direction: RelativeDirection)
        requires
            i32::MIN <= old(self)@.position.0 - delta_of(direction).0 <= i32::MAX,
            i32::MIN <= old(self)@.position.1 - delta_of(direction).1 <= i32::MAX,
            old(self)@.can_count(direction),
        ensures
            final(self)@ == old(self)@.failed(direction),
    {
        let (dx, dy) = Self::delta(direction);
        let reached = self.current_position;
        let previous_position = (self.current_position.0 - dx, self.current_position.1 - dy);
        self.current_position = previous_position;
        let undone = self.movement_history.pop_back();
        assert(old(self)@.history.len() > 0 ==> self.movement_history@ =~= old(
            self,
        )@.history.drop_last());
        self.banned_directions.insert(direction);
        let fails = self.fail_count.get(direction);
        self.fail_count.set(direction, fails + 1);
        self.visited_positions.remove(reached);
    }

    /// The positions that the player has been on, in no particular order.
    pub fn visited_list(&self) -> (positions: Vec<(i32, i32)>)
        ensures
            positions@.to_set() == self@.visited,
    {
        self.visited_positions.to_vec()
    }
}

} // verus!
