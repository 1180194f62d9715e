//! The moves that each player of a team has made.

use std::collections::HashMap;
use vstd::prelude::*;
use vstd::std_specs::hash::{group_hash_axioms, spec_keys_iter};
use vstd::std_specs::iter::IteratorSpec;
use crate::engine::tally::{lemma_listed_total, listed_total, map_total};

verus! {

/// The counts of a score sheet as plain numbers.
pub open spec fn move_counts(moves: Map<u32, u32>) -> Map<u32, nat> {
    moves.map_values(|n: u32| n as nat)
}

/// Counts the moves of each player of a team. The score of the team is the
/// total of the moves divided by the size of the team.
pub struct ScoreManager {
    player_moves: HashMap<u32, u32>,
    team_size: u32,
}

impl ScoreManager {
    /// The number of moves of each player that has moved, by player id.
    pub closed spec fn moves(&self) -> Map<u32, u32> {
        self.player_moves@
    }

    /// The number of players in the team.
    pub closed spec fn size(&self) -> u32 {
        self.team_size
    }

    /// The number of moves that a player has made so far.
    pub open spec fn count_of(&self, player_id: u32) -> nat {
        if self.moves().contains_key(player_id) {
            self.moves()[player_id] as nat
        } else {
            0
        }
    }

    /// An empty score sheet for a team of `team_size` players.
    pub fn new(team_size: u32) -> (manager: Self)
        ensures
            manager.moves() == Map::<u32, u32>::empty(),
            manager.size() == team_size,
    {
        Self { player_moves: HashMap::new(), team_size }
    }

    /// Counts one more move for the player.
    pub fn add_move(&mut self, player_id: u32)
        requires
            old(self).count_of(player_id) < u32::MAX,
        ensures
            final(self).moves() == old(self).moves().insert(
                player_id,
                (old(self).count_of(player_id) + 1) as u32,
            ),
            final(self).size() == old(self).size(),
    {
        broadcast use group_hash_axioms;

        let counted = match self.player_moves.get(&player_id) {
            Some(n) => *n,
            None => 0,
        };
        self.player_moves.insert(player_id, counted + 1);
    }

    /// The number of moves counted for a player, if the player has moved.
    pub fn moves_of(&self, player_id: u32) -> (n: Option<u32>)
        ensures
            n == (if self.moves().contains_key(player_id) {
                Some(self.moves()[player_id])
            } else {
                None
            }),
    {
        broadcast use group_hash_axioms;

        match self.player_moves.get(&player_id) {
            Some(n) => Some(*n),
            None => None,
        }
    }

    /// The number of players in the team.
    pub fn team_size(&self) -> (n: u32)
        ensures
            n == self.size(),
    {
        self.team_size
    }

    /// The moves of all players together.
    pub fn total_moves(&self) -> (total: u128)
        ensures
            total == map_total(move_counts(self.moves())),
    {
        broadcast use group_hash_axioms;

        let ghost counts = move_counts(self.player_moves@);
        let ghost keys = spec_keys_iter(&self.player_moves).remaining().unref();
        let players = self.player_moves.len();
        let mut total: u128 = 0;
        assert(keys.take(0) =~= Seq::<u32>::empty());
        for key in it: self.player_moves.keys()
            invariant
                counts == move_counts(self.player_moves@),
                keys == spec_keys_iter(&self.player_moves).remaining().unref(),
                keys.len() == players,
                it.seq().unref() == keys,
                total == listed_total(counts, keys.take(it.index())),
                total <= it.index() * u32::MAX,
        {
            let ghost i = it.index();
            assert(*key == keys[i]);
            assert(keys.to_set().contains(keys[i]));
            let counted = match self.player_moves.get(key) {
                Some(n) => *n,
                None => 0,
            };
            proof {
                let before = keys.take(i);
                let after = keys.take(i + 1);
                assert(after.drop_last() =~= before);
                assert(after.last() == keys[i]);
                assert(counted == counts[keys[i]]);
            }
            total = total + counted as u128;
        }
        proof {
            assert(keys.take(keys.len() as int) =~= keys);
            assert(keys.no_duplicates());
            assert(keys.to_set() =~= counts.dom());
            lemma_listed_total(counts, keys);
        }
        total
    }
}

} // verus!
