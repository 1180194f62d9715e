//! The challenge book of a solver that answers for its whole team: the sum
//! runs over every secret that it has been told.

use std::collections::HashMap;
use vstd::arithmetic::div_mod::lemma_add_mod_noop;
use vstd::prelude::*;
use vstd::std_specs::hash::{group_hash_axioms, spec_keys_iter};
use vstd::std_specs::iter::IteratorSpec;
use crate::engine::challenge::{
    initiate_outcome,
    resolve_outcome,
    sos_after_initiate,
    sos_after_resolve,
};
use crate::engine::tally::{lemma_listed_total, listed_total, map_total};
use crate::wire::messages::{ActionError, Challenge};

verus! {

/// The secrets of a team as plain numbers.
pub open spec fn secret_values(secrets: Map<u32, u64>) -> Map<u32, nat> {
    secrets.map_values(|v: u64| v as nat)
}

/// Keeps every secret that the solver has been told and the team's call
/// for help.
pub struct ChallengeManager {
    /// The secret of each player that has one, by player id.
    pub secrets: HashMap<u32, u64>,
    /// The player in distress, while a call for help is out.
    pub sos_active: Option<u32>,
}

impl ChallengeManager {
    /// A manager without secrets and without a call for help.
    pub fn new() -> (manager: Self)
        ensures
            manager.secrets@ == Map::<u32, u64>::empty(),
            manager.sos_active is None,
    {
        Self { secrets: HashMap::new(), sos_active: None }
    }

    /// Records the secret of a player; an earlier secret of the same player
    /// is replaced.
    pub fn set_secret(&mut self, player_id: u32, secret: u64)
        ensures
            final(self).secrets@ == old(self).secrets@.insert(player_id, secret),
            final(self).sos_active == old(self).sos_active,
    {
        broadcast use group_hash_axioms;

        self.secrets.insert(player_id, secret);
    }

    /// The sum of all secrets, reduced modulo `modulo`.
    pub fn solve_secret_sum_modulo(&self, modulo: u64) -> (answer: u64)
        requires
            modulo > 0,
        ensures
            answer == map_total(secret_values(self.secrets@)) % (modulo as nat),
            answer < modulo,
    {
        broadcast use group_hash_axioms;

        let ghost values = secret_values(self.secrets@);
        let ghost keys = spec_keys_iter(&self.secrets).remaining().unref();
        let mut acc: u64 = 0;
        assert(keys.take(0) =~= Seq::<u32>::empty());
        for key in it: self.secrets.keys()
            invariant
                modulo > 0,
                values == secret_values(self.secrets@),
                keys == spec_keys_iter(&self.secrets).remaining().unref(),
                it.seq().unref() == keys,
                acc < modulo,
                acc == listed_total(values, keys.take(it.index())) % (modulo as nat),
        {
            let ghost i = it.index();
            assert(*key == keys[i]);
            assert(keys.to_set().contains(keys[i]));
            let secret = match self.secrets.get(key) {
                Some(value) => *value,
                None => 0,
            };
            proof {
                let before = keys.take(i);
                let after = keys.take(i + 1);
                assert(after.drop_last() =~= before);
                assert(after.last() == keys[i]);
                assert(secret == values[keys[i]]);
                lemma_add_mod_noop(
                    listed_total(values, before) as int,
                    secret as int,
                    modulo as int,
                );
            }
            acc = ((acc as u128 + (secret % modulo) as u128) % (modulo as u128)) as u64;
        }
        proof {
            assert(keys.take(keys.len() as int) =~= keys);
            assert(keys.no_duplicates());
            assert(keys.to_set() =~= values.dom());
            lemma_listed_total(values, keys);
        }
        acc
    }

    /// Raises the call for help of `player_id`, unless one is already out.
    pub fn initiate_sos(&mut self, player_id: u32) -> (r: Result<Challenge, ActionError>)
        ensures
            r == initiate_outcome(old(self).sos_active),
            final(self).sos_active == sos_after_initiate(old(self).sos_active, player_id),
            final(self).secrets == old(self).secrets,
    {
        if self.sos_active.is_some() {
            return Err(ActionError::NoRunningChallenge);
        }
        self.sos_active = Some(player_id);
        Ok(Challenge::SOS)
    }

    /// Answers the call for help. It takes a call that is out and a rescuer
    /// other than the player in distress; the call is then cleared.
    pub fn resolve_sos(&mut self, rescuer_id: u32) -> (r: Result<(), ActionError>)
        ensures
            r == resolve_outcome(old(self).sos_active, rescuer_id),
            final(self).sos_active == sos_after_resolve(old(self).sos_active, rescuer_id),
            final(self).secrets == old(self).secrets,
    {
        if let Some(player_id) = self.sos_active {
            if rescuer_id != player_id {
                self.sos_active = None;
                return Ok(());
            }
            return Err(ActionError::InvalidChallengeSolution);
        }
        Err(ActionError::NoRunningChallenge)
    }
}

} // verus!
