//! The challenges that a team meets: the sum of the players' secrets
//! modulo a number, and the call for help of a player in distress.

use std::collections::HashMap;
use vstd::arithmetic::div_mod::lemma_add_mod_noop;
use vstd::prelude::*;
use vstd::std_specs::hash::group_hash_axioms;
use crate::wire::messages::{ActionError, Challenge};

verus! {

/// The secret that is known for a player; a player without one counts as zero.
pub open spec fn secret_of(secrets: Map<u32, u64>, player_id: u32) -> nat {
    if secrets.contains_key(player_id) {
        secrets[player_id] as nat
    } else {
        0
    }
}

/// The sum of the secrets of the listed players. A player that is listed
/// twice counts twice.
pub open spec fn secret_sum(secrets: Map<u32, u64>, player_ids: Seq<u32>) -> nat
    decreases player_ids.len(),
{
    if player_ids.len() == 0 {
        0
    } else {
        secret_sum(secrets, player_ids.drop_last()) + secret_of(secrets, player_ids.last())
    }
}

/// The call for help after `player_id` has asked to raise one: a call that
/// is already out stays as it is.
pub open spec fn sos_after_initiate(sos: Option<u32>, player_id: u32) -> Option<u32> {
    if sos is Some {
        sos
    } else {
        Some(player_id)
    }
}

/// What a player that asks to raise a call for help is told.
pub open spec fn initiate_outcome(sos: Option<u32>) -> Result<Challenge, ActionError> {
    if sos is Some {
        Err(ActionError::NoRunningChallenge)
    } else {
        Ok(Challenge::SOS)
    }
}

/// The call for help after `rescuer_id` has tried to answer it: it is
/// cleared by anybody but the player in distress.
pub open spec fn sos_after_resolve(sos: Option<u32>, rescuer_id: u32) -> Option<u32> {
    if sos is Some && sos != Some(rescuer_id) {
        None
    } else {
        sos
    }
}

/// What a player that tries to answer the call for help is told.
pub open spec fn resolve_outcome(sos: Option<u32>, rescuer_id: u32) -> Result<(), ActionError> {
    if sos is None {
        Err(ActionError::NoRunningChallenge)
    } else if sos == Some(rescuer_id) {
        Err(ActionError::InvalidChallengeSolution)
    } else {
        Ok(())
    }
}

/// A second request to raise a call for help, with no rescue in between,
/// is always turned down with `NoRunningChallenge` and changes nothing,
/// whoever asks and whether or not the first request went through.
pub proof fn lemma_second_sos_fails(sos: Option<u32>, first: u32, second: u32)
    ensures
        initiate_outcome(sos_after_initiate(sos, first)) == Err::<Challenge, ActionError>(
            ActionError::NoRunningChallenge,
        ),
        sos_after_initiate(sos_after_initiate(sos, first), second) == sos_after_initiate(
            sos,
            first,
        ),
{
}

/// Keeps the secrets of the players of a team and the team's call for help.
pub struct ChallengeManager {
    /// The secret of each player that has one, by player id.
    pub secrets: HashMap<u32, u64>,
    /// The player in distress, while a call for help is out.
    pub sos_active: Option<u32>,
}

impl ChallengeManager {
    /// A manager without secrets and without a call for help.
    pub fn new() -> (manager: Self)
        ensures
            manager.secrets@ == Map::<u32, u64>::empty(),
            manager.sos_active is None,
    {
        Self { secrets: HashMap::new(), sos_active: None }
    }

    /// Records the secret of a player; an earlier secret of the same player
    /// is replaced.
    pub fn set_secret(&mut self, player_id: u32, secret: u64)
        ensures
            final(self).secrets@ == old(self).secrets@.insert(player_id, secret),
            final(self).sos_active == old(self).sos_active,
    {
        broadcast use group_hash_axioms;

        self.secrets.insert(player_id, secret);
    }

    /// The sum of the secrets of the listed players, reduced modulo `modulo`.
    pub fn solve_secret_sum_modulo(&self, modulo: u64, player_ids: &[u32]) -> (answer: u64)
        requires
            modulo > 0,
        ensures
            answer == secret_sum(self.secrets@, player_ids@) % (modulo as nat),
            answer < modulo,
    {
        broadcast use group_hash_axioms;

        let mut acc: u64 = 0;
        let mut i: usize = 0;
        assert(secret_sum(self.secrets@, player_ids@.take(0)) == 0) by {
            assert(player_ids@.take(0).len() == 0);
        }
        while i < player_ids.len()
            invariant
                modulo > 0,
                i <= player_ids@.len(),
                acc < modulo,
                acc == secret_sum(self.secrets@, player_ids@.take(i as int)) % (modulo as nat),
            decreases player_ids@.len() - i,
        {
            let secret = match self.secrets.get(&player_ids[i]) {
                Some(value) => *value,
                None => 0,
            };
            proof {
                let before = player_ids@.take(i as int);
                let after = player_ids@.take(i + 1);
                assert(after.drop_last() =~= before);
                assert(after.last() == player_ids@[i as int]);
                assert(secret == secret_of(self.secrets@, player_ids@[i as int]));
                lemma_add_mod_noop(
                    secret_sum(self.secrets@, before) as int,
                    secret as int,
                    modulo as int,
                );
            }
            acc = ((acc as u128 + (secret % modulo) as u128) % (modulo as u128)) as u64;
            i = i + 1;
        }
        assert(player_ids@.take(i as int) =~= player_ids@);
        acc
    }

    /// Raises the call for help of `player_id`, unless one is already out.
    pub fn initiate_sos(&mut self, player_id: u32) -> (r: Result<Challenge, ActionError>)
        ensures
            r == initiate_outcome(old(self).sos_active),
            final(self).sos_active == sos_after_initiate(old(self).sos_active, player_id),
            final(self).secrets == old(self).secrets,
    {
        if self.sos_active.is_some() {
            return Err(ActionError::NoRunningChallenge);
        }
        self.sos_active = Some(player_id);
        Ok(Challenge::SOS)
    }

    /// Answers the call for help. It takes a call that is out and a rescuer
    /// other than the player in distress; the call is then cleared.
    pub fn resolve_sos(&mut self, rescuer_id: u32) -> (r: Result<(), ActionError>)
        ensures
            r == resolve_outcome(old(self).sos_active, rescuer_id),
            final(self).sos_active == sos_after_resolve(old(self).sos_active, rescuer_id),
            final(self).secrets == old(self).secrets,
    {
        if let Some(player_id) = self.sos_active {
            if rescuer_id != player_id {
                self.sos_active = None;
                return Ok(());
            }
            return Err(ActionError::InvalidChallengeSolution);
        }
        Err(ActionError::NoRunningChallenge)
    }
}

} // verus!
