//! What the server does with an action of a player.
//!
//! A move is refused while the player has a challenge to solve, and when a
//! wall is in the way. Otherwise the player moves; if it meets the
//! challenge it must solve it before it moves again, and else it is sent
//! what its radar shows. An answer is refused when the player has no
//! challenge to solve, and when it is wrong. Otherwise the challenge is
//! solved for good, and the player is sent what its radar shows.

use vstd::prelude::*;
use crate::server::challenge::{
    check_all_condition_challenge,
    check_is_challenge_position,
    meets_challenge,
    solution_outcome,
    ChallengePosition,
    ChallengeState,
    CHALLENGE_MODULO,
};
use crate::server::maze::{check_movement_possible, movement_outcome};
use crate::server::message::action_result;
use crate::server::player::{radar_text, Player, PlayerState};
use crate::wire::messages::{
    Action,
    ActionError,
    ActionView,
    Challenge,
    JsonWrapper,
    MessageView,
    RelativeDirection,
};

verus! {

/// The player after a request to move, and the answer to the request.
pub open spec fn move_outcome(
    player: PlayerState,
    challenge: ChallengeState,
    direction: RelativeDirection,
) -> (PlayerState, MessageView) {
    if player.challenge_active {
        (player, MessageView::ActionError(ActionError::SolveChallengeFirst))
    } else {
        match movement_outcome(player.position, direction) {
            Err(error) => (player, MessageView::ActionError(error)),
            Ok(position) => if meets_challenge(position, challenge) {
                (
                    PlayerState { position, challenge_active: true, ..player },
                    MessageView::Challenge(Challenge::SecretSumModulo(CHALLENGE_MODULO)),
                )
            } else {
                (
                    PlayerState { position, ..player },
                    MessageView::RadarView(radar_text(position)),
                )
            },
        }
    }
}

/// The player and the challenge after an answer has been handed in, and
/// what the player is told.
pub open spec fn answer_outcome(
    player: PlayerState,
    challenge: ChallengeState,
    answer: Seq<char>,
) -> (PlayerState, ChallengeState, MessageView) {
    match solution_outcome(answer, challenge, player.challenge_active) {
        Err(error) => (player, challenge, MessageView::ActionError(error)),
        Ok(_) => (
            PlayerState { challenge_active: false, ..player },
            ChallengeState { finished: true, ..challenge },
            MessageView::RadarView(radar_text(player.position)),
        ),
    }
}

/// The player and the challenge after an action, and the answer to it.
pub open spec fn action_outcome(
    player: PlayerState,
    challenge: ChallengeState,
    action: ActionView,
) -> (PlayerState, ChallengeState, MessageView) {
    match action {
        ActionView::MoveTo(direction) => {
            let (moved, reply) = move_outcome(player, challenge, direction);
            (moved, challenge, reply)
        },
        ActionView::SolveChallenge { answer } => answer_outcome(player, challenge, answer),
    }
}

/// While a player has a challenge to solve, every request to move is
/// answered with `SolveChallengeFirst`, and the player stays as it is.
pub proof fn lemma_challenge_blocks_moves(
    player: PlayerState,
    challenge: ChallengeState,
    direction: RelativeDirection,
)
    requires
        player.challenge_active,
    ensures
        move_outcome(player, challenge, direction) == (
            player,
            MessageView::ActionError(ActionError::SolveChallengeFirst),
        ),
        action_outcome(player, challenge, ActionView::MoveTo(direction)) == (
            player,
            challenge,
            MessageView::ActionError(ActionError::SolveChallengeFirst),
        ),
{
}

/// How the server carries out the actions of a player.
pub trait ActionFunction {
    /// Carries out a request to move.
    fn process_direction(
        direction: RelativeDirection,
        player: &mut Player,
        challenge: &ChallengePosition,
    ) -> (reply: JsonWrapper)
        requires
            old(player).wf(),
        ensures
            final(player).wf(),
            (final(player)@, reply@) == move_outcome(old(player)@, challenge@, direction),
    ;

    /// Judges an answer to the challenge.
    fn process_challenge(answer: String, player: &mut Player, challenge: &mut ChallengePosition) -> (reply:
        JsonWrapper)
        requires
            old(player).wf(),
        ensures
            final(player).wf(),
            (final(player)@, final(challenge)@, reply@) == answer_outcome(
                old(player)@,
                old(challenge)@,
                answer@,
            ),
    ;

    /// Carries out an action.
    fn process(action: Action, player: &mut Player, challenge: &mut ChallengePosition) -> (reply:
        JsonWrapper)
        requires
            old(player).wf(),
        ensures
            final(player).wf(),
            (final(player)@, final(challenge)@, reply@) == action_outcome(
                old(player)@,
                old(challenge)@,
                action@,
            ),
    ;
}

impl ActionFunction for Action {
    fn process_direction(
        direction: RelativeDirection,
        player: &mut Player,
        challenge: &ChallengePosition,
    ) -> (reply: JsonWrapper) {
        if player.get_is_challenge_actif() {
            return action_result(Err(ActionError::SolveChallengeFirst));
        }
        match check_movement_possible(direction, player) {
            Ok(new_position) => {
                player.set_position(new_position);
                let is_challenge_position = check_is_challenge_position(
                    &player.get_position(),
                    challenge,
                );
                if is_challenge_position {
                    player.set_is_challenge_actif(true);
                }
                action_result(Ok((player.duplicate(), is_challenge_position)))
            },
            Err(action_err) => action_result(Err(action_err)),
        }
    }

    fn process_challenge(answer: String, player: &mut Player, challenge: &mut ChallengePosition) -> (reply:
        JsonWrapper) {
        match check_all_condition_challenge(answer, challenge, player) {
            Ok(()) => {
                player.set_is_challenge_actif(false);
                challenge.update_challenge_statut(true);
                let is_challenge_position = check_is_challenge_position(
                    &player.get_position(),
                    challenge,
                );
                action_result(Ok((player.duplicate(), is_challenge_position)))
            },
            Err(action_err) => action_result(Err(action_err)),
        }
    }

    fn process(action: Action, player: &mut Player, challenge: &mut ChallengePosition) -> (reply:
        JsonWrapper) {
        match action {
            Action::MoveTo(direction) => Self::process_direction(direction, player, challenge),
            Action::SolveChallenge { answer } => Self::process_challenge(answer, player, challenge),
        }
    }
}

} // verus!
