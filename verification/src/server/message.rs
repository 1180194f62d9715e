//! The messages with which the server answers.

use vstd::prelude::*;
use crate::server::challenge::CHALLENGE_MODULO;
use crate::server::player::{radar_text, Player};
use crate::wire::messages::{
    ActionError,
    Challenge,
    JsonWrapper,
    MessageView,
    RegisterTeamResult,
    RegisterTeamResultView,
    RegistrationError,
    SubscribePlayerResult,
};

verus! {

/// What a client is told about the registration of its team.
pub open spec fn register_team_reply(result: Result<(u8, String), RegistrationError>) -> MessageView {
    match result {
        Ok((expected_players, access_key)) => MessageView::RegisterTeamResult(
            RegisterTeamResultView::Accepted { expected_players, registration_token: access_key@ },
        ),
        Err(error) => MessageView::RegisterTeamResult(RegisterTeamResultView::Refused(error)),
    }
}

/// What a client is told about the subscription of its player.
pub open spec fn subscribe_player_reply(result: Result<Player, RegistrationError>) -> MessageView {
    match result {
        Ok(_) => MessageView::SubscribePlayerResult(SubscribePlayerResult::Accepted),
        Err(error) => MessageView::SubscribePlayerResult(SubscribePlayerResult::Refused(error)),
    }
}

/// What a client is told about its action: the challenge that its player
/// has met, or what the player's radar shows now, or why the action was
/// not carried out.
pub open spec fn action_reply(result: Result<(Player, bool), ActionError>) -> MessageView {
    match result {
        Ok((player, is_challenge_position)) => if is_challenge_position {
            MessageView::Challenge(Challenge::SecretSumModulo(CHALLENGE_MODULO))
        } else {
            MessageView::RadarView(radar_text(player@.position))
        },
        Err(error) => MessageView::ActionError(error),
    }
}

/// The answer to the registration of a team: the number of players that
/// the team may have and its access key, or why the team was refused.
pub fn register_team_result(result: Result<(u8, String), RegistrationError>) -> (message:
    JsonWrapper)
    ensures
        message@ == register_team_reply(result),
{
    match result {
        Ok((expected_players, access_key)) => JsonWrapper::RegisterTeamResult(
            RegisterTeamResult::Accepted { expected_players, registration_token: access_key },
        ),
        Err(error) => JsonWrapper::RegisterTeamResult(RegisterTeamResult::Refused(error)),
    }
}

/// The answer to the subscription of a player.
pub fn subscribe_player_result(result: Result<Player, RegistrationError>) -> (message: JsonWrapper)
    ensures
        message@ == subscribe_player_reply(result),
{
    match result {
        Ok(_) => JsonWrapper::SubscribePlayerResult(SubscribePlayerResult::Accepted),
        Err(error) => JsonWrapper::SubscribePlayerResult(SubscribePlayerResult::Refused(error)),
    }
}

/// The answer to an action.
pub fn action_result(result: Result<(Player, bool), ActionError>) -> (message: JsonWrapper)
    requires
        result matches Ok((player, _)) ==> player.wf(),
    ensures
        message@ == action_reply(result),
{
    match result {
        Ok((player, is_challenge_position)) => {
            if is_challenge_position {
                JsonWrapper::Challenge(Challenge::SecretSumModulo(CHALLENGE_MODULO))
            } else {
                JsonWrapper::RadarView(player.get_radar_view())
            }
        },
        Err(action_err) => JsonWrapper::ActionError(action_err),
    }
}

} // verus!
