//! The server's answer to whatever a client sends.

use vstd::prelude::*;
use crate::server::action::{action_outcome, ActionFunction};
use crate::server::challenge::{ChallengePosition, ChallengeState};
use crate::server::player::{Player, PlayerState};
use crate::server::team::{TeamCommand, TeamManager, TeamState};
use crate::wire::messages::{Action, Command, JsonWrapper, MessageView};

verus! {

/// What holds of the answer to a command and of the server's state after it.
///
/// A command for the registry leaves the player and the challenge alone
/// and is answered as `TeamCommand::reply_matches` says. An action leaves
/// the registry alone and is answered as `action_outcome` says.
pub open spec fn command_outcome(
    command: Command,
    teams_before: Seq<TeamState>,
    player_before: PlayerState,
    challenge_before: ChallengeState,
    teams_after: Seq<TeamState>,
    player_after: PlayerState,
    challenge_after: ChallengeState,
    reply: MessageView,
) -> bool {
    match command {
        Command::RegisterTeam { name } => {
            &&& player_after == player_before
            &&& challenge_after == challenge_before
            &&& TeamCommand::reply_matches(
                TeamCommand::Create(name),
                teams_before,
                teams_after,
                reply,
            )
        },
        Command::SubscribePlayer { name, registration_token } => {
            &&& player_after == player_before
            &&& challenge_after == challenge_before
            &&& TeamCommand::reply_matches(
                TeamCommand::SubscribePlayer { name, registration_token },
                teams_before,
                teams_after,
                reply,
            )
        },
        Command::Action(action) => {
            &&& teams_after == teams_before
            &&& (player_after, challenge_after, reply) == action_outcome(
                player_before,
                challenge_before,
                action@,
            )
        },
    }
}

/// How the server carries out the commands of its clients.
pub trait CommandFunction {
    /// Carries out a command on the server's state and gives the answer
    /// for the client.
    fn process(
        command: Command,
        team_manager: &mut TeamManager,
        player: &mut Player,
        challenge: &mut ChallengePosition,
    ) -> (reply: JsonWrapper)
        requires
            old(team_manager).wf(),
            old(player).wf(),
        ensures
            final(team_manager).wf(),
            final(player).wf(),
            command_outcome(
                command,
                old(team_manager)@,
                old(player)@,
                old(challenge)@,
                final(team_manager)@,
                final(player)@,
                final(challenge)@,
                reply@,
            ),
    ;
}

impl CommandFunction for Command {
    fn process(
        command: Command,
        team_manager: &mut TeamManager,
        player: &mut Player,
        challenge: &mut ChallengePosition,
    ) -> (reply: JsonWrapper) {
        match command {
            Command::RegisterTeam { name } => TeamCommand::process(
                TeamCommand::Create(name),
                team_manager,
            ),
            Command::SubscribePlayer { name, registration_token } => TeamCommand::process(
                TeamCommand::SubscribePlayer { name, registration_token },
                team_manager,
            ),
            Command::Action(action) => Action::process(action, player, challenge),
        }
    }
}

} // verus!
