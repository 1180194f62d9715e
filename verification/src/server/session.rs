//! The course of one connection.
//!
//! A connection starts in `Greeting`, where a client registers a team or
//! subscribes a player. A registration that is accepted ends the
//! connection: the players of the team connect anew. A subscription that
//! is accepted takes the connection to `Playing`, and the player is sent
//! what its radar shows; from then on the connection takes actions. A
//! request that is refused is answered and leaves the connection where it
//! is. A command that the state does not take is not answered and ends the
//! connection.

use vstd::prelude::*;
use crate::server::challenge::ChallengePosition;
use crate::server::command::{command_outcome, CommandFunction};
use crate::server::player::{radar_text, Player, PlayerState};
use crate::server::team::TeamManager;
use crate::wire::messages::{
    Command,
    JsonWrapper,
    MessageView,
    RegisterTeamResult,
    RegisterTeamResultView,
    SubscribePlayerResult,
};

verus! {

/// Where a connection stands.
#[derive(Debug, Clone, Copy, PartialEq, Eq, Structural)]
pub enum SessionState {
    /// Nothing has been asked yet: a registration or a subscription is taken.
    Greeting,
    /// Only a subscription is taken.
    AwaitingSubscribe,
    /// A player is subscribed: actions are taken.
    Playing,
    /// The connection is over: nothing is taken.
    Closed,
}

/// Whether a connection in the given state takes the command.
pub open spec fn accepts(state: SessionState, command: Command) -> bool {
    match (state, command) {
        (SessionState::Greeting, Command::RegisterTeam { .. }) => true,
        (SessionState::Greeting, Command::SubscribePlayer { .. }) => true,
        (SessionState::AwaitingSubscribe, Command::SubscribePlayer { .. }) => true,
        (SessionState::Playing, Command::Action(_)) => true,
        _ => false,
    }
}

/// Where a connection stands after a command that it takes has been answered.
pub open spec fn state_after(state: SessionState, reply: MessageView) -> SessionState {
    match reply {
        MessageView::RegisterTeamResult(RegisterTeamResultView::Accepted { .. }) => SessionState::Closed,
        MessageView::SubscribePlayerResult(SubscribePlayerResult::Accepted) => SessionState::Playing,
        _ => state,
    }
}

/// What is sent after a command that the connection takes: the answer,
/// and behind the answer to an accepted subscription what the player's
/// radar shows.
pub open spec fn frames_after(reply: MessageView, player: PlayerState) -> Seq<MessageView> {
    match reply {
        MessageView::SubscribePlayerResult(SubscribePlayerResult::Accepted) => seq![
            reply,
            MessageView::RadarView(radar_text(player.position)),
        ],
        _ => seq![reply],
    }
}

/// The messages of `frames` as plain values.
pub open spec fn frame_views(frames: Seq<JsonWrapper>) -> Seq<MessageView> {
    Seq::new(frames.len(), |i: int| frames[i]@)
}

/// Takes a command on a connection: tells where the connection stands
/// afterwards and what is to be sent, in that order.
///
/// A command that the state does not take changes nothing on the server,
/// sends nothing and closes the connection. A command that it takes is
/// carried out as `command_outcome` says; the state and the frames follow
/// from the answer as `state_after` and `frames_after` say.
pub fn handle_command(
    state: SessionState,
    command: Command,
    team_manager: &mut TeamManager,
    player: &mut Player,
    challenge: &mut ChallengePosition,
) -> (step: (SessionState, Vec<JsonWrapper>))
    requires
        old(team_manager).wf(),
        old(player).wf(),
    ensures
        final(team_manager).wf(),
        final(player).wf(),
        !accepts(state, command) ==> {
            &&& step.0 == SessionState::Closed
            &&& step.1@.len() == 0
            &&& final(team_manager)@ == old(team_manager)@
            &&& final(player)@ == old(player)@
            &&& final(challenge)@ == old(challenge)@
        },
        accepts(state, command) ==> {
            &&& step.1@.len() >= 1
            &&& command_outcome(
                command,
                old(team_manager)@,
                old(player)@,
                old(challenge)@,
                final(team_manager)@,
                final(player)@,
                final(challenge)@,
                step.1@[0]@,
            )
            &&& step.0 == state_after(state, step.1@[0]@)
            &&& frame_views(step.1@) == frames_after(step.1@[0]@, final(player)@)
        },
{
    let taken = match state {
        SessionState::Greeting => match command {
            Command::RegisterTeam { .. } => true,
            Command::SubscribePlayer { .. } => true,
            _ => false,
        },
        SessionState::AwaitingSubscribe => match command {
            Command::SubscribePlayer { .. } => true,
            _ => false,
        },
        SessionState::Playing => match command {
            Command::Action(_) => true,
            _ => false,
        },
        SessionState::Closed => false,
    };
    let mut frames: Vec<JsonWrapper> = Vec::new();
    if !taken {
        return (SessionState::Closed, frames);
    }
    let reply = Command::process(command, team_manager, player, challenge);
    let next = match reply {
        JsonWrapper::RegisterTeamResult(RegisterTeamResult::Accepted { .. }) => SessionState::Closed,
        JsonWrapper::SubscribePlayerResult(SubscribePlayerResult::Accepted) => SessionState::Playing,
        _ => state,
    };
    let subscribed = match reply {
        JsonWrapper::SubscribePlayerResult(SubscribePlayerResult::Accepted) => true,
        _ => false,
    };
    let ghost answer = reply@;
    frames.push(reply);
    if subscribed {
        frames.push(JsonWrapper::RadarView(player.get_radar_view()));
    }
    assert(frame_views(frames@) =~= frames_after(answer, player@));
    (next, frames)
}

} // verus!
