//! The player's side of the game: what a client answers to each message
//! of the server.
//!
//! A radar view is drawn on the client's map and answered with the next
//! move. A secret is kept. A challenge is remembered; a sum of secrets is
//! answered with the sum of the secrets that the client knows for its own
//! player, and a call for help with an attempt at rescue. A move that ran
//! into a wall is taken back, and an answer that was turned down is given
//! once more.

use vstd::prelude::*;
use crate::engine::challenge::{secret_sum, sos_after_resolve, ChallengeManager};
use crate::engine::global_map::{GlobalMap, MapState};
use crate::engine::navigation::{delta_of, Navigator, NavigatorState};
use crate::engine::scoring::ScoreManager;
use crate::wire::base64::{b64_decode, decode_b64};
use crate::wire::error::ProtocolError;
use crate::wire::messages::{
    Action,
    ActionError,
    ActionView,
    Challenge,
    Hint,
    JsonWrapper,
    MessageView,
    RegisterTeam,
    RegisterTeamResult,
    RegisterTeamResultView,
    RegistrationError,
    RelativeDirection,
    SubscribePlayer,
    SubscribePlayerResult,
};
use crate::wire::radar::{decode_radar_view_binary, radar_rows};
use crate::wire::utils::{decimal, decimal_text};

verus! {

/// Why a client could not register or subscribe.
#[derive(Debug, Clone, Copy, PartialEq, Eq, Structural)]
pub enum ClientError {
    /// The server refused.
    Refused(RegistrationError),
    /// The server answered with a message of another kind.
    UnexpectedResponse,
}

/// What a client does after a message of the server.
#[derive(Debug, Clone, PartialEq)]
pub enum Reaction {
    /// It sends a message.
    Reply(JsonWrapper),
    /// It sends nothing and waits for the next message.
    Silent,
    /// It gives up the connection.
    Abort(ProtocolError),
}

/// `Reaction` as a plain value.
pub enum ReactionView {
    Reply(MessageView),
    Silent,
    Abort(ProtocolError),
}

impl View for Reaction {
    type V = ReactionView;

    open spec fn view(&self) -> ReactionView {
        match *self {
            Reaction::Reply(message) => ReactionView::Reply(message@),
            Reaction::Silent => ReactionView::Silent,
            Reaction::Abort(error) => ReactionView::Abort(error),
        }
    }
}

/// What a client knows, as plain values.
pub struct ClientState {
    /// The memory of the navigator.
    pub navigator: NavigatorState,
    /// The secrets that have been handed to the client.
    pub secrets: Map<u32, u64>,
    /// The player in distress, while a call for help is out.
    pub sos: Option<u32>,
    /// The last challenge that the server has set.
    pub last_challenge: Option<Challenge>,
    /// The id under which the client keeps what concerns its own player.
    pub player_id: u32,
    /// The map that the client draws.
    pub map: MapState,
    /// How far the player has moved on the map since the map was last
    /// drawn, if the move that was sent last went through.
    pub pending_delta: (i32, i32),
    /// The number of moves counted for each player of the team.
    pub moves: Map<u32, u32>,
    /// The number of players in the team.
    pub team_size: u32,
}

/// How far a move in the given direction takes the player on the map: two
/// tiles, over the wall tile to the next cell.
pub open spec fn map_step(direction: RelativeDirection) -> (i32, i32) {
    ((2 * delta_of(direction).0) as i32, (2 * delta_of(direction).1) as i32)
}

/// Whether the error tells that the move that was sent last was not made.
pub open spec fn refuses_move(error: ActionError) -> bool {
    match error {
        ActionError::CannotPassThroughWall => true,
        ActionError::CannotPassThroughOpponent => true,
        ActionError::SolveChallengeFirst => true,
        ActionError::PlayerMustBeRescued => true,
        ActionError::NoRunningChallenge => false,
        ActionError::InvalidChallengeSolution => false,
    }
}

impl ClientState {
    /// What a client knows before the first message: the navigator has
    /// not moved, the map shows nothing but the player's own tile at
    /// `MAP_START`, no secret and no challenge is known, no call for help
    /// is out, no move has been sent or counted, and the client keeps its
    /// own player under the id 0.
    pub open spec fn initial(team_size: u32) -> ClientState {
        ClientState {
            navigator: NavigatorState::initial(),
            secrets: Map::empty(),
            sos: None,
            last_challenge: None,
            player_id: 0,
            map: MapState::initial(MAP_START.0 as int, MAP_START.1 as int),
            pending_delta: (0i32, 0i32),
            moves: Map::empty(),
            team_size,
        }
    }

    /// The client can take in any message: the navigator has room for one
    /// more step either way and for one more failure of any direction.
    pub open spec fn ready(self) -> bool {
        &&& self.navigator.can_step()
        &&& forall|d: RelativeDirection| #[trigger] self.navigator.can_count(d)
    }

    /// The answer to a sum of secrets modulo `modulo`.
    pub open spec fn answer(self, modulo: u64) -> Seq<char> {
        decimal(secret_sum(self.secrets, seq![self.player_id]) % (modulo as nat))
    }

    /// What the client sends to solve a challenge. A sum modulo zero has
    /// no answer, and a call for help is not answered with a message.
    pub open spec fn solving(self, challenge: Challenge) -> ReactionView {
        match challenge {
            Challenge::SecretSumModulo(modulo) => if modulo == 0 {
                ReactionView::Silent
            } else {
                ReactionView::Reply(
                    MessageView::Action(ActionView::SolveChallenge { answer: self.answer(modulo) }),
                )
            },
            Challenge::SOS => ReactionView::Silent,
        }
    }

    /// The client after a radar view, and what it does: a text that is
    /// not a radar view ends the connection; otherwise the view is drawn
    /// on the map where the last move has taken the player, the navigator
    /// chooses the next move, and the move is sent.
    pub open spec fn on_radar(self, text: Seq<char>, anywhere: RelativeDirection) -> (
        ClientState,
        ReactionView,
    ) {
        match b64_decode(text) {
            None => (self, ReactionView::Abort(ProtocolError::BadBase64)),
            Some(payload) => if payload.len() != 11 {
                (self, ReactionView::Abort(ProtocolError::BadRadarLength))
            } else {
                let (navigator, direction) = self.navigator.chosen(radar_rows(payload), anywhere);
                (
                    ClientState {
                        navigator,
                        map: self.map.updated(radar_rows(payload), self.pending_delta),
                        pending_delta: map_step(direction),
                        ..self
                    },
                    ReactionView::Reply(MessageView::Action(ActionView::MoveTo(direction))),
                )
            },
        }
    }

    /// The client after a hint: a secret is kept for the client's own
    /// player, and every other hint is let go.
    pub open spec fn on_hint(self, hint: Hint) -> ClientState {
        match hint {
            Hint::Secret(secret) => ClientState {
                secrets: self.secrets.insert(self.player_id, secret),
                ..self
            },
            _ => self,
        }
    }

    /// The client after a challenge, and what it does: the challenge is
    /// remembered; a sum of secrets is answered, and a call for help is
    /// met with an attempt at rescue.
    pub open spec fn on_challenge(self, challenge: Challenge) -> (ClientState, ReactionView) {
        (
            ClientState {
                last_challenge: Some(challenge),
                sos: if challenge is SOS {
                    sos_after_resolve(self.sos, self.player_id)
                } else {
                    self.sos
                },
                ..self
            },
            self.solving(challenge),
        )
    }

    /// The client after the server has refused an action, and what it
    /// does: a move that was not made does not count on the map, a move
    /// into a wall is taken back, and an answer that was turned down is
    /// given once more if the challenge was a sum of secrets.
    pub open spec fn on_action_error(self, error: ActionError) -> (ClientState, ReactionView) {
        let stayed = if refuses_move(error) {
            ClientState { pending_delta: (0i32, 0i32), ..self }
        } else {
            self
        };
        match error {
            ActionError::CannotPassThroughWall => if self.navigator.history.len() > 0 {
                (
                    ClientState {
                        navigator: self.navigator.failed(self.navigator.history.last()),
                        ..stayed
                    },
                    ReactionView::Silent,
                )
            } else {
                (stayed, ReactionView::Silent)
            },
            ActionError::InvalidChallengeSolution => (
                stayed,
                match self.last_challenge {
                    Some(Challenge::SecretSumModulo(modulo)) => self.solving(
                        Challenge::SecretSumModulo(modulo),
                    ),
                    _ => ReactionView::Silent,
                },
            ),
            _ => (stayed, ReactionView::Silent),
        }
    }

    /// The client after a message of the server, and what it does.
    /// `anywhere` is where the navigator goes when it has no direction to
    /// consider and no move to undo.
    pub open spec fn reaction(self, message: MessageView, anywhere: RelativeDirection) -> (
        ClientState,
        ReactionView,
    ) {
        match message {
            MessageView::RadarView(text) => self.on_radar(text, anywhere),
            MessageView::Hint(hint) => (self.on_hint(hint), ReactionView::Silent),
            MessageView::Challenge(challenge) => self.on_challenge(challenge),
            MessageView::ActionError(error) => self.on_action_error(error),
            _ => (self, ReactionView::Silent),
        }
    }
}

/// The move that a reaction sends, if it sends one.
pub open spec fn move_sent(reaction: ReactionView) -> RelativeDirection {
    match reaction {
        ReactionView::Reply(MessageView::Action(ActionView::MoveTo(direction))) => direction,
        _ => RelativeDirection::Front,
    }
}

/// What the server's answer to a registration means for the client: the
/// access key of the team, or why there is none.
pub open spec fn registration_outcome(reply: MessageView) -> Result<Seq<char>, ClientError> {
    match reply {
        MessageView::RegisterTeamResult(
            RegisterTeamResultView::Accepted { expected_players, registration_token },
        ) => Ok(registration_token),
        MessageView::RegisterTeamResult(RegisterTeamResultView::Refused(error)) => Err(
            ClientError::Refused(error),
        ),
        _ => Err(ClientError::UnexpectedResponse),
    }
}

/// What the server's answer to a subscription means for the client.
pub open spec fn subscription_outcome(reply: MessageView) -> Result<(), ClientError> {
    match reply {
        MessageView::SubscribePlayerResult(SubscribePlayerResult::Accepted) => Ok(()),
        MessageView::SubscribePlayerResult(SubscribePlayerResult::Refused(error)) => Err(
            ClientError::Refused(error),
        ),
        _ => Err(ClientError::UnexpectedResponse),
    }
}

/// The column and the row of the map on which a client draws itself at first.
pub const MAP_START: (usize, usize) = (10, 10);

/// A client: its navigator, its map, what it knows of the challenges, and
/// the score sheet of its team.
pub struct Client {
    /// The secrets and the call for help.
    pub challenge_manager: ChallengeManager,
    /// The memory of the way through the maze.
    pub navigator: Navigator,
    /// The last challenge that the server has set.
    pub last_challenge: Option<Challenge>,
    /// The moves of the team.
    pub score_manager: ScoreManager,
    /// The id under which the client keeps what concerns its own player.
    pub player_id: u32,
    /// The map that the client draws.
    pub global_map: GlobalMap,
    /// How far the player has moved on the map since the map was last
    /// drawn, if the move that was sent last went through.
    pub pending_delta: (i32, i32),
}

impl View for Client {
    type V = ClientState;

    open spec fn view(&self) -> ClientState {
        ClientState {
            navigator: self.navigator@,
            secrets: self.challenge_manager.secrets@,
            sos: self.challenge_manager.sos_active,
            last_challenge: self.last_challenge,
            player_id: self.player_id,
            map: self.global_map@,
            pending_delta: self.pending_delta,
            moves: self.score_manager.moves(),
            team_size: self.score_manager.size(),
        }
    }
}

impl Client {
    /// The client's map is in order.
    pub open spec fn wf(&self) -> bool {
        self.global_map.wf()
    }

    /// A client that knows nothing yet, for a team of `team_size` players.
    pub fn new(team_size: u32) -> (client: Self)
        ensures
            client.wf(),
            client@.ready(),
            client@ == ClientState::initial(team_size),
    {
        Client {
            challenge_manager: ChallengeManager::new(),
            navigator: Navigator::new(),
            last_challenge: None,
            score_manager: ScoreManager::new(team_size),
            player_id: 0,
            global_map: GlobalMap::new(MAP_START.0, MAP_START.1),
            pending_delta: (0, 0),
        }
    }

    /// The request that registers a team.
    pub fn register_team(team_name: &str) -> (request: JsonWrapper)
        ensures
            request@ == (MessageView::RegisterTeam { name: team_name@ }),
    {
        JsonWrapper::RegisterTeam(RegisterTeam { name: team_name.to_owned() })
    }

    /// Reads the server's answer to a registration.
    pub fn registration_token(reply: JsonWrapper) -> (r: Result<String, ClientError>)
        ensures
            match registration_outcome(reply@) {
                Ok(token) => r is Ok && r->Ok_0@ == token,
                Err(error) => r == Err::<String, ClientError>(error),
            },
    {
        match reply {
            JsonWrapper::RegisterTeamResult(
                RegisterTeamResult::Accepted { registration_token, expected_players },
            ) => Ok(registration_token),
            JsonWrapper::RegisterTeamResult(RegisterTeamResult::Refused(err)) => Err(
                ClientError::Refused(err),
            ),
            _ => Err(ClientError::UnexpectedResponse),
        }
    }

    /// The request that subscribes a player to the team that has the
    /// given access key.
    pub fn subscribe_player(player_name: &str, token: &str) -> (request: JsonWrapper)
        ensures
            request@ == (MessageView::SubscribePlayer {
                name: player_name@,
                registration_token: token@,
            }),
    {
        JsonWrapper::SubscribePlayer(
            SubscribePlayer { name: player_name.to_owned(), registration_token: token.to_owned() },
        )
    }

    /// Reads the server's answer to a subscription.
    pub fn subscription_result(reply: JsonWrapper) -> (r: Result<(), ClientError>)
        ensures
            r == subscription_outcome(reply@),
    {
        match reply {
            JsonWrapper::SubscribePlayerResult(SubscribePlayerResult::Accepted) => Ok(()),
            JsonWrapper::SubscribePlayerResult(SubscribePlayerResult::Refused(err)) => Err(
                ClientError::Refused(err),
            ),
            _ => Err(ClientError::UnexpectedResponse),
        }
    }

    /// Whether the client can take in any message; see `ClientState::ready`.
    pub fn is_ready(&self) -> (b: bool)
        ensures
            b == self@.ready(),
    {
        let (x, y) = self.navigator.current_position;
        let room = i32::MIN < x && x < i32::MAX && i32::MIN < y && y < i32::MAX;
        let front = self.navigator.fail_count_of(RelativeDirection::Front) < usize::MAX;
        let right = self.navigator.fail_count_of(RelativeDirection::Right) < usize::MAX;
        let back = self.navigator.fail_count_of(RelativeDirection::Back) < usize::MAX;
        let left = self.navigator.fail_count_of(RelativeDirection::Left) < usize::MAX;
        proof {
            if room && front && right && back && left {
                assert forall|d: RelativeDirection| #[trigger] self@.navigator.can_count(d) by {
                    match d {
                        RelativeDirection::Front => {},
                        RelativeDirection::Right => {},
                        RelativeDirection::Back => {},
                        RelativeDirection::Left => {},
                    }
                }
            } else if room {
                assert(!self@.navigator.can_count(RelativeDirection::Front)
                    || !self@.navigator.can_count(RelativeDirection::Right)
                    || !self@.navigator.can_count(RelativeDirection::Back)
                    || !self@.navigator.can_count(RelativeDirection::Left));
            }
        }
        room && front && right && back && left
    }

    fn solve(&self, challenge: Challenge) -> (reaction: Reaction)
        ensures
            reaction@ == self@.solving(challenge),
    {
        match challenge {
            Challenge::SecretSumModulo(modulo) => {
                if modulo == 0 {
                    return Reaction::Silent;
                }
                let mut ids: Vec<u32> = Vec::new();
                ids.push(self.player_id);
                assert(ids@ =~= seq![self.player_id]);
                let answer = self.challenge_manager.solve_secret_sum_modulo(
                    modulo,
                    ids.as_slice(),
                );
                Reaction::Reply(
                    JsonWrapper::Action(Action::SolveChallenge { answer: decimal_text(answer) }),
                )
            },
            Challenge::SOS => Reaction::Silent,
        }
    }

    /// Takes in a message of the server and tells what to do.
    ///
    /// The outcome is that of `ClientState::reaction`. The one thing left
    /// open is where the navigator goes when it has no direction to
    /// consider and no move to undo: that move is drawn at random.
    pub fn react(&mut self, message: JsonWrapper) -> (reaction: Reaction)
        requires
            old(self).wf(),
            old(self)@.ready(),
        ensures
            final(self).wf(),
            (final(self)@, reaction@) == old(self)@.reaction(message@, move_sent(reaction@)),
    {
        match message {
            JsonWrapper::RadarView(encoded_radar) => {
                let radar_bytes = match decode_b64(encoded_radar.as_str()) {
                    Ok(bytes) => bytes,
                    Err(e) => {
                        return Reaction::Abort(e);
                    },
                };
                let radar_view_array = match decode_radar_view_binary(radar_bytes) {
                    Ok(view) => view,
                    Err(e) => {
                        return Reaction::Abort(e);
                    },
                };
                self.global_map.update_from_radar(&radar_view_array, self.pending_delta);
                let best_move = self.navigator.choose_next_move(&radar_view_array);
                let (dx, dy) = Navigator::delta(best_move);
                self.pending_delta = (2 * dx, 2 * dy);
                Reaction::Reply(JsonWrapper::Action(Action::MoveTo(best_move)))
            },
            JsonWrapper::Hint(hint) => {
                match hint {
                    Hint::Secret(secret) => {
                        self.challenge_manager.set_secret(self.player_id, secret);
                    },
                    _ => {},
                }
                Reaction::Silent
            },
            JsonWrapper::Challenge(challenge) => {
                let reaction = self.solve(challenge);
                self.last_challenge = Some(challenge);
                match challenge {
                    Challenge::SOS => {
                        let _ = self.challenge_manager.resolve_sos(self.player_id);
                    },
                    _ => {},
                }
                reaction
            },
            JsonWrapper::ActionError(error) => {
                match error {
                    ActionError::NoRunningChallenge | ActionError::InvalidChallengeSolution => {},
                    _ => {
                        self.pending_delta = (0, 0);
                    },
                }
                match error {
                    ActionError::CannotPassThroughWall => {
                        if let Some(last_dir) = self.navigator.last_move() {
                            self.navigator.handle_move_failure(last_dir);
                        }
                        Reaction::Silent
                    },
                    ActionError::InvalidChallengeSolution => {
                        match self.last_challenge {
                            Some(Challenge::SecretSumModulo(modulo)) => self.solve(
                                Challenge::SecretSumModulo(modulo),
                            ),
                            _ => Reaction::Silent,
                        }
                    },
                    _ => Reaction::Silent,
                }
            },
            _ => Reaction::Silent,
        }
    }
}

} // verus!
