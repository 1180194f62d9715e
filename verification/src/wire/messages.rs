//! The messages of the protocol. On the link each one is a JSON value with a
//! single key that names the variant.

use vstd::prelude::*;

verus! {

/// A direction relative to the way the player faces.
#[derive(Debug, Clone, Copy, PartialEq, Eq, Hash, Structural)]
pub enum RelativeDirection {
    Front,
    Right,
    Back,
    Left,
}

impl RelativeDirection {
    /// The direction that leads back: `Front` and `Back` are opposite, and
    /// so are `Left` and `Right`.
    pub open spec fn opposite(self) -> RelativeDirection {
        match self {
            RelativeDirection::Front => RelativeDirection::Back,
            RelativeDirection::Back => RelativeDirection::Front,
            RelativeDirection::Left => RelativeDirection::Right,
            RelativeDirection::Right => RelativeDirection::Left,
        }
    }

    /// The direction that a number drawn from `0..=3` stands for.
    pub open spec fn of_index(n: int) -> RelativeDirection {
        if n == 0 {
            RelativeDirection::Front
        } else if n == 1 {
            RelativeDirection::Right
        } else if n == 2 {
            RelativeDirection::Back
        } else {
            RelativeDirection::Left
        }
    }

    /// Turns a number drawn from `0..=3` into a direction; any other number
    /// gives `Left`.
    pub fn from_index(n: i32) -> (d: RelativeDirection)
        ensures
            d == Self::of_index(n as int),
    {
        if n == 0 {
            RelativeDirection::Front
        } else if n == 1 {
            RelativeDirection::Right
        } else if n == 2 {
            RelativeDirection::Back
        } else {
            RelativeDirection::Left
        }
    }
}

/// What a player asks the server to do.
#[derive(Debug, Clone, PartialEq)]
pub enum Action {
    MoveTo(RelativeDirection),
    SolveChallenge { answer: String },
}

/// Why the server did not carry out an action.
#[derive(Debug, Clone, Copy, PartialEq, Eq, Structural)]
pub enum ActionError {
    CannotPassThroughWall,
    CannotPassThroughOpponent,
    NoRunningChallenge,
    SolveChallengeFirst,
    InvalidChallengeSolution,
    PlayerMustBeRescued,
}

/// A puzzle that the server sets; no move is accepted until it is solved.
#[derive(Debug, Clone, Copy, PartialEq, Eq, Structural)]
pub enum Challenge {
    SecretSumModulo(u64),
    SOS,
}

/// Why a registration was refused.
#[derive(Debug, Clone, Copy, PartialEq, Eq, Structural)]
pub enum RegistrationError {
    AlreadyRegistered,
    InvalidName,
    InvalidRegistrationToken,
    TooManyPlayers,
}

/// The server's answer to the registration of a team. On the link the two
/// variants travel under the keys `Ok` and `Err`.
#[derive(Debug, Clone, PartialEq)]
pub enum RegisterTeamResult {
    Accepted { expected_players: u8, registration_token: String },
    Refused(RegistrationError),
}

/// The server's answer to the subscription of a player. On the link the two
/// variants travel under the keys `Ok` and `Err`.
#[derive(Debug, Clone, Copy, PartialEq, Eq, Structural)]
pub enum SubscribePlayerResult {
    Accepted,
    Refused(RegistrationError),
}

/// Help that the server hands to a player.
#[derive(Debug, Clone, Copy, PartialEq, Eq, Structural)]
pub enum Hint {
    /// The bearing of the goal in degrees, held as the bits of the
    /// single-precision number that travels on the link.
    RelativeCompass { angle_bits: u32 },
    GridSize { columns: u32, rows: u32 },
    Secret(u64),
    SOSHelper,
}

/// The request that creates a team.
#[derive(Debug, Clone, PartialEq)]
pub struct RegisterTeam {
    pub name: String,
}

/// `RegisterTeam` under the key that it has on the link.
#[derive(Debug, Clone)]
pub struct RegisterTeamWrapper {
    pub register_team: RegisterTeam,
}

/// The request that adds a player to a team.
#[derive(Debug, Clone, PartialEq)]
pub struct SubscribePlayer {
    pub name: String,
    pub registration_token: String,
}

/// `SubscribePlayer` under the key that it has on the link.
#[derive(Debug, Clone)]
pub struct SubscribePlayerWrapper {
    pub subscribe_player: SubscribePlayer,
}

/// Every message that travels on the link, in either direction.
#[derive(Debug, Clone, PartialEq)]
pub enum JsonWrapper {
    RegisterTeamResult(RegisterTeamResult),
    SubscribePlayerResult(SubscribePlayerResult),
    /// The radar payload, in the link's base-64 dialect.
    RadarView(String),
    Challenge(Challenge),
    ActionError(ActionError),
    RegisterTeam(RegisterTeam),
    SubscribePlayer(SubscribePlayer),
    Action(Action),
    Hint(Hint),
}

/// What a client may send to the server.
#[derive(Debug, Clone)]
pub enum Command {
    RegisterTeam { name: String },
    SubscribePlayer { name: String, registration_token: String },
    Action(Action),
}

/// `Action` as a plain value.
pub enum ActionView {
    MoveTo(RelativeDirection),
    SolveChallenge { answer: Seq<char> },
}

impl View for Action {
    type V = ActionView;

    open spec fn view(&self) -> ActionView {
        match *self {
            Action::MoveTo(direction) => ActionView::MoveTo(direction),
            Action::SolveChallenge { answer } => ActionView::SolveChallenge { answer: answer@ },
        }
    }
}

/// `RegisterTeamResult` as a plain value.
pub enum RegisterTeamResultView {
    Accepted { expected_players: u8, registration_token: Seq<char> },
    Refused(RegistrationError),
}

impl View for RegisterTeamResult {
    type V = RegisterTeamResultView;

    open spec fn view(&self) -> RegisterTeamResultView {
        match *self {
            RegisterTeamResult::Accepted {
                expected_players,
                registration_token,
            } => RegisterTeamResultView::Accepted {
                expected_players,
                registration_token: registration_token@,
            },
            RegisterTeamResult::Refused(error) => RegisterTeamResultView::Refused(error),
        }
    }
}

/// `Command` as a plain value.
pub enum CommandView {
    RegisterTeam { name: Seq<char> },
    SubscribePlayer { name: Seq<char>, registration_token: Seq<char> },
    Action(ActionView),
}

impl View for Command {
    type V = CommandView;

    open spec fn view(&self) -> CommandView {
        match *self {
            Command::RegisterTeam { name } => CommandView::RegisterTeam { name: name@ },
            Command::SubscribePlayer { name, registration_token } => CommandView::SubscribePlayer {
                name: name@,
                registration_token: registration_token@,
            },
            Command::Action(action) => CommandView::Action(action@),
        }
    }
}

/// `JsonWrapper` as a plain value.
pub enum MessageView {
    RegisterTeamResult(RegisterTeamResultView),
    SubscribePlayerResult(SubscribePlayerResult),
    RadarView(Seq<char>),
    Challenge(Challenge),
    ActionError(ActionError),
    RegisterTeam { name: Seq<char> },
    SubscribePlayer { name: Seq<char>, registration_token: Seq<char> },
    Action(ActionView),
    Hint(Hint),
}

impl View for JsonWrapper {
    type V = MessageView;

    open spec fn view(&self) -> MessageView {
        match *self {
            JsonWrapper::RegisterTeamResult(result) => MessageView::RegisterTeamResult(result@),
            JsonWrapper::SubscribePlayerResult(result) => MessageView::SubscribePlayerResult(
                result,
            ),
            JsonWrapper::RadarView(text) => MessageView::RadarView(text@),
            JsonWrapper::Challenge(challenge) => MessageView::Challenge(challenge),
            JsonWrapper::ActionError(error) => MessageView::ActionError(error),
            JsonWrapper::RegisterTeam(request) => MessageView::RegisterTeam {
                name: request.name@,
            },
            JsonWrapper::SubscribePlayer(request) => MessageView::SubscribePlayer {
                name: request.name@,
                registration_token: request.registration_token@,
            },
            JsonWrapper::Action(action) => MessageView::Action(action@),
            JsonWrapper::Hint(hint) => MessageView::Hint(hint),
        }
    }
}

} // verus!
