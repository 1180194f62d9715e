//! The registry of teams.
//!
//! A team is created under a name that no other team has and receives an
//! access key that no other team has. Players join a team by its access
//! key, up to `MAX_PLAYER` of them.

use vstd::prelude::*;
use crate::server::keys::{lemma_a_spare_key_is_free, spare_key, spare_key_text, SPARE_KEYS};
use crate::server::maze::{is_cell, Point};
use crate::server::message::{register_team_result, subscribe_player_result};
use crate::server::player::{Player, PlayerState};
use crate::wire::messages::{
    JsonWrapper,
    MessageView,
    RegisterTeamResultView,
    RegistrationError,
    SubscribePlayerResult,
};
use crate::wire::utils::{generate_acess_key, has_key_form, is_access_key};

verus! {

/// The largest number of players that a team may have.
pub const MAX_PLAYER: u8 = 3;

/// How many access keys are drawn at random for a new team before the
/// registry falls back on its spare keys.
pub const KEY_DRAWS: usize = 8;

/// What a client may ask of the registry.
#[derive(Debug, Clone)]
pub enum TeamCommand {
    Create(String),
    SubscribePlayer { name: String, registration_token: String },
}

/// A team as plain values.
pub struct TeamState {
    /// The name of the team.
    pub name: Seq<char>,
    /// The access key of the team.
    pub access_key: Seq<char>,
    /// The players of the team, in the order in which they joined.
    pub players: Seq<PlayerState>,
}

/// Whether a team has the given name.
pub open spec fn name_taken(teams: Seq<TeamState>, name: Seq<char>) -> bool {
    exists|i: int| 0 <= i < teams.len() && (#[trigger] teams[i]).name == name
}

/// Whether a team has the given access key.
pub open spec fn key_taken(teams: Seq<TeamState>, key: Seq<char>) -> bool {
    exists|i: int| 0 <= i < teams.len() && (#[trigger] teams[i]).access_key == key
}

/// The place of the team that has the given access key.
pub open spec fn team_with_key(teams: Seq<TeamState>, key: Seq<char>) -> int {
    choose|i: int| 0 <= i < teams.len() && (#[trigger] teams[i]).access_key == key
}

/// What holds of every registry: no team has more than `MAX_PLAYER`
/// players, every player stands on a cell, every access key has the form
/// of one, and no two teams share a name or an access key.
pub open spec fn registry_wf(teams: Seq<TeamState>) -> bool {
    &&& forall|i: int|
        0 <= i < teams.len() ==> (#[trigger] teams[i]).players.len() <= MAX_PLAYER && is_access_key(
            teams[i].access_key,
        )
    &&& forall|i: int, k: int|
        0 <= i < teams.len() && 0 <= k < teams[i].players.len() ==> is_cell(
            (#[trigger] teams[i].players[k]).position,
        )
    &&& forall|i: int, j: int|
        0 <= i < j < teams.len() ==> (#[trigger] teams[i]).name != (#[trigger] teams[j]).name
            && teams[i].access_key != teams[j].access_key
}

/// Why a team of the given name cannot be created under the given access
/// key, if it cannot: the name is taken, or the key is taken or does not
/// have the form of an access key.
pub open spec fn creation_error(teams: Seq<TeamState>, name: Seq<char>, key: Seq<char>) -> Option<
    RegistrationError,
> {
    if name_taken(teams, name) {
        Some(RegistrationError::AlreadyRegistered)
    } else if !is_access_key(key) || key_taken(teams, key) {
        Some(RegistrationError::InvalidRegistrationToken)
    } else {
        None
    }
}

/// The registry with one more team, which has no players yet.
pub open spec fn with_new_team(teams: Seq<TeamState>, name: Seq<char>, key: Seq<char>) -> Seq<
    TeamState,
> {
    teams.push(TeamState { name, access_key: key, players: Seq::empty() })
}

/// Why a player of the given name cannot join under the given access key,
/// if it cannot: no team has the key, or the team is full, or the name is
/// empty.
pub open spec fn subscription_error(teams: Seq<TeamState>, key: Seq<char>, name: Seq<char>) -> Option<
    RegistrationError,
> {
    if !key_taken(teams, key) {
        Some(RegistrationError::InvalidRegistrationToken)
    } else if teams[team_with_key(teams, key)].players.len() >= MAX_PLAYER {
        Some(RegistrationError::TooManyPlayers)
    } else if name.len() == 0 {
        Some(RegistrationError::InvalidName)
    } else {
        None
    }
}

/// A player that has just joined: it stands where every player starts and
/// has no challenge to solve.
pub open spec fn new_player(name: Seq<char>) -> PlayerState {
    PlayerState { name, position: Point { x: 3, y: 3 }, challenge_active: false }
}

/// The registry after a player of the given name has joined the team that
/// has the given access key.
pub open spec fn with_new_player(teams: Seq<TeamState>, key: Seq<char>, name: Seq<char>) -> Seq<
    TeamState,
> {
    let i = team_with_key(teams, key);
    teams.update(
        i,
        TeamState { players: teams[i].players.push(new_player(name)), ..teams[i] },
    )
}

/// In a registry the teams never outgrow `MAX_PLAYER`.
pub proof fn lemma_team_sizes(teams: Seq<TeamState>, i: int)
    requires
        registry_wf(teams),
        0 <= i < teams.len(),
    ensures
        teams[i].players.len() <= MAX_PLAYER,
{
}

/// A team: its name, its access key and its players.
#[derive(Debug, Clone)]
pub struct Team {
    name: String,
    access_key: String,
    players: Vec<Player>,
}

impl View for Team {
    type V = TeamState;

    closed spec fn view(&self) -> TeamState {
        TeamState {
            name: self.name@,
            access_key: self.access_key@,
            players: Seq::new(self.players@.len(), |k: int| self.players@[k]@),
        }
    }
}

/// The teams that the server knows.
pub struct TeamManager {
    teams: Vec<Team>,
}

impl View for TeamManager {
    type V = Seq<TeamState>;

    closed spec fn view(&self) -> Seq<TeamState> {
        Seq::new(self.teams@.len(), |i: int| self.teams@[i]@)
    }
}

impl TeamManager {
    /// The registry is in order; see `registry_wf`.
    pub open spec fn wf(&self) -> bool {
        registry_wf(self@)
    }

    /// A registry without teams.
    pub fn new() -> (manager: Self)
        ensures
            manager.wf(),
            manager@ == Seq::<TeamState>::empty(),
    {
        let manager = Self { teams: Vec::new() };
        assert(manager@ =~= Seq::<TeamState>::empty());
        manager
    }

    /// Number of teams.
    pub fn team_count(&self) -> (n: usize)
        ensures
            n == self@.len(),
    {
        self.teams.len()
    }

    /// Number of players of the team that has the given access key, if
    /// there is such a team.
    pub fn player_count(&self, access_key: &String) -> (n: Option<usize>)
        requires
            self.wf(),
        ensures
            n == (if key_taken(self@, access_key@) {
                Some(self@[team_with_key(self@, access_key@)].players.len() as usize)
            } else {
                None
            }),
    {
        match self.find_team(access_key) {
            Some(i) => Some(self.teams[i].players.len()),
            None => None,
        }
    }

    fn has_name(&self, name: &String) -> (b: bool)
        ensures
            b == name_taken(self@, name@),
    {
        let mut i: usize = 0;
        while i < self.teams.len()
            invariant
                i <= self.teams@.len(),
                forall|k: int| 0 <= k < i ==> (#[trigger] self@[k]).name != name@,
            decreases self.teams@.len() - i,
        {
            if self.teams[i].name == *name {
                assert(self@[i as int].name == name@);
                return true;
            }
            i = i + 1;
        }
        false
    }

    fn find_team(&self, access_key: &String) -> (place: Option<usize>)
        requires
            self.wf(),
        ensures
            match place {
                Some(i) => key_taken(self@, access_key@) && i == team_with_key(
                    self@,
                    access_key@,
                ) && i < self.teams@.len(),
                None => !key_taken(self@, access_key@),
            },
    {
        let mut i: usize = 0;
        while i < self.teams.len()
            invariant
                self.wf(),
                i <= self.teams@.len(),
                forall|k: int| 0 <= k < i ==> (#[trigger] self@[k]).access_key != access_key@,
            decreases self.teams@.len() - i,
        {
            if self.teams[i].access_key == *access_key {
                proof {
                    assert(self@[i as int].access_key == access_key@);
                    let j = team_with_key(self@, access_key@);
                    assert(0 <= j < self@.len() && self@[j].access_key == access_key@);
                    if j < i {
                        assert(self@[j].access_key != self@[i as int].access_key);
                    }
                    if i < j {
                        assert(self@[i as int].access_key != self@[j].access_key);
                    }
                }
                return Some(i);
            }
            i = i + 1;
        }
        None
    }

    /// Creates a team under an access key that the caller has drawn.
    ///
    /// The team is refused with `AlreadyRegistered` when its name is
    /// taken, and with `InvalidRegistrationToken` when the key is taken or
    /// does not have the form of an access key. Otherwise the team is
    /// created without players and its key comes back.
    pub fn create_team_with_key(&mut self, name: &String, access_key: String) -> (r: Result<
        String,
        RegistrationError,
    >)
        requires
            old(self).wf(),
        ensures
            final(self).wf(),
            match r {
                Ok(key) => {
                    &&& creation_error(old(self)@, name@, access_key@) is None
                    &&& key@ == access_key@
                    &&& final(self)@ == with_new_team(old(self)@, name@, access_key@)
                },
                Err(error) => {
                    &&& creation_error(old(self)@, name@, access_key@) == Some(error)
                    &&& final(self)@ == old(self)@
                },
            },
    {
        if self.has_name(name) {
            return Err(RegistrationError::AlreadyRegistered);
        }
        if !has_key_form(&access_key) {
            return Err(RegistrationError::InvalidRegistrationToken);
        }
        if self.find_team(&access_key).is_some() {
            return Err(RegistrationError::InvalidRegistrationToken);
        }
        let team = Team { name: name.clone(), access_key: access_key.clone(), players: Vec::new() };
        assert(team@.players =~= Seq::<PlayerState>::empty());
        self.teams.push(team);
        assert(self@ =~= with_new_team(old(self)@, name@, access_key@));
        Ok(access_key)
    }

    /// Creates a team under an access key of the registry's choice.
    ///
    /// A name that is taken is refused with `AlreadyRegistered`. Otherwise
    /// keys are drawn at random until one is free, `KEY_DRAWS` times at
    /// most; should every draw give a key that is taken, the first spare
    /// key that is free is used. The team is created under that key,
    /// without players, and the key comes back. Only a registry that
    /// holds `SPARE_KEYS` teams or more may find no key; it then refuses
    /// the team with `InvalidRegistrationToken`.
    pub fn create_team(&mut self, name: &String) -> (r: Result<String, RegistrationError>)
        requires
            old(self).wf(),
        ensures
            final(self).wf(),
            name_taken(old(self)@, name@) ==> r == Err::<String, RegistrationError>(
                RegistrationError::AlreadyRegistered,
            ),
            !name_taken(old(self)@, name@) && old(self)@.len() < SPARE_KEYS ==> r is Ok,
            match r {
                Ok(key) => {
                    &&& creation_error(old(self)@, name@, key@) is None
                    &&& final(self)@ == with_new_team(old(self)@, name@, key@)
                },
                Err(error) => {
                    &&& final(self)@ == old(self)@
                    &&& error == (if name_taken(old(self)@, name@) {
                        RegistrationError::AlreadyRegistered
                    } else {
                        RegistrationError::InvalidRegistrationToken
                    })
                },
            },
    {
        if self.has_name(name) {
            return Err(RegistrationError::AlreadyRegistered);
        }
        let mut draws: usize = 0;
        while draws < KEY_DRAWS
            invariant
                self.wf(),
                self@ == old(self)@,
                !name_taken(self@, name@),
            decreases KEY_DRAWS - draws,
        {
            let access_key = generate_acess_key();
            match self.create_team_with_key(name, access_key) {
                Ok(key) => {
                    return Ok(key);
                },
                Err(_) => {},
            }
            draws = draws + 1;
        }
        let teams = self.teams.len() as u64;
        let mut number: u64 = 0;
        while number <= teams && number < SPARE_KEYS
            invariant
                self.wf(),
                self@ == old(self)@,
                !name_taken(self@, name@),
                teams == self@.len(),
                forall|taken: nat| taken < number ==> key_taken(self@, #[trigger] spare_key(taken)),
            decreases SPARE_KEYS - number,
        {
            match self.create_team_with_key(name, spare_key_text(number)) {
                Ok(key) => {
                    return Ok(key);
                },
                Err(_) => {},
            }
            number = number + 1;
        }
        proof {
            if teams < SPARE_KEYS {
                lemma_a_spare_key_is_free(self@);
            }
        }
        Err(RegistrationError::InvalidRegistrationToken)
    }

    /// Lets a player join the team that has the given access key.
    ///
    /// The player is refused with `InvalidRegistrationToken` when no team
    /// has the key, with `TooManyPlayers` when the team is full, and with
    /// `InvalidName` when its name is empty. Otherwise it joins as the last
    /// player of the team, and a copy of it comes back.
    pub fn register_player(&mut self, access_key: String, name: String) -> (r: Result<
        Player,
        RegistrationError,
    >)
        requires
            old(self).wf(),
        ensures
            final(self).wf(),
            match r {
                Ok(player) => {
                    &&& subscription_error(old(self)@, access_key@, name@) is None
                    &&& player@ == new_player(name@)
                    &&& player.wf()
                    &&& final(self)@ == with_new_player(old(self)@, access_key@, name@)
                },
                Err(error) => {
                    &&& subscription_error(old(self)@, access_key@, name@) == Some(error)
                    &&& final(self)@ == old(self)@
                },
            },
    {
        match self.find_team(&access_key) {
            Some(i) => {
                if self.teams[i].players.len() >= MAX_PLAYER as usize {
                    return Err(RegistrationError::TooManyPlayers);
                }
                if name.as_str().is_empty() {
                    return Err(RegistrationError::InvalidName);
                }
                let player = Player::new(name.clone());
                let member = Player::new(name);
                let ghost before = self.teams@[i as int]@;
                self.teams[i].players.push(member);
                proof {
                    let after = self.teams@[i as int]@;
                    assert(after.players =~= before.players.push(new_player(name@)));
                    assert(after.name == before.name);
                    assert(after.access_key == before.access_key);
                    assert(self@ =~= with_new_player(old(self)@, access_key@, name@));
                }
                Ok(player)
            },
            None => Err(RegistrationError::InvalidRegistrationToken),
        }
    }
}

/// The registry after a request to join, and the answer to it.
pub open spec fn subscription_outcome(teams: Seq<TeamState>, key: Seq<char>, name: Seq<char>) -> (
    Seq<TeamState>,
    MessageView,
) {
    match subscription_error(teams, key, name) {
        None => (
            with_new_player(teams, key, name),
            MessageView::SubscribePlayerResult(SubscribePlayerResult::Accepted),
        ),
        Some(error) => (
            teams,
            MessageView::SubscribePlayerResult(SubscribePlayerResult::Refused(error)),
        ),
    }
}

impl TeamCommand {
    /// What holds of the answer to a command and of the registry after it.
    ///
    /// A request to join is answered as `subscription_outcome` says. A
    /// request to create a team is answered with `MAX_PLAYER` and the new
    /// team's access key, and the team is then in the registry; or it is
    /// refused, and the registry is as before. It is refused when the
    /// name is taken, and else only by a registry that has run out of keys.
    pub open spec fn reply_matches(
        command: TeamCommand,
        before: Seq<TeamState>,
        after: Seq<TeamState>,
        reply: MessageView,
    ) -> bool {
        match command {
            TeamCommand::Create(name) => match reply {
                MessageView::RegisterTeamResult(
                    RegisterTeamResultView::Accepted { expected_players, registration_token },
                ) => {
                    &&& expected_players == MAX_PLAYER
                    &&& !name_taken(before, name@)
                    &&& creation_error(before, name@, registration_token) is None
                    &&& after == with_new_team(before, name@, registration_token)
                },
                MessageView::RegisterTeamResult(RegisterTeamResultView::Refused(error)) => {
                    &&& after == before
                    &&& name_taken(before, name@) || before.len() >= SPARE_KEYS
                    &&& error == (if name_taken(before, name@) {
                        RegistrationError::AlreadyRegistered
                    } else {
                        RegistrationError::InvalidRegistrationToken
                    })
                },
                _ => false,
            },
            TeamCommand::SubscribePlayer { name, registration_token } => (after, reply)
                == subscription_outcome(before, registration_token@, name@),
        }
    }

    /// Carries out a command on the registry and gives the answer for the
    /// client.
    pub fn process(command: TeamCommand, team_manager: &mut TeamManager) -> (reply: JsonWrapper)
        requires
            old(team_manager).wf(),
        ensures
            final(team_manager).wf(),
            Self::reply_matches(command, old(team_manager)@, final(team_manager)@, reply@),
    {
        match command {
            TeamCommand::Create(name_team) => {
                let result = match team_manager.create_team(&name_team) {
                    Ok(access_key) => Ok((MAX_PLAYER, access_key)),
                    Err(error) => Err(error),
                };
                register_team_result(result)
            },
            TeamCommand::SubscribePlayer { name, registration_token } => {
                let joined = team_manager.register_player(registration_token, name);
                subscribe_player_result(joined)
            },
        }
    }
}

} // verus!
