//! The challenge that waits on one cell of the maze.

use vstd::prelude::*;
use crate::server::maze::Point;
use crate::server::player::Player;
use crate::wire::messages::ActionError;

verus! {

/// The number that the challenge of this maze is set with.
pub const CHALLENGE_MODULO: u64 = 10;

/// The challenge of the maze, as plain values.
pub struct ChallengeState {
    /// The cell on which the challenge waits.
    pub position: Point,
    /// The answer that solves it.
    pub answer: Seq<char>,
    /// Whether it has been solved.
    pub finished: bool,
}

/// The challenge of the maze: where it waits, what solves it, and whether
/// it has been solved.
#[derive(Debug, Clone)]
pub struct ChallengePosition {
    position: Point,
    answer: String,
    is_finish: bool,
}

impl View for ChallengePosition {
    type V = ChallengeState;

    closed spec fn view(&self) -> ChallengeState {
        ChallengeState { position: self.position, answer: self.answer@, finished: self.is_finish }
    }
}

/// The answer that solves the challenge of this maze.
pub open spec fn expected_answer() -> Seq<char> {
    seq!['0']
}

/// Whether a player that arrives on `position` meets the challenge: it
/// waits there and has not been solved.
pub open spec fn meets_challenge(position: Point, challenge: ChallengeState) -> bool {
    !challenge.finished && position == challenge.position
}

/// What a player that hands in `answer` is told: it must have a challenge
/// to solve, and the answer must be the expected one.
pub open spec fn solution_outcome(
    answer: Seq<char>,
    challenge: ChallengeState,
    challenge_active: bool,
) -> Result<(), ActionError> {
    if !challenge_active {
        Err(ActionError::NoRunningChallenge)
    } else if challenge.answer != answer {
        Err(ActionError::InvalidChallengeSolution)
    } else {
        Ok(())
    }
}

impl ChallengePosition {
    /// An unsolved challenge on the given cell.
    pub fn new(position: Point) -> (challenge: Self)
        ensures
            challenge@.position == position,
            challenge@.answer == expected_answer(),
            !challenge@.finished,
    {
        let answer = "0".to_owned();
        proof {
            reveal_strlit("0");
            assert(answer@ =~= expected_answer());
        }
        Self { position: Point { x: position.x, y: position.y }, answer, is_finish: false }
    }

    /// Records whether the challenge has been solved.
    pub fn update_challenge_statut(&mut self, is_finish: bool)
        ensures
            final(self)@ == (ChallengeState { finished: is_finish, ..old(self)@ }),
    {
        self.is_finish = is_finish;
    }

    /// The answer that solves the challenge.
    pub fn get_challenge_answer(&self) -> (answer: &str)
        ensures
            answer@ == self@.answer,
    {
        self.answer.as_str()
    }

    /// Whether the challenge has been solved.
    pub fn get_challenge_statut(&self) -> (finished: bool)
        ensures
            finished == self@.finished,
    {
        self.is_finish
    }

    /// The cell on which the challenge waits.
    pub fn get_challenge_position(&self) -> (position: &Point)
        ensures
            *position == self@.position,
    {
        &self.position
    }
}

/// Whether the player has a challenge to solve.
pub fn check_is_challenge_available(player: &Player) -> (available: bool)
    ensures
        available == player@.challenge_active,
{
    player.get_is_challenge_actif()
}

/// Whether `answer` solves the challenge.
pub fn check_answer_is_correct(challenge: &ChallengePosition, answer: &str) -> (correct: bool)
    ensures
        correct == (challenge@.answer == answer@),
{
    challenge.answer == answer.to_owned()
}

/// Judges an answer that a player hands in.
pub fn check_all_condition_challenge(
    answer: String,
    challenge: &ChallengePosition,
    player: &Player,
) -> (r: Result<(), ActionError>)
    ensures
        r == solution_outcome(answer@, challenge@, player@.challenge_active),
{
    if !check_is_challenge_available(player) {
        return Err(ActionError::NoRunningChallenge);
    }
    if !check_answer_is_correct(challenge, answer.as_str()) {
        return Err(ActionError::InvalidChallengeSolution);
    }
    Ok(())
}

/// Whether a player on `position_player` meets the challenge.
pub fn check_is_challenge_position(position_player: &Point, challenge: &ChallengePosition) -> (met:
    bool)
    ensures
        met == meets_challenge(*position_player, challenge@),
{
    let position_challenge = challenge.get_challenge_position();
    let is_finish_challenge = challenge.get_challenge_statut();
    !is_finish_challenge && position_player.x == position_challenge.x && position_player.y
        == position_challenge.y
}

} // verus!
