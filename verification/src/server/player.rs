//! A player as the server knows it.

use vstd::prelude::*;
use crate::server::maze::{is_cell, tile_or_unknown, Point, HEIGHT, MAZE, WIDTH};
use crate::wire::base64::{b64_encode, encode_b64};
use crate::wire::radar::{encode_radar_view_binary, radar_payload, rows_of};

verus! {

/// How far the radar reaches from the player, in tiles.
pub const DISTANCE: i32 = 3;

/// Number of rows and of columns of a radar view.
pub const SIZE_VIEW: usize = 7;

/// What the server knows of a player, as plain values.
pub struct PlayerState {
    /// The name that the player subscribed under.
    pub name: Seq<char>,
    /// The cell on which the player stands.
    pub position: Point,
    /// Whether the player has a challenge to solve before it may move.
    pub challenge_active: bool,
}

/// The radar view of a player that stands on `center`: the tiles of the
/// maze up to three away in each direction, with the player in the middle
/// and `'#'` for what lies outside the maze.
pub open spec fn window(center: Point) -> Seq<Seq<char>> {
    Seq::new(
        7,
        |i: int|
            Seq::new(7, |j: int| tile_or_unknown(center.x - DISTANCE + j, center.y - DISTANCE + i)),
    )
}

/// The radar view of a player that stands on `center`, as it travels on
/// the link.
pub open spec fn radar_text(center: Point) -> Seq<char> {
    b64_encode(radar_payload(window(center)))
}

/// A player: its name, the cell it stands on, and whether a challenge
/// keeps it from moving.
#[derive(Debug, Clone)]
pub struct Player {
    name: String,
    position: Point,
    challenge_actif: bool,
}

impl View for Player {
    type V = PlayerState;

    closed spec fn view(&self) -> PlayerState {
        PlayerState {
            name: self.name@,
            position: self.position,
            challenge_active: self.challenge_actif,
        }
    }
}

impl Player {
    /// The player stands on a cell of the maze.
    pub open spec fn wf(&self) -> bool {
        is_cell(self@.position)
    }

    /// A player of the given name on the cell where every player starts,
    /// with no challenge to solve.
    pub fn new(name: String) -> (player: Self)
        ensures
            player.wf(),
            player@.name == name@,
            player@.position == (Point { x: 3, y: 3 }),
            !player@.challenge_active,
    {
        Self { name: name, position: Point { x: 3, y: 3 }, challenge_actif: false }
    }

    /// A second player with the same name, position and challenge.
    pub fn duplicate(&self) -> (copy: Self)
        ensures
            copy@ == self@,
    {
        Self {
            name: self.name.clone(),
            position: self.position,
            challenge_actif: self.challenge_actif,
        }
    }

    /// The name that the player subscribed under.
    pub fn get_name(&self) -> (name: &String)
        ensures
            name@ == self@.name,
    {
        &self.name
    }

    /// The cell on which the player stands.
    pub fn get_position(&self) -> (position: Point)
        ensures
            position == self@.position,
    {
        self.position
    }

    /// Puts the player on another cell.
    pub fn set_position(&mut self, new_position: Point)
        requires
            is_cell(new_position),
        ensures
            final(self)@ == (PlayerState { position: new_position, ..old(self)@ }),
            final(self).wf(),
    {
        self.position = new_position;
    }

    /// Whether the player has a challenge to solve before it may move.
    pub fn get_is_challenge_actif(&self) -> (active: bool)
        ensures
            active == self@.challenge_active,
    {
        self.challenge_actif
    }

    /// Sets or clears the challenge that keeps the player from moving.
    pub fn set_is_challenge_actif(&mut self, is_challenge_actif: bool)
        ensures
            final(self)@ == (PlayerState { challenge_active: is_challenge_actif, ..old(self)@ }),
    {
        self.challenge_actif = is_challenge_actif;
    }

    /// What the player's radar shows, as it travels on the link.
    pub fn get_radar_view(&self) -> (text: String)
        requires
            self.wf(),
        ensures
            text@ == radar_text(self@.position),
    {
        let mut radar_view: [[char; SIZE_VIEW]; SIZE_VIEW] = [['#'; SIZE_VIEW]; SIZE_VIEW];
        let mut i: usize = 0;
        while i < SIZE_VIEW
            invariant
                i <= 7,
                self.wf(),
                forall|r: int, c: int|
                    0 <= r < i && 0 <= c < 7 ==> #[trigger] radar_view[r][c] == tile_or_unknown(
                        self.position.x - DISTANCE + c,
                        self.position.y - DISTANCE + r,
                    ),
            decreases 7 - i,
        {
            let maze_y: i32 = (self.position.y - DISTANCE) + (i as i32);
            let mut row = ['#'; SIZE_VIEW];
            let mut j: usize = 0;
            while j < SIZE_VIEW
                invariant
                    i < 7,
                    j <= 7,
                    self.wf(),
                    maze_y == self.position.y - DISTANCE + i,
                    forall|c: int| j <= c < 7 ==> #[trigger] row[c] == '#',
                    forall|c: int|
                        0 <= c < j ==> #[trigger] row[c] == tile_or_unknown(
                            self.position.x - DISTANCE + c,
                            maze_y as int,
                        ),
                decreases 7 - j,
            {
                let maze_x: i32 = (self.position.x - DISTANCE) + (j as i32);
                if maze_x >= 0 && maze_x < WIDTH as i32 && maze_y >= 0 && maze_y < HEIGHT as i32 {
                    row[j] = MAZE[maze_y as usize][maze_x as usize];
                }
                j = j + 1;
            }
            radar_view[i] = row;
            i = i + 1;
        }
        assert(rows_of(radar_view) =~~= window(self.position));
        let binary_radar_view = encode_radar_view_binary(radar_view);
        encode_b64(binary_radar_view.as_slice())
    }
}

} // verus!
