//! The maze that the server keeps, and the rule for walking through it.
//!
//! The maze is a grid of seven by seven tiles. Cells stand where the column
//! and the row are both odd; the tiles between two cells hold a wall or an
//! opening. One move takes a player from a cell over the tile next to it to
//! the cell behind that tile.

use vstd::prelude::*;
use crate::engine::navigation::delta_of;
use crate::server::player::Player;
use crate::wire::messages::{ActionError, RelativeDirection};

verus! {

/// Number of columns of the maze.
pub const WIDTH: usize = 7;

/// Number of rows of the maze.
pub const HEIGHT: usize = 7;

/// The maze, row by row. The goal is marked `'*'`.
pub const MAZE: [[char; WIDTH]; HEIGHT] = [
    ['\u{2022}', '-', '\u{2022}', '-', '\u{2022}', '-', '\u{2022}'],
    ['|', ' ', ' ', ' ', ' ', ' ', '|'],
    ['\u{2022}', '-', '\u{2022}', ' ', '\u{2022}', ' ', '\u{2022}'],
    ['|', ' ', '|', ' ', '|', ' ', '|'],
    ['\u{2022}', ' ', '\u{2022}', ' ', '\u{2022}', '-', '\u{2022}'],
    ['|', ' ', ' ', ' ', ' ', '*', '|'],
    ['\u{2022}', '-', '\u{2022}', '-', '\u{2022}', '-', '\u{2022}'],
];

/// A tile of the maze, by column and row.
#[derive(Debug, Clone, Copy, PartialEq, Eq, Structural)]
pub struct Point {
    /// The column.
    pub x: i32,
    /// The row.
    pub y: i32,
}

/// Whether the glyph stands for a wall.
pub open spec fn is_wall_tile(c: char) -> bool {
    c == '-' || c == '|' || c == '\u{2022}'
}

/// The glyph of the maze in column `x` of row `y`, and `'#'` outside the maze.
pub open spec fn tile_or_unknown(x: int, y: int) -> char {
    if 0 <= x < WIDTH && 0 <= y < HEIGHT {
        MAZE[y][x]
    } else {
        '#'
    }
}

/// Whether `p` is a cell of the maze on which a player can stand.
pub open spec fn is_cell(p: Point) -> bool {
    &&& 0 <= p.x < WIDTH
    &&& 0 <= p.y < HEIGHT
    &&& p.x % 2 == 1
    &&& p.y % 2 == 1
    &&& !is_wall_tile(MAZE[p.y as int][p.x as int])
}

/// The cell that a move in the given direction leads to.
pub open spec fn cell_toward(from: Point, direction: RelativeDirection) -> Point {
    Point {
        x: (from.x + 2 * delta_of(direction).0) as i32,
        y: (from.y + 2 * delta_of(direction).1) as i32,
    }
}

/// Whether a wall stands between `from` and the next cell in the given
/// direction.
pub open spec fn wall_toward(from: Point, direction: RelativeDirection) -> bool {
    is_wall_tile(
        tile_or_unknown(from.x + delta_of(direction).0, from.y + delta_of(direction).1),
    )
}

/// Where a move in the given direction takes a player that stands on
/// `from`: to the next cell, unless a wall stands in between.
pub open spec fn movement_outcome(from: Point, direction: RelativeDirection) -> Result<
    Point,
    ActionError,
> {
    if wall_toward(from, direction) {
        Err(ActionError::CannotPassThroughWall)
    } else {
        Ok(cell_toward(from, direction))
    }
}

/// A move that is not stopped by a wall leads from a cell to a cell: the
/// maze is closed all around.
pub proof fn lemma_move_stays_in_maze(from: Point, direction: RelativeDirection)
    requires
        is_cell(from),
    ensures
        movement_outcome(from, direction) is Ok ==> is_cell(cell_toward(from, direction)),
{
    assert(from.x == 1 || from.x == 3 || from.x == 5);
    assert(from.y == 1 || from.y == 3 || from.y == 5);
}

fn wall_glyph(c: char) -> (b: bool)
    ensures
        b == is_wall_tile(c),
{
    c == '-' || c == '|' || c == '\u{2022}'
}

/// Whether `position` is a cell of the maze on which a player can stand.
pub fn is_open_cell(position: Point) -> (b: bool)
    ensures
        b == is_cell(position),
{
    if position.x < 0 || position.x >= WIDTH as i32 || position.y < 0 || position.y >= HEIGHT as i32 {
        return false;
    }
    position.x % 2 == 1 && position.y % 2 == 1 && !wall_glyph(
        MAZE[position.y as usize][position.x as usize],
    )
}

/// Tells where a move in the given direction would take the player, or
/// that a wall is in the way.
pub fn check_movement_possible(direction: RelativeDirection, player: &Player) -> (r: Result<
    Point,
    ActionError,
>)
    requires
        player.wf(),
    ensures
        r == movement_outcome(player@.position, direction),
        r is Ok ==> is_cell(r->Ok_0),
{
    let position = player.get_position();
    proof {
        lemma_move_stays_in_maze(position, direction);
    }
    let x = position.x as usize;
    let y = position.y as usize;
    match direction {
        RelativeDirection::Front => {
            if wall_glyph(MAZE[y - 1][x]) {
                return Err(ActionError::CannotPassThroughWall);
            }
            Ok(Point { x: position.x, y: position.y - 2 })
        },
        RelativeDirection::Right => {
            if wall_glyph(MAZE[y][x + 1]) {
                return Err(ActionError::CannotPassThroughWall);
            }
            Ok(Point { x: position.x + 2, y: position.y })
        },
        RelativeDirection::Back => {
            if wall_glyph(MAZE[y + 1][x]) {
                return Err(ActionError::CannotPassThroughWall);
            }
            Ok(Point { x: position.x, y: position.y + 2 })
        },
        RelativeDirection::Left => {
            if wall_glyph(MAZE[y][x - 1]) {
                return Err(ActionError::CannotPassThroughWall);
            }
            Ok(Point { x: position.x - 2, y: position.y })
        },
    }
}

} // verus!
