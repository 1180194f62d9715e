//! One step of a player through a maze.

use vstd::prelude::*;
use crate::engine::maze::Maze;
use crate::wire::messages::{ActionError, RelativeDirection};

verus! {

/// A tile of the maze, by column and row.
#[derive(Debug, Clone, Copy, PartialEq, Eq, Structural)]
pub struct Point {
    /// The column.
    pub x: usize,
    /// The row.
    pub y: usize,
}

/// A player and the tile it stands on.
#[derive(Debug, Clone, Copy)]
pub struct Player {
    /// Where the player stands.
    pub position: Point,
}

/// The tile one step from `from` in the given direction. `Front` leads to
/// the row above and `Back` to the row below; a step that would leave the
/// range of the coordinates stops at its end.
pub open spec fn step_from(from: Point, direction: RelativeDirection) -> Point {
    match direction {
        RelativeDirection::Front => Point {
            x: from.x,
            y: if from.y == 0 {
                0usize
            } else {
                (from.y - 1) as usize
            },
        },
        RelativeDirection::Right => Point {
            x: if from.x == usize::MAX {
                from.x
            } else {
                (from.x + 1) as usize
            },
            y: from.y,
        },
        RelativeDirection::Back => Point {
            x: from.x,
            y: if from.y == usize::MAX {
                from.y
            } else {
                (from.y + 1) as usize
            },
        },
        RelativeDirection::Left => Point {
            x: if from.x == 0 {
                0usize
            } else {
                (from.x - 1) as usize
            },
            y: from.y,
        },
    }
}

/// Where a step in the given direction takes a player that stands on
/// `from`: to the next tile, unless that tile is closed.
pub open spec fn move_outcome(maze: Maze, from: Point, direction: RelativeDirection) -> Result<
    Point,
    ActionError,
> {
    let target = step_from(from, direction);
    if maze.wall_at(target.x as int, target.y as int) {
        Err(ActionError::CannotPassThroughWall)
    } else {
        Ok(target)
    }
}

impl Player {
    /// A player on column `x` of row `y`.
    pub fn new(x: usize, y: usize) -> (player: Self)
        ensures
            player.position == (Point { x, y }),
    {
        Self { position: Point { x, y } }
    }

    /// Where the player stands.
    pub fn get_position(&self) -> (position: &Point)
        ensures
            *position == self.position,
    {
        &self.position
    }
}

/// Tells where a step in the given direction would take the player, or that
/// a wall is in the way.
pub fn can_move(maze: &Maze, player: &Player, direction: RelativeDirection) -> (r: Result<
    Point,
    ActionError,
>)
    requires
        maze.wf(),
    ensures
        r == move_outcome(*maze, player.position, direction),
{
    let position = player.get_position();
    let mut new_x = position.x;
    let mut new_y = position.y;
    match direction {
        RelativeDirection::Front => new_y = new_y.saturating_sub(1),
        RelativeDirection::Right => new_x = new_x.saturating_add(1),
        RelativeDirection::Back => new_y = new_y.saturating_add(1),
        RelativeDirection::Left => new_x = new_x.saturating_sub(1),
    }
    if maze.is_wall(new_x, new_y) {
        return Err(ActionError::CannotPassThroughWall);
    }
    Ok(Point { x: new_x, y: new_y })
}

/// Takes the step if no wall is in the way; otherwise the player stays
/// where it is.
pub fn move_player(maze: &Maze, player: &mut Player, direction: RelativeDirection) -> (r: Result<
    (),
    ActionError,
>)
    requires
        maze.wf(),
    ensures
        match move_outcome(*maze, old(player).position, direction) {
            Ok(target) => r == Ok::<(), ActionError>(()) && final(player).position == target,
            Err(e) => r == Err::<(), ActionError>(e) && final(player).position == old(
                player,
            ).position,
        },
{
    match can_move(maze, player, direction) {
        Ok(new_position) => {
            player.position = new_position;
            Ok(())
        },
        Err(e) => Err(e),
    }
}

} // verus!
