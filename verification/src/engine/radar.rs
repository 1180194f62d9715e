//! The radar view as plain tables: where the walls stand and what the cells hold.

use vstd::prelude::*;

verus! {

/// What a player sees around itself: four rows of three horizontal walls,
/// three rows of four vertical walls, and three rows of three cells.
#[derive(Debug, Clone, Copy, PartialEq)]
pub struct RadarView {
    /// For each horizontal wall tile, whether a wall stands there.
    pub walls_horiz: [[bool; 3]; 4],
    /// For each vertical wall tile, whether a wall stands there.
    pub walls_vert: [[bool; 4]; 3],
    /// The code of each cell.
    pub cells: [[u8; 3]; 3],
}

impl RadarView {
    /// A radar view made of the three tables.
    pub fn new(walls_horiz: [[bool; 3]; 4], walls_vert: [[bool; 4]; 3], cells: [[u8; 3]; 3]) -> (view:
        Self)
        ensures
            view.walls_horiz == walls_horiz,
            view.walls_vert == walls_vert,
            view.cells == cells,
    {
        Self { walls_horiz, walls_vert, cells }
    }
}

} // verus!
