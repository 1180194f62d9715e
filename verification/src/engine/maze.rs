//! A rectangular maze of free tiles and walls.

use vstd::prelude::*;

verus! {

/// A maze of `width` columns and `height` rows. Each tile is free (`'.'`)
/// or a wall (`'#'`); whatever lies outside the maze counts as wall.
#[derive(Debug, Clone)]
pub struct Maze {
    /// Number of columns.
    pub width: u32,
    /// Number of rows.
    pub height: u32,
    /// The glyphs of the tiles, row by row.
    pub grid: Vec<Vec<char>>,
}

impl Maze {
    /// The grid has `height` rows of `width` tiles each.
    pub open spec fn wf(&self) -> bool {
        &&& self.grid@.len() == self.height
        &&& forall|y: int| 0 <= y < self.grid@.len() ==> (#[trigger] self.grid@[y])@.len() == self.width
    }

    /// The glyph of the tile in column `x` of row `y`.
    pub open spec fn glyph(&self, x: int, y: int) -> char {
        self.grid@[y]@[x]
    }

    /// Whether column `x` of row `y` lies inside the maze.
    pub open spec fn in_bounds(&self, x: int, y: int) -> bool {
        0 <= x < self.width && 0 <= y < self.height
    }

    /// Whether column `x` of row `y` is closed to a player: it is a wall, or
    /// it lies outside the maze.
    pub open spec fn wall_at(&self, x: int, y: int) -> bool {
        !self.in_bounds(x, y) || self.glyph(x, y) == '#'
    }

    /// A maze of the given size in which every tile is free.
    pub fn new(width: u32, height: u32) -> (maze: Self)
        ensures
            maze.wf(),
            maze.width == width,
            maze.height == height,
            forall|x: int, y: int| maze.in_bounds(x, y) ==> #[trigger] maze.glyph(x, y) == '.',
    {
        let mut grid: Vec<Vec<char>> = Vec::new();
        let mut y: u32 = 0;
        while y < height
            invariant
                y <= height,
                grid@.len() == y,
                forall|r: int| 0 <= r < y ==> (#[trigger] grid@[r])@.len() == width,
                forall|r: int, c: int| 0 <= r < y && 0 <= c < width ==> #[trigger] grid@[r]@[c] == '.',
            decreases height - y,
        {
            let mut row: Vec<char> = Vec::new();
            let mut x: u32 = 0;
            while x < width
                invariant
                    x <= width,
                    row@.len() == x,
                    forall|c: int| 0 <= c < x ==> #[trigger] row@[c] == '.',
                decreases width - x,
            {
                row.push('.');
                x = x + 1;
            }
            grid.push(row);
            y = y + 1;
        }
        Self { width, height, grid }
    }

    /// Whether column `x` of row `y` is a wall or lies outside the maze.
    pub fn is_wall(&self, x: usize, y: usize) -> (b: bool)
        requires
            self.wf(),
        ensures
            b == self.wall_at(x as int, y as int),
    {
        if x >= self.width as usize || y >= self.height as usize {
            return true;
        }
        self.grid[y][x] == '#'
    }

    /// Puts a wall in column `x` of row `y`. Outside the maze nothing
    /// changes and `false` comes back.
    pub fn set_wall(&mut self, x: usize, y: usize) -> (placed: bool)
        requires
            old(self).wf(),
        ensures
            final(self).wf(),
            final(self).width == old(self).width,
            final(self).height == old(self).height,
            placed == old(self).in_bounds(x as int, y as int),
            forall|c: int, r: int|
                old(self).in_bounds(c, r) ==> #[trigger] final(self).glyph(c, r) == (if c == x && r
                    == y {
                    '#'
                } else {
                    old(self).glyph(c, r)
                }),
    {
        if x >= self.width as usize || y >= self.height as usize {
            return false;
        }
        self.grid[y][x] = '#';
        true
    }
}

} // verus!
