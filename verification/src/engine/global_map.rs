//! The map that a player draws for itself from what its radar has shown.
//!
//! A tile that nobody has seen is `'#'`. The glyphs `'-'`, `'|'` and the
//! corner mark are walls, `'G'` marks the goal and `'H'` a hint; every
//! other glyph is an explored tile. A tile only ever gains knowledge: an
//! unknown tile takes any glyph, an explored tile takes a mark, and nothing
//! is drawn over a wall but another wall, nor over a mark but another mark.

use vstd::prelude::*;
use crate::wire::radar::rows_of;

verus! {

/// Number of columns of the map.
pub const MAP_WIDTH: usize = 20;

/// Number of rows of the map.
pub const MAP_HEIGHT: usize = 20;

/// Whether the glyph stands for a wall.
pub open spec fn is_wall_glyph(c: char) -> bool {
    c == '\u{2022}' || c == '-' || c == '|'
}

/// Whether the glyph marks the goal or a hint.
pub open spec fn is_mark_glyph(c: char) -> bool {
    c == 'G' || c == 'H'
}

/// Whether `new_glyph` may be drawn over `old_glyph`.
pub open spec fn may_replace(old_glyph: char, new_glyph: char) -> bool {
    if new_glyph == '#' {
        false
    } else if old_glyph == '#' {
        true
    } else if is_wall_glyph(old_glyph) {
        is_wall_glyph(new_glyph)
    } else if is_mark_glyph(old_glyph) {
        is_mark_glyph(new_glyph)
    } else {
        !is_wall_glyph(new_glyph)
    }
}

/// The glyph of a tile after `new_glyph` has been offered to it.
pub open spec fn painted(old_glyph: char, new_glyph: char) -> char {
    if may_replace(old_glyph, new_glyph) {
        new_glyph
    } else {
        old_glyph
    }
}

/// Whether column `x` of row `y` lies on the map.
pub open spec fn on_map(x: int, y: int) -> bool {
    0 <= x < MAP_WIDTH && 0 <= y < MAP_HEIGHT
}

/// Whether a player on column `ax` of row `ay` has column `x` of row `y`
/// on its radar: the radar reaches three tiles each way.
pub open spec fn in_view(ax: int, ay: int, x: int, y: int) -> bool {
    ax - 3 <= x <= ax + 3 && ay - 3 <= y <= ay + 3
}

/// A map as plain values.
pub struct MapState {
    /// The glyphs of the map, row by row.
    pub glyphs: Seq<Seq<char>>,
    /// The tiles that have been visited, each by column and row.
    pub visited: Set<(int, int)>,
    /// The column and the row of the tile on which the player stands.
    pub anchor: (int, int),
}

impl MapState {
    /// The map of a player that starts on column `x` of row `y` and has
    /// seen nothing yet: every tile is `'#'` but the one where the player
    /// starts, which is `'P'`, and no tile has been visited.
    pub open spec fn initial(x: int, y: int) -> MapState {
        MapState {
            glyphs: Seq::new(
                MAP_HEIGHT as nat,
                |row: int|
                    Seq::new(
                        MAP_WIDTH as nat,
                        |col: int|
                            if col == x && row == y {
                                'P'
                            } else {
                                '#'
                            },
                    ),
            ),
            visited: Set::empty(),
            anchor: (x, y),
        }
    }

    /// The map has twenty rows of twenty tiles, the player stands on it,
    /// and no tile off the map has been visited.
    pub open spec fn wf(self) -> bool {
        &&& self.glyphs.len() == MAP_HEIGHT
        &&& forall|y: int| 0 <= y < MAP_HEIGHT ==> (#[trigger] self.glyphs[y]).len() == MAP_WIDTH
        &&& on_map(self.anchor.0, self.anchor.1)
        &&& forall|p: (int, int)| #[trigger] self.visited.contains(p) ==> on_map(p.0, p.1)
    }

    /// The map after `glyph` has been offered to column `x` of row `y` and
    /// the tile has been visited. Off the map nothing changes.
    pub open spec fn offered(self, x: int, y: int, glyph: char) -> MapState {
        if on_map(x, y) {
            MapState {
                glyphs: self.glyphs.update(
                    y,
                    self.glyphs[y].update(x, painted(self.glyphs[y][x], glyph)),
                ),
                visited: self.visited.insert((x, y)),
                ..self
            }
        } else {
            self
        }
    }

    /// The map after the player has moved by `delta` and its radar has
    /// shown `radar` there.
    ///
    /// A move that would take the player off the map changes nothing.
    /// Otherwise the player stands on the new tile, that tile is visited,
    /// and each tile of the map that the radar reaches has been offered
    /// the glyph that the radar shows for it; the middle of the radar lies
    /// on the player.
    pub open spec fn updated(self, radar: Seq<Seq<char>>, delta: (i32, i32)) -> MapState {
        let ax = self.anchor.0 + delta.0;
        let ay = self.anchor.1 + delta.1;
        if on_map(ax, ay) {
            MapState {
                glyphs: Seq::new(
                    MAP_HEIGHT as nat,
                    |y: int|
                        Seq::new(
                            MAP_WIDTH as nat,
                            |x: int|
                                if in_view(ax, ay, x, y) {
                                    painted(self.glyphs[y][x], radar[y - ay + 3][x - ax + 3])
                                } else {
                                    self.glyphs[y][x]
                                },
                        ),
                ),
                visited: self.visited.insert((ax, ay)),
                anchor: (ax, ay),
            }
        } else {
            self
        }
    }
}

/// Whatever is offered to a tile, a wall stays a wall, a tile that is known
/// stays known, and a mark stays a mark.
pub proof fn lemma_painting_keeps_knowledge(old_glyph: char, new_glyph: char)
    ensures
        is_wall_glyph(old_glyph) ==> is_wall_glyph(painted(old_glyph, new_glyph)),
        old_glyph != '#' ==> painted(old_glyph, new_glyph) != '#',
        is_mark_glyph(old_glyph) ==> is_mark_glyph(painted(old_glyph, new_glyph)),
{
}

/// Whatever the radar shows and wherever the player moves, no wall of the
/// map becomes anything but a wall, no tile that is known becomes unknown,
/// and no tile that has been visited is forgotten.
pub proof fn lemma_update_keeps_knowledge(
    map: MapState,
    radar: Seq<Seq<char>>,
    delta: (i32, i32),
    x: int,
    y: int,
)
    requires
        map.wf(),
        on_map(x, y),
    ensures
        map.updated(radar, delta).wf(),
        is_wall_glyph(map.glyphs[y][x]) ==> is_wall_glyph(map.updated(radar, delta).glyphs[y][x]),
        map.glyphs[y][x] != '#' ==> map.updated(radar, delta).glyphs[y][x] != '#',
        map.visited.contains((x, y)) ==> map.updated(radar, delta).visited.contains((x, y)),
{
}

/// Whatever is offered to whichever tile, no wall of the map becomes
/// anything but a wall, no tile that is known becomes unknown, and no tile
/// that has been visited is forgotten.
pub proof fn lemma_offer_keeps_knowledge(
    map: MapState,
    at_x: int,
    at_y: int,
    glyph: char,
    x: int,
    y: int,
)
    requires
        map.wf(),
        on_map(x, y),
    ensures
        map.offered(at_x, at_y, glyph).wf(),
        is_wall_glyph(map.glyphs[y][x]) ==> is_wall_glyph(
            map.offered(at_x, at_y, glyph).glyphs[y][x],
        ),
        map.glyphs[y][x] != '#' ==> map.offered(at_x, at_y, glyph).glyphs[y][x] != '#',
        map.visited.contains((x, y)) ==> map.offered(at_x, at_y, glyph).visited.contains((x, y)),
{
}

fn wall_glyph(c: char) -> (b: bool)
    ensures
        b == is_wall_glyph(c),
{
    c == '\u{2022}' || c == '-' || c == '|'
}

fn paint(old_glyph: char, new_glyph: char) -> (c: char)
    ensures
        c == painted(old_glyph, new_glyph),
{
    let replace = if new_glyph == '#' {
        false
    } else if old_glyph == '#' {
        true
    } else if wall_glyph(old_glyph) {
        wall_glyph(new_glyph)
    } else if old_glyph == 'G' || old_glyph == 'H' {
        new_glyph == 'G' || new_glyph == 'H'
    } else {
        !wall_glyph(new_glyph)
    };
    if replace {
        new_glyph
    } else {
        old_glyph
    }
}

/// A map of twenty by twenty tiles, the tiles that have been visited, and
/// the tile on which the player stands.
pub struct GlobalMap {
    grid: Vec<Vec<char>>,
    explored: Vec<Vec<bool>>,
    anchor_x: usize,
    anchor_y: usize,
}

impl View for GlobalMap {
    type V = MapState;

    closed spec fn view(&self) -> MapState {
        MapState {
            glyphs: Seq::new(self.grid@.len(), |y: int| self.grid@[y]@),
            visited: Set::new(|p: (int, int)| on_map(p.0, p.1) && self.explored@[p.1]@[p.0]),
            anchor: (self.anchor_x as int, self.anchor_y as int),
        }
    }
}

impl GlobalMap {
    /// Both tables have twenty rows of twenty tiles, and the player stands
    /// on the map.
    pub closed spec fn wf(&self) -> bool {
        &&& self.grid@.len() == MAP_HEIGHT
        &&& self.explored@.len() == MAP_HEIGHT
        &&& forall|y: int| 0 <= y < MAP_HEIGHT ==> (#[trigger] self.grid@[y])@.len() == MAP_WIDTH
        &&& forall|y: int|
            0 <= y < MAP_HEIGHT ==> (#[trigger] self.explored@[y])@.len() == MAP_WIDTH
        &&& self.anchor_x < MAP_WIDTH
        &&& self.anchor_y < MAP_HEIGHT
    }

    /// A map on which nothing is known but the tile where the player
    /// starts, which is drawn `'P'`. No tile has been visited yet.
    pub fn new(start_x: usize, start_y: usize) -> (map: Self)
        requires
            start_x < MAP_WIDTH,
            start_y < MAP_HEIGHT,
        ensures
            map.wf(),
            map@.wf(),
            map@ == MapState::initial(start_x as int, start_y as int),
    {
        let mut grid: Vec<Vec<char>> = Vec::new();
        let mut explored: Vec<Vec<bool>> = Vec::new();
        let mut y: usize = 0;
        while y < MAP_HEIGHT
            invariant
                y <= MAP_HEIGHT,
                grid@.len() == y,
                explored@.len() == y,
                forall|r: int| 0 <= r < y ==> (#[trigger] grid@[r])@.len() == MAP_WIDTH,
                forall|r: int| 0 <= r < y ==> (#[trigger] explored@[r])@.len() == MAP_WIDTH,
                forall|r: int, c: int|
                    0 <= r < y && 0 <= c < MAP_WIDTH ==> #[trigger] grid@[r]@[c] == '#',
                forall|r: int, c: int|
                    0 <= r < y && 0 <= c < MAP_WIDTH ==> !#[trigger] explored@[r]@[c],
            decreases MAP_HEIGHT - y,
        {
            let mut row: Vec<char> = Vec::new();
            let mut seen: Vec<bool> = Vec::new();
            let mut x: usize = 0;
            while x < MAP_WIDTH
                invariant
                    x <= MAP_WIDTH,
                    row@.len() == x,
                    seen@.len() == x,
                    forall|c: int| 0 <= c < x ==> #[trigger] row@[c] == '#',
                    forall|c: int| 0 <= c < x ==> !#[trigger] seen@[c],
                decreases MAP_WIDTH - x,
            {
                row.push('#');
                seen.push(false);
                x = x + 1;
            }
            grid.push(row);
            explored.push(seen);
            y = y + 1;
        }
        grid[start_y][start_x] = 'P';
        let map = Self { grid, explored, anchor_x: start_x, anchor_y: start_y };
        proof {
            let start = MapState::initial(start_x as int, start_y as int);
            assert(map@.visited =~= start.visited);
            assert(map@.glyphs =~~= start.glyphs);
        }
        map
    }

    /// Whether column `x` of row `y` has been visited.
    pub fn is_visited(&self, x: usize, y: usize) -> (b: bool)
        requires
            self.wf(),
        ensures
            b == self@.visited.contains((x as int, y as int)),
    {
        if x < MAP_WIDTH && y < MAP_HEIGHT {
            self.explored[y][x]
        } else {
            false
        }
    }

    /// Whether column `x` of row `y` holds a wall.
    pub fn is_wall(&self, x: usize, y: usize) -> (b: bool)
        requires
            self.wf(),
            x < MAP_WIDTH,
            y < MAP_HEIGHT,
        ensures
            b == is_wall_glyph(self@.glyphs[y as int][x as int]),
    {
        wall_glyph(self.grid[y][x])
    }

    /// The glyph in column `x` of row `y`.
    pub fn glyph_at(&self, x: usize, y: usize) -> (c: char)
        requires
            self.wf(),
            x < MAP_WIDTH,
            y < MAP_HEIGHT,
        ensures
            c == self@.glyphs[y as int][x as int],
    {
        self.grid[y][x]
    }

    /// The column and the row of the tile on which the player stands.
    pub fn position(&self) -> (p: (usize, usize))
        requires
            self.wf(),
        ensures
            (p.0 as int, p.1 as int) == self@.anchor,
            p.0 < MAP_WIDTH,
            p.1 < MAP_HEIGHT,
    {
        (self.anchor_x, self.anchor_y)
    }

    fn offer(&mut self, x: usize, y: usize, glyph: char)
        requires
            old(self).wf(),
        ensures
            final(self).wf(),
            final(self)@.wf(),
            final(self)@ == old(self)@.offered(x as int, y as int, glyph),
    {
        if x < MAP_WIDTH && y < MAP_HEIGHT {
            let drawn = paint(self.grid[y][x], glyph);
            self.grid[y][x] = drawn;
            self.explored[y][x] = true;
            proof {
                let after = old(self)@.offered(x as int, y as int, glyph);
                assert(self@.glyphs =~~= after.glyphs);
                assert(self@.visited =~= after.visited);
            }
        }
    }

    /// Offers a wall glyph to column `x` of row `y` and marks the tile as
    /// visited. Off the map nothing changes.
    pub fn set_wall(&mut self, x: usize, y: usize, wall_type: char)
        requires
            old(self).wf(),
        ensures
            final(self).wf(),
            final(self)@.wf(),
            final(self)@ == old(self)@.offered(x as int, y as int, wall_type),
    {
        self.offer(x, y, wall_type);
    }

    /// Offers a glyph to column `x` of row `y` and marks the tile as
    /// visited. Off the map nothing changes.
    pub fn set_explored(&mut self, x: usize, y: usize, cell_content: char)
        requires
            old(self).wf(),
        ensures
            final(self).wf(),
            final(self)@.wf(),
            final(self)@ == old(self)@.offered(x as int, y as int, cell_content),
    {
        self.offer(x, y, cell_content);
    }

    /// Moves the player by `delta` and draws what its radar shows there.
    /// Tells whether the player is still on the map; if it is not, nothing
    /// has changed.
    pub fn update_from_radar(&mut self, radar: &[[char; 7]; 7], delta: (i32, i32)) -> (drawn: bool)
        requires
            old(self).wf(),
        ensures
            final(self).wf(),
            final(self)@.wf(),
            final(self)@ == old(self)@.updated(rows_of(*radar), delta),
            drawn == on_map(old(self)@.anchor.0 + delta.0, old(self)@.anchor.1 + delta.1),
    {
        let ghost before = self@;
        let ghost shown = rows_of(*radar);
        let ax: i64 = self.anchor_x as i64 + delta.0 as i64;
        let ay: i64 = self.anchor_y as i64 + delta.1 as i64;
        if ax < 0 || ax >= MAP_WIDTH as i64 || ay < 0 || ay >= MAP_HEIGHT as i64 {
            return false;
        }
        let mut row: usize = 0;
        while row < 7
            invariant
                row <= 7,
                0 <= ax < MAP_WIDTH,
                0 <= ay < MAP_HEIGHT,
                shown == rows_of(*radar),
                self.wf(),
                before.wf(),
                self@.anchor == before.anchor,
                self@.visited == before.visited,
                forall|c: int, r: int|
                    on_map(c, r) ==> #[trigger] self@.glyphs[r][c] == (if in_view(
                        ax as int,
                        ay as int,
                        c,
                        r,
                    ) && r - ay + 3 < row {
                        painted(before.glyphs[r][c], shown[r - ay + 3][c - ax + 3])
                    } else {
                        before.glyphs[r][c]
                    }),
            decreases 7 - row,
        {
            let y: i64 = ay + row as i64 - 3;
            let mut col: usize = 0;
            while col < 7
                invariant
                    row < 7,
                    col <= 7,
                    y == ay + row - 3,
                    0 <= ax < MAP_WIDTH,
                    0 <= ay < MAP_HEIGHT,
                    shown == rows_of(*radar),
                    self.wf(),
                    before.wf(),
                    self@.anchor == before.anchor,
                    self@.visited == before.visited,
                    forall|c: int, r: int|
                        on_map(c, r) ==> #[trigger] self@.glyphs[r][c] == (if in_view(
                            ax as int,
                            ay as int,
                            c,
                            r,
                        ) && (r - ay + 3 < row || (r - ay + 3 == row && c - ax + 3 < col)) {
                            painted(before.glyphs[r][c], shown[r - ay + 3][c - ax + 3])
                        } else {
                            before.glyphs[r][c]
                        }),
                decreases 7 - col,
            {
                let x: i64 = ax + col as i64 - 3;
                if 0 <= x && x < MAP_WIDTH as i64 && 0 <= y && y < MAP_HEIGHT as i64 {
                    let ghost earlier = self@;
                    let glyph = paint(self.grid[y as usize][x as usize], radar[row][col]);
                    self.grid[y as usize][x as usize] = glyph;
                    proof {
                        assert(shown[row as int][col as int] == radar[row as int][col as int]);
                        assert(self@.visited =~= earlier.visited);
                        assert forall|c: int, r: int| on_map(c, r) implies #[trigger] self@.glyphs[r][c]
                            == (if in_view(ax as int, ay as int, c, r) && (r - ay + 3 < row || (r - ay
                            + 3 == row && c - ax + 3 < col + 1)) {
                            painted(before.glyphs[r][c], shown[r - ay + 3][c - ax + 3])
                        } else {
                            before.glyphs[r][c]
                        }) by {
                            if c == x && r == y {
                                assert(earlier.glyphs[r][c] == before.glyphs[r][c]);
                                assert(self@.glyphs[r][c] == glyph);
                            } else {
                                assert(self@.glyphs[r][c] == earlier.glyphs[r][c]);
                            }
                        }
                    }
                }
                col = col + 1;
            }
            row = row + 1;
        }
        let ghost drawn_map = self@;
        self.anchor_x = ax as usize;
        self.anchor_y = ay as usize;
        self.explored[ay as usize][ax as usize] = true;
        proof {
            let after = before.updated(shown, delta);
            assert forall|c: int, r: int| on_map(c, r) implies #[trigger] self@.glyphs[r][c]
                == drawn_map.glyphs[r][c] by {}
            assert(self@.glyphs =~~= after.glyphs);
            assert(self@.visited =~= after.visited);
        }
        true
    }

    /// The rows of the map as text, from the top.
    pub fn render(&self) -> (rows: Vec<String>)
        requires
            self.wf(),
        ensures
            rows@.len() == MAP_HEIGHT,
            forall|y: int| 0 <= y < MAP_HEIGHT ==> (#[trigger] rows@[y])@ == self@.glyphs[y],
    {
        let mut rows: Vec<String> = Vec::new();
        let mut y: usize = 0;
        while y < MAP_HEIGHT
            invariant
                self.wf(),
                y <= MAP_HEIGHT,
                rows@.len() == y,
                forall|r: int| 0 <= r < y ==> (#[trigger] rows@[r])@ == self@.glyphs[r],
            decreases MAP_HEIGHT - y,
        {
            let mut line = String::new();
            let mut x: usize = 0;
            while x < MAP_WIDTH
                invariant
                    self.wf(),
                    y < MAP_HEIGHT,
                    x <= MAP_WIDTH,
                    line@ =~= self@.glyphs[y as int].take(x as int),
                decreases MAP_WIDTH - x,
            {
                line.push(self.grid[y][x]);
                x = x + 1;
            }
            assert(self@.glyphs[y as int].take(MAP_WIDTH as int) =~= self@.glyphs[y as int]);
            rows.push(line);
            y = y + 1;
        }
        rows
    }
}

} // verus!
