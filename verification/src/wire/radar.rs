//! The radar payload: what a player sees around itself, packed into eleven
//! bytes.
//!
//! The view is a grid of seven rows and seven columns. Cells stand where row
//! and column are both odd, horizontal wall tiles where the row is even and
//! the column odd, vertical wall tiles where the row is odd and the column
//! even, and intersections where both are even.
//!
//! Bytes 0 to 2 hold the twelve horizontal wall tiles, two bits each, row by
//! row. Bytes 3 to 5 hold the twelve vertical wall tiles in the same way.
//! Bytes 6 to 10 hold the nine cells, four bits each. Within a byte the
//! first item takes the lowest bits; the high half of byte 10 stays zero.
//!
//! The intersections do not travel. Each is drawn from the wall tiles
//! beside it in its row: it is a wall exactly when both of them are walls.

use vstd::prelude::*;
use crate::wire::error::ProtocolError;

verus! {

/// Length of a radar payload in bytes.
pub const RADAR_PAYLOAD_LEN: usize = 11;

/// The two bits that stand for a wall tile: `2` for a wall, `1` for an
/// opening, `0` for anything else, which is a tile that nobody has seen.
pub open spec fn wall_code(c: char) -> u8 {
    if c == '|' || c == '-' {
        2
    } else if c == ' ' {
        1
    } else {
        0
    }
}

/// The four bits that stand for a cell: `0` for an open cell, `8` for the
/// goal, `15` for anything else, which is a cell that nobody has seen.
pub open spec fn cell_code(c: char) -> u8 {
    if c == ' ' {
        0
    } else if c == '*' {
        8
    } else {
        15
    }
}

/// How a horizontal wall tile with the given code is drawn.
pub open spec fn horizontal_glyph(code: u8) -> char {
    if code == 0 {
        '#'
    } else if code == 2 {
        '-'
    } else {
        ' '
    }
}

/// How a vertical wall tile with the given code is drawn.
pub open spec fn vertical_glyph(code: u8) -> char {
    if code == 0 {
        '#'
    } else if code == 2 {
        '|'
    } else {
        ' '
    }
}

/// How a cell with the given code is drawn.
pub open spec fn cell_glyph(code: u8) -> char {
    if code == 0 {
        ' '
    } else if code == 8 {
        'G'
    } else {
        '#'
    }
}

/// The rows of a radar view, each as a sequence of glyphs.
pub open spec fn rows_of(radar_view: [[char; 7]; 7]) -> Seq<Seq<char>> {
    Seq::new(7, |row: int| radar_view[row]@)
}

/// The `k`-th horizontal wall tile of the grid, counted row by row.
pub open spec fn horizontal_wall(grid: Seq<Seq<char>>, k: int) -> char {
    grid[k / 3 * 2][k % 3 * 2 + 1]
}

/// The `k`-th vertical wall tile of the grid, counted row by row.
pub open spec fn vertical_wall(grid: Seq<Seq<char>>, k: int) -> char {
    grid[k / 4 * 2 + 1][k % 4 * 2]
}

/// The `k`-th cell of the grid, counted row by row.
pub open spec fn cell(grid: Seq<Seq<char>>, k: int) -> char {
    grid[k / 3 * 2 + 1][k % 3 * 2 + 1]
}

/// Four two-bit codes in one byte, the first in the lowest bits.
pub open spec fn pack_walls(c0: u8, c1: u8, c2: u8, c3: u8) -> u8 {
    c0 | (c1 << 2) | (c2 << 4) | (c3 << 6)
}

/// Two four-bit codes in one byte, the first in the low half.
pub open spec fn pack_cells(low: u8, high: u8) -> u8 {
    low | (high << 4)
}

/// Byte `j` of the payload that stands for `grid`.
pub open spec fn radar_byte(grid: Seq<Seq<char>>, j: int) -> u8 {
    if j < 3 {
        pack_walls(
            wall_code(horizontal_wall(grid, 4 * j)),
            wall_code(horizontal_wall(grid, 4 * j + 1)),
            wall_code(horizontal_wall(grid, 4 * j + 2)),
            wall_code(horizontal_wall(grid, 4 * j + 3)),
        )
    } else if j < 6 {
        pack_walls(
            wall_code(vertical_wall(grid, 4 * (j - 3))),
            wall_code(vertical_wall(grid, 4 * (j - 3) + 1)),
            wall_code(vertical_wall(grid, 4 * (j - 3) + 2)),
            wall_code(vertical_wall(grid, 4 * (j - 3) + 3)),
        )
    } else if j < 10 {
        pack_cells(cell_code(cell(grid, 2 * (j - 6))), cell_code(cell(grid, 2 * (j - 6) + 1)))
    } else {
        pack_cells(cell_code(cell(grid, 8)), 0)
    }
}

/// The payload that stands for `grid`.
pub open spec fn radar_payload(grid: Seq<Seq<char>>) -> Seq<u8> {
    Seq::new(11, |j: int| radar_byte(grid, j))
}

/// The `t`-th two-bit code of a byte.
pub open spec fn two_bits(b: u8, t: int) -> u8 {
    if t == 0 {
        b & 3
    } else if t == 1 {
        (b >> 2) & 3
    } else if t == 2 {
        (b >> 4) & 3
    } else {
        (b >> 6) & 3
    }
}

/// The low half of a byte for `t == 0`, the high half otherwise.
pub open spec fn four_bits(b: u8, t: int) -> u8 {
    if t == 0 {
        b & 15
    } else {
        (b >> 4) & 15
    }
}

/// The glyph that a payload gives the horizontal wall tile at `row`, `col`.
pub open spec fn payload_horizontal(payload: Seq<u8>, row: int, col: int) -> char {
    let k = row / 2 * 3 + col / 2;
    horizontal_glyph(two_bits(payload[k / 4], k % 4))
}

/// The glyph that a payload gives the vertical wall tile at `row`, `col`.
pub open spec fn payload_vertical(payload: Seq<u8>, row: int, col: int) -> char {
    let k = row / 2 * 4 + col / 2;
    vertical_glyph(two_bits(payload[3 + k / 4], k % 4))
}

/// The glyph that a payload gives the cell at `row`, `col`.
pub open spec fn payload_cell(payload: Seq<u8>, row: int, col: int) -> char {
    let k = row / 2 * 3 + col / 2;
    cell_glyph(four_bits(payload[6 + k / 2], k % 2))
}

/// How the intersection in column `col` is drawn, given the glyphs of the
/// wall tiles to its left and to its right in its row.
///
/// Between two wall tiles it is the corner mark when both are walls, `'#'`
/// when both are `'#'`, and `' '` in every other case: it is a wall exactly
/// when both tiles beside it are walls. At the border, where only one wall
/// tile lies beside it, it is `'#'` when that tile is `'#'` and the corner
/// mark otherwise.
pub open spec fn intersection_glyph(col: int, left: char, right: char) -> char {
    if col == 0 {
        if right == '#' {
            '#'
        } else {
            '\u{2022}'
        }
    } else if col == 6 {
        if left == '#' {
            '#'
        } else {
            '\u{2022}'
        }
    } else if left == '-' && right == '-' {
        '\u{2022}'
    } else if left == '#' && right == '#' {
        '#'
    } else {
        ' '
    }
}

/// The glyph that a payload gives the intersection at `row`, `col`.
pub open spec fn payload_intersection(payload: Seq<u8>, row: int, col: int) -> char {
    intersection_glyph(
        col,
        if col > 0 {
            payload_horizontal(payload, row, col - 1)
        } else {
            '#'
        },
        if col < 6 {
            payload_horizontal(payload, row, col + 1)
        } else {
            '#'
        },
    )
}

/// The glyph at `row`, `col` of the grid that a payload of eleven bytes
/// stands for. The wall tiles and the cells are drawn from their codes,
/// and the intersections as `intersection_glyph` says.
pub open spec fn radar_glyph(payload: Seq<u8>, row: int, col: int) -> char {
    if row % 2 == 0 && col % 2 == 1 {
        payload_horizontal(payload, row, col)
    } else if row % 2 == 1 && col % 2 == 0 {
        payload_vertical(payload, row, col)
    } else if row % 2 == 1 && col % 2 == 1 {
        payload_cell(payload, row, col)
    } else {
        payload_intersection(payload, row, col)
    }
}

/// Whether the glyph stands for a wall: a horizontal wall, a vertical wall
/// or the corner mark.
pub open spec fn is_wall_glyph(c: char) -> bool {
    c == '-' || c == '|' || c == '\u{2022}'
}

/// An intersection between two wall tiles is the corner mark exactly when
/// both wall tiles beside it in its row are walls. When they are not, it
/// is no wall at all: it is `'#'` when both are `'#'`, and `' '` otherwise.
pub proof fn lemma_inner_intersections(payload: Seq<u8>, row: int, col: int)
    requires
        0 <= row < 7,
        row % 2 == 0,
        col == 2 || col == 4,
    ensures
        ({
            let left = payload_horizontal(payload, row, col - 1);
            let right = payload_horizontal(payload, row, col + 1);
            let corner = radar_glyph(payload, row, col);
            &&& corner == '\u{2022}' <==> left == '-' && right == '-'
            &&& is_wall_glyph(corner) <==> is_wall_glyph(left) && is_wall_glyph(right)
            &&& corner == '#' <==> left == '#' && right == '#'
            &&& corner == '\u{2022}' || corner == '#' || corner == ' '
        }),
{
}

/// The rows of the grid that a payload of eleven bytes stands for.
pub open spec fn radar_rows(payload: Seq<u8>) -> Seq<Seq<char>> {
    Seq::new(7, |row: int| Seq::new(7, |col: int| radar_glyph(payload, row, col)))
}

fn wall_bits(c: char) -> (v: u8)
    ensures
        v == wall_code(c),
{
    if c == '|' || c == '-' {
        2
    } else if c == ' ' {
        1
    } else {
        0
    }
}

fn cell_bits(c: char) -> (v: u8)
    ensures
        v == cell_code(c),
{
    if c == ' ' {
        0
    } else if c == '*' {
        8
    } else {
        15
    }
}

fn horizontal_bits(grid: &[[char; 7]; 7], k: usize) -> (v: u8)
    requires
        k < 12,
    ensures
        v == wall_code(horizontal_wall(rows_of(*grid), k as int)),
{
    wall_bits(grid[k / 3 * 2][k % 3 * 2 + 1])
}

fn vertical_bits(grid: &[[char; 7]; 7], k: usize) -> (v: u8)
    requires
        k < 12,
    ensures
        v == wall_code(vertical_wall(rows_of(*grid), k as int)),
{
    wall_bits(grid[k / 4 * 2 + 1][k % 4 * 2])
}

fn cell_bits_at(grid: &[[char; 7]; 7], k: usize) -> (v: u8)
    requires
        k < 9,
    ensures
        v == cell_code(cell(rows_of(*grid), k as int)),
{
    cell_bits(grid[k / 3 * 2 + 1][k % 3 * 2 + 1])
}

fn payload_byte(grid: &[[char; 7]; 7], j: usize) -> (b: u8)
    requires
        j < 11,
    ensures
        b == radar_byte(rows_of(*grid), j as int),
{
    if j < 3 {
        let c0 = horizontal_bits(grid, 4 * j);
        let c1 = horizontal_bits(grid, 4 * j + 1);
        let c2 = horizontal_bits(grid, 4 * j + 2);
        let c3 = horizontal_bits(grid, 4 * j + 3);
        c0 | (c1 << 2) | (c2 << 4) | (c3 << 6)
    } else if j < 6 {
        let c0 = vertical_bits(grid, 4 * (j - 3));
        let c1 = vertical_bits(grid, 4 * (j - 3) + 1);
        let c2 = vertical_bits(grid, 4 * (j - 3) + 2);
        let c3 = vertical_bits(grid, 4 * (j - 3) + 3);
        c0 | (c1 << 2) | (c2 << 4) | (c3 << 6)
    } else if j < 10 {
        let low = cell_bits_at(grid, 2 * (j - 6));
        let high = cell_bits_at(grid, 2 * (j - 6) + 1);
        low | (high << 4)
    } else {
        let low = cell_bits_at(grid, 8);
        low | (0u8 << 4)
    }
}

/// Packs a radar view into its payload of eleven bytes.
pub fn encode_radar_view_binary(radar_view: [[char; 7]; 7]) -> (payload: Vec<u8>)
    ensures
        payload@ == radar_payload(rows_of(radar_view)),
{
    let mut payload: Vec<u8> = Vec::with_capacity(RADAR_PAYLOAD_LEN);
    let mut j: usize = 0;
    while j < RADAR_PAYLOAD_LEN
        invariant
            j <= 11,
            payload@ =~= Seq::new(j as nat, |i: int| radar_byte(rows_of(radar_view), i)),
        decreases 11 - j,
    {
        payload.push(payload_byte(&radar_view, j));
        j = j + 1;
    }
    payload
}

fn two_bits_of(b: u8, t: usize) -> (v: u8)
    ensures
        v == two_bits(b, t as int),
{
    if t == 0 {
        b & 3
    } else if t == 1 {
        (b >> 2) & 3
    } else if t == 2 {
        (b >> 4) & 3
    } else {
        (b >> 6) & 3
    }
}

fn horizontal_at(payload: &Vec<u8>, row: usize, col: usize) -> (c: char)
    requires
        payload@.len() == 11,
        row < 7,
        col < 7,
        row % 2 == 0,
        col % 2 == 1,
    ensures
        c == payload_horizontal(payload@, row as int, col as int),
{
    let k = row / 2 * 3 + col / 2;
    let code = two_bits_of(payload[k / 4], k % 4);
    if code == 0 {
        '#'
    } else if code == 2 {
        '-'
    } else {
        ' '
    }
}

fn vertical_at(payload: &Vec<u8>, row: usize, col: usize) -> (c: char)
    requires
        payload@.len() == 11,
        row < 7,
        col < 7,
        row % 2 == 1,
        col % 2 == 0,
    ensures
        c == payload_vertical(payload@, row as int, col as int),
{
    let k = row / 2 * 4 + col / 2;
    let code = two_bits_of(payload[3 + k / 4], k % 4);
    if code == 0 {
        '#'
    } else if code == 2 {
        '|'
    } else {
        ' '
    }
}

fn cell_at(payload: &Vec<u8>, row: usize, col: usize) -> (c: char)
    requires
        payload@.len() == 11,
        row < 7,
        col < 7,
        row % 2 == 1,
        col % 2 == 1,
    ensures
        c == payload_cell(payload@, row as int, col as int),
{
    let k = row / 2 * 3 + col / 2;
    let b = payload[6 + k / 2];
    let code = if k % 2 == 0 {
        b & 15
    } else {
        (b >> 4) & 15
    };
    if code == 0 {
        ' '
    } else if code == 8 {
        'G'
    } else {
        '#'
    }
}

fn glyph_at(payload: &Vec<u8>, row: usize, col: usize) -> (c: char)
    requires
        payload@.len() == 11,
        row < 7,
        col < 7,
    ensures
        c == radar_glyph(payload@, row as int, col as int),
{
    if row % 2 == 0 && col % 2 == 1 {
        horizontal_at(payload, row, col)
    } else if row % 2 == 1 && col % 2 == 0 {
        vertical_at(payload, row, col)
    } else if row % 2 == 1 && col % 2 == 1 {
        cell_at(payload, row, col)
    } else if col == 0 {
        if horizontal_at(payload, row, 1) == '#' {
            '#'
        } else {
            '\u{2022}'
        }
    } else if col == 6 {
        if horizontal_at(payload, row, 5) == '#' {
            '#'
        } else {
            '\u{2022}'
        }
    } else {
        let left = horizontal_at(payload, row, col - 1);
        let right = horizontal_at(payload, row, col + 1);
        if left == '-' && right == '-' {
            '\u{2022}'
        } else if left == '#' && right == '#' {
            '#'
        } else {
            ' '
        }
    }
}

/// Unpacks a radar payload into the grid that it stands for.
///
/// A payload that does not have eleven bytes is refused with
/// `BadRadarLength`.
pub fn decode_radar_view_binary(binary_radar_view: Vec<u8>) -> (r: Result<
    [[char; 7]; 7],
    ProtocolError,
>)
    ensures
        binary_radar_view@.len() == 11 ==> r is Ok && rows_of(r->Ok_0) == radar_rows(
            binary_radar_view@,
        ),
        binary_radar_view@.len() != 11 ==> r == Err::<[[char; 7]; 7], ProtocolError>(
            ProtocolError::BadRadarLength,
        ),
{
    if binary_radar_view.len() != RADAR_PAYLOAD_LEN {
        return Err(ProtocolError::BadRadarLength);
    }
    let mut radar_view = [['#'; 7]; 7];
    let mut row: usize = 0;
    while row < 7
        invariant
            row <= 7,
            binary_radar_view@.len() == 11,
            forall|r: int, c: int|
                0 <= r < row && 0 <= c < 7 ==> #[trigger] radar_view[r][c] == radar_glyph(
                    binary_radar_view@,
                    r,
                    c,
                ),
        decreases 7 - row,
    {
        let mut line = ['#'; 7];
        let mut col: usize = 0;
        while col < 7
            invariant
                row < 7,
                col <= 7,
                binary_radar_view@.len() == 11,
                forall|c: int|
                    0 <= c < col ==> #[trigger] line[c] == radar_glyph(
                        binary_radar_view@,
                        row as int,
                        c,
                    ),
            decreases 7 - col,
        {
            line[col] = glyph_at(&binary_radar_view, row, col);
            col = col + 1;
        }
        radar_view[row] = line;
        row = row + 1;
    }
    assert(rows_of(radar_view) =~~= radar_rows(binary_radar_view@));
    Ok(radar_view)
}

/// What the tile at `row`, `col` of `grid` looks like once the grid has gone
/// through a payload: each wall tile and each cell is drawn from its code,
/// and each intersection from the codes of the wall tiles beside it.
pub open spec fn redrawn(grid: Seq<Seq<char>>, row: int, col: int) -> char {
    if row % 2 == 0 && col % 2 == 1 {
        horizontal_glyph(wall_code(grid[row][col]))
    } else if row % 2 == 1 && col % 2 == 0 {
        vertical_glyph(wall_code(grid[row][col]))
    } else if row % 2 == 1 && col % 2 == 1 {
        cell_glyph(cell_code(grid[row][col]))
    } else {
        intersection_glyph(
            col,
            if col > 0 {
                horizontal_glyph(wall_code(grid[row][col - 1]))
            } else {
                '#'
            },
            if col < 6 {
                horizontal_glyph(wall_code(grid[row][col + 1]))
            } else {
                '#'
            },
        )
    }
}

/// A grid as a payload draws it: horizontal wall tiles are `'-'`, `' '` or
/// `'#'`, vertical ones `'|'`, `' '` or `'#'`, cells `' '` or `'#'`, and
/// each intersection is drawn from the wall tiles beside it in its row as
/// `intersection_glyph` says. No cell of such a grid is the goal.
pub open spec fn is_drawn_radar(grid: Seq<Seq<char>>) -> bool {
    forall|row: int, col: int|
        0 <= row < 7 && 0 <= col < 7 ==> {
            let c = #[trigger] grid[row][col];
            if row % 2 == 0 && col % 2 == 1 {
                c == '#' || c == '-' || c == ' '
            } else if row % 2 == 1 && col % 2 == 0 {
                c == '#' || c == '|' || c == ' '
            } else if row % 2 == 1 && col % 2 == 1 {
                c == '#' || c == ' '
            } else {
                c == intersection_glyph(
                    col,
                    if col > 0 {
                        grid[row][col - 1]
                    } else {
                        '#'
                    },
                    if col < 6 {
                        grid[row][col + 1]
                    } else {
                        '#'
                    },
                )
            }
        }
}

proof fn lemma_unpack_walls(c0: u8, c1: u8, c2: u8, c3: u8)
    requires
        c0 < 4,
        c1 < 4,
        c2 < 4,
        c3 < 4,
    ensures
        two_bits(pack_walls(c0, c1, c2, c3), 0) == c0,
        two_bits(pack_walls(c0, c1, c2, c3), 1) == c1,
        two_bits(pack_walls(c0, c1, c2, c3), 2) == c2,
        two_bits(pack_walls(c0, c1, c2, c3), 3) == c3,
{
    assert((c0 | (c1 << 2) | (c2 << 4) | (c3 << 6)) & 3 == c0) by (bit_vector)
        requires
            c0 < 4,
            c1 < 4,
            c2 < 4,
            c3 < 4,
    ;
    assert(((c0 | (c1 << 2) | (c2 << 4) | (c3 << 6)) >> 2) & 3 == c1) by (bit_vector)
        requires
            c0 < 4,
            c1 < 4,
            c2 < 4,
            c3 < 4,
    ;
    assert(((c0 | (c1 << 2) | (c2 << 4) | (c3 << 6)) >> 4) & 3 == c2) by (bit_vector)
        requires
            c0 < 4,
            c1 < 4,
            c2 < 4,
            c3 < 4,
    ;
    assert(((c0 | (c1 << 2) | (c2 << 4) | (c3 << 6)) >> 6) & 3 == c3) by (bit_vector)
        requires
            c0 < 4,
            c1 < 4,
            c2 < 4,
            c3 < 4,
    ;
}

proof fn lemma_unpack_cells(low: u8, high: u8)
    requires
        low < 16,
        high < 16,
    ensures
        four_bits(pack_cells(low, high), 0) == low,
        four_bits(pack_cells(low, high), 1) == high,
{
    assert((low | (high << 4)) & 15 == low) by (bit_vector)
        requires
            low < 16,
            high < 16,
    ;
    assert(((low | (high << 4)) >> 4) & 15 == high) by (bit_vector)
        requires
            low < 16,
            high < 16,
    ;
}

/// The payload of a grid holds the code of each horizontal wall tile.
proof fn lemma_horizontal_code(grid: Seq<Seq<char>>, k: int)
    requires
        0 <= k < 12,
    ensures
        two_bits(radar_payload(grid)[k / 4], k % 4) == wall_code(horizontal_wall(grid, k)),
{
    let j = k / 4;
    lemma_unpack_walls(
        wall_code(horizontal_wall(grid, 4 * j)),
        wall_code(horizontal_wall(grid, 4 * j + 1)),
        wall_code(horizontal_wall(grid, 4 * j + 2)),
        wall_code(horizontal_wall(grid, 4 * j + 3)),
    );
}

/// The payload of a grid holds the code of each vertical wall tile.
proof fn lemma_vertical_code(grid: Seq<Seq<char>>, k: int)
    requires
        0 <= k < 12,
    ensures
        two_bits(radar_payload(grid)[3 + k / 4], k % 4) == wall_code(vertical_wall(grid, k)),
{
    let j = k / 4;
    lemma_unpack_walls(
        wall_code(vertical_wall(grid, 4 * j)),
        wall_code(vertical_wall(grid, 4 * j + 1)),
        wall_code(vertical_wall(grid, 4 * j + 2)),
        wall_code(vertical_wall(grid, 4 * j + 3)),
    );
}

/// The payload of a grid holds the code of each cell.
proof fn lemma_cell_code(grid: Seq<Seq<char>>, k: int)
    requires
        0 <= k < 9,
    ensures
        four_bits(radar_payload(grid)[6 + k / 2], k % 2) == cell_code(cell(grid, k)),
{
    let j = k / 2;
    if k < 8 {
        lemma_unpack_cells(cell_code(cell(grid, 2 * j)), cell_code(cell(grid, 2 * j + 1)));
    } else {
        lemma_unpack_cells(cell_code(cell(grid, 8)), 0);
    }
}

proof fn lemma_payload_horizontal(grid: Seq<Seq<char>>, row: int, col: int)
    requires
        0 <= row < 7,
        0 <= col < 7,
        row % 2 == 0,
        col % 2 == 1,
    ensures
        payload_horizontal(radar_payload(grid), row, col) == horizontal_glyph(
            wall_code(grid[row][col]),
        ),
{
    let k = row / 2 * 3 + col / 2;
    assert(k / 3 * 2 == row && k % 3 * 2 + 1 == col);
    lemma_horizontal_code(grid, k);
}

/// Encoding a grid and decoding the payload keeps what the grid says: every
/// wall tile and every cell comes back as the drawing of its own code, and
/// every intersection follows from the wall tiles beside it. So a wall comes
/// back as a wall, an opening as an opening, an open cell as an open cell,
/// and the goal as the goal, in the glyphs of the decoded view.
pub proof fn lemma_radar_round_trip(grid: Seq<Seq<char>>)
    ensures
        radar_payload(grid).len() == 11,
        forall|row: int, col: int|
            0 <= row < 7 && 0 <= col < 7 ==> #[trigger] radar_glyph(
                radar_payload(grid),
                row,
                col,
            ) == redrawn(grid, row, col),
{
    let payload = radar_payload(grid);
    assert forall|row: int, col: int| 0 <= row < 7 && 0 <= col < 7 implies #[trigger] radar_glyph(
        payload,
        row,
        col,
    ) == redrawn(grid, row, col) by {
        if row % 2 == 0 && col % 2 == 1 {
            lemma_payload_horizontal(grid, row, col);
        } else if row % 2 == 1 && col % 2 == 0 {
            let k = row / 2 * 4 + col / 2;
            assert(k / 4 * 2 + 1 == row && k % 4 * 2 == col);
            lemma_vertical_code(grid, k);
        } else if row % 2 == 1 && col % 2 == 1 {
            let k = row / 2 * 3 + col / 2;
            assert(k / 3 * 2 + 1 == row && k % 3 * 2 + 1 == col);
            lemma_cell_code(grid, k);
        } else {
            if col > 0 {
                lemma_payload_horizontal(grid, row, col - 1);
            }
            if col < 6 {
                lemma_payload_horizontal(grid, row, col + 1);
            }
        }
    }
}

/// On a grid that is drawn as a payload draws it, decoding undoes encoding
/// glyph for glyph.
pub proof fn lemma_radar_round_trip_exact(grid: Seq<Seq<char>>)
    requires
        is_drawn_radar(grid),
    ensures
        forall|row: int, col: int|
            0 <= row < 7 && 0 <= col < 7 ==> #[trigger] radar_glyph(
                radar_payload(grid),
                row,
                col,
            ) == grid[row][col],
{
    lemma_radar_round_trip(grid);
    assert forall|row: int, col: int| 0 <= row < 7 && 0 <= col < 7 implies #[trigger] radar_glyph(
        radar_payload(grid),
        row,
        col,
    ) == grid[row][col] by {
        assert(radar_glyph(radar_payload(grid), row, col) == redrawn(grid, row, col));
        if row % 2 == 0 && col % 2 == 0 && col > 0 {
            let left = grid[row][col - 1];
            assert(horizontal_glyph(wall_code(left)) == left);
        }
        if row % 2 == 0 && col % 2 == 0 && col < 6 {
            let right = grid[row][col + 1];
            assert(horizontal_glyph(wall_code(right)) == right);
        }
    }
}

/// A payload as the encoder writes it: eleven bytes in which every wall
/// tile is undefined, open or a wall, every cell is open or undefined, and
/// the high half of the last byte is zero.
pub open spec fn is_plain_payload(payload: Seq<u8>) -> bool {
    &&& payload.len() == 11
    &&& forall|j: int, t: int|
        0 <= j < 6 && 0 <= t < 4 ==> #[trigger] two_bits(payload[j], t) != 3
    &&& forall|j: int, t: int|
        6 <= j < 11 && 0 <= t < 2 ==> #[trigger] four_bits(payload[j], t) == 0 || four_bits(
            payload[j],
            t,
        ) == 15
    &&& four_bits(payload[10], 1) == 0
}

proof fn lemma_repack(b: u8)
    ensures
        pack_walls(two_bits(b, 0), two_bits(b, 1), two_bits(b, 2), two_bits(b, 3)) == b,
        pack_cells(four_bits(b, 0), four_bits(b, 1)) == b,
{
    assert((b & 3) | (((b >> 2) & 3) << 2) | (((b >> 4) & 3) << 4) | (((b >> 6) & 3) << 6) == b)
        by (bit_vector);
    assert((b & 15) | (((b >> 4) & 15) << 4) == b) by (bit_vector);
}

proof fn lemma_two_bits_are_small(b: u8, t: int)
    ensures
        two_bits(b, t) < 4,
{
    assert(b & 3 < 4) by (bit_vector);
    assert((b >> 2) & 3 < 4) by (bit_vector);
    assert((b >> 4) & 3 < 4) by (bit_vector);
    assert((b >> 6) & 3 < 4) by (bit_vector);
}

/// Decoding a payload as the encoder writes it and encoding the grid
/// again gives the same eleven bytes.
pub proof fn lemma_payload_round_trip(payload: Seq<u8>)
    requires
        is_plain_payload(payload),
    ensures
        radar_payload(radar_rows(payload)) == payload,
{
    let rows = radar_rows(payload);
    assert forall|k: int| 0 <= k < 12 implies wall_code(#[trigger] horizontal_wall(rows, k))
        == two_bits(payload[k / 4], k % 4) by {
        let row = k / 3 * 2;
        let col = k % 3 * 2 + 1;
        assert(rows[row][col] == radar_glyph(payload, row, col));
        assert(row / 2 * 3 + col / 2 == k);
        lemma_two_bits_are_small(payload[k / 4], k % 4);
        assert(two_bits(payload[k / 4], k % 4) != 3);
    }
    assert forall|k: int| 0 <= k < 12 implies wall_code(#[trigger] vertical_wall(rows, k))
        == two_bits(payload[3 + k / 4], k % 4) by {
        let row = k / 4 * 2 + 1;
        let col = k % 4 * 2;
        assert(rows[row][col] == radar_glyph(payload, row, col));
        assert(row / 2 * 4 + col / 2 == k);
        lemma_two_bits_are_small(payload[3 + k / 4], k % 4);
        assert(two_bits(payload[3 + k / 4], k % 4) != 3);
    }
    assert forall|k: int| 0 <= k < 9 implies cell_code(#[trigger] cell(rows, k)) == four_bits(
        payload[6 + k / 2],
        k % 2,
    ) by {
        let row = k / 3 * 2 + 1;
        let col = k % 3 * 2 + 1;
        assert(rows[row][col] == radar_glyph(payload, row, col));
        assert(row / 2 * 3 + col / 2 == k);
        let code = four_bits(payload[6 + k / 2], k % 2);
        assert(code == 0 || code == 15);
    }
    assert forall|j: int| 0 <= j < 11 implies radar_byte(rows, j) == payload[j] by {
        lemma_repack(payload[j]);
        if j < 3 {
            assert(wall_code(horizontal_wall(rows, 4 * j)) == two_bits(payload[j], 0));
            assert(wall_code(horizontal_wall(rows, 4 * j + 1)) == two_bits(payload[j], 1));
            assert(wall_code(horizontal_wall(rows, 4 * j + 2)) == two_bits(payload[j], 2));
            assert(wall_code(horizontal_wall(rows, 4 * j + 3)) == two_bits(payload[j], 3));
        } else if j < 6 {
            let first = 4 * (j - 3);
            assert(wall_code(vertical_wall(rows, first)) == two_bits(payload[j], 0));
            assert(wall_code(vertical_wall(rows, first + 1)) == two_bits(payload[j], 1));
            assert(wall_code(vertical_wall(rows, first + 2)) == two_bits(payload[j], 2));
            assert(wall_code(vertical_wall(rows, first + 3)) == two_bits(payload[j], 3));
        } else if j < 10 {
            let first = 2 * (j - 6);
            assert(cell_code(cell(rows, first)) == four_bits(payload[j], 0));
            assert(cell_code(cell(rows, first + 1)) == four_bits(payload[j], 1));
        } else {
            assert(cell_code(cell(rows, 8)) == four_bits(payload[10], 0));
        }
    }
    assert(radar_payload(rows) =~= payload);
}

} // verus!
