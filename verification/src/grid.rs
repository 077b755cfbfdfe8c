//! Geometry of the playing field.
//!
//! A cell is named by the pixel coordinates of its top-left corner, so every
//! cell of a grid has coordinates that are multiples of the cell size. The
//! field is a torus: leaving it through one edge leads back in through the
//! opposite one.

use vstd::prelude::*;
use crate::constants::{CELL_SIZE, NUM_COLS, NUM_ROWS, SCREEN_HEIGHT, SCREEN_WIDTH};
use crate::direction::Direction;

verus! {

/// The cell in column `col` and row `row` of a grid with cells of side
/// `cell_size`.
pub open spec fn grid_cell(col: int, row: int, cell_size: int) -> (i32, i32) {
    ((col * cell_size) as i32, (row * cell_size) as i32)
}

/// Whether `c` is one of the cells of a grid with `cols` columns and `rows`
/// rows of cells of side `cell_size`.
pub open spec fn on_grid(c: (i32, i32), cols: int, rows: int, cell_size: int) -> bool {
    exists|col: int, row: int|
        0 <= col < cols && 0 <= row < rows && c == #[trigger] grid_cell(col, row, cell_size)
}

/// Whether `c` is one of the cells of the screen.
pub open spec fn on_screen(c: (i32, i32)) -> bool {
    &&& 0 <= c.0 < SCREEN_WIDTH
    &&& c.0 % CELL_SIZE == 0
    &&& 0 <= c.1 < SCREEN_HEIGHT
    &&& c.1 % CELL_SIZE == 0
}

/// Column of a cell of the screen.
pub open spec fn column_of(c: (i32, i32)) -> int {
    c.0 / CELL_SIZE
}

/// Row of a cell of the screen.
pub open spec fn row_of(c: (i32, i32)) -> int {
    c.1 / CELL_SIZE
}

/// The coordinate that stands for `v` on an axis of length `limit`: past the
/// far edge it is the near edge, before the near edge it is the last cell,
/// and anywhere else it is `v` itself.
pub open spec fn wrap(v: int, limit: int) -> int {
    if v >= limit {
        0
    } else if v < 0 {
        limit - CELL_SIZE
    } else {
        v
    }
}

/// The cell reached from `c` by one step in direction `d` on the screen.
pub open spec fn neighbour(c: (i32, i32), d: Direction) -> (i32, i32) {
    match d {
        Direction::Up => (c.0, wrap(c.1 - CELL_SIZE, SCREEN_HEIGHT as int) as i32),
        Direction::Down => (c.0, wrap(c.1 + CELL_SIZE, SCREEN_HEIGHT as int) as i32),
        Direction::Left => (wrap(c.0 - CELL_SIZE, SCREEN_WIDTH as int) as i32, c.1),
        Direction::Right => (wrap(c.0 + CELL_SIZE, SCREEN_WIDTH as int) as i32, c.1),
    }
}

/// The cells of the screen are the cells of the grid of `NUM_COLS` by
/// `NUM_ROWS` cells of side `CELL_SIZE`.
pub proof fn lemma_screen_cells(c: (i32, i32))
    ensures
        on_screen(c) <==> on_grid(c, NUM_COLS as int, NUM_ROWS as int, CELL_SIZE as int),
{
    if on_screen(c) {
        assert(c == grid_cell(column_of(c), row_of(c), CELL_SIZE as int));
    }
}

/// Computes the cell in column `col` and row `row`.
pub fn cell_at(col: usize, row: usize, cell_size: i32) -> (c: (i32, i32))
    requires
        cell_size >= 1,
        col * cell_size <= i32::MAX,
        row * cell_size <= i32::MAX,
    ensures
        c == grid_cell(col as int, row as int, cell_size as int),
{
    assert(col <= col * cell_size && row <= row * cell_size) by (nonlinear_arith)
        requires
            cell_size >= 1,
    ;
    let x: i32 = (col as i32) * cell_size;
    let y: i32 = (row as i32) * cell_size;
    (x, y)
}

/// Tells whether `c` occurs in `cells`.
pub fn contains_cell(cells: &Vec<(i32, i32)>, c: (i32, i32)) -> (found: bool)
    ensures
        found == cells@.contains(c),
{
    let mut i: usize = 0;
    while i < cells.len()
        invariant
            i <= cells.len(),
            forall|j: int| 0 <= j < i ==> cells@[j] != c,
        decreases cells.len() - i,
    {
        let d: (i32, i32) = cells[i];
        if d.0 == c.0 && d.1 == c.1 {
            return true;
        }
        i += 1;
    }
    false
}

/// Brings a coordinate back onto an axis of length `limit`.
fn wrapped(v: i64, limit: i32) -> (w: i32)
    requires
        limit >= CELL_SIZE,
    ensures
        w == wrap(v as int, limit as int),
{
    if v >= limit as i64 {
        0
    } else if v < 0 {
        limit - CELL_SIZE
    } else {
        v as i32
    }
}

/// Computes the cell that the head reaches by one step in `direction`,
/// re-entering through the opposite edge where the step leaves the screen.
pub fn next_head(head: (i32, i32), direction: &Direction) -> (next: (i32, i32))
    ensures
        next == neighbour(head, *direction),
        on_screen(head) ==> on_screen(next),
{
    let size: i64 = CELL_SIZE as i64;
    match direction {
        Direction::Up => (head.0, wrapped(head.1 as i64 - size, SCREEN_HEIGHT)),
        Direction::Down => (head.0, wrapped(head.1 as i64 + size, SCREEN_HEIGHT)),
        Direction::Left => (wrapped(head.0 as i64 - size, SCREEN_WIDTH), head.1),
        Direction::Right => (wrapped(head.0 as i64 + size, SCREEN_WIDTH), head.1),
    }
}

/// Tells whether `c` is one of the cells of the screen.
pub fn is_on_screen(c: (i32, i32)) -> (b: bool)
    ensures
        b == on_screen(c),
{
    0 <= c.0 && c.0 < SCREEN_WIDTH && c.0 % CELL_SIZE == 0 && 0 <= c.1 && c.1 < SCREEN_HEIGHT
        && c.1 % CELL_SIZE == 0
}

} // verus!
