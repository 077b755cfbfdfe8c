//! Where food may go: the cells of a grid that a list of cells leaves free.

use vstd::prelude::*;
use vstd::arithmetic::div_mod::{lemma_fundamental_div_mod, lemma_multiply_divide_lt};
use vstd::seq_lib::seq_to_set_is_finite;
use vstd::set_lib::lemma_len_subset;
use crate::grid::{cell_at, contains_cell, grid_cell, on_grid};

verus! {

/// Whether a grid of the given shape can be addressed: it has at least one
/// cell, the cells have a side of at least one pixel, and the pixel
/// coordinates of all of them fit the coordinate type.
pub open spec fn grid_fits(cols: int, rows: int, cell_size: int) -> bool {
    &&& cols >= 1
    &&& rows >= 1
    &&& cell_size >= 1
    &&& cols * cell_size <= i32::MAX
    &&& rows * cell_size <= i32::MAX
}

/// Whether every cell of the grid occurs in `occupied`.
pub open spec fn grid_is_covered(
    occupied: Seq<(i32, i32)>,
    cols: int,
    rows: int,
    cell_size: int,
) -> bool {
    forall|col: int, row: int|
        0 <= col < cols && 0 <= row < rows ==> occupied.contains(
            #[trigger] grid_cell(col, row, cell_size),
        )
}

/// Whether the cell in column `col2` and row `row2` comes before the one in
/// column `col` and row `row` when the grid is read row by row.
pub open spec fn precedes(col2: int, row2: int, col: int, row: int) -> bool {
    row2 < row || (row2 == row && col2 < col)
}

/// Whether `c` is the first cell of the grid, read row by row, that does not
/// occur in `occupied`.
pub open spec fn is_first_free(
    c: (i32, i32),
    occupied: Seq<(i32, i32)>,
    cols: int,
    rows: int,
    cell_size: int,
) -> bool {
    exists|col: int, row: int|
        {
            &&& 0 <= col < cols
            &&& 0 <= row < rows
            &&& c == #[trigger] grid_cell(col, row, cell_size)
            &&& !occupied.contains(c)
            &&& forall|col2: int, row2: int|
                0 <= col2 < cols && 0 <= row2 < rows && precedes(col2, row2, col, row)
                    ==> occupied.contains(#[trigger] grid_cell(col2, row2, cell_size))
        }
}

/// Whether `food` is where a candidate cell ends up once `occupied` is taken
/// into account: the candidate itself where it is free, else the first free
/// cell of the grid, else (nothing being free) the candidate.
pub open spec fn is_settled(
    food: (i32, i32),
    candidate: (i32, i32),
    occupied: Seq<(i32, i32)>,
    cols: int,
    rows: int,
    cell_size: int,
) -> bool {
    if !occupied.contains(candidate) || grid_is_covered(occupied, cols, rows, cell_size) {
        food == candidate
    } else {
        is_first_free(food, occupied, cols, rows, cell_size)
    }
}

/// The cell that has number `k` when the cells of a grid with `cols` columns
/// are counted row by row from zero.
spec fn cell_of_index(k: int, cols: int, cell_size: int) -> (i32, i32) {
    grid_cell(k % cols, k / cols, cell_size)
}

/// The first `n` cells of the grid, counted row by row.
spec fn first_cells(n: nat, cols: int, cell_size: int) -> Set<(i32, i32)>
    decreases n,
{
    if n == 0 {
        Set::empty()
    } else {
        first_cells((n - 1) as nat, cols, cell_size).insert(
            cell_of_index(n - 1, cols, cell_size),
        )
    }
}

/// A cell's number gives its column and row, both within the grid.
proof fn lemma_index_in_grid(k: int, cols: int, rows: int)
    requires
        cols >= 1,
        rows >= 1,
        0 <= k < cols * rows,
    ensures
        0 <= k % cols < cols,
        0 <= k / cols < rows,
        k == cols * (k / cols) + k % cols,
{
    lemma_fundamental_div_mod(k, cols);
    lemma_multiply_divide_lt(k, cols, rows);
}

/// Two cells of the grid with the same pixel coordinates have the same
/// column and row.
proof fn lemma_grid_cell_injective(
    col1: int,
    row1: int,
    col2: int,
    row2: int,
    cols: int,
    rows: int,
    cell_size: int,
)
    requires
        grid_fits(cols, rows, cell_size),
        0 <= col1 < cols,
        0 <= row1 < rows,
        0 <= col2 < cols,
        0 <= row2 < rows,
        grid_cell(col1, row1, cell_size) == grid_cell(col2, row2, cell_size),
    ensures
        col1 == col2,
        row1 == row2,
{
    assert(0 <= col1 * cell_size <= cols * cell_size && 0 <= col2 * cell_size <= cols
        * cell_size) by (nonlinear_arith)
        requires
            0 <= col1 < cols,
            0 <= col2 < cols,
            cell_size >= 1,
    ;
    assert(0 <= row1 * cell_size <= rows * cell_size && 0 <= row2 * cell_size <= rows
        * cell_size) by (nonlinear_arith)
        requires
            0 <= row1 < rows,
            0 <= row2 < rows,
            cell_size >= 1,
    ;
    assert(col1 * cell_size == col2 * cell_size);
    assert(row1 * cell_size == row2 * cell_size);
    assert(col1 == col2) by (nonlinear_arith)
        requires
            col1 * cell_size == col2 * cell_size,
            cell_size >= 1,
    ;
    assert(row1 == row2) by (nonlinear_arith)
        requires
            row1 * cell_size == row2 * cell_size,
            cell_size >= 1,
    ;
}

/// The first `n` cells of a grid are `n` different cells, each with a number
/// below `n`.
proof fn lemma_first_cells(n: nat, cols: int, rows: int, cell_size: int)
    requires
        grid_fits(cols, rows, cell_size),
        n <= cols * rows,
    ensures
        first_cells(n, cols, cell_size).finite(),
        first_cells(n, cols, cell_size).len() == n,
        forall|c: (i32, i32)| #[trigger]
            first_cells(n, cols, cell_size).contains(c) ==> exists|k: int|
                0 <= k < n && c == #[trigger] cell_of_index(k, cols, cell_size),
    decreases n,
{
    if n > 0 {
        let m = (n - 1) as nat;
        let rest = first_cells(m, cols, cell_size);
        let last = cell_of_index(n - 1, cols, cell_size);
        lemma_first_cells(m, cols, rows, cell_size);
        if rest.contains(last) {
            let k = choose|k: int| 0 <= k < m && last == #[trigger] cell_of_index(k, cols, cell_size);
            lemma_index_in_grid(k, cols, rows);
            lemma_index_in_grid(n - 1, cols, rows);
            lemma_grid_cell_injective(
                k % cols,
                k / cols,
                (n - 1) % cols,
                (n - 1) / cols,
                cols,
                rows,
                cell_size,
            );
            assert(false);
        }
        assert forall|c: (i32, i32)| #[trigger]
            first_cells(n, cols, cell_size).contains(c) implies exists|k: int|
            0 <= k < n && c == #[trigger] cell_of_index(k, cols, cell_size) by {
            if c == last {
                assert(c == cell_of_index(n - 1, cols, cell_size));
            } else {
                assert(rest.contains(c));
                let k = choose|k: int| 0 <= k < m && c == #[trigger] cell_of_index(k, cols, cell_size);
                assert(0 <= k < n && c == cell_of_index(k, cols, cell_size));
            }
        }
    }
}

/// A list that holds every cell of a grid has at least as many entries as
/// the grid has cells. Put the other way: a list shorter than the number of
/// cells leaves one of them free.
pub proof fn lemma_short_list_leaves_free_cell(
    occupied: Seq<(i32, i32)>,
    cols: int,
    rows: int,
    cell_size: int,
)
    requires
        grid_fits(cols, rows, cell_size),
        occupied.len() < cols * rows,
    ensures
        !grid_is_covered(occupied, cols, rows, cell_size),
{
    if grid_is_covered(occupied, cols, rows, cell_size) {
        assert(cols * rows >= 1) by (nonlinear_arith)
            requires
                cols >= 1,
                rows >= 1,
        ;
        let n = (cols * rows) as nat;
        let all = first_cells(n, cols, cell_size);
        lemma_first_cells(n, cols, rows, cell_size);
        assert forall|c: (i32, i32)| all.contains(c) implies #[trigger] occupied.to_set().contains(
            c,
        ) by {
            let k = choose|k: int| 0 <= k < n && c == #[trigger] cell_of_index(k, cols, cell_size);
            lemma_index_in_grid(k, cols, rows);
            assert(occupied.contains(grid_cell(k % cols, k / cols, cell_size)));
        }
        seq_to_set_is_finite(occupied);
        lemma_len_subset(all, occupied.to_set());
        occupied.lemma_cardinality_of_set();
        assert(false);
    }
}

/// Finds the first cell of the grid, read row by row, that does not occur in
/// `occupied`; `None` where every cell of the grid occurs in it.
pub fn first_free_cell(
    grid_x: usize,
    grid_y: usize,
    cell_size: i32,
    occupied: &Vec<(i32, i32)>,
) -> (found: Option<(i32, i32)>)
    requires
        grid_fits(grid_x as int, grid_y as int, cell_size as int),
    ensures
        match found {
            Some(c) => is_first_free(c, occupied@, grid_x as int, grid_y as int, cell_size as int),
            None => grid_is_covered(occupied@, grid_x as int, grid_y as int, cell_size as int),
        },
{
    let mut row: usize = 0;
    while row < grid_y
        invariant
            row <= grid_y,
            grid_fits(grid_x as int, grid_y as int, cell_size as int),
            forall|col2: int, row2: int|
                0 <= col2 < grid_x && 0 <= row2 < row ==> occupied@.contains(
                    #[trigger] grid_cell(col2, row2, cell_size as int),
                ),
        decreases grid_y - row,
    {
        let mut col: usize = 0;
        while col < grid_x
            invariant
                col <= grid_x,
                row < grid_y,
                grid_fits(grid_x as int, grid_y as int, cell_size as int),
                forall|col2: int, row2: int|
                    0 <= col2 < grid_x && 0 <= row2 < row ==> occupied@.contains(
                        #[trigger] grid_cell(col2, row2, cell_size as int),
                    ),
                forall|col2: int|
                    0 <= col2 < col ==> occupied@.contains(
                        #[trigger] grid_cell(col2, row as int, cell_size as int),
                    ),
            decreases grid_x - col,
        {
            assert(col * cell_size <= grid_x * cell_size && row * cell_size <= grid_y * cell_size)
                by (nonlinear_arith)
                requires
                    col < grid_x,
                    row < grid_y,
                    cell_size >= 1,
            ;
            let c: (i32, i32) = cell_at(col, row, cell_size);
            if !contains_cell(occupied, c) {
                assert(is_first_free(c, occupied@, grid_x as int, grid_y as int, cell_size as int))
                    by {
                    assert(c == grid_cell(col as int, row as int, cell_size as int));
                    assert forall|col2: int, row2: int|
                        0 <= col2 < grid_x && 0 <= row2 < grid_y && precedes(
                            col2,
                            row2,
                            col as int,
                            row as int,
                        ) implies occupied@.contains(
                        #[trigger] grid_cell(col2, row2, cell_size as int),
                    ) by {
                        if row2 == row {
                            assert(occupied@.contains(grid_cell(col2, row as int, cell_size as int)));
                        }
                    }
                }
                return Some(c);
            }
            col += 1;
        }
        row += 1;
    }
    None
}

/// Settles where food goes, given a candidate cell: the candidate itself
/// where it does not occur in `occupied`, else the first cell of the grid
/// that `occupied` leaves free, else (no cell being free) the candidate.
pub fn resolve_food(
    candidate: (i32, i32),
    grid_x: usize,
    grid_y: usize,
    cell_size: i32,
    occupied: &Vec<(i32, i32)>,
) -> (food: (i32, i32))
    requires
        grid_fits(grid_x as int, grid_y as int, cell_size as int),
    ensures
        is_settled(food, candidate, occupied@, grid_x as int, grid_y as int, cell_size as int),
        on_grid(candidate, grid_x as int, grid_y as int, cell_size as int) ==> on_grid(
            food,
            grid_x as int,
            grid_y as int,
            cell_size as int,
        ),
        !grid_is_covered(occupied@, grid_x as int, grid_y as int, cell_size as int)
            ==> !occupied@.contains(food),
{
    if !contains_cell(occupied, candidate) {
        return candidate;
    }
    match first_free_cell(grid_x, grid_y, cell_size, occupied) {
        Some(c) => c,
        None => candidate,
    }
}

} // verus!
