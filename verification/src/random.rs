//! Random placement of food.

use vstd::prelude::*;
use rand::Rng;
use crate::grid::{cell_at, contains_cell, grid_cell, on_grid};
use crate::placement::{
    grid_fits, grid_is_covered, lemma_short_list_leaves_free_cell, resolve_food,
};

verus! {

/// The handle of `rand` to the random number generator of the current
/// thread. Nothing is known of what it holds.
#[verifier::external_type_specification]
#[verifier::external_body]
pub struct ExThreadRng(rand::rngs::ThreadRng);

/// `rand::thread_rng`: hands out the generator of the current thread, seeded
/// by the system on first use. Nothing is claimed of the handle. The call
/// takes no input and panics only where the system has no entropy to seed
/// the generator with.
pub assume_specification[ rand::thread_rng ]() -> (rng: rand::rngs::ThreadRng);

/// `rand::Rng::gen_range` on `usize`, from zero: draws a number from zero up
/// to, but not including, `bound`. The claim is only that the number lies in
/// that range, whatever the generator yields. The call panics on an empty
/// range, which `requires` rules out.
#[verifier::external_body]
fn draw_below(rng: &mut rand::rngs::ThreadRng, bound: usize) -> (n: usize)
    requires
        bound > 0,
    ensures
        n < bound,
{
    rng.gen_range(0, bound)
}

/// How many times a draw that fell on an occupied cell is repeated before
/// the grid is searched cell by cell.
pub const MAX_RESAMPLES: usize = 1024;

/// A source of random cells.
#[derive(Clone, Copy)]
pub struct Random {
    rng: rand::rngs::ThreadRng,
}

impl Random {
    /// A source that draws from the random number generator of the current
    /// thread.
    pub fn new() -> Random {
        Random { rng: rand::thread_rng() }
    }

    /// Draws one cell of the grid, each column and each row being as likely
    /// as any other.
    fn random_cell(&mut self, grid_x: usize, grid_y: usize, cell_size: i32) -> (c: (i32, i32))
        requires
            grid_fits(grid_x as int, grid_y as int, cell_size as int),
        ensures
            on_grid(c, grid_x as int, grid_y as int, cell_size as int),
    {
        let col: usize = draw_below(&mut self.rng, grid_x);
        let row: usize = draw_below(&mut self.rng, grid_y);
        assert(col * cell_size <= grid_x * cell_size && row * cell_size <= grid_y * cell_size)
            by (nonlinear_arith)
            requires
                col < grid_x,
                row < grid_y,
                cell_size >= 1,
        ;
        let c: (i32, i32) = cell_at(col, row, cell_size);
        assert(c == grid_cell(col as int, row as int, cell_size as int));
        c
    }

    /// Picks a cell of the grid for new food.
    ///
    /// A cell is drawn at random. With `snake` given, a draw that falls on
    /// one of its cells is repeated, up to `MAX_RESAMPLES` times; should
    /// every draw fall on the snake, the first cell of the grid that the
    /// snake leaves free is taken. The food therefore never lies on the
    /// snake unless the snake covers the whole grid, which a snake with
    /// fewer entries than the grid has cells cannot do.
    pub fn random_food(
        self,
        grid_x: usize,
        grid_y: usize,
        cell_size: i32,
        snake: Option<&Vec<(i32, i32)>>,
    ) -> (food: (i32, i32))
        requires
            grid_fits(grid_x as int, grid_y as int, cell_size as int),
        ensures
            on_grid(food, grid_x as int, grid_y as int, cell_size as int),
            snake matches Some(sn) ==> (!grid_is_covered(
                sn@,
                grid_x as int,
                grid_y as int,
                cell_size as int,
            ) ==> !sn@.contains(food)),
            snake matches Some(sn) ==> (sn@.len() < grid_x * grid_y ==> !sn@.contains(food)),
    {
        let mut source: Random = self;
        let mut food: (i32, i32) = source.random_cell(grid_x, grid_y, cell_size);
        match snake {
            Some(sn) => {
                let mut resamples: usize = 0;
                while resamples < MAX_RESAMPLES && contains_cell(sn, food)
                    invariant
                        resamples <= MAX_RESAMPLES,
                        grid_fits(grid_x as int, grid_y as int, cell_size as int),
                        on_grid(food, grid_x as int, grid_y as int, cell_size as int),
                    decreases MAX_RESAMPLES - resamples,
                {
                    food = source.random_cell(grid_x, grid_y, cell_size);
                    resamples += 1;
                }
                proof {
                    if sn@.len() < grid_x * grid_y {
                        lemma_short_list_leaves_free_cell(
                            sn@,
                            grid_x as int,
                            grid_y as int,
                            cell_size as int,
                        );
                    }
                }
                resolve_food(food, grid_x, grid_y, cell_size, sn)
            },
            None => food,
        }
    }
}

} // verus!
