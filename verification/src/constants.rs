//! Fixed parameters of the game: the grid, the pace and the colours.

use vstd::prelude::*;

verus! {

// Game grid

/// Side of one square cell, in pixels.
pub const CELL_SIZE: i32 = 32;

/// Number of cell rows on the screen.
pub const NUM_ROWS: usize = 12;

/// Number of cell columns on the screen.
pub const NUM_COLS: usize = 16;

/// Width of the screen in pixels: `NUM_COLS` cells.
pub const SCREEN_WIDTH: i32 = 16 * CELL_SIZE;

/// Height of the screen in pixels: `NUM_ROWS` cells.
pub const SCREEN_HEIGHT: i32 = 12 * CELL_SIZE;

/// Top-left corner of the cell in the middle of the screen.
pub const SCREEN_CENTER: (i32, i32) = (256, 192);

// Game dynamics

/// Length the snake grows to before it has eaten anything.
pub const INITIAL_SNAKE_SIZE: usize = 3;

/// Time between two ticks at the start of a session, in nanoseconds.
pub const INITIAL_TICK_INTERVAL: u64 = 300_000_000;

/// Number of meals between two increases of the pace.
pub const ACCELERATION_GAP: usize = 3;

/// Amount by which the tick interval shrinks at each increase of the pace,
/// in nanoseconds.
pub const ACCELERATION_VALUE: u64 = 20_000_000;

// Graphics

/// Side of one square eye of the snake, in pixels.
pub const SNAKE_EYE_SIZE: i32 = 8;

/// Gap left free around the square drawn for a cell, in pixels.
pub const PADDING: i32 = 1;

/// Height of the score text, in pixels.
pub const SCORE_TEXT_FONT_SIZE: i32 = 32;

// Colors

pub const BG_COLOR: (u8, u8, u8) = (0, 0, 0);

pub const SNAKE_HEAD_COLOR: (u8, u8, u8) = (90, 177, 90);

pub const SNAKE_BODY_COLOR: (u8, u8, u8) = (133, 255, 133);

pub const SNAKE_EYE_COLOR: (u8, u8, u8) = (255, 255, 90);

pub const FOOD_COLOR: (u8, u8, u8) = (192, 40, 30);

pub const SCORE_TEXT_COLORS: (u8, u8, u8) = (255, 255, 255);

/// The screen is exactly the grid, and its centre is the corner of a cell.
pub proof fn lemma_screen_is_grid()
    ensures
        SCREEN_WIDTH == NUM_COLS * CELL_SIZE,
        SCREEN_HEIGHT == NUM_ROWS * CELL_SIZE,
        SCREEN_CENTER.0 == SCREEN_WIDTH / 2,
        SCREEN_CENTER.1 == SCREEN_HEIGHT / 2,
        SNAKE_EYE_SIZE == CELL_SIZE / 4,
{
}

} // verus!
