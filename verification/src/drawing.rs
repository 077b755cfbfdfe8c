//! What a frame shows, as plain shapes: where the squares of the snake, its
//! eyes and the food go. Putting the shapes on a screen is left to the
//! program.

use vstd::prelude::*;
use crate::constants::{CELL_SIZE, PADDING, SNAKE_EYE_SIZE};
use crate::direction::Direction;

verus! {

/// A rectangle with its top-left corner at (`x`, `y`), in pixels.
#[derive(Clone, Copy, Debug, PartialEq, Eq, Structural)]
pub struct Rect {
    pub x: i64,
    pub y: i64,
    pub w: i64,
    pub h: i64,
}

/// The shapes of one frame.
pub struct Scene {
    /// The square of the head.
    pub head: Rect,
    /// The eye on the snake's left as it looks ahead.
    pub left_eye: Rect,
    /// The eye on the snake's right as it looks ahead.
    pub right_eye: Rect,
    /// The squares of the cells behind the head, in the snake's order.
    pub body: Vec<Rect>,
    /// The centre of the disc that shows the food.
    pub food: (i64, i64),
    /// The number of meals so far.
    pub score: usize,
}

/// The square drawn for cell `c`: the cell without a margin of `PADDING`.
pub open spec fn cell_rect(c: (i32, i32)) -> Rect {
    Rect {
        x: (c.0 + PADDING) as i64,
        y: (c.1 + PADDING) as i64,
        w: (CELL_SIZE - 2 * PADDING) as i64,
        h: (CELL_SIZE - 2 * PADDING) as i64,
    }
}

/// Distance from the edge of a cell to an eye that is centred on the axis of
/// the cell.
pub open spec fn eye_centred() -> int {
    CELL_SIZE / 2 - SNAKE_EYE_SIZE / 2
}

/// Distance from the edge of a cell to an eye that lies just before the
/// axis of the cell.
pub open spec fn eye_before() -> int {
    CELL_SIZE / 2 - (SNAKE_EYE_SIZE * 3) / 2
}

/// Distance from the edge of a cell to an eye that lies just after the axis
/// of the cell.
pub open spec fn eye_after() -> int {
    CELL_SIZE / 2 + SNAKE_EYE_SIZE / 2
}

/// A square eye with its corner at the given distances from the corner of
/// cell `head`.
pub open spec fn eye_at(head: (i32, i32), dx: int, dy: int) -> Rect {
    Rect {
        x: (head.0 + dx) as i64,
        y: (head.1 + dy) as i64,
        w: SNAKE_EYE_SIZE as i64,
        h: SNAKE_EYE_SIZE as i64,
    }
}

/// The left eye of a snake with its head on `head`, looking in direction
/// `d`. The two eyes lie side by side across the direction of travel.
pub open spec fn left_eye(head: (i32, i32), d: Direction) -> Rect {
    match d {
        Direction::Up => eye_at(head, eye_before(), eye_centred()),
        Direction::Down => eye_at(head, eye_after(), eye_centred()),
        Direction::Left => eye_at(head, eye_centred(), eye_after()),
        Direction::Right => eye_at(head, eye_centred(), eye_before()),
    }
}

/// The right eye of a snake with its head on `head`, looking in direction
/// `d`.
pub open spec fn right_eye(head: (i32, i32), d: Direction) -> Rect {
    match d {
        Direction::Up => eye_at(head, eye_after(), eye_centred()),
        Direction::Down => eye_at(head, eye_before(), eye_centred()),
        Direction::Left => eye_at(head, eye_centred(), eye_before()),
        Direction::Right => eye_at(head, eye_centred(), eye_after()),
    }
}

/// The centre of the disc drawn for food on cell `food`: the middle of the
/// cell.
pub open spec fn food_centre(food: (i32, i32)) -> (i64, i64) {
    ((food.0 + CELL_SIZE / 2) as i64, (food.1 + CELL_SIZE / 2) as i64)
}

/// Computes the square drawn for cell `c`.
fn rect_of(c: (i32, i32)) -> (r: Rect)
    ensures
        r == cell_rect(c),
{
    let side: i64 = CELL_SIZE as i64 - 2 * (PADDING as i64);
    Rect { x: c.0 as i64 + PADDING as i64, y: c.1 as i64 + PADDING as i64, w: side, h: side }
}

/// Computes a square eye at the given distances from the corner of `head`.
fn eye(head: (i32, i32), dx: i64, dy: i64) -> (r: Rect)
    requires
        0 <= dx <= CELL_SIZE,
        0 <= dy <= CELL_SIZE,
    ensures
        r == eye_at(head, dx as int, dy as int),
{
    Rect {
        x: head.0 as i64 + dx,
        y: head.1 as i64 + dy,
        w: SNAKE_EYE_SIZE as i64,
        h: SNAKE_EYE_SIZE as i64,
    }
}

/// Lays out one frame: the head with its two eyes set by the direction the
/// snake looks in, one square for each further cell of the snake, the food,
/// and the score.
pub fn drawing(
    snake: &Vec<(i32, i32)>,
    food: (i32, i32),
    direction: &Direction,
    score: usize,
) -> (scene: Scene)
    requires
        snake@.len() > 0,
    ensures
        scene.head == cell_rect(snake@[0]),
        scene.left_eye == left_eye(snake@[0], *direction),
        scene.right_eye == right_eye(snake@[0], *direction),
        scene.body@.len() == snake@.len() - 1,
        forall|i: int| 0 <= i < scene.body@.len() ==> scene.body@[i] == cell_rect(snake@[i + 1]),
        scene.food == food_centre(food),
        scene.score == score,
{
    let head: (i32, i32) = snake[0];
    let half: i64 = (CELL_SIZE / 2) as i64;
    let eye_half: i64 = (SNAKE_EYE_SIZE / 2) as i64;
    let centred: i64 = half - eye_half;
    let before: i64 = half - ((SNAKE_EYE_SIZE * 3) / 2) as i64;
    let after: i64 = half + eye_half;
    let left: Rect = match direction {
        Direction::Up => eye(head, before, centred),
        Direction::Down => eye(head, after, centred),
        Direction::Left => eye(head, centred, after),
        Direction::Right => eye(head, centred, before),
    };
    let right: Rect = match direction {
        Direction::Up => eye(head, after, centred),
        Direction::Down => eye(head, before, centred),
        Direction::Left => eye(head, centred, before),
        Direction::Right => eye(head, centred, after),
    };
    let mut body: Vec<Rect> = Vec::new();
    let mut i: usize = 1;
    while i < snake.len()
        invariant
            1 <= i <= snake.len(),
            body@.len() == i - 1,
            forall|j: int| 0 <= j < body@.len() ==> body@[j] == cell_rect(snake@[j + 1]),
        decreases snake.len() - i,
    {
        body.push(rect_of(snake[i]));
        i += 1;
    }
    Scene {
        head: rect_of(head),
        left_eye: left,
        right_eye: right,
        body,
        food: (food.0 as i64 + half, food.1 as i64 + half),
        score,
    }
}

} // verus!
