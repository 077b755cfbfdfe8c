//! What holds of every session, proved from the definition of a step.

use vstd::prelude::*;
use crate::constants::{
    ACCELERATION_GAP, ACCELERATION_VALUE, CELL_SIZE, INITIAL_SNAKE_SIZE, NUM_COLS, NUM_ROWS,
    SCREEN_HEIGHT, SCREEN_WIDTH,
};
use crate::direction::Direction;
use crate::grid::{column_of, neighbour, on_screen, row_of};
use crate::input::Keys;
use crate::state::{Game, GameMode};

verus! {

/// What one frame brings: the time, the keys, and the cell for new food
/// should the snake eat.
pub struct Frame {
    pub now: nat,
    pub keys: Keys,
    pub food: (i32, i32),
}

/// The state that `s` has become after the frames of `frames`, one step for
/// each.
pub open spec fn run(s: Game, frames: Seq<Frame>) -> Game
    decreases frames.len(),
{
    if frames.len() == 0 {
        s
    } else {
        let f = frames.last();
        run(s, frames.drop_last()).step(f.now, f.keys, f.food)
    }
}

/// Whether `to` is the cell of the screen one column or row from `from` in
/// direction `d`, counting round the torus.
pub open spec fn one_cell_along(from: (i32, i32), to: (i32, i32), d: Direction) -> bool {
    &&& on_screen(to)
    &&& column_of(to) == (column_of(from) + d.dx()) % (NUM_COLS as int)
    &&& row_of(to) == (row_of(from) + d.dy()) % (NUM_ROWS as int)
}

/// The tick interval that `tick` has become after `ramps` increases of the
/// pace.
pub open spec fn interval_after(tick: nat, ramps: int) -> int {
    if tick >= ACCELERATION_VALUE * ramps {
        tick - ACCELERATION_VALUE * ramps
    } else {
        0
    }
}

/// The number of increases of the pace that `meals` meals bring to a snake
/// of target size `size`.
pub open spec fn ramps_during(size: nat, meals: int) -> int {
    (size - INITIAL_SNAKE_SIZE + meals) / (ACCELERATION_GAP as int) - (size - INITIAL_SNAKE_SIZE)
        / (ACCELERATION_GAP as int)
}

/// A step from a cell of the screen leads to the cell of the screen that is
/// one cell further in the direction of the step, round the torus.
pub proof fn lemma_neighbour_is_one_cell_along(c: (i32, i32), d: Direction)
    requires
        on_screen(c),
    ensures
        one_cell_along(c, neighbour(c, d), d),
{
}

/// Wrap-around: a step that would leave the screen through an edge leads to
/// the opposite edge instead. From the last column a step to the right leads
/// to x = 0, and from the first column a step to the left leads to the last
/// column; from the last row a step down leads to y = 0, and from the first
/// row a step up leads to the last row. The other coordinate stays.
pub proof fn lemma_wrap_around(c: (i32, i32))
    ensures
        c.0 + CELL_SIZE == SCREEN_WIDTH ==> neighbour(c, Direction::Right) == (0i32, c.1),
        c.0 == 0 ==> neighbour(c, Direction::Left) == ((SCREEN_WIDTH - CELL_SIZE) as i32, c.1),
        c.1 + CELL_SIZE == SCREEN_HEIGHT ==> neighbour(c, Direction::Down) == (c.0, 0i32),
        c.1 == 0 ==> neighbour(c, Direction::Up) == (c.0, (SCREEN_HEIGHT - CELL_SIZE) as i32),
{
}

/// Every step keeps the invariant of a session, provided the cell offered
/// for new food is a cell of the screen.
pub proof fn lemma_step_keeps_wf(s: Game, now: nat, keys: Keys, food: (i32, i32))
    requires
        s.wf(),
        on_screen(food),
    ensures
        s.step(now, keys, food).wf(),
{
    if s.game_mode != GameMode::Lost {
        let a = s.ticked(now);
        lemma_neighbour_is_one_cell_along(s.head(), s.direction);
        assert(a.snake.len() >= 1 && forall|i: int|
            0 <= i < a.snake.len() ==> on_screen(#[trigger] a.snake[i]));
        let b = a.turned(now, keys);
        lemma_neighbour_is_one_cell_along(a.head(), a.key_pressed);
        assert(b.snake.len() >= 1 && forall|i: int|
            0 <= i < b.snake.len() ==> on_screen(#[trigger] b.snake[i]));
        let c = b.sampled(keys).fed(food).judged();
        assert(c.snake == b.snake);
        let e = c.trimmed();
        assert(e == s.step(now, keys, food));
        assert(forall|i: int| 0 <= i < e.snake.len() ==> e.snake[i] == c.snake[i]);
    }
}

/// Every state of a session that began in a state with the invariant has
/// the invariant, whatever the frames brought.
pub proof fn lemma_run_keeps_wf(s: Game, frames: Seq<Frame>)
    requires
        s.wf(),
        forall|i: int| 0 <= i < frames.len() ==> on_screen(#[trigger] frames[i].food),
    ensures
        run(s, frames).wf(),
    decreases frames.len(),
{
    if frames.len() > 0 {
        let f = frames.last();
        lemma_run_keeps_wf(s, frames.drop_last());
        lemma_step_keeps_wf(run(s, frames.drop_last()), f.now, f.keys, f.food);
    }
}

/// One cell per tick: where a tick is due, the snake gets exactly one new
/// head, one cell from the old head in the direction the snake moves in, and
/// the old cells follow it unchanged; where no tick is due, the tick phase
/// changes nothing.
pub proof fn lemma_one_cell_per_tick(s: Game, now: nat)
    requires
        s.wf(),
    ensures
        s.tick_due(now) ==> {
            let t = s.ticked(now);
            &&& t.snake.len() == s.snake.len() + 1
            &&& one_cell_along(s.head(), t.head(), s.direction)
            &&& t.snake.subrange(1, t.snake.len() as int) == s.snake
            &&& t.direction == s.direction
        },
        !s.tick_due(now) ==> s.ticked(now) == s,
{
    lemma_neighbour_is_one_cell_along(s.head(), s.direction);
}

/// No reversal: the direction that the snake turns to, once the tick phase
/// is over, is never the reverse of the one it had, but one across it, and
/// the turn moves the head one cell in the new direction. Where no turn is
/// due, the turn phase changes nothing. After the keys have been sampled, the
/// direction in store is again not the reverse of the snake's.
pub proof fn lemma_turn_never_reverses(s: Game, now: nat, keys: Keys)
    requires
        s.wf(),
    ensures
        s.ticked(now).turn_due(keys) ==> {
            let a = s.ticked(now);
            let t = a.turned(now, keys);
            &&& t.direction != s.direction.opposite()
            &&& t.direction.is_vertical() != s.direction.is_vertical()
            &&& t.snake.len() == a.snake.len() + 1
            &&& one_cell_along(a.head(), t.head(), t.direction)
            &&& t.snake.subrange(1, t.snake.len() as int) == a.snake
        },
        !s.ticked(now).turn_due(keys) ==> s.ticked(now).turned(now, keys) == s.ticked(now),
        s.moved(now, keys).key_pressed != s.moved(now, keys).direction.opposite(),
{
    let a = s.ticked(now);
    lemma_neighbour_is_one_cell_along(s.head(), s.direction);
    lemma_neighbour_is_one_cell_along(a.head(), a.key_pressed);
}

/// Throughout a session, whatever the frames bring: each frame carries the
/// state one step further; the state before it has the invariant; a tick
/// that falls due in it moves the head exactly one cell in the direction the
/// snake has, and a turn that falls due moves it one cell in a direction
/// that is not the reverse of that one.
pub proof fn lemma_one_cell_per_move_throughout(s: Game, frames: Seq<Frame>, i: int)
    requires
        s.wf(),
        forall|j: int| 0 <= j < frames.len() ==> on_screen(#[trigger] frames[j].food),
        0 <= i < frames.len(),
    ensures
        ({
            let f = frames[i];
            let before = run(s, frames.take(i));
            let ticked = before.ticked(f.now);
            let turned = ticked.turned(f.now, f.keys);
            &&& run(s, frames.take(i + 1)) == before.step(f.now, f.keys, f.food)
            &&& before.wf()
            &&& before.tick_due(f.now) ==> ticked.snake.len() == before.snake.len() + 1
                && one_cell_along(before.head(), ticked.head(), before.direction)
            &&& !before.tick_due(f.now) ==> ticked == before
            &&& ticked.turn_due(f.keys) ==> turned.snake.len() == ticked.snake.len() + 1
                && turned.direction != before.direction.opposite() && one_cell_along(
                ticked.head(),
                turned.head(),
                turned.direction,
            )
            &&& !ticked.turn_due(f.keys) ==> turned == ticked
        }),
{
    let f = frames[i];
    let earlier = frames.take(i);
    assert(frames.take(i + 1).drop_last() == earlier);
    assert(frames.take(i + 1).last() == f);
    lemma_run_keeps_wf(s, earlier);
    lemma_one_cell_per_tick(run(s, earlier), f.now);
    lemma_turn_never_reverses(run(s, earlier), f.now, f.keys);
}

/// A lost session is final: no step changes it.
pub proof fn lemma_lost_is_final(s: Game, now: nat, keys: Keys, food: (i32, i32))
    requires
        s.game_mode == GameMode::Lost,
    ensures
        s.step(now, keys, food) == s,
{
}

/// Self-collision: where a tick is due and no turn, and the cell ahead of
/// the head is one of the snake's cells that will still lie within the
/// target size after the move, the step ends the session.
pub proof fn lemma_biting_loses(s: Game, now: nat, keys: Keys, food: (i32, i32), i: int)
    requires
        s.wf(),
        s.game_mode == GameMode::Playing,
        s.tick_due(now),
        !s.turn_due(keys),
        0 <= i < s.snake.len(),
        i + 1 < s.snake_size,
        s.snake[i] == neighbour(s.head(), s.direction),
    ensures
        s.step(now, keys, food).game_mode == GameMode::Lost,
{
    let m = s.moved(now, keys).fed(food);
    assert(m.snake == s.snake.insert(0, neighbour(s.head(), s.direction)));
    assert(m.snake[i + 1] == m.snake[0]);
}

/// Growth: a step in which the head comes to lie on the food raises the
/// target size by exactly one and puts the food on the cell offered; any
/// other step of a session being played leaves both as they are.
pub proof fn lemma_meal_grows_by_one(s: Game, now: nat, keys: Keys, food: (i32, i32))
    requires
        s.game_mode == GameMode::Playing,
    ensures
        s.moved(now, keys).eats() ==> {
            &&& s.step(now, keys, food).snake_size == s.snake_size + 1
            &&& s.step(now, keys, food).food_pos == food
        },
        !s.moved(now, keys).eats() ==> {
            &&& s.step(now, keys, food).snake_size == s.snake_size
            &&& s.step(now, keys, food).food_pos == s.food_pos
            &&& s.step(now, keys, food).tick == s.tick
        },
{
}

/// Adding `k` whole gaps to a number of meals adds `k` to the number of
/// gaps that the meals fill.
proof fn lemma_whole_gaps(eaten: int, k: int)
    requires
        eaten >= 0,
        k >= 0,
    ensures
        (eaten + k * ACCELERATION_GAP) / (ACCELERATION_GAP as int) == eaten / (
        ACCELERATION_GAP as int) + k,
{
}

/// The tick interval depends on the meals alone: over any run of frames it
/// has gone down by one `ACCELERATION_VALUE` for each time the number of
/// meals reached a multiple of `ACCELERATION_GAP`, stopping at zero, and by
/// nothing else. It never goes up.
pub proof fn lemma_interval_follows_meals(s: Game, frames: Seq<Frame>)
    requires
        s.snake_size >= INITIAL_SNAKE_SIZE,
    ensures
        run(s, frames).snake_size >= s.snake_size,
        run(s, frames).tick == interval_after(
            s.tick,
            ramps_during(s.snake_size, run(s, frames).snake_size - s.snake_size),
        ),
        run(s, frames).tick <= s.tick,
    decreases frames.len(),
{
    if frames.len() > 0 {
        let f = frames.last();
        let before = run(s, frames.drop_last());
        lemma_interval_follows_meals(s, frames.drop_last());
        if before.game_mode == GameMode::Playing {
            lemma_meal_grows_by_one(before, f.now, f.keys, f.food);
        }
    }
}

/// Speed ramp: a run of frames in which the snake eats `k` times
/// `ACCELERATION_GAP` meals takes exactly `k` times `ACCELERATION_VALUE` off
/// the tick interval, as long as the interval has that much to give. With
/// `k` = 1: `ACCELERATION_GAP` meals bring exactly one decrement.
pub proof fn lemma_speed_ramp(s: Game, frames: Seq<Frame>, k: nat)
    requires
        s.snake_size >= INITIAL_SNAKE_SIZE,
        run(s, frames).snake_size == s.snake_size + k * ACCELERATION_GAP,
        s.tick >= k * ACCELERATION_VALUE,
    ensures
        run(s, frames).tick == s.tick - k * ACCELERATION_VALUE,
{
    lemma_interval_follows_meals(s, frames);
    let eaten = s.snake_size - INITIAL_SNAKE_SIZE;
    lemma_whole_gaps(eaten, k as int);
    assert(ramps_during(s.snake_size, k * ACCELERATION_GAP) == k);
}

} // verus!
