//! The state of a session and the step that carries it from one frame to the
//! next.
//!
//! The step is described twice. `Game` is the state as a mathematical value,
//! with one function for each phase of a step; `MainState` is the state that
//! a program holds, and its methods are proved to do what the functions of
//! `Game` say.

use vstd::prelude::*;
use crate::constants::{
    ACCELERATION_GAP, ACCELERATION_VALUE, CELL_SIZE, INITIAL_SNAKE_SIZE, INITIAL_TICK_INTERVAL,
    NUM_COLS, NUM_ROWS, SCREEN_CENTER,
};
use crate::direction::Direction;
use crate::grid::{is_on_screen, lemma_screen_cells, neighbour, next_head, on_screen};
use crate::input::{requested, sample_direction, Keys};
use crate::placement::grid_is_covered;
use crate::random::Random;

verus! {

/// Whether a session is still being played.
#[derive(Clone, Copy, Debug, PartialEq, Eq, Structural)]
pub enum GameMode {
    /// The snake is alive and the state evolves.
    Playing,
    /// The snake has bitten itself. The state no longer changes.
    Lost,
}

/// The state of a session.
pub struct MainState {
    /// The cells of the snake, head first.
    pub snake: Vec<(i32, i32)>,
    /// The length that the snake grows to and is trimmed to.
    pub snake_size: usize,
    /// The direction in which the snake moves.
    pub direction: Direction,
    /// The direction that the player last asked for.
    pub key_pressed: Direction,
    /// The time of the last move, in nanoseconds on the caller's clock.
    pub last_tick: u64,
    /// The time between two ticks, in nanoseconds.
    pub tick: u64,
    /// The cell that holds the food.
    pub food_pos: (i32, i32),
    /// The source of new food positions.
    pub rng: Random,
    /// Whether the session is still being played.
    pub game_mode: GameMode,
}

/// The state of a session as a mathematical value: all of `MainState` but
/// the source of random numbers.
#[verifier::ext_equal]
pub struct Game {
    pub snake: Seq<(i32, i32)>,
    pub snake_size: nat,
    pub direction: Direction,
    pub key_pressed: Direction,
    pub last_tick: nat,
    pub tick: nat,
    pub food_pos: (i32, i32),
    pub game_mode: GameMode,
}

/// The tick interval after one increase of the pace. It never goes below
/// zero.
pub open spec fn quickened(tick: nat) -> nat {
    if tick >= ACCELERATION_VALUE {
        (tick - ACCELERATION_VALUE) as nat
    } else {
        0
    }
}

/// Whether the pace increases when the snake reaches target size `size`:
/// every `ACCELERATION_GAP` meals.
pub open spec fn ramp_due(size: nat) -> bool {
    size >= INITIAL_SNAKE_SIZE && (size - INITIAL_SNAKE_SIZE) % (ACCELERATION_GAP as int) == 0
}

impl Game {
    /// The invariant of a session: the snake has a head and is no longer
    /// than its target size, which is at least the initial one; the snake and
    /// the food lie on cells of the screen; and the direction in store is not
    /// the reverse of the one the snake moves in.
    pub open spec fn wf(self) -> bool {
        &&& 1 <= self.snake.len() <= self.snake_size
        &&& self.snake_size >= INITIAL_SNAKE_SIZE
        &&& forall|i: int| 0 <= i < self.snake.len() ==> on_screen(#[trigger] self.snake[i])
        &&& on_screen(self.food_pos)
        &&& self.key_pressed != self.direction.opposite()
    }

    /// The cell of the snake's head.
    pub open spec fn head(self) -> (i32, i32) {
        self.snake[0]
    }

    /// The number of meals so far.
    pub open spec fn score(self) -> int {
        self.snake_size - INITIAL_SNAKE_SIZE
    }

    /// Whether at time `now` more than one tick interval has passed since the
    /// last move. A clock that ran backwards counts as no time passed.
    pub open spec fn tick_due(self, now: nat) -> bool {
        now >= self.last_tick && now - self.last_tick > self.tick
    }

    /// The state with a new head one cell from the old one in direction `d`,
    /// and the time of the last move set to `now`.
    pub open spec fn stepped(self, d: Direction, now: nat) -> Game {
        Game { snake: self.snake.insert(0, neighbour(self.head(), d)), last_tick: now, ..self }
    }

    /// First phase: where a tick is due, the snake moves one cell in its
    /// direction.
    pub open spec fn ticked(self, now: nat) -> Game {
        if self.tick_due(now) {
            self.stepped(self.direction, now)
        } else {
            self
        }
    }

    /// Whether the snake turns now: a direction other than its own is in
    /// store, and the key of that direction has been released.
    pub open spec fn turn_due(self, keys: Keys) -> bool {
        self.direction != self.key_pressed && !keys.holds(self.key_pressed)
    }

    /// Second phase: where a turn is due, the snake takes the direction in
    /// store and moves one cell in it at once.
    pub open spec fn turned(self, now: nat, keys: Keys) -> Game {
        if self.turn_due(keys) {
            Game { direction: self.key_pressed, ..self }.stepped(self.key_pressed, now)
        } else {
            self
        }
    }

    /// Third phase: the keys are sampled for the next turn.
    pub open spec fn sampled(self, keys: Keys) -> Game {
        Game { key_pressed: requested(self.direction, self.key_pressed, keys), ..self }
    }

    /// The first three phases together: all that moves the snake.
    pub open spec fn moved(self, now: nat, keys: Keys) -> Game {
        self.ticked(now).turned(now, keys).sampled(keys)
    }

    /// Whether the head lies on the food.
    pub open spec fn eats(self) -> bool {
        self.head() == self.food_pos
    }

    /// The state after a meal: the target size is one more, the food lies at
    /// `food`, and every `ACCELERATION_GAP` meals the pace increases.
    pub open spec fn grown(self, food: (i32, i32)) -> Game {
        Game {
            snake_size: self.snake_size + 1,
            food_pos: food,
            tick: if ramp_due(self.snake_size + 1) {
                quickened(self.tick)
            } else {
                self.tick
            },
            ..self
        }
    }

    /// Fourth phase: where the head lies on the food, the snake eats it and
    /// new food appears at `food`.
    pub open spec fn fed(self, food: (i32, i32)) -> Game {
        if self.eats() {
            self.grown(food)
        } else {
            self
        }
    }

    /// Whether the head lies on another cell of the snake, among those within
    /// the target size.
    pub open spec fn bites_itself(self) -> bool {
        exists|i: int|
            1 <= i < self.snake_size && i < self.snake.len() && #[trigger] self.snake[i]
                == self.snake[0]
    }

    /// Fifth phase: a snake that bites itself loses the session.
    pub open spec fn judged(self) -> Game {
        if self.bites_itself() {
            Game { game_mode: GameMode::Lost, ..self }
        } else {
            self
        }
    }

    /// Sixth phase: the snake is cut to its target size.
    pub open spec fn trimmed(self) -> Game {
        if self.snake.len() > self.snake_size {
            Game { snake: self.snake.subrange(0, self.snake_size as int), ..self }
        } else {
            self
        }
    }

    /// One whole step at time `now` with the keys as in `keys`, where `food`
    /// is the cell for new food should the snake eat. A lost session stays as
    /// it is.
    pub open spec fn step(self, now: nat, keys: Keys, food: (i32, i32)) -> Game {
        if self.game_mode == GameMode::Lost {
            self
        } else {
            self.moved(now, keys).fed(food).judged().trimmed()
        }
    }
}

impl View for MainState {
    type V = Game;

    open spec fn view(&self) -> Game {
        Game {
            snake: self.snake@,
            snake_size: self.snake_size as nat,
            direction: self.direction,
            key_pressed: self.key_pressed,
            last_tick: self.last_tick as nat,
            tick: self.tick as nat,
            food_pos: self.food_pos,
            game_mode: self.game_mode,
        }
    }
}

impl MainState {
    /// Starts a session at time `now`: a snake of one cell in the middle of
    /// the screen, heading right, that will grow to the initial size, and
    /// food on some other cell.
    pub fn new(rng: Random, now: u64) -> (state: MainState)
        ensures
            state@.wf(),
            state@.snake == seq![SCREEN_CENTER],
            state@.snake_size == INITIAL_SNAKE_SIZE,
            state@.direction == Direction::Right,
            state@.key_pressed == Direction::Right,
            state@.last_tick == now,
            state@.tick == INITIAL_TICK_INTERVAL,
            state@.food_pos != SCREEN_CENTER,
            state@.game_mode == GameMode::Playing,
    {
        let snake: Vec<(i32, i32)> = vec![SCREEN_CENTER];
        let food: (i32, i32) = rng.random_food(NUM_COLS, NUM_ROWS, CELL_SIZE, Some(&snake));
        proof {
            lemma_screen_cells(food);
            assert(snake@[0] == SCREEN_CENTER);
        }
        MainState {
            snake,
            snake_size: INITIAL_SNAKE_SIZE,
            direction: Direction::Right,
            key_pressed: Direction::Right,
            last_tick: now,
            tick: INITIAL_TICK_INTERVAL,
            food_pos: food,
            rng,
            game_mode: GameMode::Playing,
        }
    }

    /// The number of meals so far.
    pub fn score(&self) -> (n: usize)
        requires
            self@.snake_size >= INITIAL_SNAKE_SIZE,
        ensures
            n == self@.score(),
    {
        self.snake_size - INITIAL_SNAKE_SIZE
    }

    /// Tells whether the session has been lost.
    pub fn is_lost(&self) -> (b: bool)
        ensures
            b == (self@.game_mode == GameMode::Lost),
    {
        match self.game_mode {
            GameMode::Lost => true,
            GameMode::Playing => false,
        }
    }

    /// Tells whether the state meets the invariant of a session.
    pub fn is_well_formed(&self) -> (b: bool)
        ensures
            b == self@.wf(),
    {
        if self.snake.len() < 1 || self.snake.len() > self.snake_size || self.snake_size
            < INITIAL_SNAKE_SIZE {
            return false;
        }
        let mut i: usize = 0;
        while i < self.snake.len()
            invariant
                i <= self.snake.len(),
                forall|j: int| 0 <= j < i ==> on_screen(#[trigger] self.snake@[j]),
            decreases self.snake.len() - i,
        {
            if !is_on_screen(self.snake[i]) {
                return false;
            }
            i += 1;
        }
        let reverse: bool = match self.direction {
            Direction::Up => self.key_pressed == Direction::Down,
            Direction::Down => self.key_pressed == Direction::Up,
            Direction::Left => self.key_pressed == Direction::Right,
            Direction::Right => self.key_pressed == Direction::Left,
        };
        is_on_screen(self.food_pos) && !reverse
    }

    /// Puts a new head one cell from the old one in direction `d`.
    fn step_head(&mut self, d: Direction, now: u64)
        requires
            old(self)@.snake.len() >= 1,
        ensures
            final(self)@ == old(self)@.stepped(d, now as nat),
    {
        let head: (i32, i32) = next_head(self.snake[0], &d);
        self.snake.insert(0, head);
        self.last_tick = now;
    }

    /// Moves the snake: the tick where it is due, the turn where it is due,
    /// and the sampling of the keys.
    fn advance(&mut self, now: u64, keys: &Keys)
        requires
            old(self)@.wf(),
        ensures
            final(self)@ == old(self)@.moved(now as nat, *keys),
            final(self)@.snake.len() >= 1,
            final(self)@.snake.len() <= old(self)@.snake.len() + 2,
            final(self)@.snake_size == old(self)@.snake_size,
            forall|i: int|
                0 <= i < final(self)@.snake.len() ==> on_screen(#[trigger] final(self)@.snake[i]),
            final(self)@.key_pressed != final(self)@.direction.opposite(),
    {
        if now >= self.last_tick && now - self.last_tick > self.tick {
            let d: Direction = self.direction;
            self.step_head(d, now);
        }
        if self.direction != self.key_pressed && !keys.is_pressed(&self.key_pressed) {
            let d: Direction = self.key_pressed;
            self.direction = d;
            self.step_head(d, now);
        }
        self.key_pressed = sample_direction(&self.direction, self.key_pressed, keys);
    }

    /// Tells whether the head lies on the food.
    fn on_food(&self) -> (b: bool)
        requires
            self@.snake.len() >= 1,
        ensures
            b == self@.eats(),
    {
        let head: (i32, i32) = self.snake[0];
        head.0 == self.food_pos.0 && head.1 == self.food_pos.1
    }

    /// Tells whether the head lies on another cell of the snake.
    fn bites(&self) -> (b: bool)
        requires
            self@.snake.len() >= 1,
        ensures
            b == self@.bites_itself(),
    {
        let head: (i32, i32) = self.snake[0];
        let mut i: usize = 1;
        while i < self.snake.len() && i < self.snake_size
            invariant
                1 <= i,
                head == self.snake@[0],
                forall|j: int| 1 <= j < i ==> self.snake@[j] != head,
            decreases self.snake.len() - i,
        {
            let c: (i32, i32) = self.snake[i];
            if c.0 == head.0 && c.1 == head.1 {
                assert(self@.snake[i as int] == self@.snake[0]);
                return true;
            }
            i += 1;
        }
        false
    }

    /// Ends a step once the snake has moved: the meal, if the head lies on
    /// the food, with new food at `food`; the loss, if the snake bites
    /// itself; and the cut to the target size.
    fn finish(&mut self, food: (i32, i32))
        requires
            old(self)@.snake.len() >= 1,
            old(self).snake_size < usize::MAX,
            old(self)@.snake_size >= INITIAL_SNAKE_SIZE,
        ensures
            final(self)@ == old(self)@.fed(food).judged().trimmed(),
    {
        if self.on_food() {
            self.snake_size = self.snake_size + 1;
            self.food_pos = food;
            if (self.snake_size - INITIAL_SNAKE_SIZE) % ACCELERATION_GAP == 0 {
                self.tick = self.tick.saturating_sub(ACCELERATION_VALUE);
            }
        }
        if self.bites() {
            self.game_mode = GameMode::Lost;
        }
        if self.snake.len() > self.snake_size {
            self.snake.truncate(self.snake_size);
        }
    }

    /// Carries the session one step further, with `food` as the cell for new
    /// food should the snake eat in this step.
    ///
    /// While the session is being played: where more than a tick interval has
    /// passed since the last move, the snake moves one cell in its direction;
    /// where a direction other than its own is in store and the key of that
    /// direction has been released, it turns and moves one more cell at
    /// once; the keys are sampled; where the head now lies on the food, the
    /// target size grows by one, new food appears at `food`, and every
    /// `ACCELERATION_GAP` meals the tick interval shrinks by
    /// `ACCELERATION_VALUE`; where the head lies on another cell of the
    /// snake, the session is lost; and the snake is cut to its target size.
    /// A lost session stays as it is.
    pub fn update_with(&mut self, now: u64, keys: &Keys, food: (i32, i32))
        requires
            old(self)@.wf(),
            old(self).snake_size < usize::MAX,
            on_screen(food),
        ensures
            final(self)@ == old(self)@.step(now as nat, *keys, food),
            final(self)@.wf(),
    {
        if self.is_lost() {
            return;
        }
        self.advance(now, keys);
        self.finish(food);
    }

    /// Carries the session one step further, as `update_with` does, drawing
    /// the cell for new food at random among the cells that the snake, as it
    /// lies after its moves of this step, leaves free.
    pub fn update(&mut self, now: u64, keys: &Keys)
        requires
            old(self)@.wf(),
            old(self).snake_size < usize::MAX,
        ensures
            final(self)@ == old(self)@.step(now as nat, *keys, final(self)@.food_pos),
            final(self)@.wf(),
            old(self)@.game_mode == GameMode::Playing && old(self)@.moved(now as nat, *keys).eats()
                ==> {
                let occupied = old(self)@.moved(now as nat, *keys).snake;
                &&& final(self)@.snake_size == old(self)@.snake_size + 1
                &&& !grid_is_covered(occupied, NUM_COLS as int, NUM_ROWS as int, CELL_SIZE as int)
                    ==> !occupied.contains(final(self)@.food_pos)
                &&& occupied.len() < NUM_COLS * NUM_ROWS ==> !occupied.contains(
                    final(self)@.food_pos,
                )
            },
    {
        if self.is_lost() {
            return;
        }
        self.advance(now, keys);
        let food: (i32, i32) = if self.on_food() {
            let drawn: (i32, i32) = self.rng.random_food(
                NUM_COLS,
                NUM_ROWS,
                CELL_SIZE,
                Some(&self.snake),
            );
            proof {
                lemma_screen_cells(drawn);
            }
            drawn
        } else {
            self.food_pos
        };
        self.finish(food);
    }
}

} // verus!
