use snake::constants::{
    ACCELERATION_GAP, ACCELERATION_VALUE, CELL_SIZE, INITIAL_SNAKE_SIZE, INITIAL_TICK_INTERVAL,
    NUM_COLS, NUM_ROWS, SCREEN_CENTER, SCREEN_HEIGHT, SCREEN_WIDTH,
};
use snake::direction::Direction;
use snake::grid::{is_on_screen, next_head};
use snake::input::Keys;
use snake::random::Random;
use snake::state::{GameMode, MainState};

const NO_KEYS: Keys = Keys { up: false, down: false, left: false, right: false };

/// One nanosecond more than the initial tick interval.
const AFTER_ONE_TICK: u64 = INITIAL_TICK_INTERVAL + 1;

fn state(snake: Vec<(i32, i32)>, size: usize, direction: Direction, food: (i32, i32)) -> MainState {
    MainState {
        snake,
        snake_size: size,
        direction,
        key_pressed: direction,
        last_tick: 0,
        tick: INITIAL_TICK_INTERVAL,
        food_pos: food,
        rng: Random::new(),
        game_mode: GameMode::Playing,
    }
}

#[test]
fn constants_describe_a_16_by_12_grid_of_32_pixel_cells() {
    assert_eq!(NUM_COLS, 16);
    assert_eq!(NUM_ROWS, 12);
    assert_eq!(CELL_SIZE, 32);
    assert_eq!(SCREEN_WIDTH, 512);
    assert_eq!(SCREEN_HEIGHT, 384);
    assert_eq!(SCREEN_CENTER, (256, 192));
    assert_eq!(INITIAL_SNAKE_SIZE, 3);
    assert_eq!(ACCELERATION_GAP, 3);
    assert_eq!(INITIAL_TICK_INTERVAL, 300_000_000);
    assert_eq!(ACCELERATION_VALUE, 20_000_000);
}

#[test]
fn new_session_is_a_single_cell_heading_right() {
    let s = MainState::new(Random::new(), 42);
    assert_eq!(s.snake, vec![(256, 192)]);
    assert_eq!(s.snake_size, 3);
    assert_eq!(s.direction, Direction::Right);
    assert_eq!(s.key_pressed, Direction::Right);
    assert_eq!(s.last_tick, 42);
    assert_eq!(s.tick, 300_000_000);
    assert_eq!(s.game_mode, GameMode::Playing);
    assert!(is_on_screen(s.food_pos));
    assert_ne!(s.food_pos, (256, 192));
    assert!(s.is_well_formed());
    assert!(!s.is_lost());
    assert_eq!(s.score(), 0);
}

#[test]
fn first_tick_moves_the_single_cell_snake_one_cell_right() {
    let mut s = state(vec![SCREEN_CENTER], 3, Direction::Right, (0, 0));
    s.update(AFTER_ONE_TICK, &NO_KEYS);
    assert_eq!(s.snake[0], (256 + 32, 192));
    // The new head is put in front and nothing is cut: the snake is still
    // shorter than its target size of 3.
    assert_eq!(s.snake, vec![(288, 192), (256, 192)]);
    assert_eq!(s.snake_size, 3);
    assert_eq!(s.food_pos, (0, 0));
    assert_eq!(s.last_tick, AFTER_ONE_TICK);
    assert_eq!(s.tick, INITIAL_TICK_INTERVAL);
    assert_eq!(s.game_mode, GameMode::Playing);
}

#[test]
fn snake_reaches_its_target_size_and_is_cut_to_it() {
    let mut s = state(vec![SCREEN_CENTER], 3, Direction::Right, (0, 0));
    let mut now = 0;
    for _ in 0..5 {
        now += AFTER_ONE_TICK;
        s.update(now, &NO_KEYS);
    }
    assert_eq!(s.snake, vec![(416, 192), (384, 192), (352, 192)]);
    assert_eq!(s.snake_size, 3);
}

#[test]
fn no_move_before_the_interval_has_passed() {
    let mut s = state(vec![SCREEN_CENTER], 3, Direction::Right, (0, 0));
    // Exactly one interval is not yet more than one interval.
    s.update(INITIAL_TICK_INTERVAL, &NO_KEYS);
    assert_eq!(s.snake, vec![(256, 192)]);
    assert_eq!(s.last_tick, 0);
    s.update(INITIAL_TICK_INTERVAL + 1, &NO_KEYS);
    assert_eq!(s.snake, vec![(288, 192), (256, 192)]);
}

#[test]
fn clock_running_backwards_counts_as_no_time() {
    let mut s = state(vec![SCREEN_CENTER], 3, Direction::Right, (0, 0));
    s.last_tick = 1_000_000_000;
    s.update(5, &NO_KEYS);
    assert_eq!(s.snake, vec![(256, 192)]);
    assert_eq!(s.last_tick, 1_000_000_000);
}

#[test]
fn head_moves_one_cell_per_tick_in_each_direction() {
    assert_eq!(next_head((256, 192), &Direction::Up), (256, 160));
    assert_eq!(next_head((256, 192), &Direction::Down), (256, 224));
    assert_eq!(next_head((256, 192), &Direction::Left), (224, 192));
    assert_eq!(next_head((256, 192), &Direction::Right), (288, 192));
}

#[test]
fn head_wraps_around_at_all_four_edges() {
    // One cell beyond the right edge is x = 0.
    assert_eq!(next_head((SCREEN_WIDTH - CELL_SIZE, 64), &Direction::Right), (0, 64));
    assert_eq!(next_head((0, 64), &Direction::Left), (SCREEN_WIDTH - CELL_SIZE, 64));
    assert_eq!(next_head((64, SCREEN_HEIGHT - CELL_SIZE), &Direction::Down), (64, 0));
    assert_eq!(next_head((64, 0), &Direction::Up), (64, SCREEN_HEIGHT - CELL_SIZE));
    assert_eq!(next_head((480, 64), &Direction::Right), (0, 64));
    assert_eq!(next_head((0, 64), &Direction::Left), (480, 64));
    assert_eq!(next_head((64, 352), &Direction::Down), (64, 0));
    assert_eq!(next_head((64, 0), &Direction::Up), (64, 352));
}

#[test]
fn next_head_does_not_overflow_at_the_ends_of_the_coordinate_range() {
    assert_eq!(next_head((i32::MAX, 0), &Direction::Right), (0, 0));
    assert_eq!(next_head((i32::MIN, 0), &Direction::Left), (480, 0));
    assert_eq!(next_head((0, i32::MAX), &Direction::Down), (0, 0));
    assert_eq!(next_head((0, i32::MIN), &Direction::Up), (0, 352));
}

#[test]
fn update_wraps_the_snake_round_the_right_edge() {
    let mut s = state(vec![(480, 32), (448, 32), (416, 32)], 3, Direction::Right, (0, 0));
    s.update(AFTER_ONE_TICK, &NO_KEYS);
    assert_eq!(s.snake, vec![(0, 32), (480, 32), (448, 32)]);
    assert_eq!(s.game_mode, GameMode::Playing);
}

#[test]
fn snake_biting_its_cell_at_index_two_is_lost_and_stays_as_it_is() {
    // Target size 4; the cell ahead of the head, (64, 0), is the snake's cell
    // at index 2.
    let mut s = state(vec![(32, 0), (0, 0), (64, 0), (96, 0)], 4, Direction::Right, (320, 320));
    assert!(s.is_well_formed());
    s.update(AFTER_ONE_TICK, &NO_KEYS);
    assert_eq!(s.game_mode, GameMode::Lost);
    assert!(s.is_lost());
    assert_eq!(s.snake, vec![(64, 0), (32, 0), (0, 0), (64, 0)]);

    // Nothing changes from here on, whatever the time and the keys.
    let keys = Keys { up: true, down: false, left: false, right: false };
    s.update(10 * AFTER_ONE_TICK, &keys);
    s.update_with(20 * AFTER_ONE_TICK, &NO_KEYS, (0, 0));
    assert_eq!(s.game_mode, GameMode::Lost);
    assert_eq!(s.snake, vec![(64, 0), (32, 0), (0, 0), (64, 0)]);
    assert_eq!(s.snake_size, 4);
    assert_eq!(s.direction, Direction::Right);
    assert_eq!(s.key_pressed, Direction::Right);
    assert_eq!(s.last_tick, AFTER_ONE_TICK);
    assert_eq!(s.tick, INITIAL_TICK_INTERVAL);
    assert_eq!(s.food_pos, (320, 320));
}

#[test]
fn moving_onto_the_cell_that_the_tail_leaves_is_not_a_bite() {
    // The cell ahead is the snake's last cell, which is cut off in the same
    // step.
    let mut s = state(vec![(32, 0), (0, 0), (96, 0), (64, 0)], 4, Direction::Right, (320, 320));
    s.update(AFTER_ONE_TICK, &NO_KEYS);
    assert_eq!(s.game_mode, GameMode::Playing);
    assert_eq!(s.snake, vec![(64, 0), (32, 0), (0, 0), (96, 0)]);
}

#[test]
fn snake_shorter_than_its_target_can_bite_itself_too() {
    let mut s = state(vec![(0, 0), (32, 0), (0, 0)], 10, Direction::Right, (320, 320));
    s.update(1, &NO_KEYS);
    assert_eq!(s.game_mode, GameMode::Lost);
}

#[test]
fn eating_grows_the_target_size_by_one_and_moves_the_food() {
    let mut s = state(vec![(256, 192), (224, 192), (192, 192)], 3, Direction::Right, (288, 192));
    s.update_with(AFTER_ONE_TICK, &NO_KEYS, (64, 64));
    assert_eq!(s.snake_size, 4);
    assert_eq!(s.score(), 1);
    assert_eq!(s.food_pos, (64, 64));
    assert_eq!(s.snake, vec![(288, 192), (256, 192), (224, 192), (192, 192)]);
    assert_eq!(s.tick, INITIAL_TICK_INTERVAL);
    assert_eq!(s.game_mode, GameMode::Playing);
}

#[test]
fn not_eating_leaves_size_and_food_alone() {
    let mut s = state(vec![(256, 192), (224, 192), (192, 192)], 3, Direction::Right, (0, 0));
    s.update_with(AFTER_ONE_TICK, &NO_KEYS, (64, 64));
    assert_eq!(s.snake_size, 3);
    assert_eq!(s.food_pos, (0, 0));
    assert_eq!(s.snake, vec![(288, 192), (256, 192), (224, 192)]);
}

#[test]
fn eating_with_random_food_never_puts_it_on_the_snake() {
    for _ in 0..200 {
        let mut s =
            state(vec![(256, 192), (224, 192), (192, 192)], 3, Direction::Right, (288, 192));
        s.update(AFTER_ONE_TICK, &NO_KEYS);
        assert_eq!(s.snake_size, 4);
        assert_eq!(s.snake, vec![(288, 192), (256, 192), (224, 192), (192, 192)]);
        assert!(is_on_screen(s.food_pos));
        assert!(!s.snake.contains(&s.food_pos));
        assert!(s.is_well_formed());
    }
}

#[test]
fn food_is_eaten_without_a_tick_when_the_head_already_lies_on_it() {
    let mut s = state(vec![(256, 192), (224, 192)], 3, Direction::Right, (256, 192));
    s.update_with(1, &NO_KEYS, (0, 0));
    assert_eq!(s.snake_size, 4);
    assert_eq!(s.food_pos, (0, 0));
    assert_eq!(s.snake, vec![(256, 192), (224, 192)]);
}

/// Lets the snake run along a row and eat at every tick.
fn eat_in_a_row(s: &mut MainState, meals: usize) {
    let mut now = s.last_tick;
    for _ in 0..meals {
        let ahead = next_head(next_head(s.snake[0], &s.direction), &s.direction);
        now += INITIAL_TICK_INTERVAL + 1;
        s.update_with(now, &NO_KEYS, ahead);
    }
}

#[test]
fn pace_quickens_once_every_three_meals() {
    let mut s = state(vec![(0, 0)], 3, Direction::Right, (32, 0));
    eat_in_a_row(&mut s, 2);
    assert_eq!(s.snake_size, 5);
    assert_eq!(s.tick, 300_000_000);
    eat_in_a_row(&mut s, 1);
    assert_eq!(s.snake_size, 6);
    assert_eq!(s.tick, INITIAL_TICK_INTERVAL - ACCELERATION_VALUE);
    assert_eq!(s.tick, 280_000_000);
    eat_in_a_row(&mut s, 2);
    assert_eq!(s.tick, 280_000_000);
    eat_in_a_row(&mut s, 1);
    assert_eq!(s.snake_size, 9);
    assert_eq!(s.score(), 6);
    assert_eq!(s.tick, INITIAL_TICK_INTERVAL - 2 * ACCELERATION_VALUE);
    assert_eq!(s.tick, 260_000_000);
    assert_eq!(s.game_mode, GameMode::Playing);
}

#[test]
fn tick_interval_stops_at_zero() {
    let mut s = state(vec![(0, 0)], 5, Direction::Right, (32, 0));
    s.tick = 15_000_000;
    s.update_with(20_000_000, &NO_KEYS, (320, 320));
    assert_eq!(s.snake_size, 6);
    assert_eq!(s.tick, 0);
}

#[test]
fn turn_waits_for_the_key_to_be_released() {
    let down = Keys { up: false, down: true, left: false, right: false };
    let mut s = state(vec![(256, 192), (224, 192), (192, 192)], 3, Direction::Right, (0, 0));
    // The key is held: the request is stored, the snake does not turn.
    s.update(1, &down);
    assert_eq!(s.key_pressed, Direction::Down);
    assert_eq!(s.direction, Direction::Right);
    assert_eq!(s.snake, vec![(256, 192), (224, 192), (192, 192)]);
    s.update(2, &down);
    assert_eq!(s.direction, Direction::Right);
    assert_eq!(s.snake, vec![(256, 192), (224, 192), (192, 192)]);
    // The key is released: the snake turns and moves at once, and the tick
    // timer starts again.
    s.update(3, &NO_KEYS);
    assert_eq!(s.direction, Direction::Down);
    assert_eq!(s.key_pressed, Direction::Down);
    assert_eq!(s.snake, vec![(256, 224), (256, 192), (224, 192)]);
    assert_eq!(s.last_tick, 3);
}

#[test]
fn tick_and_turn_in_one_step_move_the_head_twice() {
    let mut s = state(vec![(256, 192), (224, 192), (192, 192)], 3, Direction::Right, (0, 0));
    s.key_pressed = Direction::Up;
    s.update(AFTER_ONE_TICK, &NO_KEYS);
    assert_eq!(s.direction, Direction::Up);
    assert_eq!(s.snake, vec![(288, 160), (288, 192), (256, 192)]);
}

#[test]
fn reversal_is_never_accepted() {
    let left = Keys { up: false, down: false, left: true, right: false };
    let mut s = state(vec![(256, 192), (224, 192), (192, 192)], 3, Direction::Right, (0, 0));
    s.update(1, &left);
    assert_eq!(s.key_pressed, Direction::Right);
    s.update(2, &NO_KEYS);
    assert_eq!(s.direction, Direction::Right);
    assert_eq!(s.snake, vec![(256, 192), (224, 192), (192, 192)]);
    s.update(AFTER_ONE_TICK, &NO_KEYS);
    assert_eq!(s.snake, vec![(288, 192), (256, 192), (224, 192)]);
}

#[test]
fn well_formedness_is_told_apart() {
    let good = state(vec![(256, 192)], 3, Direction::Right, (0, 0));
    assert!(good.is_well_formed());
    let empty = state(vec![], 3, Direction::Right, (0, 0));
    assert!(!empty.is_well_formed());
    let too_long = state(vec![(0, 0), (32, 0), (64, 0), (96, 0)], 3, Direction::Right, (0, 32));
    assert!(!too_long.is_well_formed());
    let small_target = state(vec![(0, 0)], 2, Direction::Right, (0, 32));
    assert!(!small_target.is_well_formed());
    let off_grid = state(vec![(5, 0)], 3, Direction::Right, (0, 32));
    assert!(!off_grid.is_well_formed());
    let off_screen = state(vec![(512, 0)], 3, Direction::Right, (0, 32));
    assert!(!off_screen.is_well_formed());
    let food_off = state(vec![(0, 0)], 3, Direction::Right, (0, 384));
    assert!(!food_off.is_well_formed());
    let mut reversed = state(vec![(0, 0)], 3, Direction::Right, (0, 32));
    reversed.key_pressed = Direction::Left;
    assert!(!reversed.is_well_formed());
}
