use snake::direction::Direction;
use snake::input::{quit_request, sample_direction, Keys, QuitRequest};

const ALL: [Direction; 4] = [Direction::Up, Direction::Down, Direction::Left, Direction::Right];

fn keys(up: bool, down: bool, left: bool, right: bool) -> Keys {
    Keys { up, down, left, right }
}

#[test]
fn no_key_keeps_the_direction_in_store() {
    for d in ALL {
        for pending in ALL {
            assert_eq!(sample_direction(&d, pending, &Keys::none()), pending);
        }
    }
}

#[test]
fn keys_across_the_heading_are_stored() {
    let up = keys(true, false, false, false);
    let down = keys(false, true, false, false);
    let left = keys(false, false, true, false);
    let right = keys(false, false, false, true);
    assert_eq!(sample_direction(&Direction::Right, Direction::Right, &up), Direction::Up);
    assert_eq!(sample_direction(&Direction::Left, Direction::Left, &down), Direction::Down);
    assert_eq!(sample_direction(&Direction::Up, Direction::Up, &left), Direction::Left);
    assert_eq!(sample_direction(&Direction::Down, Direction::Down, &right), Direction::Right);
}

#[test]
fn keys_along_the_heading_are_ignored() {
    let up = keys(true, false, false, false);
    let down = keys(false, true, false, false);
    let left = keys(false, false, true, false);
    let right = keys(false, false, false, true);
    assert_eq!(sample_direction(&Direction::Up, Direction::Up, &down), Direction::Up);
    assert_eq!(sample_direction(&Direction::Up, Direction::Left, &down), Direction::Left);
    assert_eq!(sample_direction(&Direction::Down, Direction::Down, &up), Direction::Down);
    assert_eq!(sample_direction(&Direction::Left, Direction::Left, &right), Direction::Left);
    assert_eq!(sample_direction(&Direction::Right, Direction::Up, &left), Direction::Up);
    assert_eq!(sample_direction(&Direction::Right, Direction::Right, &right), Direction::Right);
}

#[test]
fn of_two_keys_held_together_the_later_one_in_the_order_wins() {
    let up_down = keys(true, true, false, false);
    let left_right = keys(false, false, true, true);
    let all = keys(true, true, true, true);
    assert_eq!(sample_direction(&Direction::Right, Direction::Right, &up_down), Direction::Down);
    assert_eq!(sample_direction(&Direction::Up, Direction::Up, &left_right), Direction::Right);
    assert_eq!(sample_direction(&Direction::Left, Direction::Left, &all), Direction::Down);
    assert_eq!(sample_direction(&Direction::Down, Direction::Down, &all), Direction::Right);
}

#[test]
fn sampling_never_stores_the_reverse_of_the_heading() {
    let opposite = |d: Direction| match d {
        Direction::Up => Direction::Down,
        Direction::Down => Direction::Up,
        Direction::Left => Direction::Right,
        Direction::Right => Direction::Left,
    };
    for d in ALL {
        for pending in ALL {
            if pending == opposite(d) {
                continue;
            }
            for bits in 0..16 {
                let k = keys(bits & 1 != 0, bits & 2 != 0, bits & 4 != 0, bits & 8 != 0);
                assert_ne!(sample_direction(&d, pending, &k), opposite(d));
            }
        }
    }
}

#[test]
fn is_pressed_reads_the_key_of_the_direction() {
    let k = keys(true, false, false, true);
    assert!(k.is_pressed(&Direction::Up));
    assert!(!k.is_pressed(&Direction::Down));
    assert!(!k.is_pressed(&Direction::Left));
    assert!(k.is_pressed(&Direction::Right));
    assert_eq!(Keys::none(), keys(false, false, false, false));
}

#[test]
fn vertical_tells_the_axis() {
    assert!(Direction::Up.vertical());
    assert!(Direction::Down.vertical());
    assert!(!Direction::Left.vertical());
    assert!(!Direction::Right.vertical());
}

#[test]
fn quitting_takes_the_quit_key_and_both_modifiers() {
    assert_eq!(quit_request(true, true, true), QuitRequest::Granted);
    assert_eq!(quit_request(true, true, false), QuitRequest::OneModifier);
    assert_eq!(quit_request(true, false, true), QuitRequest::OneModifier);
    assert_eq!(quit_request(true, false, false), QuitRequest::NoModifier);
    assert_eq!(quit_request(false, true, true), QuitRequest::NotAsked);
    assert_eq!(quit_request(false, false, false), QuitRequest::NotAsked);
    assert_eq!(quit_request(false, true, false), QuitRequest::NotAsked);
}
