//! What the player asks for: the direction keys sampled once per frame, and
//! the key combination that ends the session.

use vstd::prelude::*;
use crate::direction::Direction;

verus! {

/// The state of the four direction keys at one moment: `true` for a key that
/// is held down.
#[derive(Clone, Copy, Debug, PartialEq, Eq, Structural)]
pub struct Keys {
    pub up: bool,
    pub down: bool,
    pub left: bool,
    pub right: bool,
}

impl Keys {
    /// Whether the key of direction `d` is held down.
    pub open spec fn holds(self, d: Direction) -> bool {
        match d {
            Direction::Up => self.up,
            Direction::Down => self.down,
            Direction::Left => self.left,
            Direction::Right => self.right,
        }
    }

    /// No key held down.
    pub fn none() -> (keys: Keys)
        ensures
            keys == (Keys { up: false, down: false, left: false, right: false }),
    {
        Keys { up: false, down: false, left: false, right: false }
    }

    /// Tells whether the key of direction `d` is held down.
    pub fn is_pressed(&self, d: &Direction) -> (b: bool)
        ensures
            b == self.holds(*d),
    {
        match d {
            Direction::Up => self.up,
            Direction::Down => self.down,
            Direction::Left => self.left,
            Direction::Right => self.right,
        }
    }
}

/// The direction kept in store for the next turn, after the keys have been
/// sampled while the snake faces `direction` and `pending` was in store.
///
/// Only a key of the axis across the snake's heading counts, so neither the
/// heading itself nor its reverse can be asked for. Where both keys of
/// that axis are held, `Down` wins over `Up` and `Right` over `Left`. Where
/// none is held, `pending` stays.
pub open spec fn requested(direction: Direction, pending: Direction, keys: Keys) -> Direction {
    if direction.is_vertical() {
        if keys.right {
            Direction::Right
        } else if keys.left {
            Direction::Left
        } else {
            pending
        }
    } else {
        if keys.down {
            Direction::Down
        } else if keys.up {
            Direction::Up
        } else {
            pending
        }
    }
}

/// Samples the keys: computes the direction to keep in store for the next
/// turn.
pub fn sample_direction(direction: &Direction, pending: Direction, keys: &Keys) -> (next: Direction)
    ensures
        next == requested(*direction, pending, *keys),
        pending != direction.opposite() ==> next != direction.opposite(),
{
    let across: bool = !direction.vertical();
    let mut next: Direction = pending;
    if keys.up && across {
        next = Direction::Up;
    }
    if keys.down && across {
        next = Direction::Down;
    }
    if keys.left && !across {
        next = Direction::Left;
    }
    if keys.right && !across {
        next = Direction::Right;
    }
    next
}

/// What a key press means for the end of the session.
#[derive(Clone, Copy, Debug, PartialEq, Eq, Structural)]
pub enum QuitRequest {
    /// The key pressed is not the quit key.
    NotAsked,
    /// The quit key with both modifiers: the session ends.
    Granted,
    /// The quit key with one modifier only: nothing happens, and the player
    /// is told that both are needed.
    OneModifier,
    /// The quit key on its own: nothing happens.
    NoModifier,
}

/// The meaning of a key press, from whether it is the quit key and which of
/// the two modifiers are held with it.
pub open spec fn quit_meaning(quit_key: bool, shift: bool, ctrl: bool) -> QuitRequest {
    if !quit_key {
        QuitRequest::NotAsked
    } else if shift && ctrl {
        QuitRequest::Granted
    } else if shift || ctrl {
        QuitRequest::OneModifier
    } else {
        QuitRequest::NoModifier
    }
}

/// Decides what a key press means for the end of the session. The session
/// ends only on the quit key with both modifiers held.
pub fn quit_request(quit_key: bool, shift: bool, ctrl: bool) -> (request: QuitRequest)
    ensures
        request == quit_meaning(quit_key, shift, ctrl),
        request == QuitRequest::Granted <==> quit_key && shift && ctrl,
{
    if !quit_key {
        QuitRequest::NotAsked
    } else if shift && ctrl {
        QuitRequest::Granted
    } else if shift || ctrl {
        QuitRequest::OneModifier
    } else {
        QuitRequest::NoModifier
    }
}

} // verus!
