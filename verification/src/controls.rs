//! Directional input: the four movement events and the key bindings
//! that produce them.

use vstd::prelude::*;

verus! {

/// A directional input event. One is fired per key press and consumed
/// by movement and by the tutorial countdown.
#[derive(Clone, Copy, PartialEq, Eq, Structural, Debug)]
pub enum Direction {
    Left,
    Right,
    Up,
    Down,
}

/// Direction bound to a key, if any: `a`, `d`, `w` and `s` steer,
/// every other key is ignored.
pub open spec fn spec_key_direction(key: char) -> Option<Direction> {
    if key == 'a' {
        Some(Direction::Left)
    } else if key == 'd' {
        Some(Direction::Right)
    } else if key == 'w' {
        Some(Direction::Up)
    } else if key == 's' {
        Some(Direction::Down)
    } else {
        None
    }
}

/// Maps a pressed key to the directional event it fires.
pub fn key_direction(key: char) -> (r: Option<Direction>)
    ensures
        r == spec_key_direction(key),
{
    if key == 'a' {
        Some(Direction::Left)
    } else if key == 'd' {
        Some(Direction::Right)
    } else if key == 'w' {
        Some(Direction::Up)
    } else if key == 's' {
        Some(Direction::Down)
    } else {
        None
    }
}

} // verus!
