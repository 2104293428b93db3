//! The eight directions of a dash, read from the four direction keys.

use vstd::prelude::*;

verus! {

#[derive(Clone, Copy, Debug, PartialEq, Eq, Structural)]
pub enum Direction {
    Up,
    Down,
    Left,
    Right,
    UpLeft,
    UpRight,
    DownLeft,
    DownRight,
}

/// The four direction keys as they are held in one frame.
#[derive(Clone, Copy, Debug, PartialEq, Eq, Structural)]
pub struct HeldKeys {
    pub up: bool,
    pub down: bool,
    pub left: bool,
    pub right: bool,
}

/// One axis of the keys: `-1`, `0` or `1`.
pub open spec fn axis_of(negative: bool, positive: bool) -> int {
    (if positive { 1int } else { 0int }) - (if negative { 1int } else { 0int })
}

/// The horizontal pull of the keys. Where both keys of an axis are held, the
/// one toward the larger coordinate wins.
pub open spec fn pull_x(keys: HeldKeys) -> int {
    if keys.right {
        1
    } else if keys.left {
        -1
    } else {
        0
    }
}

/// The vertical pull of the keys, positive downward.
pub open spec fn pull_y(keys: HeldKeys) -> int {
    if keys.down {
        1
    } else if keys.up {
        -1
    } else {
        0
    }
}

/// The direction that a pull names; no pull names none.
pub open spec fn direction_of(x: int, y: int) -> Option<Direction> {
    if x == 0 && y == -1 {
        Some(Direction::Up)
    } else if x == 0 && y == 1 {
        Some(Direction::Down)
    } else if x == -1 && y == 0 {
        Some(Direction::Left)
    } else if x == 1 && y == 0 {
        Some(Direction::Right)
    } else if x == 1 && y == 1 {
        Some(Direction::DownRight)
    } else if x == -1 && y == -1 {
        Some(Direction::UpLeft)
    } else if x == 1 && y == -1 {
        Some(Direction::UpRight)
    } else if x == -1 && y == 1 {
        Some(Direction::DownLeft)
    } else {
        None
    }
}

/// `1` for the positive key alone, `-1` for the negative key alone, else `0`.
pub fn axis(negative: bool, positive: bool) -> (a: i32)
    ensures
        a == axis_of(negative, positive),
{
    let p: i32 = if positive { 1 } else { 0 };
    let n: i32 = if negative { 1 } else { 0 };
    p - n
}

/// The direction in which the held keys point.
pub fn get_direction(keys: HeldKeys) -> (dir: Option<Direction>)
    ensures
        dir == direction_of(pull_x(keys), pull_y(keys)),
        dir is None <==> !(keys.up || keys.down || keys.left || keys.right),
{
    let mut x: i32 = 0;
    let mut y: i32 = 0;
    if keys.up {
        y = -1;
    }
    if keys.down {
        y = 1;
    }
    if keys.left {
        x = -1;
    }
    if keys.right {
        x = 1;
    }
    if x == 0 && y == -1 {
        Some(Direction::Up)
    } else if x == 0 && y == 1 {
        Some(Direction::Down)
    } else if x == -1 && y == 0 {
        Some(Direction::Left)
    } else if x == 1 && y == 0 {
        Some(Direction::Right)
    } else if x == 1 && y == 1 {
        Some(Direction::DownRight)
    } else if x == -1 && y == -1 {
        Some(Direction::UpLeft)
    } else if x == 1 && y == -1 {
        Some(Direction::UpRight)
    } else if x == -1 && y == 1 {
        Some(Direction::DownLeft)
    } else {
        None
    }
}

} // verus!
