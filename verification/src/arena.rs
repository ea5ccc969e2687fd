//! The arena's fixed measures, and the two-component vector that positions,
//! sizes and directions are written in.

use vstd::prelude::*;

verus! {

/// Width of the arena.
pub const ARENA_WIDTH: i32 = 640;

/// Height of the arena. The vertical axis points down: `y == 0` is the top wall.
pub const ARENA_HEIGHT: i32 = 360;

/// Width of a paddle.
pub const PADDLE_WIDTH: i32 = 10;

/// Height of a paddle.
pub const PADDLE_HEIGHT: i32 = 60;

/// Distance that a paddle travels in one tick.
pub const PADDLE_SPEED: i32 = 5;

/// Edge of the square ball.
pub const BALL_SIZE: i32 = 10;

/// Distance that the ball travels along each axis in one tick.
pub const BALL_SPEED: i32 = 5;

/// A pair of whole coordinates: a position (of a top-left corner), a size,
/// a displacement or a direction.
#[derive(Clone, Copy, Debug, PartialEq, Eq, Structural)]
pub struct Vec2 {
    pub x: i32,
    pub y: i32,
}

impl Vec2 {
    /// Both components are one of -1, 0 and 1.
    pub open spec fn is_direction(self) -> bool {
        &&& -1 <= self.x <= 1
        &&& -1 <= self.y <= 1
    }

    /// The vector with each component multiplied by `factor`.
    pub open spec fn scaled(self, factor: i32) -> Vec2 {
        Vec2 { x: (self.x * factor) as i32, y: (self.y * factor) as i32 }
    }

    /// The vector with the components `x` and `y`.
    pub fn new(x: i32, y: i32) -> (v: Vec2)
        ensures
            v == (Vec2 { x, y }),
    {
        Vec2 { x, y }
    }

    /// Multiplies each component by `factor`.
    pub fn scale(self, factor: i32) -> (v: Vec2)
        requires
            i32::MIN <= self.x * factor <= i32::MAX,
            i32::MIN <= self.y * factor <= i32::MAX,
        ensures
            v == self.scaled(factor),
    {
        Vec2 { x: self.x * factor, y: self.y * factor }
    }
}

/// `value` if it lies in `[min, max]`, else the bound that it passed. Where
/// `min > max`, a value below `min` gives `min` and any other gives `max`.
pub open spec fn clamped(value: int, min: int, max: int) -> int {
    if value < min {
        min
    } else if value > max {
        max
    } else {
        value
    }
}

/// Bounds `value` to `[min, max]` by a call of `macroquad::math::clamp`.
///
/// That the call returns `clamped(value, min, max)` is read off that
/// function's source and not proved here: it compares `value` with `min`
/// first and with `max` second, and returns the bound that `value` passed or
/// `value` itself. It never panics, also where `min > max`.
#[verifier::external_body]
pub(crate) fn clamp(value: i64, min: i64, max: i64) -> (r: i64)
    ensures
        r == clamped(value as int, min as int, max as int),
{
    macroquad::math::clamp(value, min, max)
}

} // verus!
