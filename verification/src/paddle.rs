//! A paddle, which moves along the arena's height and never leaves it.

use crate::arena::{clamp, clamped, Vec2, ARENA_HEIGHT, BALL_SIZE};
use vstd::prelude::*;

verus! {

/// A paddle: the box whose top-left corner is `pos` and whose extent is `size`.
#[derive(Clone, Copy, Debug, PartialEq, Eq, Structural)]
pub struct Paddle {
    pub pos: Vec2,
    pub size: Vec2,
}

impl Paddle {
    /// The paddle is no taller than the arena, so that it has room to stand in.
    pub open spec fn fits(self) -> bool {
        0 <= self.size.y <= ARENA_HEIGHT
    }

    /// The paddle stands between the arena's top and bottom walls.
    pub open spec fn wf(self) -> bool {
        &&& self.fits()
        &&& 0 <= self.pos.y <= ARENA_HEIGHT - self.size.y
    }

    /// The paddle after a move by `mov`: shifted down by `mov.y` and stopped at
    /// the wall that it would pass. A paddle keeps its column, whatever `mov.x`.
    pub open spec fn moved_by(self, mov: Vec2) -> Paddle {
        Paddle {
            pos: Vec2 {
                x: self.pos.x,
                y: clamped(self.pos.y + mov.y, 0, ARENA_HEIGHT - self.size.y) as i32,
            },
            size: self.size,
        }
    }

    /// The paddle after each move of `moves`, in order.
    pub open spec fn moved_by_all(self, moves: Seq<Vec2>) -> Paddle
        decreases moves.len(),
    {
        if moves.len() == 0 {
            self
        } else {
            self.moved_by_all(moves.drop_last()).moved_by(moves.last())
        }
    }

    /// The paddle's box and the box of a ball at `ball_pos` share an inner
    /// point: boxes that only touch along an edge do not overlap.
    pub open spec fn overlaps(self, ball_pos: Vec2) -> bool {
        &&& self.pos.x < ball_pos.x + BALL_SIZE
        &&& self.pos.x + self.size.x > ball_pos.x
        &&& self.pos.y < ball_pos.y + BALL_SIZE
        &&& self.pos.y + self.size.y > ball_pos.y
    }

    /// A paddle of extent `size` with its top-left corner at `pos`. It is well
    /// formed if it is no taller than the arena and `pos` puts it between the
    /// top and bottom walls.
    pub fn new(pos: Vec2, size: Vec2) -> (paddle: Paddle)
        ensures
            paddle == (Paddle { pos, size }),
            paddle.wf() <==> 0 <= size.y <= ARENA_HEIGHT && 0 <= pos.y <= ARENA_HEIGHT - size.y,
    {
        Paddle { pos, size }
    }

    /// Moves the paddle down by `mov.y` (up, where it is negative) and stops it
    /// at the wall. Only the vertical part of `mov` is applied.
    pub fn move_by(&mut self, mov: Vec2)
        requires
            old(self).fits(),
        ensures
            *final(self) == old(self).moved_by(mov),
            final(self).wf(),
    {
        let target: i64 = self.pos.y as i64 + mov.y as i64;
        let lowest: i64 = ARENA_HEIGHT as i64 - self.size.y as i64;
        self.pos.y = clamp(target, 0, lowest) as i32;
    }

    /// Whether a ball whose top-left corner is `ball_pos` overlaps the paddle.
    pub fn is_colliding(&self, ball_pos: &Vec2) -> (hit: bool)
        ensures
            hit == self.overlaps(*ball_pos),
    {
        let ball_right: i64 = ball_pos.x as i64 + BALL_SIZE as i64;
        let ball_bottom: i64 = ball_pos.y as i64 + BALL_SIZE as i64;
        let right: i64 = self.pos.x as i64 + self.size.x as i64;
        let bottom: i64 = self.pos.y as i64 + self.size.y as i64;
        (self.pos.x as i64) < ball_right && right > ball_pos.x as i64
            && (self.pos.y as i64) < ball_bottom && bottom > ball_pos.y as i64
    }
}

} // verus!
