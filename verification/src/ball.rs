//! The ball, which travels in straight lines and turns back at the top and
//! bottom walls.

use crate::arena::{clamp, clamped, Vec2, ARENA_HEIGHT, ARENA_WIDTH, BALL_SIZE};
use vstd::prelude::*;

verus! {

/// The ball: the box whose top-left corner is `pos` and whose extent is `size`,
/// heading where the signs of `velocity` point.
#[derive(Clone, Copy, Debug, PartialEq, Eq, Structural)]
pub struct Ball {
    pub pos: Vec2,
    pub size: Vec2,
    pub velocity: Vec2,
}

impl Ball {
    /// The ball is no taller than the arena.
    pub open spec fn fits(self) -> bool {
        0 <= self.size.y <= ARENA_HEIGHT
    }

    /// The ball lies between the top and bottom walls, and its velocity is a
    /// direction.
    pub open spec fn wf(self) -> bool {
        &&& self.fits()
        &&& 0 <= self.pos.y <= ARENA_HEIGHT - self.size.y
        &&& self.velocity.is_direction()
    }

    /// The ball lies against the top or the bottom wall.
    pub open spec fn touches_wall(self) -> bool {
        self.pos.y == 0 || self.pos.y == ARENA_HEIGHT - self.size.y
    }

    /// The ball as it is served: in the middle of the arena, heading down and to
    /// the left.
    pub open spec fn served() -> Ball {
        Ball {
            pos: Vec2 {
                x: (ARENA_WIDTH / 2 - BALL_SIZE / 2) as i32,
                y: (ARENA_HEIGHT / 2 - BALL_SIZE / 2) as i32,
            },
            size: Vec2 { x: BALL_SIZE, y: BALL_SIZE },
            velocity: Vec2 { x: -1i32, y: 1i32 },
        }
    }

    /// The ball shifted by `mov` and stopped at the wall that it would pass,
    /// before any bounce.
    pub open spec fn shifted_by(self, mov: Vec2) -> Ball {
        Ball {
            pos: Vec2 {
                x: (self.pos.x + mov.x) as i32,
                y: clamped(self.pos.y + mov.y, 0, ARENA_HEIGHT - self.size.y) as i32,
            },
            size: self.size,
            velocity: self.velocity,
        }
    }

    /// The ball with its vertical direction turned round.
    pub open spec fn bounced(self) -> Ball {
        Ball {
            pos: self.pos,
            size: self.size,
            velocity: Vec2 { x: self.velocity.x, y: (-self.velocity.y) as i32 },
        }
    }

    /// The ball after a move by `mov`: shifted, and bounced if and only if the
    /// shift has brought it against a wall.
    pub open spec fn moved_by(self, mov: Vec2) -> Ball {
        let shifted = self.shifted_by(mov);
        if shifted.touches_wall() {
            shifted.bounced()
        } else {
            shifted
        }
    }

    /// A ball of extent `size` with its top-left corner at `pos`, heading down
    /// and to the left. It is well formed if it is no taller than the arena
    /// and `pos` puts it between the top and bottom walls.
    pub fn new(pos: Vec2, size: Vec2) -> (ball: Ball)
        ensures
            ball == (Ball { pos, size, velocity: Vec2 { x: -1i32, y: 1i32 } }),
            ball.wf() <==> 0 <= size.y <= ARENA_HEIGHT && 0 <= pos.y <= ARENA_HEIGHT - size.y,
    {
        Ball { pos, size, velocity: Vec2::new(-1, 1) }
    }

    /// Moves the ball by `mov`, stops it at the wall that it would pass, and
    /// turns its vertical direction round if it now lies against a wall.
    /// Returns the new position.
    ///
    /// The ball lies against the bottom wall when its `y` equals the arena's
    /// height less its own; on whole coordinates no tolerance is needed, and
    /// both walls are tested alike.
    pub fn move_by(&mut self, mov: Vec2) -> (at: Vec2)
        requires
            old(self).fits(),
            i32::MIN <= old(self).pos.x + mov.x <= i32::MAX,
            old(self).velocity.y > i32::MIN,
        ensures
            *final(self) == old(self).moved_by(mov),
            at == final(self).pos,
            0 <= at.y <= ARENA_HEIGHT - old(self).size.y,
            old(self).velocity.is_direction() ==> final(self).wf(),
    {
        let target: i64 = self.pos.y as i64 + mov.y as i64;
        let lowest: i64 = ARENA_HEIGHT as i64 - self.size.y as i64;
        self.pos.x = self.pos.x + mov.x;
        self.pos.y = clamp(target, 0, lowest) as i32;
        if self.pos.y as i64 == lowest || self.pos.y == 0 {
            self.velocity.y = -self.velocity.y;
        }
        self.pos
    }

    /// Serves the ball again: middle of the arena, heading down and to the left.
    pub fn reset(&mut self)
        ensures
            *final(self) == Ball::served(),
            final(self).wf(),
    {
        *self = Ball::new(
            Vec2::new(ARENA_WIDTH / 2 - BALL_SIZE / 2, ARENA_HEIGHT / 2 - BALL_SIZE / 2),
            Vec2::new(BALL_SIZE, BALL_SIZE),
        );
    }
}

} // verus!
