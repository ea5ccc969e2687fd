//! A game session: two paddles, the ball, the score, and the state machine
//! that one tick of input drives.

use crate::arena::{
    clamp, clamped, Vec2, ARENA_HEIGHT, ARENA_WIDTH, BALL_SIZE, BALL_SPEED, PADDLE_HEIGHT,
    PADDLE_SPEED, PADDLE_WIDTH,
};
use crate::ball::Ball;
use crate::paddle::Paddle;
use vstd::math::abs;
use vstd::prelude::*;

verus! {

/// Where the game stands.
#[derive(Clone, Copy, Debug, PartialEq, Eq, Structural)]
pub enum GameState {
    /// The opening screen, which waits for a confirm.
    Start,
    /// A rally is running.
    Playing,
    /// The closing screen, which waits for a confirm or a cancel.
    End,
    /// The session is over: nothing changes any more.
    Quit,
}

/// The keys of one frame. `move_up` and `move_down` say that the key is held;
/// the other three say that the key went down in this frame.
#[derive(Clone, Copy, Debug, PartialEq, Eq, Structural)]
pub struct Input {
    pub move_up: bool,
    pub move_down: bool,
    pub confirm: bool,
    pub quit_to_end: bool,
    pub cancel: bool,
}

/// A session. `score.0` counts the player's points and `score.1` the enemy's.
#[derive(Clone, Copy, Debug, PartialEq, Eq)]
pub struct Context {
    pub state: GameState,
    pub player: Paddle,
    pub enemy: Paddle,
    pub ball: Ball,
    pub score: (u32, u32),
}

/// The extent of either paddle.
pub open spec fn paddle_size() -> Vec2 {
    Vec2 { x: PADDLE_WIDTH, y: PADDLE_HEIGHT }
}

/// The player's paddle after the movement keys of `input`: first up by one
/// step if `move_up` is held, then down by one step if `move_down` is held,
/// each stopped at the wall on its own.
pub open spec fn steered(player: Paddle, input: Input) -> Paddle {
    let raised = if input.move_up {
        player.moved_by(Vec2 { x: 0, y: (-PADDLE_SPEED) as i32 })
    } else {
        player
    };
    if input.move_down {
        raised.moved_by(Vec2 { x: 0, y: PADDLE_SPEED })
    } else {
        raised
    }
}

/// A ball that has struck a paddle: it turns round horizontally, is pushed
/// back into the lane between the paddles, and leaves downwards if its middle
/// is above the middle of the nearer paddle, upwards if not. The enemy's
/// paddle counts as the nearer one when both are equally far.
pub open spec fn deflected(ball: Ball, player: Paddle, enemy: Paddle) -> Ball {
    let x = clamped(ball.pos.x as int, player.pos.x + PADDLE_WIDTH, enemy.pos.x as int);
    let centre = if abs(x - player.pos.x) < abs(x - enemy.pos.x) {
        player.pos.y + PADDLE_HEIGHT / 2
    } else {
        enemy.pos.y + PADDLE_HEIGHT / 2
    };
    Ball {
        pos: Vec2 { x: x as i32, y: ball.pos.y },
        size: ball.size,
        velocity: Vec2 {
            x: (-ball.velocity.x) as i32,
            y: if ball.pos.y + BALL_SIZE / 2 < centre {
                1i32
            } else {
                -1i32
            },
        },
    }
}

impl Context {
    /// Both paddles and the ball have their fixed sizes and lie inside the
    /// arena, the player's paddle to the left of the enemy's, and the ball's
    /// velocity is a direction.
    pub open spec fn wf(self) -> bool {
        &&& self.player.wf()
        &&& self.enemy.wf()
        &&& self.ball.wf()
        &&& self.player.size == paddle_size()
        &&& self.enemy.size == paddle_size()
        &&& self.ball.size == (Vec2 { x: BALL_SIZE, y: BALL_SIZE })
        &&& 0 <= self.player.pos.x
        &&& self.player.pos.x + PADDLE_WIDTH <= self.enemy.pos.x
        &&& self.enemy.pos.x + PADDLE_WIDTH <= ARENA_WIDTH
        &&& 0 <= self.ball.pos.x <= ARENA_WIDTH
    }

    /// A session as it begins, in the given state: the paddles at mid-height,
    /// ten units from the left and the right wall, the ball served, no points.
    pub open spec fn fresh(state: GameState) -> Context {
        Context {
            state,
            player: Paddle {
                pos: Vec2 { x: 10, y: (ARENA_HEIGHT / 2 - PADDLE_HEIGHT / 2) as i32 },
                size: paddle_size(),
            },
            enemy: Paddle {
                pos: Vec2 {
                    x: (ARENA_WIDTH - 10 - PADDLE_WIDTH) as i32,
                    y: (ARENA_HEIGHT / 2 - PADDLE_HEIGHT / 2) as i32,
                },
                size: paddle_size(),
            },
            ball: Ball::served(),
            score: (0, 0),
        }
    }

    /// The direction in which the enemy's paddle follows the ball: down if the
    /// ball's top is below the paddle's bottom, up if the ball's bottom is
    /// above the paddle's top, and nowhere while their heights meet.
    pub open spec fn ai_move(self) -> Vec2 {
        if self.ball.pos.y > self.enemy.pos.y + self.enemy.size.y {
            Vec2 { x: 0, y: 1 }
        } else if self.ball.pos.y + BALL_SIZE < self.enemy.pos.y {
            Vec2 { x: 0, y: -1i32 }
        } else {
            Vec2 { x: 0, y: 0 }
        }
    }

    /// The enemy's paddle after it has followed the ball for one tick.
    pub open spec fn follower(self) -> Paddle {
        self.enemy.moved_by(self.ai_move().scaled(PADDLE_SPEED))
    }

    /// The ball after one step along its velocity, bounced off the top or
    /// bottom wall if it has come against one.
    pub open spec fn flown(self) -> Ball {
        self.ball.moved_by(self.ball.velocity.scaled(BALL_SPEED))
    }

    /// The ball's next step takes it past the right wall.
    pub open spec fn ball_exits_right(self) -> bool {
        self.ball.pos.x + self.ball.velocity.x * BALL_SPEED > ARENA_WIDTH
    }

    /// The ball's next step takes it past the left wall.
    pub open spec fn ball_exits_left(self) -> bool {
        self.ball.pos.x + self.ball.velocity.x * BALL_SPEED < 0
    }

    /// This tick brings the player a point: a rally is running and the ball
    /// leaves past the right wall.
    pub open spec fn player_scores(self) -> bool {
        self.state == GameState::Playing && self.ball_exits_right()
    }

    /// This tick brings the enemy a point: a rally is running and the ball
    /// leaves past the left wall.
    pub open spec fn enemy_scores(self) -> bool {
        self.state == GameState::Playing && self.ball_exits_left()
    }

    /// After its step the ball overlaps a paddle, as the paddles stand after
    /// their own moves of this tick.
    pub open spec fn ball_strikes(self, input: Input) -> bool {
        ||| steered(self.player, input).overlaps(self.flown().pos)
        ||| self.follower().overlaps(self.flown().pos)
    }

    /// One tick of a running rally.
    ///
    /// The player's paddle follows the keys, the enemy's follows the ball as
    /// it lay before this tick, and the ball travels one step. A ball past the
    /// right wall is a point for the player, one past the left wall a point
    /// for the enemy, and either way the ball is served again. Otherwise a
    /// ball that overlaps a paddle is deflected. `quit_to_end` ends the rally,
    /// after this tick's play.
    pub open spec fn played(self, input: Input) -> Context {
        let state = if input.quit_to_end {
            GameState::End
        } else {
            GameState::Playing
        };
        let player = steered(self.player, input);
        let enemy = self.follower();
        if self.ball_exits_right() {
            Context {
                state,
                player,
                enemy,
                ball: Ball::served(),
                score: ((self.score.0 + 1) as u32, self.score.1),
            }
        } else if self.ball_exits_left() {
            Context {
                state,
                player,
                enemy,
                ball: Ball::served(),
                score: (self.score.0, (self.score.1 + 1) as u32),
            }
        } else if self.ball_strikes(input) {
            Context {
                state,
                player,
                enemy,
                ball: deflected(self.flown(), player, enemy),
                score: self.score,
            }
        } else {
            Context { state, player, enemy, ball: self.flown(), score: self.score }
        }
    }

    /// The session after one tick with the keys of `input`.
    pub open spec fn stepped(self, input: Input) -> Context {
        match self.state {
            GameState::Start => if input.confirm {
                Context { state: GameState::Playing, ..self }
            } else {
                self
            },
            GameState::Playing => self.played(input),
            GameState::End => if input.confirm {
                Context::fresh(GameState::Playing)
            } else if input.cancel {
                Context { state: GameState::Quit, ..self }
            } else {
                self
            },
            GameState::Quit => self,
        }
    }

    /// The session after one tick for each entry of `inputs`, in order.
    pub open spec fn ran(self, inputs: Seq<Input>) -> Context
        decreases inputs.len(),
    {
        if inputs.len() == 0 {
            self
        } else {
            self.ran(inputs.drop_last()).stepped(inputs.last())
        }
    }

    /// A session on the opening screen.
    pub fn new() -> (ctx: Context)
        ensures
            ctx == Context::fresh(GameState::Start),
            ctx.wf(),
    {
        Context {
            state: GameState::Start,
            player: Paddle::new(
                Vec2::new(10, ARENA_HEIGHT / 2 - PADDLE_HEIGHT / 2),
                Vec2::new(PADDLE_WIDTH, PADDLE_HEIGHT),
            ),
            enemy: Paddle::new(
                Vec2::new(ARENA_WIDTH - 10 - PADDLE_WIDTH, ARENA_HEIGHT / 2 - PADDLE_HEIGHT / 2),
                Vec2::new(PADDLE_WIDTH, PADDLE_HEIGHT),
            ),
            ball: Ball::new(
                Vec2::new(ARENA_WIDTH / 2 - BALL_SIZE / 2, ARENA_HEIGHT / 2 - BALL_SIZE / 2),
                Vec2::new(BALL_SIZE, BALL_SIZE),
            ),
            score: (0, 0),
        }
    }

    /// Whether the session is well formed, for a caller that has built or
    /// changed one by hand.
    pub fn is_valid(&self) -> (valid: bool)
        ensures
            valid == self.wf(),
    {
        let paddle = Vec2::new(PADDLE_WIDTH, PADDLE_HEIGHT);
        let ball = Vec2::new(BALL_SIZE, BALL_SIZE);
        self.player.size == paddle && self.enemy.size == paddle && self.ball.size == ball
            && 0 <= self.player.pos.y && self.player.pos.y <= ARENA_HEIGHT - PADDLE_HEIGHT
            && 0 <= self.enemy.pos.y && self.enemy.pos.y <= ARENA_HEIGHT - PADDLE_HEIGHT
            && 0 <= self.ball.pos.y && self.ball.pos.y <= ARENA_HEIGHT - BALL_SIZE
            && -1 <= self.ball.velocity.x && self.ball.velocity.x <= 1
            && -1 <= self.ball.velocity.y && self.ball.velocity.y <= 1
            && 0 <= self.player.pos.x
            && self.player.pos.x as i64 + PADDLE_WIDTH as i64 <= self.enemy.pos.x as i64
            && self.enemy.pos.x <= ARENA_WIDTH - PADDLE_WIDTH
            && 0 <= self.ball.pos.x && self.ball.pos.x <= ARENA_WIDTH
    }

    /// Puts the paddles, the ball and the score back to where a session
    /// begins. The state stays as it is.
    pub fn reset(&mut self)
        ensures
            *final(self) == Context::fresh(old(self).state),
            final(self).wf(),
    {
        let state = self.state;
        *self = Context::new();
        self.state = state;
    }

    /// The direction in which the enemy's paddle should move in this tick.
    pub fn get_ai_move(&self) -> (mov: Vec2)
        ensures
            mov == self.ai_move(),
    {
        let ball_y: i64 = self.ball.pos.y as i64;
        let enemy_y: i64 = self.enemy.pos.y as i64;
        if ball_y > enemy_y + self.enemy.size.y as i64 {
            Vec2::new(0, 1)
        } else if ball_y + (BALL_SIZE as i64) < enemy_y {
            Vec2::new(0, -1)
        } else {
            Vec2::new(0, 0)
        }
    }

    /// Advances the session by one tick with the keys of `input`.
    ///
    /// A point can only be counted while the scorer's count is below
    /// `u32::MAX`.
    pub fn update(&mut self, input: Input)
        requires
            old(self).wf(),
            old(self).player_scores() ==> old(self).score.0 < u32::MAX,
            old(self).enemy_scores() ==> old(self).score.1 < u32::MAX,
        ensures
            *final(self) == old(self).stepped(input),
            final(self).wf(),
    {
        match self.state {
            GameState::Start => {
                if input.confirm {
                    self.state = GameState::Playing;
                }
            },
            GameState::Playing => {
                if input.move_up {
                    self.player.move_by(Vec2::new(0, -PADDLE_SPEED));
                }
                if input.move_down {
                    self.player.move_by(Vec2::new(0, PADDLE_SPEED));
                }
                if input.quit_to_end {
                    self.state = GameState::End;
                }
                let ai_move = self.get_ai_move();
                self.enemy.move_by(ai_move.scale(PADDLE_SPEED));
                let step = self.ball.velocity.scale(BALL_SPEED);
                let ball_pos = self.ball.move_by(step);
                if ball_pos.x > ARENA_WIDTH {
                    self.score.0 = self.score.0 + 1;
                    self.ball.reset();
                } else if ball_pos.x < 0 {
                    self.score.1 = self.score.1 + 1;
                    self.ball.reset();
                } else if self.player.is_colliding(&ball_pos) || self.enemy.is_colliding(
                    &ball_pos,
                ) {
                    self.deflect_ball();
                }
            },
            GameState::End => {
                if input.confirm {
                    self.reset();
                    self.state = GameState::Playing;
                } else if input.cancel {
                    self.state = GameState::Quit;
                }
            },
            GameState::Quit => {},
        }
    }

    /// Advances the session by one tick if it is well formed and the point
    /// that this tick brings, if any, can still be counted. Otherwise leaves
    /// the session as it is. Returns whether the tick was made.
    pub fn try_update(&mut self, input: Input) -> (done: bool)
        ensures
            done <==> {
                &&& old(self).wf()
                &&& old(self).player_scores() ==> old(self).score.0 < u32::MAX
                &&& old(self).enemy_scores() ==> old(self).score.1 < u32::MAX
            },
            done ==> *final(self) == old(self).stepped(input) && final(self).wf(),
            !done ==> *final(self) == *old(self),
    {
        if !self.is_valid() {
            return false;
        }
        if self.state == GameState::Playing {
            let next_x: i32 = self.ball.pos.x + self.ball.velocity.x * BALL_SPEED;
            if next_x > ARENA_WIDTH && self.score.0 == u32::MAX {
                return false;
            }
            if next_x < 0 && self.score.1 == u32::MAX {
                return false;
            }
        }
        self.update(input);
        true
    }

    /// Turns the ball back from the paddle that it has struck.
    fn deflect_ball(&mut self)
        requires
            old(self).player.pos.x + PADDLE_WIDTH <= i32::MAX,
            old(self).ball.velocity.x > i32::MIN,
        ensures
            *final(self) == (Context {
                ball: deflected(old(self).ball, old(self).player, old(self).enemy),
                ..*old(self)
            }),
    {
        let lane_left: i64 = self.player.pos.x as i64 + PADDLE_WIDTH as i64;
        let x: i64 = clamp(self.ball.pos.x as i64, lane_left, self.enemy.pos.x as i64);
        let to_player: i64 = distance(x, self.player.pos.x as i64);
        let to_enemy: i64 = distance(x, self.enemy.pos.x as i64);
        let centre: i64 = if to_player < to_enemy {
            self.player.pos.y as i64 + (PADDLE_HEIGHT / 2) as i64
        } else {
            self.enemy.pos.y as i64 + (PADDLE_HEIGHT / 2) as i64
        };
        self.ball.velocity.x = -self.ball.velocity.x;
        self.ball.pos.x = x as i32;
        if self.ball.pos.y as i64 + ((BALL_SIZE / 2) as i64) < centre {
            self.ball.velocity.y = 1;
        } else {
            self.ball.velocity.y = -1;
        }
    }
}

/// How far apart `a` and `b` lie.
fn distance(a: i64, b: i64) -> (d: i64)
    requires
        i32::MIN <= a <= i32::MAX,
        i32::MIN <= b <= i32::MAX,
    ensures
        d == abs(a - b),
{
    if a < b {
        b - a
    } else {
        a - b
    }
}

} // verus!
