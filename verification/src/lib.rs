//! The rules of a two-paddle arcade game, from key state to the next frame.
//!
//! A session moves one tick at a time: the keys held or pressed in a frame go
//! in, the paddles, the ball, the score and the game's state come out. Every
//! coordinate is a whole number of arena units.

pub mod arena;
pub mod ball;
pub mod paddle;
pub mod render;
pub mod session;
pub mod theorems;

pub use ball::Ball;
pub use paddle::Paddle;
pub use render::{Baseline, Color, DrawCommand, BACKGROUND};
pub use session::{Context, GameState, Input};
pub use arena::{
    Vec2, ARENA_HEIGHT, ARENA_WIDTH, BALL_SIZE, BALL_SPEED, PADDLE_HEIGHT, PADDLE_SPEED,
    PADDLE_WIDTH,
};
