//! What holds of every tick of a session, proved from the tick's definition.

use crate::arena::{
    Vec2, ARENA_HEIGHT, BALL_SIZE, BALL_SPEED, PADDLE_HEIGHT, PADDLE_SPEED, PADDLE_WIDTH,
};
use crate::ball::Ball;
use crate::paddle::Paddle;
use crate::render::{Baseline, DrawCommandView};
use crate::session::{Context, GameState, Input};
use vstd::prelude::*;

verus! {

/// A tick keeps a session well formed: both paddles and the ball stay between
/// the top and bottom walls, whatever the keys. During a rally the paddles
/// also keep their columns.
pub proof fn theorem_tick_keeps_bounds(ctx: Context, input: Input)
    requires
        ctx.wf(),
    ensures
        ctx.stepped(input).wf(),
        0 <= ctx.stepped(input).player.pos.y <= ARENA_HEIGHT - PADDLE_HEIGHT,
        0 <= ctx.stepped(input).enemy.pos.y <= ARENA_HEIGHT - PADDLE_HEIGHT,
        0 <= ctx.stepped(input).ball.pos.y <= ARENA_HEIGHT - BALL_SIZE,
        ctx.state == GameState::Playing ==> {
            &&& ctx.stepped(input).player.pos.x == ctx.player.pos.x
            &&& ctx.stepped(input).enemy.pos.x == ctx.enemy.pos.x
        },
{
}

/// However many ticks pass, and whatever keys they bring, the paddles and the
/// ball stay between the top and bottom walls.
pub proof fn theorem_run_keeps_bounds(ctx: Context, inputs: Seq<Input>)
    requires
        ctx.wf(),
    ensures
        ctx.ran(inputs).wf(),
        0 <= ctx.ran(inputs).player.pos.y <= ARENA_HEIGHT - PADDLE_HEIGHT,
        0 <= ctx.ran(inputs).enemy.pos.y <= ARENA_HEIGHT - PADDLE_HEIGHT,
        0 <= ctx.ran(inputs).ball.pos.y <= ARENA_HEIGHT - BALL_SIZE,
    decreases inputs.len(),
{
    if inputs.len() > 0 {
        theorem_run_keeps_bounds(ctx, inputs.drop_last());
        theorem_tick_keeps_bounds(ctx.ran(inputs.drop_last()), inputs.last());
    }
}

/// However many moves a paddle makes, and whatever they are, it ends between
/// the walls, in the column and with the size that it started with.
pub proof fn theorem_paddle_stays_inside(paddle: Paddle, moves: Seq<Vec2>)
    requires
        paddle.wf(),
    ensures
        paddle.moved_by_all(moves).wf(),
        paddle.moved_by_all(moves).pos.x == paddle.pos.x,
        paddle.moved_by_all(moves).size == paddle.size,
    decreases moves.len(),
{
    if moves.len() > 0 {
        theorem_paddle_stays_inside(paddle, moves.drop_last());
    }
}

/// A move that takes the ball to a wall or past it leaves the ball against
/// that wall with its vertical direction turned round, once. Any other move
/// takes the ball where it was sent and leaves its direction alone.
pub proof fn theorem_wall_turns_ball(ball: Ball, mov: Vec2)
    requires
        ball.wf(),
    ensures
        0 <= ball.moved_by(mov).pos.y <= ARENA_HEIGHT - ball.size.y,
        ball.moved_by(mov).velocity.x == ball.velocity.x,
        ball.pos.y + mov.y <= 0 ==> {
            &&& ball.moved_by(mov).pos.y == 0
            &&& ball.moved_by(mov).velocity.y == -ball.velocity.y
        },
        ball.pos.y + mov.y >= ARENA_HEIGHT - ball.size.y ==> {
            &&& ball.moved_by(mov).pos.y == ARENA_HEIGHT - ball.size.y
            &&& ball.moved_by(mov).velocity.y == -ball.velocity.y
        },
        0 < ball.pos.y + mov.y < ARENA_HEIGHT - ball.size.y ==> {
            &&& ball.moved_by(mov).pos.y == ball.pos.y + mov.y
            &&& ball.moved_by(mov).velocity.y == ball.velocity.y
        },
{
}

/// In a tick of a rally in which the ball neither leaves the arena nor
/// overlaps a paddle, the ball travels one step along its velocity, stops at
/// the top or bottom wall, and turns its vertical direction round exactly when
/// it has come against one.
pub proof fn theorem_free_flight(ctx: Context, input: Input)
    requires
        ctx.wf(),
        ctx.state == GameState::Playing,
        !ctx.player_scores(),
        !ctx.enemy_scores(),
        !ctx.ball_strikes(input),
    ensures
        ctx.stepped(input).ball.pos.x == ctx.ball.pos.x + ctx.ball.velocity.x * BALL_SPEED,
        ctx.stepped(input).ball.velocity.x == ctx.ball.velocity.x,
        ctx.stepped(input).ball.touches_wall() ==> {
            ctx.stepped(input).ball.velocity.y == -ctx.ball.velocity.y
        },
        !ctx.stepped(input).ball.touches_wall() ==> {
            &&& ctx.stepped(input).ball.pos.y == ctx.ball.pos.y + ctx.ball.velocity.y * BALL_SPEED
            &&& ctx.stepped(input).ball.velocity.y == ctx.ball.velocity.y
        },
        ctx.stepped(input).score == ctx.score,
{
}

/// A ball that leaves the arena past the right wall gives the player one
/// point, leaves the enemy's count alone, and is served again from the middle
/// of the arena, heading down and to the left.
pub proof fn theorem_right_exit_scores_for_player(ctx: Context, input: Input)
    requires
        ctx.wf(),
        ctx.player_scores(),
        ctx.score.0 < u32::MAX,
    ensures
        ctx.stepped(input).score.0 == ctx.score.0 + 1,
        ctx.stepped(input).score.1 == ctx.score.1,
        ctx.stepped(input).ball == Ball::served(),
        ctx.stepped(input).ball.pos == (Vec2 { x: 315, y: 175 }),
        ctx.stepped(input).ball.velocity == (Vec2 { x: -1i32, y: 1i32 }),
{
}

/// A ball that leaves the arena past the left wall gives the enemy one point,
/// leaves the player's count alone, and is served again from the middle of
/// the arena, heading down and to the left.
pub proof fn theorem_left_exit_scores_for_enemy(ctx: Context, input: Input)
    requires
        ctx.wf(),
        ctx.enemy_scores(),
        ctx.score.1 < u32::MAX,
    ensures
        ctx.stepped(input).score.0 == ctx.score.0,
        ctx.stepped(input).score.1 == ctx.score.1 + 1,
        ctx.stepped(input).ball == Ball::served(),
        ctx.stepped(input).ball.pos == (Vec2 { x: 315, y: 175 }),
        ctx.stepped(input).ball.velocity == (Vec2 { x: -1i32, y: 1i32 }),
{
}

/// The score changes only when the ball leaves the arena during a rally, or
/// when a confirm on the closing screen clears it.
pub proof fn theorem_score_changes_only_on_exit(ctx: Context, input: Input)
    requires
        ctx.wf(),
        !ctx.player_scores(),
        !ctx.enemy_scores(),
        !(ctx.state == GameState::End && input.confirm),
    ensures
        ctx.stepped(input).score == ctx.score,
{
}

/// A ball that stays in the arena and overlaps a paddle, after both have
/// moved, turns round horizontally and is put into the lane between the
/// paddles: at or right of the player's right edge, at or left of the enemy's
/// left edge. It leaves heading up or down, never level.
pub proof fn theorem_paddle_turns_ball(ctx: Context, input: Input)
    requires
        ctx.wf(),
        ctx.state == GameState::Playing,
        !ctx.player_scores(),
        !ctx.enemy_scores(),
        ctx.ball_strikes(input),
    ensures
        ctx.stepped(input).ball.velocity.x == -ctx.ball.velocity.x,
        ctx.player.pos.x + PADDLE_WIDTH <= ctx.stepped(input).ball.pos.x <= ctx.enemy.pos.x,
        ctx.player.pos.x < ctx.stepped(input).ball.pos.x < ctx.enemy.pos.x + PADDLE_WIDTH,
        ctx.stepped(input).ball.velocity.y == 1 || ctx.stepped(input).ball.velocity.y == -1,
        ctx.stepped(input).score == ctx.score,
{
}

/// While the ball's height and the enemy paddle's height meet, fully or in
/// part, the enemy's paddle stays where it is.
pub proof fn theorem_enemy_rests_beside_ball(ctx: Context, input: Input)
    requires
        ctx.wf(),
        ctx.state == GameState::Playing,
        ctx.ball.pos.y <= ctx.enemy.pos.y + PADDLE_HEIGHT,
        ctx.enemy.pos.y <= ctx.ball.pos.y + BALL_SIZE,
    ensures
        ctx.ai_move() == (Vec2 { x: 0, y: 0 }),
        ctx.stepped(input).enemy == ctx.enemy,
{
}

/// While the ball is wholly below the enemy's paddle, the paddle moves down
/// by exactly one step; while the ball is wholly above, it moves up by exactly
/// one step. A ball inside the arena never draws the paddle into a wall.
pub proof fn theorem_enemy_follows_ball(ctx: Context, input: Input)
    requires
        ctx.wf(),
        ctx.state == GameState::Playing,
    ensures
        ctx.ball.pos.y > ctx.enemy.pos.y + PADDLE_HEIGHT ==> {
            &&& ctx.ai_move() == (Vec2 { x: 0, y: 1 })
            &&& ctx.stepped(input).enemy.pos.y == ctx.enemy.pos.y + PADDLE_SPEED
        },
        ctx.ball.pos.y + BALL_SIZE < ctx.enemy.pos.y ==> {
            &&& ctx.ai_move() == (Vec2 { x: 0, y: -1i32 })
            &&& ctx.stepped(input).enemy.pos.y == ctx.enemy.pos.y - PADDLE_SPEED
        },
{
}

/// On the opening screen a confirm starts the rally and changes nothing
/// else; without a confirm the tick changes nothing at all.
pub proof fn theorem_start_waits_for_confirm(ctx: Context, input: Input)
    requires
        ctx.state == GameState::Start,
    ensures
        input.confirm ==> ctx.stepped(input) == (Context { state: GameState::Playing, ..ctx }),
        !input.confirm ==> ctx.stepped(input) == ctx,
{
}

/// A rally goes on until `quit_to_end` is pressed, and then it ends; it
/// never leads anywhere else.
pub proof fn theorem_rally_ends_on_quit_key(ctx: Context, input: Input)
    requires
        ctx.state == GameState::Playing,
    ensures
        input.quit_to_end ==> ctx.stepped(input).state == GameState::End,
        !input.quit_to_end ==> ctx.stepped(input).state == GameState::Playing,
{
}

/// On the closing screen a confirm starts a new rally from a fresh session;
/// without a confirm, a cancel quits and changes nothing else; without
/// either, the tick changes nothing at all.
pub proof fn theorem_end_restarts_or_quits(ctx: Context, input: Input)
    requires
        ctx.state == GameState::End,
    ensures
        input.confirm ==> ctx.stepped(input) == Context::fresh(GameState::Playing),
        !input.confirm && input.cancel ==> ctx.stepped(input) == (Context {
            state: GameState::Quit,
            ..ctx
        }),
        !input.confirm && !input.cancel ==> ctx.stepped(input) == ctx,
{
}

/// Once a session has quit, no run of ticks changes it.
pub proof fn theorem_quit_is_final(ctx: Context, inputs: Seq<Input>)
    requires
        ctx.state == GameState::Quit,
    ensures
        ctx.ran(inputs) == ctx,
    decreases inputs.len(),
{
    if inputs.len() > 0 {
        theorem_quit_is_final(ctx, inputs.drop_last());
    }
}

/// Every centred line of a frame takes its height from a line of text of the
/// same frame.
pub proof fn theorem_centred_lines_measure_text(ctx: Context, i: int)
    requires
        0 <= i < ctx.scene().len(),
    ensures
        ctx.scene()[i] matches DrawCommandView::Text {
            baseline: Baseline::Centred { measured, .. },
            ..
        } ==> measured < ctx.scene().len() && ctx.scene()[measured as int] is Text,
{
}

} // verus!
