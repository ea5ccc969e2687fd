use pong::render::{decimal_text, score_text};
use pong::{Baseline, Color, Context, DrawCommand, GameState, Vec2, BACKGROUND};

fn white_text(text: &str, font_size: u16, baseline: Baseline) -> DrawCommand {
    DrawCommand::Text { text: text.to_string(), font_size, baseline, color: Color::White }
}

fn white_box(x: i32, y: i32, w: i32, h: i32) -> DrawCommand {
    DrawCommand::Rect { pos: Vec2::new(x, y), size: Vec2::new(w, h), color: Color::White }
}

#[test]
fn decimal_text_of_one_digit() {
    assert_eq!(decimal_text(0), "0");
    assert_eq!(decimal_text(7), "7");
    assert_eq!(decimal_text(9), "9");
}

#[test]
fn decimal_text_of_several_digits() {
    assert_eq!(decimal_text(10), "10");
    assert_eq!(decimal_text(12), "12");
    assert_eq!(decimal_text(100), "100");
    assert_eq!(decimal_text(9876543), "9876543");
    assert_eq!(decimal_text(1000000000), "1000000000");
}

#[test]
fn decimal_text_of_the_largest_count() {
    assert_eq!(decimal_text(u32::MAX), "4294967295");
}

#[test]
fn decimal_text_agrees_with_the_standard_library() {
    let mut n: u32 = 0;
    for _ in 0..2000 {
        assert_eq!(decimal_text(n), n.to_string());
        n = n.wrapping_mul(1664525).wrapping_add(1013904223);
    }
}

#[test]
fn score_text_names_the_player_first() {
    assert_eq!(score_text((0, 0)), "0 - 0");
    assert_eq!(score_text((3, 12)), "3 - 12");
    assert_eq!(score_text((u32::MAX, 40)), "4294967295 - 40");
}

#[test]
fn background_is_black() {
    assert_eq!(BACKGROUND, Color::Black);
}

#[test]
fn opening_screen_shows_title_and_prompt() {
    let ctx = Context::new();
    assert_eq!(
        ctx.draw(),
        vec![
            white_text("PONG", 16, Baseline::Centred { measured: 0, drop: 0 }),
            white_text("Press Enter to play", 16, Baseline::Centred { measured: 1, drop: 18 }),
        ]
    );
}

#[test]
fn rally_shows_score_paddles_and_ball() {
    let mut ctx = Context::new();
    ctx.state = GameState::Playing;
    assert_eq!(
        ctx.draw(),
        vec![
            white_text("0 - 0", 16, Baseline::Fixed { y: 16 }),
            white_box(10, 150, 10, 60),
            white_box(620, 150, 10, 60),
            white_box(315, 175, 10, 10),
        ]
    );
}

#[test]
fn rally_is_drawn_where_the_pieces_stand() {
    let mut ctx = Context::new();
    ctx.state = GameState::Playing;
    ctx.player.pos.y = 0;
    ctx.enemy.pos.y = 300;
    ctx.ball.pos = Vec2::new(42, 7);
    ctx.score = (11, 205);
    assert_eq!(
        ctx.draw(),
        vec![
            white_text("11 - 205", 16, Baseline::Fixed { y: 16 }),
            white_box(10, 0, 10, 60),
            white_box(620, 300, 10, 60),
            white_box(42, 7, 10, 10),
        ]
    );
}

#[test]
fn closing_screen_shows_final_score_and_prompt() {
    let mut ctx = Context::new();
    ctx.state = GameState::End;
    ctx.score = (2, 5);
    assert_eq!(
        ctx.draw(),
        vec![
            white_text("Final score: 2 - 5", 16, Baseline::Centred { measured: 0, drop: 0 }),
            white_text(
                "Press Enter to restart the game or Esc to exit",
                12,
                Baseline::Centred { measured: 0, drop: 16 },
            ),
        ]
    );
}

#[test]
fn quit_session_shows_nothing() {
    let mut ctx = Context::new();
    ctx.state = GameState::Quit;
    assert_eq!(ctx.draw(), vec![]);
}

#[test]
fn draw_leaves_the_session_alone() {
    let mut ctx = Context::new();
    ctx.state = GameState::Playing;
    let before = ctx;
    ctx.draw();
    assert_eq!(ctx, before);
}

#[test]
fn centred_lines_are_measured_by_text_of_the_same_frame() {
    for state in [GameState::Start, GameState::Playing, GameState::End, GameState::Quit] {
        let mut ctx = Context::new();
        ctx.state = state;
        let commands = ctx.draw();
        for command in &commands {
            if let DrawCommand::Text { baseline: Baseline::Centred { measured, .. }, .. } = command
            {
                assert!(matches!(commands[*measured], DrawCommand::Text { .. }));
            }
        }
    }
}
