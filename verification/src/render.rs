//! What a frame shows: the session turned into text lines and filled boxes
//! for a renderer to draw, in order.

use crate::arena::Vec2;
use crate::session::{Context, GameState};
use vstd::prelude::*;

verus! {

/// The two colours of the game.
#[derive(Clone, Copy, Debug, PartialEq, Eq, Structural)]
pub enum Color {
    Black,
    White,
}

/// The colour that a frame is cleared to before it is drawn.
pub const BACKGROUND: Color = Color::Black;

/// The height at which a line of text is drawn.
#[derive(Clone, Copy, Debug, PartialEq, Eq, Structural)]
pub enum Baseline {
    /// At `y`.
    Fixed { y: i32 },
    /// At the arena's mid-height, less half the height that the text of the
    /// frame's command number `measured` has when measured at its own font
    /// size, plus `drop`.
    Centred { measured: usize, drop: i32 },
}

/// One thing to draw.
#[derive(Debug, PartialEq, Eq)]
pub enum DrawCommand {
    /// A line of text, centred between the left and the right wall.
    Text { text: String, font_size: u16, baseline: Baseline, color: Color },
    /// A filled box with its top-left corner at `pos`.
    Rect { pos: Vec2, size: Vec2, color: Color },
}

/// A [`DrawCommand`] with its text as a sequence of characters.
pub enum DrawCommandView {
    Text { text: Seq<char>, font_size: u16, baseline: Baseline, color: Color },
    Rect { pos: Vec2, size: Vec2, color: Color },
}

impl View for DrawCommand {
    type V = DrawCommandView;

    open spec fn view(&self) -> DrawCommandView {
        match *self {
            DrawCommand::Text { text, font_size, baseline, color } => DrawCommandView::Text {
                text: text@,
                font_size,
                baseline,
                color,
            },
            DrawCommand::Rect { pos, size, color } => DrawCommandView::Rect { pos, size, color },
        }
    }
}

/// The views of a list of commands, in order.
pub open spec fn views(commands: Seq<DrawCommand>) -> Seq<DrawCommandView> {
    Seq::new(commands.len(), |i: int| commands[i]@)
}

/// The decimal digits, in order.
pub open spec fn digits() -> Seq<char> {
    "0123456789"@
}

/// `n` written in decimal, without leading zeros.
pub open spec fn decimal(n: nat) -> Seq<char>
    decreases n,
{
    if n < 10 {
        seq![digits()[n as int]]
    } else {
        decimal(n / 10).push(digits()[(n % 10) as int])
    }
}

/// The two counts of a score, the player's first.
pub open spec fn score_line(score: (u32, u32)) -> Seq<char> {
    decimal(score.0 as nat) + " - "@ + decimal(score.1 as nat)
}

/// A white line of text.
pub open spec fn line(text: Seq<char>, font_size: u16, baseline: Baseline) -> DrawCommandView {
    DrawCommandView::Text { text, font_size, baseline, color: Color::White }
}

/// A white box.
pub open spec fn block(pos: Vec2, size: Vec2) -> DrawCommandView {
    DrawCommandView::Rect { pos, size, color: Color::White }
}

impl Context {
    /// What the session shows.
    ///
    /// The opening screen shows the title, centred on the arena's middle, and
    /// a prompt 18 units below where it would be centred itself. A rally shows
    /// the score at the top, then the player's paddle, the enemy's paddle and
    /// the ball. The closing screen shows the final score, centred, and in
    /// smaller print a prompt 16 units below it. A session that has quit shows
    /// nothing.
    pub open spec fn scene(self) -> Seq<DrawCommandView> {
        match self.state {
            GameState::Start => seq![
                line("PONG"@, 16, Baseline::Centred { measured: 0, drop: 0 }),
                line("Press Enter to play"@, 16, Baseline::Centred { measured: 1, drop: 18 }),
            ],
            GameState::Playing => seq![
                line(score_line(self.score), 16, Baseline::Fixed { y: 16 }),
                block(self.player.pos, self.player.size),
                block(self.enemy.pos, self.enemy.size),
                block(self.ball.pos, self.ball.size),
            ],
            GameState::End => seq![
                line(
                    "Final score: "@ + score_line(self.score),
                    16,
                    Baseline::Centred { measured: 0, drop: 0 },
                ),
                line(
                    "Press Enter to restart the game or Esc to exit"@,
                    12,
                    Baseline::Centred { measured: 0, drop: 16 },
                ),
            ],
            GameState::Quit => seq![],
        }
    }

    /// The commands that draw the session's current frame, in drawing order.
    pub fn draw(&self) -> (commands: Vec<DrawCommand>)
        ensures
            views(commands@) == self.scene(),
    {
        let mut commands: Vec<DrawCommand> = Vec::new();
        match self.state {
            GameState::Start => {
                commands.push(
                    text_line(
                        String::from_str("PONG"),
                        16,
                        Baseline::Centred { measured: 0, drop: 0 },
                    ),
                );
                commands.push(
                    text_line(
                        String::from_str("Press Enter to play"),
                        16,
                        Baseline::Centred { measured: 1, drop: 18 },
                    ),
                );
            },
            GameState::Playing => {
                commands.push(text_line(score_text(self.score), 16, Baseline::Fixed { y: 16 }));
                commands.push(filled_box(self.player.pos, self.player.size));
                commands.push(filled_box(self.enemy.pos, self.enemy.size));
                commands.push(filled_box(self.ball.pos, self.ball.size));
            },
            GameState::End => {
                let mut text = String::from_str("Final score: ");
                let score = score_text(self.score);
                text.append(score.as_str());
                commands.push(text_line(text, 16, Baseline::Centred { measured: 0, drop: 0 }));
                commands.push(
                    text_line(
                        String::from_str("Press Enter to restart the game or Esc to exit"),
                        12,
                        Baseline::Centred { measured: 0, drop: 16 },
                    ),
                );
            },
            GameState::Quit => {},
        }
        assert(views(commands@) =~= self.scene());
        commands
    }
}

fn text_line(text: String, font_size: u16, baseline: Baseline) -> (command: DrawCommand)
    ensures
        command@ == line(text@, font_size, baseline),
{
    DrawCommand::Text { text, font_size, baseline, color: Color::White }
}

fn filled_box(pos: Vec2, size: Vec2) -> (command: DrawCommand)
    ensures
        command@ == block(pos, size),
{
    DrawCommand::Rect { pos, size, color: Color::White }
}

/// Writes `n` in decimal.
pub fn decimal_text(n: u32) -> (text: String)
    ensures
        text@ == decimal(n as nat),
    decreases n,
{
    let all = "0123456789";
    proof {
        reveal_strlit("0123456789");
    }
    if n < 10 {
        let digit = all.substring_ascii(n as usize, n as usize + 1);
        assert(digit@ =~= seq![digits()[n as int]]);
        String::from_str(digit)
    } else {
        let mut text = decimal_text(n / 10);
        let digit = all.substring_ascii((n % 10) as usize, (n % 10) as usize + 1);
        assert(digit@ =~= seq![digits()[(n % 10) as int]]);
        text.append(digit);
        assert(text@ =~= decimal(n as nat));
        text
    }
}

/// Writes a score as its two counts, the player's first, with ` - ` between.
pub fn score_text(score: (u32, u32)) -> (text: String)
    ensures
        text@ == score_line(score),
{
    let mut text = decimal_text(score.0);
    text.append(" - ");
    let enemy = decimal_text(score.1);
    text.append(enemy.as_str());
    text
}

} // verus!
