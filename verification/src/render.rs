//! What to draw for a state: three filled rectangles and the score line.

use vstd::prelude::*;
use vstd::string::StringExecFns;
use crate::geometry::{Point2, Screen};
use crate::state::MainState;
use crate::units::{
    BALL_SIZE, BALL_SIZE_HALF, RACKET_HEIGHT, RACKET_HEIGHT_HALF, RACKET_WIDTH,
    RACKET_WIDTH_HALF,
};

verus! {

/// An axis-aligned rectangle: its top left corner and its size, in position
/// units.
#[derive(Clone, Copy, Debug, PartialEq, Eq)]
pub struct Rect {
    pub x: i64,
    pub y: i64,
    pub w: i64,
    pub h: i64,
}

/// A filled rectangle: `rect` is relative to `dest`.
#[derive(Clone, Copy, Debug, PartialEq, Eq)]
pub struct Sprite {
    pub rect: Rect,
    pub dest: Point2,
}

/// A line of text whose top left corner is at `dest`.
#[derive(Clone, Debug, PartialEq, Eq)]
pub struct Label {
    pub text: String,
    pub dest: Point2,
}

/// One frame's drawing, in the order it is painted.
#[derive(Clone, Debug, PartialEq, Eq)]
pub struct Scene {
    pub left: Sprite,
    pub right: Sprite,
    pub ball: Sprite,
    pub score: Label,
}

/// The character of the decimal digit `d`.
pub open spec fn digit(d: int) -> char {
    if d == 0 {
        '0'
    } else if d == 1 {
        '1'
    } else if d == 2 {
        '2'
    } else if d == 3 {
        '3'
    } else if d == 4 {
        '4'
    } else if d == 5 {
        '5'
    } else if d == 6 {
        '6'
    } else if d == 7 {
        '7'
    } else if d == 8 {
        '8'
    } else {
        '9'
    }
}

/// The decimal digits of `n`, most significant first, without leading zeros.
pub open spec fn decimal(n: nat) -> Seq<char>
    decreases n,
{
    if n < 10 {
        seq![digit(n as int)]
    } else {
        decimal(n / 10).push(digit((n % 10) as int))
    }
}

/// `n` in decimal, with a minus sign in front when it is negative.
pub open spec fn signed_decimal(n: int) -> Seq<char> {
    if n < 0 {
        seq!['-'] + decimal((-n) as nat)
    } else {
        decimal(n as nat)
    }
}

/// The sixteen spaces between the two scores.
pub open spec fn gap() -> Seq<char> {
    Seq::new(16, |i: int| ' ')
}

/// The score line: player one's points, the gap, player two's points.
pub open spec fn score_line(p1_points: int, p2_points: int) -> Seq<char> {
    signed_decimal(p1_points) + gap() + signed_decimal(p2_points)
}

/// The rectangle of a paddle about its centre.
pub open spec fn racket_rect() -> Rect {
    Rect {
        x: (-RACKET_WIDTH_HALF) as i64,
        y: (-RACKET_HEIGHT_HALF) as i64,
        w: RACKET_WIDTH,
        h: RACKET_HEIGHT,
    }
}

/// The square of the ball about its centre.
pub open spec fn ball_rect() -> Rect {
    Rect {
        x: (-BALL_SIZE_HALF) as i64,
        y: (-BALL_SIZE_HALF) as i64,
        w: BALL_SIZE,
        h: BALL_SIZE,
    }
}

/// One decimal digit as text.
fn digit_str(d: u32) -> (text: &'static str)
    requires
        d < 10,
    ensures
        text@ == seq![digit(d as int)],
{
    proof {
        reveal_strlit("0");
        reveal_strlit("1");
        reveal_strlit("2");
        reveal_strlit("3");
        reveal_strlit("4");
        reveal_strlit("5");
        reveal_strlit("6");
        reveal_strlit("7");
        reveal_strlit("8");
        reveal_strlit("9");
    }
    let text = if d == 0 {
        "0"
    } else if d == 1 {
        "1"
    } else if d == 2 {
        "2"
    } else if d == 3 {
        "3"
    } else if d == 4 {
        "4"
    } else if d == 5 {
        "5"
    } else if d == 6 {
        "6"
    } else if d == 7 {
        "7"
    } else if d == 8 {
        "8"
    } else {
        "9"
    };
    assert(text@ =~= seq![digit(d as int)]);
    text
}

/// Appends the decimal digits of `n` to `out`.
fn push_decimal(out: &mut String, n: u32)
    ensures
        final(out)@ == old(out)@ + decimal(n as nat),
    decreases n,
{
    if n >= 10 {
        push_decimal(out, n / 10);
    }
    out.append(digit_str(n % 10));
    assert(final(out)@ =~= old(out)@ + decimal(n as nat));
}

/// Appends `n` in decimal to `out`, with its sign when it is negative.
fn push_signed(out: &mut String, n: i32)
    ensures
        final(out)@ == old(out)@ + signed_decimal(n as int),
{
    if n < 0 {
        proof {
            reveal_strlit("-");
        }
        out.append("-");
        push_decimal(out, (-(n as i64)) as u32);
        assert(final(out)@ =~= old(out)@ + signed_decimal(n as int));
    } else {
        push_decimal(out, n as u32);
    }
}

/// The score line for the two counters.
pub fn score_text(p1_points: i32, p2_points: i32) -> (text: String)
    ensures
        text@ == score_line(p1_points as int, p2_points as int),
{
    let mut text = String::new();
    push_signed(&mut text, p1_points);
    proof {
        reveal_strlit("                ");
    }
    text.append("                ");
    push_signed(&mut text, p2_points);
    assert(text@ =~= score_line(p1_points as int, p2_points as int));
    text
}

impl MainState {
    /// The drawing of this state on `screen`: each paddle and the ball as a
    /// rectangle about its centre, and the score line with its corner at 45
    /// hundredths of the width and one tenth of the height.
    pub fn render(&self, screen: Screen) -> (scene: Scene)
        ensures
            scene.left == (Sprite { rect: racket_rect(), dest: self.p1_pos }),
            scene.right == (Sprite { rect: racket_rect(), dest: self.p2_pos }),
            scene.ball == (Sprite { rect: ball_rect(), dest: self.b_pos }),
            scene.score.text@ == score_line(self.p1_points as int, self.p2_points as int),
            100 * scene.score.dest.x == 45 * screen.w(),
            10 * scene.score.dest.y == screen.h(),
    {
        let racket = Rect {
            x: -RACKET_WIDTH_HALF,
            y: -RACKET_HEIGHT_HALF,
            w: RACKET_WIDTH,
            h: RACKET_HEIGHT,
        };
        let ball = Rect { x: -BALL_SIZE_HALF, y: -BALL_SIZE_HALF, w: BALL_SIZE, h: BALL_SIZE };
        Scene {
            left: Sprite { rect: racket, dest: self.p1_pos },
            right: Sprite { rect: racket, dest: self.p2_pos },
            ball: Sprite { rect: ball, dest: self.b_pos },
            score: Label {
                text: score_text(self.p1_points, self.p2_points),
                dest: Point2 {
                    x: screen.width as i64 * 450_000_000,
                    y: screen.height as i64 * 100_000_000,
                },
            },
        }
    }
}

} // verus!
