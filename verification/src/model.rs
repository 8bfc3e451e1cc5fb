//! The game as mathematics: the state over unbounded integers and one frame
//! of simulation as a composition of six phases.

use vstd::prelude::*;
use crate::bounds::clamped;
use crate::geometry::Coords;
use crate::units::{
    BALL_SIZE_HALF, PADDING, PLAYER_SPEED, RACKET_HEIGHT_HALF, RACKET_WIDTH_HALF,
};

verus! {

/// Which of the four controls are held during a frame.
#[derive(Clone, Copy, Debug, PartialEq, Eq)]
pub struct Input {
    pub p1_up: bool,
    pub p1_down: bool,
    pub p2_up: bool,
    pub p2_down: bool,
}

/// The whole game: paddle centres, ball centre, ball velocity and the score.
pub struct Game {
    pub left: Coords,
    pub right: Coords,
    pub ball: Coords,
    pub vel: Coords,
    pub p1_points: int,
    pub p2_points: int,
}

/// The absolute value of `v`.
pub open spec fn magnitude(v: int) -> int {
    if v < 0 {
        -v
    } else {
        v
    }
}

/// `(x, y)` with each component kept when its flag is set and negated when
/// it is not.
pub open spec fn signed(x: int, y: int, keep_x: bool, keep_y: bool) -> Coords {
    Coords { x: if keep_x { x } else { -x }, y: if keep_y { y } else { -y } }
}

/// The centre of a `w` by `h` screen.
pub open spec fn center(w: int, h: int) -> Coords {
    Coords { x: w / 2, y: h / 2 }
}

/// The state a game starts in on a `w` by `h` screen when the ball is served
/// with velocity `serve`.
pub open spec fn opening(w: int, h: int, serve: Coords) -> Game {
    Game {
        left: Coords { x: RACKET_WIDTH_HALF + PADDING, y: h / 2 },
        right: Coords { x: w - RACKET_WIDTH_HALF - PADDING, y: h / 2 },
        ball: center(w, h),
        vel: serve,
        p1_points: 0,
        p2_points: 0,
    }
}

/// A paddle's height after its controls acted for `dt` nanoseconds. The two
/// controls are applied one after the other, so holding both cancels out.
pub open spec fn steered(y: int, up: bool, down: bool, dt: nat) -> int {
    let raised = if up {
        y - PLAYER_SPEED * dt
    } else {
        y
    };
    if down {
        raised + PLAYER_SPEED * dt
    } else {
        raised
    }
}

/// Phase one: the held controls move the paddles.
pub open spec fn control(g: Game, dt: nat, input: Input) -> Game {
    Game {
        left: Coords { x: g.left.x, y: steered(g.left.y, input.p1_up, input.p1_down, dt) },
        right: Coords { x: g.right.x, y: steered(g.right.y, input.p2_up, input.p2_down, dt) },
        ..g
    }
}

/// Phase two: the ball moves by its velocity times the elapsed time.
pub open spec fn integrate(g: Game, dt: nat) -> Game {
    Game { ball: Coords { x: g.ball.x + g.vel.x * dt, y: g.ball.y + g.vel.y * dt }, ..g }
}

/// Phase three: the paddles are clamped to a screen of height `h`.
pub open spec fn clamp_paddles(g: Game, h: int) -> Game {
    Game {
        left: Coords { x: g.left.x, y: clamped(g.left.y, RACKET_HEIGHT_HALF as int, h - RACKET_HEIGHT_HALF) },
        right: Coords { x: g.right.x, y: clamped(g.right.y, RACKET_HEIGHT_HALF as int, h - RACKET_HEIGHT_HALF) },
        ..g
    }
}

/// The ball has left a screen of width `w` on either side.
pub open spec fn out_of_play(g: Game, w: int) -> bool {
    g.ball.x < 0 || g.ball.x > w
}

/// Phase four: a ball past the left edge scores for player two, a ball past
/// the right edge for player one; either way the ball returns to the centre
/// with velocity `serve`. A ball exactly on an edge is still in play.
pub open spec fn award(g: Game, w: int, h: int, serve: Coords) -> Game {
    if g.ball.x < 0 {
        Game { ball: center(w, h), vel: serve, p2_points: g.p2_points + 1, ..g }
    } else if g.ball.x > w {
        Game { ball: center(w, h), vel: serve, p1_points: g.p1_points + 1, ..g }
    } else {
        g
    }
}

/// Phase five: a ball whose edge is past the top or the bottom of the screen
/// is put back against that wall and sent away from it.
pub open spec fn bounce_walls(g: Game, h: int) -> Game {
    if g.ball.y < BALL_SIZE_HALF {
        Game {
            ball: Coords { x: g.ball.x, y: BALL_SIZE_HALF as int },
            vel: Coords { x: g.vel.x, y: magnitude(g.vel.y) },
            ..g
        }
    } else if g.ball.y > h - BALL_SIZE_HALF {
        Game {
            ball: Coords { x: g.ball.x, y: h - BALL_SIZE_HALF },
            vel: Coords { x: g.vel.x, y: -magnitude(g.vel.y) },
            ..g
        }
    } else {
        g
    }
}

/// The ball's box and the paddle's box overlap on both axes. Boxes that only
/// touch do not overlap.
pub open spec fn overlaps(ball: Coords, paddle: Coords) -> bool {
    &&& ball.x - BALL_SIZE_HALF < paddle.x + RACKET_WIDTH_HALF
    &&& ball.x + BALL_SIZE_HALF > paddle.x - RACKET_WIDTH_HALF
    &&& ball.y - BALL_SIZE_HALF < paddle.y + RACKET_HEIGHT_HALF
    &&& ball.y + BALL_SIZE_HALF > paddle.y - RACKET_HEIGHT_HALF
}

/// Phase six: a ball overlapping the left paddle is sent right, then a ball
/// overlapping the right paddle is sent left. Only the sign of the horizontal
/// velocity changes.
pub open spec fn bounce_paddles(g: Game) -> Game {
    let off_left = if overlaps(g.ball, g.left) {
        magnitude(g.vel.x)
    } else {
        g.vel.x
    };
    let off_right = if overlaps(g.ball, g.right) {
        -magnitude(off_left)
    } else {
        off_left
    };
    Game { vel: Coords { x: off_right, y: g.vel.y }, ..g }
}

/// The state before scoring is decided: controls, motion and paddle clamp.
pub open spec fn advanced(g: Game, dt: nat, input: Input, h: int) -> Game {
    clamp_paddles(integrate(control(g, dt, input), dt), h)
}

/// One frame: `dt` nanoseconds pass on a `w` by `h` screen while `input` is
/// held; `serve` is the velocity the ball gets if a point is scored.
pub open spec fn step(g: Game, dt: nat, input: Input, w: int, h: int, serve: Coords) -> Game {
    bounce_paddles(bounce_walls(award(advanced(g, dt, input, h), w, h, serve), h))
}

/// A point is scored in the frame that starts in `g` and lasts `dt`.
pub open spec fn scores(g: Game, dt: nat, w: int) -> bool {
    g.ball.x + g.vel.x * dt < 0 || g.ball.x + g.vel.x * dt > w
}

} // verus!
