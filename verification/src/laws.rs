//! What holds of every frame, proved of the mathematical model.

use vstd::prelude::*;
use crate::geometry::Coords;
use crate::model::{advanced, magnitude, out_of_play, scores, step, Game, Input};
use crate::units::{BALL_SIZE, BALL_SIZE_HALF, RACKET_HEIGHT, RACKET_HEIGHT_HALF};

verus! {

/// A point is scored in a frame exactly when the ball, once moved, is out of
/// play.
pub proof fn scores_when_out_of_play(g: Game, dt: nat, input: Input, w: int, h: int)
    ensures
        scores(g, dt, w) == out_of_play(advanced(g, dt, input, h), w),
{
}

/// On a screen at least as high as a paddle, both paddles end every frame
/// with their centre between half a paddle from the top and half a paddle
/// from the bottom, wherever they started and whatever was held.
pub proof fn paddles_stay_on_screen(g: Game, dt: nat, input: Input, w: int, h: int, serve: Coords)
    requires
        h >= RACKET_HEIGHT,
    ensures
        RACKET_HEIGHT_HALF <= step(g, dt, input, w, h, serve).left.y <= h - RACKET_HEIGHT_HALF,
        RACKET_HEIGHT_HALF <= step(g, dt, input, w, h, serve).right.y <= h - RACKET_HEIGHT_HALF,
{
}

/// A paddle never moves sideways.
pub proof fn paddles_keep_their_side(g: Game, dt: nat, input: Input, w: int, h: int, serve: Coords)
    ensures
        step(g, dt, input, w, h, serve).left.x == g.left.x,
        step(g, dt, input, w, h, serve).right.x == g.right.x,
{
}

/// In a frame without a point the ball's horizontal position is its old one
/// plus velocity times elapsed time, exactly: nothing else acts on it.
pub proof fn ball_keeps_course(g: Game, dt: nat, input: Input, w: int, h: int, serve: Coords)
    requires
        !scores(g, dt, w),
    ensures
        step(g, dt, input, w, h, serve).ball.x == g.ball.x + g.vel.x * dt,
        0 <= step(g, dt, input, w, h, serve).ball.x <= w,
{
}

/// On a screen at least as high as the ball, the ball ends every frame with
/// its centre between half a ball from the top and half a ball from the
/// bottom.
pub proof fn ball_stays_between_walls(g: Game, dt: nat, input: Input, w: int, h: int, serve: Coords)
    requires
        h >= BALL_SIZE,
    ensures
        BALL_SIZE_HALF <= step(g, dt, input, w, h, serve).ball.y <= h - BALL_SIZE_HALF,
{
}

/// The serve velocity matters only in a frame with a point.
pub proof fn serve_unused_without_point(
    g: Game,
    dt: nat,
    input: Input,
    w: int,
    h: int,
    serve: Coords,
    other: Coords,
)
    requires
        !scores(g, dt, w),
    ensures
        step(g, dt, input, w, h, serve) == step(g, dt, input, w, h, other),
{
}

/// A frame gives one point to one player or no point to either: a ball past
/// the left edge counts for player two, a ball past the right edge of a
/// screen of non-negative width counts for player one, and a score never
/// goes down.
pub proof fn one_point_per_frame(g: Game, dt: nat, input: Input, w: int, h: int, serve: Coords)
    requires
        w >= 0,
    ensures
        ({
            let next = step(g, dt, input, w, h, serve);
            let x = g.ball.x + g.vel.x * dt;
            &&& next.p1_points == g.p1_points + if x > w { 1int } else { 0 }
            &&& next.p2_points == g.p2_points + if x < 0 { 1int } else { 0 }
            &&& next.p1_points + next.p2_points == g.p1_points + g.p2_points + if scores(g, dt, w) {
                1int
            } else {
                0
            }
        }),
{
}

/// After a point the ball is at the centre of the screen, unless a wall
/// takes it at once on a screen lower than the ball, and each component of
/// its velocity has the magnitude of the serve.
pub proof fn point_restarts_ball(g: Game, dt: nat, input: Input, w: int, h: int, serve: Coords)
    requires
        scores(g, dt, w),
    ensures
        ({
            let next = step(g, dt, input, w, h, serve);
            &&& next.ball.x == w / 2
            &&& h >= BALL_SIZE ==> next.ball.y == h / 2
            &&& magnitude(next.vel.x) == magnitude(serve.x)
            &&& magnitude(next.vel.y) == magnitude(serve.y)
        }),
{
}

/// Without a point the ball keeps its speed along each axis: walls and
/// paddles change the sign of a component and never its magnitude.
pub proof fn bounces_keep_speed(g: Game, dt: nat, input: Input, w: int, h: int, serve: Coords)
    requires
        !scores(g, dt, w),
    ensures
        magnitude(step(g, dt, input, w, h, serve).vel.x) == magnitude(g.vel.x),
        magnitude(step(g, dt, input, w, h, serve).vel.y) == magnitude(g.vel.y),
{
}

} // verus!
