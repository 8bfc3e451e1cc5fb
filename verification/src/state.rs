//! The executable game state and its per-frame update.

use vstd::prelude::*;
use crate::bounds::clamp;
use crate::geometry::{Point2, Screen, Vector2};
use crate::laws::{
    ball_keeps_course, ball_stays_between_walls, paddles_stay_on_screen,
    serve_unused_without_point,
};
use crate::model::{
    magnitude, opening, overlaps, scores, signed, steered, step, Game, Input,
};
use crate::random::rand_vec;
use crate::units::{
    BALL_SIZE, BALL_SIZE_HALF, BALL_SPEED, PADDING, PLAYER_SPEED, RACKET_HEIGHT,
    RACKET_HEIGHT_HALF, RACKET_WIDTH_HALF,
};

verus! {

/// Everything that changes while the game runs.
#[derive(Clone, Copy, Debug, PartialEq, Eq)]
pub struct MainState {
    /// Centre of the left paddle.
    pub p1_pos: Point2,
    /// Centre of the right paddle.
    pub p2_pos: Point2,
    /// Centre of the ball.
    pub b_pos: Point2,
    /// Velocity of the ball.
    pub b_vel: Vector2,
    pub p1_points: i32,
    pub p2_points: i32,
}

impl View for MainState {
    type V = Game;

    open spec fn view(&self) -> Game {
        Game {
            left: self.p1_pos@,
            right: self.p2_pos@,
            ball: self.b_pos@,
            vel: self.b_vel@,
            p1_points: self.p1_points as int,
            p2_points: self.p2_points as int,
        }
    }
}

/// The position reached from `pos` at `v` pixels per second in `dt`
/// nanoseconds, in a type wide enough for every such position.
fn moved(pos: i64, v: i64, dt: u64) -> (p: i128)
    ensures
        p == pos + v * dt,
{
    assert(-0x8000_0000_0000_0000 * 0xffff_ffff_ffff_ffff <= v * dt
        <= 0x7fff_ffff_ffff_ffff * 0xffff_ffff_ffff_ffff) by (nonlinear_arith)
        requires
            -0x8000_0000_0000_0000 <= v <= 0x7fff_ffff_ffff_ffff,
            0 <= dt <= 0xffff_ffff_ffff_ffff,
    ;
    pos as i128 + v as i128 * dt as i128
}

/// The height a paddle at `y` is steered to in `dt` nanoseconds, before it
/// is clamped.
fn steer(y: i64, up: bool, down: bool, dt: u64) -> (target: i128)
    ensures
        target == steered(y as int, up, down, dt as nat),
{
    assert(0 <= PLAYER_SPEED * dt <= 600 * 0xffff_ffff_ffff_ffff) by (nonlinear_arith)
        requires
            PLAYER_SPEED == 600,
            0 <= dt <= 0xffff_ffff_ffff_ffff,
    ;
    let reach: i128 = PLAYER_SPEED as i128 * dt as i128;
    let mut target: i128 = y as i128;
    if up {
        target = target - reach;
    }
    if down {
        target = target + reach;
    }
    target
}

/// The absolute value of a speed that has one in `i64`.
fn speed(v: i64) -> (s: i64)
    requires
        v > i64::MIN,
    ensures
        s == magnitude(v as int),
{
    if v < 0 {
        -v
    } else {
        v
    }
}

/// Whether the ball centred at `ball` overlaps the paddle centred at
/// `paddle`.
pub fn intersects(ball: Point2, paddle: Point2) -> (hit: bool)
    ensures
        hit == overlaps(ball@, paddle@),
{
    let half: i128 = BALL_SIZE_HALF as i128;
    let half_w: i128 = RACKET_WIDTH_HALF as i128;
    let half_h: i128 = RACKET_HEIGHT_HALF as i128;
    ball.x as i128 - half < paddle.x as i128 + half_w
        && ball.x as i128 + half > paddle.x as i128 - half_w
        && ball.y as i128 - half < paddle.y as i128 + half_h
        && ball.y as i128 + half > paddle.y as i128 - half_h
}

impl MainState {
    /// What a frame needs of the state it starts in: a ball velocity that can
    /// be reversed, and room in both counters for one more point.
    pub open spec fn steppable(&self) -> bool {
        &&& self.b_vel.reversible()
        &&& self.p1_points < i32::MAX
        &&& self.p2_points < i32::MAX
    }

    /// Both paddles are wholly on a screen as high as `screen`: each centre is
    /// at least half a paddle from the top and from the bottom.
    pub open spec fn paddles_within(&self, screen: Screen) -> bool {
        &&& RACKET_HEIGHT_HALF <= self.p1_pos.y <= screen.h() - RACKET_HEIGHT_HALF
        &&& RACKET_HEIGHT_HALF <= self.p2_pos.y <= screen.h() - RACKET_HEIGHT_HALF
    }

    /// The ball is between the top and the bottom of `screen`: its centre is
    /// at least half a ball from either.
    pub open spec fn ball_within(&self, screen: Screen) -> bool {
        BALL_SIZE_HALF <= self.b_pos.y <= screen.h() - BALL_SIZE_HALF
    }

    /// Tests `steppable`.
    pub fn is_steppable(&self) -> (ok: bool)
        ensures
            ok == self.steppable(),
    {
        self.b_vel.is_reversible() && self.p1_points < i32::MAX && self.p2_points < i32::MAX
    }

    /// A new game on `screen` whose ball is served with velocity `serve`:
    /// paddles centred vertically at their padding from each side, the ball
    /// at the centre, no points.
    pub fn with_serve(screen: Screen, serve: Vector2) -> (state: MainState)
        ensures
            state@ == opening(screen.w(), screen.h(), serve@),
            screen.h() >= RACKET_HEIGHT ==> state.paddles_within(screen),
            screen.h() >= BALL_SIZE ==> state.ball_within(screen),
    {
        let w = screen.width_units();
        let h = screen.height_units();
        MainState {
            p1_pos: Point2 { x: RACKET_WIDTH_HALF + PADDING, y: h / 2 },
            p2_pos: Point2 { x: w - RACKET_WIDTH_HALF - PADDING, y: h / 2 },
            b_pos: Point2 { x: w / 2, y: h / 2 },
            b_vel: serve,
            p1_points: 0,
            p2_points: 0,
        }
    }

    /// A new game on `screen` whose ball is served diagonally at the ball
    /// speed, in a direction chosen at random.
    pub fn new(screen: Screen) -> (state: MainState)
        ensures
            exists|right: bool, down: bool|
                state@ == opening(
                    screen.w(),
                    screen.h(),
                    #[trigger] signed(BALL_SPEED as int, BALL_SPEED as int, right, down),
                ),
            state.steppable(),
            screen.h() >= RACKET_HEIGHT ==> state.paddles_within(screen),
            screen.h() >= BALL_SIZE ==> state.ball_within(screen),
    {
        let mut b_vel = Vector2 { x: 0, y: 0 };
        rand_vec(&mut b_vel, BALL_SPEED, BALL_SPEED);
        let state = MainState::with_serve(screen, b_vel);
        proof {
            let serve = signed(
                BALL_SPEED as int,
                BALL_SPEED as int,
                b_vel.x == BALL_SPEED,
                b_vel.y == BALL_SPEED,
            );
            assert(b_vel@ == serve);
        }
        state
    }

    /// Whether a point is scored in a frame of `dt` nanoseconds that starts
    /// in this state.
    pub fn point_due(&self, dt: u64, screen: Screen) -> (due: bool)
        ensures
            due == scores(self@, dt as nat, screen.w()),
    {
        let ball_x = moved(self.b_pos.x, self.b_vel.x, dt);
        ball_x < 0 || ball_x > screen.width_units() as i128
    }

    /// Advances the game by one frame of `dt` nanoseconds on `screen` with
    /// `input` held. If a point is scored, the ball is served again with
    /// velocity `serve`.
    pub fn step(&mut self, dt: u64, input: Input, screen: Screen, serve: Vector2)
        requires
            old(self).steppable(),
            serve.reversible(),
        ensures
            final(self)@ == step(old(self)@, dt as nat, input, screen.w(), screen.h(), serve@),
            final(self).b_vel.reversible(),
            screen.h() >= RACKET_HEIGHT ==> final(self).paddles_within(screen),
            screen.h() >= BALL_SIZE ==> final(self).ball_within(screen),
            !scores(old(self)@, dt as nat, screen.w()) ==> final(self).b_pos.x == old(self).b_pos.x
                + old(self).b_vel.x * dt,
    {
        let w: i128 = screen.width_units() as i128;
        let h: i128 = screen.height_units() as i128;

        let mut p1_y = steer(self.p1_pos.y, input.p1_up, input.p1_down, dt);
        let mut p2_y = steer(self.p2_pos.y, input.p2_up, input.p2_down, dt);

        let mut ball_x = moved(self.b_pos.x, self.b_vel.x, dt);
        let mut ball_y = moved(self.b_pos.y, self.b_vel.y, dt);

        clamp(&mut p1_y, RACKET_HEIGHT_HALF as i128, h - RACKET_HEIGHT_HALF as i128);
        clamp(&mut p2_y, RACKET_HEIGHT_HALF as i128, h - RACKET_HEIGHT_HALF as i128);
        self.p1_pos.y = p1_y as i64;
        self.p2_pos.y = p2_y as i64;

        if ball_x < 0 {
            ball_x = w / 2;
            ball_y = h / 2;
            self.b_vel = serve;
            self.p2_points = self.p2_points + 1;
        } else if ball_x > w {
            ball_x = w / 2;
            ball_y = h / 2;
            self.b_vel = serve;
            self.p1_points = self.p1_points + 1;
        }

        if ball_y < BALL_SIZE_HALF as i128 {
            ball_y = BALL_SIZE_HALF as i128;
            self.b_vel.y = speed(self.b_vel.y);
        } else if ball_y > h - BALL_SIZE_HALF as i128 {
            ball_y = h - BALL_SIZE_HALF as i128;
            self.b_vel.y = -speed(self.b_vel.y);
        }
        self.b_pos.x = ball_x as i64;
        self.b_pos.y = ball_y as i64;

        let intersects_p1 = intersects(self.b_pos, self.p1_pos);
        let intersects_p2 = intersects(self.b_pos, self.p2_pos);
        if intersects_p1 {
            self.b_vel.x = speed(self.b_vel.x);
        }
        if intersects_p2 {
            self.b_vel.x = -speed(self.b_vel.x);
        }
        proof {
            let (before, t) = (old(self)@, dt as nat);
            if h >= RACKET_HEIGHT {
                paddles_stay_on_screen(before, t, input, w as int, h as int, serve@);
            }
            if h >= BALL_SIZE {
                ball_stays_between_walls(before, t, input, w as int, h as int, serve@);
            }
            if !scores(before, t, w as int) {
                ball_keeps_course(before, t, input, w as int, h as int, serve@);
            }
        }
    }

    /// Advances the game by one frame of `dt` nanoseconds on `screen` with
    /// `input` held. If a point is scored, the ball is served again
    /// diagonally at the ball speed, in a direction chosen at random; a
    /// frame without a point draws nothing.
    pub fn update(&mut self, dt: u64, input: Input, screen: Screen)
        requires
            old(self).steppable(),
        ensures
            exists|right: bool, down: bool|
                final(self)@ == step(
                    old(self)@,
                    dt as nat,
                    input,
                    screen.w(),
                    screen.h(),
                    #[trigger] signed(BALL_SPEED as int, BALL_SPEED as int, right, down),
                ),
            !scores(old(self)@, dt as nat, screen.w()) ==> final(self)@ == step(
                old(self)@,
                dt as nat,
                input,
                screen.w(),
                screen.h(),
                old(self).b_vel@,
            ),
            final(self).b_vel.reversible(),
            screen.h() >= RACKET_HEIGHT ==> final(self).paddles_within(screen),
            screen.h() >= BALL_SIZE ==> final(self).ball_within(screen),
            !scores(old(self)@, dt as nat, screen.w()) ==> final(self).b_pos.x == old(self).b_pos.x
                + old(self).b_vel.x * dt,
    {
        let mut serve = self.b_vel;
        let due = self.point_due(dt, screen);
        if due {
            rand_vec(&mut serve, BALL_SPEED, BALL_SPEED);
        }
        let ghost before = self@;
        self.step(dt, input, screen, serve);
        proof {
            let drawn = signed(
                BALL_SPEED as int,
                BALL_SPEED as int,
                !due || serve.x == BALL_SPEED,
                !due || serve.y == BALL_SPEED,
            );
            if due {
                assert(serve@ == drawn);
            } else {
                serve_unused_without_point(
                    before,
                    dt as nat,
                    input,
                    screen.w(),
                    screen.h(),
                    serve@,
                    drawn,
                );
            }
        }
    }
}

} // verus!
