use pong::geometry::{Point2, Screen, Vector2};
use pong::render::{score_text, Rect, Sprite};
use pong::state::MainState;
use pong::units::PIXEL;

#[test]
fn score_text_has_sixteen_spaces() {
    assert_eq!(score_text(0, 0), "0                0");
    assert_eq!(score_text(3, 12), "3                12");
    assert_eq!(score_text(3, 12), format!("{}                {}", 3, 12));
}

#[test]
fn score_text_matches_the_standard_formatting() {
    for (a, b) in [(9, 10), (99, 100), (1000, 7), (1_234_567_890, 0), (-1, -25), (i32::MAX, i32::MIN)] {
        assert_eq!(score_text(a, b), format!("{}                {}", a, b));
    }
}

#[test]
fn scene_draws_paddles_ball_and_score() {
    let screen = Screen { width: 800, height: 600 };
    let mut s = MainState::with_serve(screen, Vector2 { x: 300, y: 300 });
    s.p1_points = 2;
    s.p2_points = 5;
    s.b_pos = Point2 { x: 123, y: 456 };
    let scene = s.render(screen);
    let racket = Rect { x: -10 * PIXEL, y: -50 * PIXEL, w: 20 * PIXEL, h: 100 * PIXEL };
    let ball = Rect { x: -12_500_000_000, y: -12_500_000_000, w: 25 * PIXEL, h: 25 * PIXEL };
    assert_eq!(scene.left, Sprite { rect: racket, dest: Point2 { x: 50 * PIXEL, y: 300 * PIXEL } });
    assert_eq!(scene.right, Sprite { rect: racket, dest: Point2 { x: 750 * PIXEL, y: 300 * PIXEL } });
    assert_eq!(scene.ball, Sprite { rect: ball, dest: Point2 { x: 123, y: 456 } });
    assert_eq!(scene.score.text, "2                5");
    assert_eq!(scene.score.dest, Point2 { x: 360 * PIXEL, y: 60 * PIXEL });
}

#[test]
fn score_sits_at_fixed_fractions_of_any_screen() {
    let screen = Screen { width: 1, height: 3 };
    let s = MainState::with_serve(screen, Vector2 { x: 300, y: 300 });
    let scene = s.render(screen);
    assert_eq!(scene.score.dest, Point2 { x: 450_000_000, y: 300_000_000 });
    let huge = Screen { width: u32::MAX, height: u32::MAX };
    let scene = s.render(huge);
    assert_eq!(scene.score.dest.x, u32::MAX as i64 * 450_000_000);
    assert_eq!(scene.score.dest.y, u32::MAX as i64 * 100_000_000);
}
