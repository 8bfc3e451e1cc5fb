//! Fixed geometry and speeds of the game, in the library's integer units.

use vstd::prelude::*;

verus! {

/// Position units in one pixel. A pixel per second is one unit per nanosecond.
pub const PIXEL: i64 = 1_000_000_000;

/// Nanoseconds in one second.
pub const NANOS_PER_SEC: u64 = 1_000_000_000;

/// Height of a paddle: 100 pixels.
pub const RACKET_HEIGHT: i64 = 100_000_000_000;

/// Width of a paddle: 20 pixels.
pub const RACKET_WIDTH: i64 = 20_000_000_000;

pub const RACKET_WIDTH_HALF: i64 = 10_000_000_000;

pub const RACKET_HEIGHT_HALF: i64 = 50_000_000_000;

/// Side of the square ball: 25 pixels.
pub const BALL_SIZE: i64 = 25_000_000_000;

pub const BALL_SIZE_HALF: i64 = 12_500_000_000;

/// Paddle speed in pixels per second.
pub const PLAYER_SPEED: i64 = 600;

/// Ball speed along each axis in pixels per second.
pub const BALL_SPEED: i64 = 300;

/// Gap between a paddle and its side of the screen: 40 pixels.
pub const PADDING: i64 = 40_000_000_000;

} // verus!
