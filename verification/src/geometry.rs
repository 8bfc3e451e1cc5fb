//! Points, velocities and the screen, with their mathematical views.

use vstd::prelude::*;
use crate::units::PIXEL;

verus! {

/// A pair of unbounded integer coordinates: the view of a point (in position
/// units) and of a velocity (in pixels per second).
pub struct Coords {
    pub x: int,
    pub y: int,
}

/// A position on the screen, in position units. The origin is the top left
/// corner, `x` grows to the right and `y` grows downwards.
#[derive(Clone, Copy, Debug, PartialEq, Eq)]
pub struct Point2 {
    pub x: i64,
    pub y: i64,
}

impl View for Point2 {
    type V = Coords;

    open spec fn view(&self) -> Coords {
        Coords { x: self.x as int, y: self.y as int }
    }
}

/// A velocity in pixels per second along each axis.
#[derive(Clone, Copy, Debug, PartialEq, Eq)]
pub struct Vector2 {
    pub x: i64,
    pub y: i64,
}

impl View for Vector2 {
    type V = Coords;

    open spec fn view(&self) -> Coords {
        Coords { x: self.x as int, y: self.y as int }
    }
}

impl Vector2 {
    /// Both components can be negated without leaving `i64`.
    pub open spec fn reversible(&self) -> bool {
        self.x > i64::MIN && self.y > i64::MIN
    }

    /// Tests `reversible`.
    pub fn is_reversible(&self) -> (ok: bool)
        ensures
            ok == self.reversible(),
    {
        self.x > i64::MIN && self.y > i64::MIN
    }
}

/// The drawable area, in whole pixels.
#[derive(Clone, Copy, Debug, PartialEq, Eq)]
pub struct Screen {
    pub width: u32,
    pub height: u32,
}

impl Screen {
    /// Width in position units.
    pub open spec fn w(&self) -> int {
        self.width * PIXEL
    }

    /// Height in position units.
    pub open spec fn h(&self) -> int {
        self.height * PIXEL
    }

    /// Width in position units.
    pub fn width_units(&self) -> (w: i64)
        ensures
            w == self.w(),
    {
        self.width as i64 * PIXEL
    }

    /// Height in position units.
    pub fn height_units(&self) -> (h: i64)
        ensures
            h == self.h(),
    {
        self.height as i64 * PIXEL
    }
}

} // verus!
