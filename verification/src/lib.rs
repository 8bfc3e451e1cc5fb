//! A two-player Pong simulation with a verified per-frame step.
//!
//! Positions are integers in billionths of a pixel, velocities are whole
//! pixels per second and elapsed time is whole nanoseconds, so one frame of
//! motion `velocity * dt` is an exact integer number of position units.

pub mod units;
pub mod bounds;
pub mod geometry;
pub mod model;
pub mod laws;
pub mod random;
pub mod state;
pub mod render;
