//! A verified core for a two-player Pong game.
//!
//! The simulation works in fixed-point coordinates: every length, position
//! and velocity is an `i64` counting hundredths of a pixel, so that the
//! per-frame physics (paddle movement, ball movement, collisions, wall
//! bounces and the scoring reset) is exact integer arithmetic with a full
//! functional specification. A host loop around the library owns the window,
//! polls the keyboard and draws the entities; it converts between pixels and
//! these fixed-point units at the boundary.

use vstd::prelude::*;

pub mod entity;
pub mod game;
pub mod geometry;

verus! {

/// Fixed-point units per pixel.
pub const SCALE: i64 = 100;

/// Window width, in fixed-point units (640 pixels).
pub const WINDOW_WIDTH: i64 = 64000;

/// Window height, in fixed-point units (480 pixels).
pub const WINDOW_HEIGHT: i64 = 48000;

/// Distance a paddle moves per frame while a key is held (8 pixels).
pub const PADDLE_SPEED: i64 = 800;

/// Magnitude of the ball's horizontal speed after a reset (5 pixels/frame).
pub const BALL_SPEED: i64 = 500;

/// Spin constant: scales the centre offset added to the ball's vertical
/// velocity on a paddle hit (4 pixels/frame at full offset).
pub const PADDLE_SPIN: i64 = 400;

/// Horizontal speed gained on each paddle hit (0.05 pixels/frame).
pub const BALL_ACC: i64 = 5;

/// Distance of each paddle from its side wall after a reset (16 pixels).
pub const PADDLE_MARGIN: i64 = 1600;

/// Bound on every coordinate, velocity component and entity size the
/// simulation accepts; generous enough for any reachable game state while
/// keeping each frame's arithmetic far from `i64` overflow.
pub const COORD_LIMIT: i64 = 1_000_000_000;

} // verus!
