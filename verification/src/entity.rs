//! A movable rectangle: one of the two paddles or the ball.
//!
//! The drawable image that the host blits for an entity is not held here;
//! only its fixed pixel size is, scaled to fixed-point units. Position and
//! velocity are the mutable per-frame state.

use vstd::prelude::*;
use crate::geometry::{half, Rectangle, Vec2};
use crate::COORD_LIMIT;

verus! {

/// A movable rectangle with a fixed size, a position (top-left corner) and a
/// per-frame velocity, all in fixed-point units.
#[derive(Clone, Copy, PartialEq, Eq, Structural, Debug)]
pub struct Entity {
    pub width: i64,
    pub height: i64,
    pub position: Vec2,
    pub velocity: Vec2,
}

impl Entity {
    /// The size is positive and everything is within [`COORD_LIMIT`], so one
    /// frame's arithmetic stays far from `i64` overflow.
    pub open spec fn wf(self) -> bool {
        &&& 0 < self.width <= COORD_LIMIT
        &&& 0 < self.height <= COORD_LIMIT
        &&& -COORD_LIMIT <= self.position.x <= COORD_LIMIT
        &&& -COORD_LIMIT <= self.position.y <= COORD_LIMIT
        &&& -COORD_LIMIT <= self.velocity.x <= COORD_LIMIT
        &&& -COORD_LIMIT <= self.velocity.y <= COORD_LIMIT
    }

    /// The bounding rectangle derived from the position and the fixed size.
    pub open spec fn bounds_spec(self) -> Rectangle {
        Rectangle { x: self.position.x, y: self.position.y, width: self.width, height: self.height }
    }

    /// The midpoint of the bounds, each half-size truncated toward zero.
    pub open spec fn centre_spec(self) -> Vec2 {
        Vec2 {
            x: (self.position.x + half(self.width as int)) as i64,
            y: (self.position.y + half(self.height as int)) as i64,
        }
    }

    /// An entity at rest: velocity zero.
    pub fn new(width: i64, height: i64, position: Vec2) -> (r: Entity)
        ensures
            r == (Entity { width, height, position, velocity: Vec2 { x: 0i64, y: 0i64 } }),
    {
        Entity::with_velocity(width, height, position, Vec2::zero())
    }

    pub fn with_velocity(width: i64, height: i64, position: Vec2, velocity: Vec2) -> (r: Entity)
        ensures
            r == (Entity { width, height, position, velocity }),
    {
        Entity { width, height, position, velocity }
    }

    pub fn bounds(&self) -> (r: Rectangle)
        ensures
            r == self.bounds_spec(),
    {
        Rectangle::new(self.position.x, self.position.y, self.width, self.height)
    }

    pub fn centre(&self) -> (r: Vec2)
        requires
            i64::MIN <= self.position.x + half(self.width as int) <= i64::MAX,
            i64::MIN <= self.position.y + half(self.height as int) <= i64::MAX,
        ensures
            r == self.centre_spec(),
    {
        Vec2::new(self.position.x + self.width / 2, self.position.y + self.height / 2)
    }
}

} // verus!
