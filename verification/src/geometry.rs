//! Plain integer geometry: 2D vectors, axis-aligned rectangles, and the
//! truncating halving used wherever the game divides a length or an offset
//! by two.

use vstd::prelude::*;

verus! {

/// A 2D vector in fixed-point units.
#[derive(Clone, Copy, PartialEq, Eq, Structural, Debug)]
pub struct Vec2 {
    pub x: i64,
    pub y: i64,
}

/// An axis-aligned rectangle: top-left corner plus size, in fixed-point units.
#[derive(Clone, Copy, PartialEq, Eq, Structural, Debug)]
pub struct Rectangle {
    pub x: i64,
    pub y: i64,
    pub width: i64,
    pub height: i64,
}

/// Division by two that truncates toward zero, as the host's floating-point
/// halving would round a whole number; it differs from Euclidean `/ 2` only
/// on odd negative values.
pub open spec fn half(v: int) -> int {
    if v >= 0 {
        v / 2
    } else {
        -((-v) / 2)
    }
}

impl Vec2 {
    pub fn new(x: i64, y: i64) -> (r: Vec2)
        ensures
            r == (Vec2 { x, y }),
    {
        Vec2 { x, y }
    }

    /// The zero vector.
    pub fn zero() -> (r: Vec2)
        ensures
            r == (Vec2 { x: 0i64, y: 0i64 }),
    {
        Vec2 { x: 0, y: 0 }
    }
}

impl Rectangle {
    pub open spec fn top_spec(self) -> int {
        self.y as int
    }

    pub open spec fn bottom_spec(self) -> int {
        self.y + self.height
    }

    pub open spec fn left_spec(self) -> int {
        self.x as int
    }

    pub open spec fn right_spec(self) -> int {
        self.x + self.width
    }

    pub fn new(x: i64, y: i64, width: i64, height: i64) -> (r: Rectangle)
        ensures
            r == (Rectangle { x, y, width, height }),
    {
        Rectangle { x, y, width, height }
    }

    /// The y coordinate of the top edge.
    pub fn top(&self) -> (r: i64)
        ensures
            r == self.top_spec(),
    {
        self.y
    }

    /// The y coordinate of the bottom edge.
    pub fn bottom(&self) -> (r: i64)
        requires
            i64::MIN <= self.y + self.height <= i64::MAX,
        ensures
            r == self.bottom_spec(),
    {
        self.y + self.height
    }

    /// Whether two rectangles overlap in both axes, each comparison strict,
    /// so rectangles that merely share an edge do not intersect.
    pub open spec fn intersects_spec(self, other: Rectangle) -> bool {
        &&& self.x < other.x + other.width
        &&& self.x + self.width > other.x
        &&& self.y < other.y + other.height
        &&& self.y + self.height > other.y
    }

    pub fn intersects(&self, other: &Rectangle) -> (r: bool)
        requires
            i64::MIN <= self.x + self.width <= i64::MAX,
            i64::MIN <= self.y + self.height <= i64::MAX,
            i64::MIN <= other.x + other.width <= i64::MAX,
            i64::MIN <= other.y + other.height <= i64::MAX,
        ensures
            r == self.intersects_spec(*other),
    {
        self.x < other.x + other.width && self.x + self.width > other.x && self.y < other.y
            + other.height && self.y + self.height > other.y
    }
}

} // verus!
