//! Points and rectangles on the screen, in whole logical pixels.

use vstd::prelude::*;

verus! {

/// A position on the screen.
#[derive(Clone, Copy, Debug, PartialEq, Eq, Structural)]
pub struct Point {
    pub x: i32,
    pub y: i32,
}

/// A width and a height.
#[derive(Clone, Copy, Debug, PartialEq, Eq, Structural)]
pub struct Size {
    pub width: i32,
    pub height: i32,
}

/// An axis-aligned rectangle: its top-left corner and its extent.
#[derive(Clone, Copy, Debug, PartialEq, Eq, Structural)]
pub struct Rectangle {
    pub x: i32,
    pub y: i32,
    pub width: i32,
    pub height: i32,
}

/// `v` limited to what a coordinate can hold.
pub open spec fn clamp_coordinate(v: int) -> int {
    if v < i32::MIN {
        i32::MIN as int
    } else if v > i32::MAX {
        i32::MAX as int
    } else {
        v
    }
}

/// Limits `v` to what a coordinate can hold.
pub fn saturate(v: i64) -> (c: i32)
    ensures
        c == clamp_coordinate(v as int),
{
    if v < i32::MIN as i64 {
        i32::MIN
    } else if v > i32::MAX as i64 {
        i32::MAX
    } else {
        v as i32
    }
}

impl Point {
    /// The origin, where a cursor that has not been seen yet is taken to be.
    pub fn origin() -> (p: Point)
        ensures
            p == (Point { x: 0, y: 0 }),
    {
        Point { x: 0, y: 0 }
    }
}

impl Rectangle {
    /// Whether `point` lies inside the rectangle. The left and top edges
    /// belong to it, the right and bottom edges do not.
    pub open spec fn spec_contains(&self, point: Point) -> bool {
        &&& self.x <= point.x < self.x + self.width
        &&& self.y <= point.y < self.y + self.height
    }

    /// The x coordinate just past the right edge.
    pub open spec fn right(&self) -> int {
        self.x + self.width
    }

    /// The cursor position, if there is one and it lies inside the rectangle.
    pub open spec fn spec_position_over(&self, cursor: Option<Point>) -> Option<Point> {
        match cursor {
            Some(p) if self.spec_contains(p) => Some(p),
            _ => None,
        }
    }

    /// Whether there is a cursor and it lies inside the rectangle.
    pub open spec fn spec_is_over(&self, cursor: Option<Point>) -> bool {
        self.spec_position_over(cursor).is_some()
    }

    #[verifier::when_used_as_spec(spec_contains)]
    pub fn contains(&self, point: Point) -> (inside: bool)
        ensures
            inside == self.spec_contains(point),
    {
        let px: i64 = point.x as i64;
        let py: i64 = point.y as i64;
        let left: i64 = self.x as i64;
        let top: i64 = self.y as i64;
        left <= px && px < left + self.width as i64 && top <= py && py < top + self.height as i64
    }

    #[verifier::when_used_as_spec(spec_position_over)]
    pub fn position_over(&self, cursor: Option<Point>) -> (over: Option<Point>)
        ensures
            over == self.spec_position_over(cursor),
    {
        match cursor {
            Some(p) => if self.contains(p) {
                Some(p)
            } else {
                None
            },
            None => None,
        }
    }

    #[verifier::when_used_as_spec(spec_is_over)]
    pub fn is_over(&self, cursor: Option<Point>) -> (over: bool)
        ensures
            over == self.spec_is_over(cursor),
    {
        self.position_over(cursor).is_some()
    }

    /// The top-left corner.
    pub fn position(&self) -> (p: Point)
        ensures
            p == (Point { x: self.x, y: self.y }),
    {
        Point { x: self.x, y: self.y }
    }
}

} // verus!
