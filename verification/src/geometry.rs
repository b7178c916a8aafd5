//! Integer geometry in logical pixels.

use vstd::prelude::*;

verus! {

/// A point, or an offset between two points.
#[derive(Debug, Clone, Copy, PartialEq, Eq, Structural)]
pub struct Point {
    pub x: i32,
    pub y: i32,
}

/// A size; a zero component leaves that axis open.
#[derive(Debug, Clone, Copy, PartialEq, Eq, Structural)]
pub struct Size {
    pub w: i32,
    pub h: i32,
}

/// A rectangle by its top-left corner and its size.
#[derive(Debug, Clone, Copy, PartialEq, Eq, Structural)]
pub struct Rect {
    pub loc: Point,
    pub size: Size,
}

impl Point {
    /// Whether the opposite offset can be represented.
    pub open spec fn can_negate(self) -> bool {
        self.x > i32::MIN && self.y > i32::MIN
    }

    /// Whether the offset from `other` to this point can be represented.
    pub open spec fn can_subtract(self, other: Point) -> bool {
        i32::MIN <= self.x - other.x <= i32::MAX && i32::MIN <= self.y - other.y <= i32::MAX
    }

    /// The opposite offset.
    pub fn negated(self) -> (point: Point)
        requires
            self.can_negate(),
        ensures
            point.x == -self.x,
            point.y == -self.y,
    {
        Point { x: -self.x, y: -self.y }
    }

    /// The offset from `other` to this point.
    pub fn minus(self, other: Point) -> (point: Point)
        requires
            self.can_subtract(other),
        ensures
            point.x == self.x - other.x,
            point.y == self.y - other.y,
    {
        Point { x: self.x - other.x, y: self.y - other.y }
    }
}

impl Size {
    /// The size with every component at least one.
    pub open spec fn at_least_one(self) -> Size {
        Size { w: if self.w < 1 { 1 } else { self.w }, h: if self.h < 1 { 1 } else { self.h } }
    }

    /// Raises every component to at least one.
    pub fn raised_to_one(self) -> (size: Size)
        ensures
            size == self.at_least_one(),
    {
        Size { w: if self.w < 1 { 1 } else { self.w }, h: if self.h < 1 { 1 } else { self.h } }
    }
}

/// Raising a size makes every component at least one, by no more than that takes.
pub proof fn raising_changes_only_what_is_too_small(size: Size)
    ensures
        size.at_least_one().w >= 1,
        size.at_least_one().h >= 1,
        size.w >= 1 ==> size.at_least_one().w == size.w,
        size.h >= 1 ==> size.at_least_one().h == size.h,
        size.w < 1 ==> size.at_least_one().w == 1,
        size.h < 1 ==> size.at_least_one().h == 1,
{
}

} // verus!
