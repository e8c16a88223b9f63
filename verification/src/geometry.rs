//! Plain whole-pixel geometry: points, vectors, sizes, rectangles, padding.
use vstd::prelude::*;

verus! {

/// A position in pixels.
#[derive(Clone, Copy, Debug, PartialEq, Eq, Structural)]
pub struct Point {
    pub x: i64,
    pub y: i64,
}

/// A displacement in pixels.
#[derive(Clone, Copy, Debug, PartialEq, Eq, Structural)]
pub struct Vec2 {
    pub x: i64,
    pub y: i64,
}

/// An extent in pixels. Nothing forbids a negative extent.
#[derive(Clone, Copy, Debug, PartialEq, Eq, Structural)]
pub struct Size {
    pub width: i32,
    pub height: i32,
}

/// A rectangle given by two corners. Nothing forbids `x1 < x0` or `y1 < y0`.
#[derive(Clone, Copy, Debug, PartialEq, Eq, Structural)]
pub struct Rect {
    pub x0: i64,
    pub y0: i64,
    pub x1: i64,
    pub y1: i64,
}

/// Resolved padding, in pixels, on each side of a box. Padding is 16 bits
/// wide, so that the square of a box extent less its padding stays within the
/// coordinate range.
#[derive(Clone, Copy, Debug, PartialEq, Eq, Structural)]
pub struct Padding {
    pub left: i16,
    pub right: i16,
    pub top: i16,
    pub bottom: i16,
}

impl Point {
    /// The point with the given coordinates, where they fit the coordinate
    /// type.
    pub open spec fn at(x: int, y: int) -> Point {
        Point { x: x as i64, y: y as i64 }
    }

    pub fn new(x: i64, y: i64) -> (p: Point)
        ensures
            p == (Point { x, y }),
    {
        Point { x, y }
    }
}

impl Vec2 {
    pub fn new(x: i64, y: i64) -> (v: Vec2)
        ensures
            v == (Vec2 { x, y }),
    {
        Vec2 { x, y }
    }
}

impl Size {
    pub fn new(width: i32, height: i32) -> (s: Size)
        ensures
            s == (Size { width, height }),
    {
        Size { width, height }
    }

    /// The empty extent.
    pub fn zero() -> (s: Size)
        ensures
            s == (Size { width: 0, height: 0 }),
    {
        Size { width: 0, height: 0 }
    }
}

impl Padding {
    pub fn new(left: i16, right: i16, top: i16, bottom: i16) -> (p: Padding)
        ensures
            p == (Padding { left, right, top, bottom }),
    {
        Padding { left, right, top, bottom }
    }

    /// No padding on any side.
    pub fn zero() -> (p: Padding)
        ensures
            p == (Padding { left: 0, right: 0, top: 0, bottom: 0 }),
    {
        Padding { left: 0, right: 0, top: 0, bottom: 0 }
    }
}

impl Rect {
    /// Signed width, `x1 - x0`.
    pub open spec fn width(self) -> int {
        self.x1 - self.x0
    }

    /// Signed height, `y1 - y0`.
    pub open spec fn height(self) -> int {
        self.y1 - self.y0
    }

    /// The smaller of the two x coordinates.
    pub open spec fn min_x(self) -> int {
        if self.x0 <= self.x1 { self.x0 as int } else { self.x1 as int }
    }

    /// The larger of the two x coordinates.
    pub open spec fn max_x(self) -> int {
        if self.x0 <= self.x1 { self.x1 as int } else { self.x0 as int }
    }

    /// The smaller of the two y coordinates.
    pub open spec fn min_y(self) -> int {
        if self.y0 <= self.y1 { self.y0 as int } else { self.y1 as int }
    }

    /// The larger of the two y coordinates.
    pub open spec fn max_y(self) -> int {
        if self.y0 <= self.y1 { self.y1 as int } else { self.y0 as int }
    }

    /// Whether `inner` lies within `self`, edges included.
    pub open spec fn encloses(self, inner: Rect) -> bool {
        &&& self.min_x() <= inner.min_x()
        &&& inner.max_x() <= self.max_x()
        &&& self.min_y() <= inner.min_y()
        &&& inner.max_y() <= self.max_y()
    }

    /// Whether the point lies in the open interior of `self`.
    pub open spec fn strictly_contains(self, x: int, y: int) -> bool {
        self.x0 < x < self.x1 && self.y0 < y < self.y1
    }

    /// The rectangle with the given corners, where they fit the coordinate
    /// type.
    pub open spec fn at(x0: int, y0: int, x1: int, y1: int) -> Rect {
        Rect { x0: x0 as i64, y0: y0 as i64, x1: x1 as i64, y1: y1 as i64 }
    }

    /// The corner `(x0, y0)`.
    pub open spec fn corner(self) -> Point {
        Point { x: self.x0, y: self.y0 }
    }

    pub fn new(x0: i64, y0: i64, x1: i64, y1: i64) -> (r: Rect)
        ensures
            r == (Rect { x0, y0, x1, y1 }),
    {
        Rect { x0, y0, x1, y1 }
    }

    /// The rectangle with all four coordinates zero.
    pub fn zero() -> (r: Rect)
        ensures
            r == (Rect { x0: 0, y0: 0, x1: 0, y1: 0 }),
    {
        Rect { x0: 0, y0: 0, x1: 0, y1: 0 }
    }

    /// The corner `(x0, y0)`.
    pub fn origin(&self) -> (p: Point)
        ensures
            p == self.corner(),
    {
        Point { x: self.x0, y: self.y0 }
    }
}

} // verus!
