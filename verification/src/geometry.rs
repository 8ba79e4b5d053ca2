use vstd::prelude::*;

verus! {

/// Every coordinate the gesture engine works with is a logical pixel value
/// that the host window system delivered as an `i32` position or a `u32`
/// size, or a cursor position the shell truncated into the same range.
/// `COORD_LIMIT` bounds their magnitude so that the sums and differences the
/// engine forms stay far away from the ends of `i64`.
pub const COORD_LIMIT: i64 = 0x1_0000_0000;

/// A pixel value small enough that edge tests and resize arithmetic on it
/// cannot overflow an `i64`.
pub open spec fn coord_ok(v: i64) -> bool {
    -COORD_LIMIT <= v && v <= COORD_LIMIT
}

/// A position in logical pixels.
#[derive(Clone, Copy, Debug, PartialEq, Eq, Structural)]
pub struct Point {
    pub x: i64,
    pub y: i64,
}

/// An extent in logical pixels.
#[derive(Clone, Copy, Debug, PartialEq, Eq, Structural)]
pub struct Size {
    pub width: i64,
    pub height: i64,
}

/// An axis-aligned region: top-left corner plus extent, in logical pixels.
#[derive(Clone, Copy, Debug, PartialEq, Eq, Structural)]
pub struct Rectangle {
    pub x: i64,
    pub y: i64,
    pub width: i64,
    pub height: i64,
}

impl Point {
    pub open spec fn wf(self) -> bool {
        coord_ok(self.x) && coord_ok(self.y)
    }

    pub fn new(x: i64, y: i64) -> (r: Point)
        ensures
            r == (Point { x, y }),
    {
        Point { x, y }
    }
}

impl Size {
    pub open spec fn wf(self) -> bool {
        coord_ok(self.width) && coord_ok(self.height)
    }

    pub fn new(width: i64, height: i64) -> (r: Size)
        ensures
            r == (Size { width, height }),
    {
        Size { width, height }
    }
}

impl Rectangle {
    pub open spec fn wf(self) -> bool {
        coord_ok(self.x) && coord_ok(self.y) && coord_ok(self.width) && coord_ok(self.height)
    }

    /// Whether a point lies inside the region: the left and top edges are
    /// inside, the right and bottom edges are outside.
    pub open spec fn spec_contains(self, p: Point) -> bool {
        self.x <= p.x && p.x < self.x + self.width && self.y <= p.y && p.y < self.y + self.height
    }

    pub fn new(position: Point, size: Size) -> (r: Rectangle)
        ensures
            r == (Rectangle { x: position.x, y: position.y, width: size.width, height: size.height }),
    {
        Rectangle { x: position.x, y: position.y, width: size.width, height: size.height }
    }

    pub fn contains(&self, p: Point) -> (r: bool)
        requires
            self.wf(),
            p.wf(),
        ensures
            r == self.spec_contains(p),
    {
        self.x <= p.x && p.x < self.x + self.width && self.y <= p.y && p.y < self.y + self.height
    }
}

} // verus!
