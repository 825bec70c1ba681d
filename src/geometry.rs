use vstd::prelude::*;

verus! {

/// A point on the panel, in pixels.
#[derive(Clone, Copy, Debug, PartialEq, Eq, Structural)]
pub struct Point {
    pub x: i32,
    pub y: i32,
}

/// A width and height, in pixels.
#[derive(Clone, Copy, Debug, PartialEq, Eq, Structural)]
pub struct Size {
    pub width: u32,
    pub height: u32,
}

/// An axis-aligned rectangle given by its top-left corner and its size.
#[derive(Clone, Copy, Debug, PartialEq, Eq, Structural)]
pub struct Rect {
    pub origin: Point,
    pub size: Size,
}

impl Point {
    pub fn new(x: i32, y: i32) -> (r: Point)
        ensures
            r.x == x,
            r.y == y,
    {
        Point { x, y }
    }
}

impl Rect {
    /// One past the rightmost column.
    pub open spec fn right(self) -> int {
        self.origin.x + self.size.width
    }

    /// One past the bottom row.
    pub open spec fn bottom(self) -> int {
        self.origin.y + self.size.height
    }

    /// The rectangle lies inside a panel of the given size.
    pub open spec fn within(self, width: u32, height: u32) -> bool {
        0 <= self.origin.x && 0 <= self.origin.y && self.right() <= width && self.bottom()
            <= height
    }

    /// The two rectangles share at least one pixel.
    pub open spec fn overlaps(self, other: Rect) -> bool {
        self.origin.x < other.right() && other.origin.x < self.right() && self.origin.y
            < other.bottom() && other.origin.y < self.bottom()
    }

    pub fn new(x: i32, y: i32, width: u32, height: u32) -> (r: Rect)
        ensures
            r.origin.x == x,
            r.origin.y == y,
            r.size.width == width,
            r.size.height == height,
    {
        Rect { origin: Point { x, y }, size: Size { width, height } }
    }

    pub fn is_within(&self, width: u32, height: u32) -> (r: bool)
        ensures
            r == self.within(width, height),
    {
        let x = self.origin.x as i64;
        let y = self.origin.y as i64;
        0 <= x && 0 <= y && x + self.size.width as i64 <= width as i64 && y
            + self.size.height as i64 <= height as i64
    }

    pub fn intersects(&self, other: &Rect) -> (r: bool)
        ensures
            r == self.overlaps(*other),
    {
        let ax = self.origin.x as i64;
        let ay = self.origin.y as i64;
        let bx = other.origin.x as i64;
        let by = other.origin.y as i64;
        ax < bx + other.size.width as i64 && bx < ax + self.size.width as i64 && ay < by
            + other.size.height as i64 && by < ay + self.size.height as i64
    }
}

} // verus!
