//! Integer points, sizes and rectangles in pixel space (y grows downward).
use vstd::prelude::*;

verus! {

/// A point with signed integer coordinates.
#[derive(Clone, Copy, Debug, PartialEq, Eq, Structural)]
pub struct Point {
    pub x: i32,
    pub y: i32,
}

/// A width and a height in pixels.
#[derive(Clone, Copy, Debug, PartialEq, Eq, Structural)]
pub struct Size {
    pub width: u32,
    pub height: u32,
}

/// An axis-aligned rectangle: its top-left corner and its size.
#[derive(Clone, Copy, Debug, PartialEq, Eq, Structural)]
pub struct Rectangle {
    pub top_left: Point,
    pub size: Size,
}

/// Whether `a + b` stays within `i32` on both coordinates.
pub open spec fn point_sum_fits(a: Point, b: Point) -> bool {
    i32::MIN <= a.x + b.x <= i32::MAX && i32::MIN <= a.y + b.y <= i32::MAX
}

/// The coordinate-wise sum of two points.
pub open spec fn point_sum(a: Point, b: Point) -> Point {
    Point { x: (a.x + b.x) as i32, y: (a.y + b.y) as i32 }
}

/// Whether the last pixel of a non-empty rectangle is addressable in `i32`.
pub open spec fn corner_fits(r: Rectangle) -> bool {
    r.top_left.x + r.size.width - 1 <= i32::MAX && r.top_left.y + r.size.height - 1 <= i32::MAX
}

/// The bottom-right pixel of a rectangle, when it has one.
pub open spec fn bottom_right_of(r: Rectangle) -> Option<Point> {
    if r.size.width == 0 || r.size.height == 0 || !corner_fits(r) {
        None
    } else {
        Some(
            Point {
                x: (r.top_left.x + r.size.width - 1) as i32,
                y: (r.top_left.y + r.size.height - 1) as i32,
            },
        )
    }
}

/// A rectangle moved by `by`, its size kept.
pub open spec fn translated_spec(r: Rectangle, by: Point) -> Rectangle {
    Rectangle { top_left: point_sum(r.top_left, by), size: r.size }
}

impl Point {
    pub fn new(x: i32, y: i32) -> (r: Point)
        ensures
            r.x == x,
            r.y == y,
    {
        Point { x, y }
    }

    /// The origin.
    pub fn zero() -> (r: Point)
        ensures
            r.x == 0,
            r.y == 0,
    {
        Point { x: 0, y: 0 }
    }
}

impl Size {
    pub fn new(width: u32, height: u32) -> (r: Size)
        ensures
            r.width == width,
            r.height == height,
    {
        Size { width, height }
    }
}

impl Rectangle {
    pub fn new(top_left: Point, size: Size) -> (r: Rectangle)
        ensures
            r.top_left == top_left,
            r.size == size,
    {
        Rectangle { top_left, size }
    }

    /// The last pixel inside the rectangle: `None` for an empty rectangle, or
    /// one whose last pixel lies beyond the `i32` coordinate range.
    pub fn bottom_right(&self) -> (r: Option<Point>)
        ensures
            r == bottom_right_of(*self),
    {
        if self.size.width == 0 || self.size.height == 0 {
            return None;
        }
        let x: i64 = self.top_left.x as i64 + self.size.width as i64 - 1;
        let y: i64 = self.top_left.y as i64 + self.size.height as i64 - 1;
        if x > i32::MAX as i64 || y > i32::MAX as i64 {
            None
        } else {
            Some(Point { x: x as i32, y: y as i32 })
        }
    }

    /// The same rectangle moved by `by`.
    pub fn translate(&self, by: Point) -> (r: Rectangle)
        requires
            point_sum_fits(self.top_left, by),
        ensures
            r == translated_spec(*self, by),
    {
        Rectangle {
            top_left: Point { x: self.top_left.x + by.x, y: self.top_left.y + by.y },
            size: self.size,
        }
    }

    /// Moves the rectangle by `by` in place.
    pub fn translate_mut(&mut self, by: Point)
        requires
            point_sum_fits(old(self).top_left, by),
        ensures
            *final(self) == translated_spec(*old(self), by),
    {
        self.top_left = Point { x: self.top_left.x + by.x, y: self.top_left.y + by.y };
    }
}

/// Moving by `a` and then by `b` is moving once by `a + b`.
pub proof fn lemma_translate_compose(r: Rectangle, a: Point, b: Point)
    requires
        point_sum_fits(r.top_left, a),
        point_sum_fits(point_sum(r.top_left, a), b),
        point_sum_fits(a, b),
    ensures
        translated_spec(translated_spec(r, a), b) == translated_spec(r, point_sum(a, b)),
{
}

} // verus!
