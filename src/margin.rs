//! Four-sided margins, and growing a rectangle outward by one.
use crate::geometry::{Point, Rectangle, Size};
use vstd::prelude::*;

verus! {

/// Space around the four sides of a rectangle, in pixels.
#[derive(Clone, Copy, Debug, PartialEq, Eq, Structural)]
pub struct Margin {
    pub top: u32,
    pub right: u32,
    pub bottom: u32,
    pub left: u32,
}

/// The margin with the given four sides.
pub open spec fn margin_of(top: u32, right: u32, bottom: u32, left: u32) -> Margin {
    Margin { top, right, bottom, left }
}

/// Whether growing `r` by `m` keeps its top-left corner and its size within
/// their integer types.
pub open spec fn margin_fits(r: Rectangle, m: Margin) -> bool {
    &&& r.top_left.x - m.left >= i32::MIN
    &&& r.top_left.y - m.top >= i32::MIN
    &&& r.size.width + m.left + m.right <= u32::MAX
    &&& r.size.height + m.top + m.bottom <= u32::MAX
}

/// `r` grown outward by `m`: the corner moves up and left by the top and left
/// sides, and the size grows by both sides of each axis.
pub open spec fn with_margin(r: Rectangle, m: Margin) -> Rectangle {
    Rectangle {
        top_left: Point { x: (r.top_left.x - m.left) as i32, y: (r.top_left.y - m.top) as i32 },
        size: Size {
            width: (r.size.width + m.left + m.right) as u32,
            height: (r.size.height + m.top + m.bottom) as u32,
        },
    }
}

impl Margin {
    /// Create a new margin
    pub fn new(top: u32, right: u32, bottom: u32, left: u32) -> (r: Margin)
        ensures
            r == margin_of(top, right, bottom, left),
    {
        Margin { top, right, bottom, left }
    }

    /// Create a new margin with the same value for all sides
    pub fn all(value: u32) -> (r: Margin)
        ensures
            r == margin_of(value, value, value, value),
    {
        Margin { top: value, right: value, bottom: value, left: value }
    }

    /// Create a new margin with the same value for the horizontal and vertical sides
    pub fn symmetric(vertical: u32, horizontal: u32) -> (r: Margin)
        ensures
            r == margin_of(vertical, horizontal, vertical, horizontal),
    {
        Margin { top: vertical, right: horizontal, bottom: vertical, left: horizontal }
    }

    /// Create a new margin with the same value for the top and bottom sides
    pub fn vertical(value: u32) -> (r: Margin)
        ensures
            r == margin_of(value, 0, value, 0),
    {
        Margin { top: value, right: 0, bottom: value, left: 0 }
    }

    /// Create a new margin with the same value for the left and right sides
    pub fn horizontal(value: u32) -> (r: Margin)
        ensures
            r == margin_of(0, value, 0, value),
    {
        Margin { top: 0, right: value, bottom: 0, left: value }
    }
}

/// Values that can be grown by a margin.
pub trait MarginExt: Sized {
    /// Whether `self` can be grown by `margin` without leaving its integer types.
    spec fn margin_fits(&self, margin: Margin) -> bool;

    /// `self` grown by `margin`.
    spec fn with_margin(&self, margin: Margin) -> Self;

    /// Grows `self` outward by `margin`.
    fn margin(self, margin: Margin) -> (r: Self)
        requires
            self.margin_fits(margin),
        ensures
            r == self.with_margin(margin),
    ;
}

impl MarginExt for Rectangle {
    open spec fn margin_fits(&self, margin: Margin) -> bool {
        margin_fits(*self, margin)
    }

    open spec fn with_margin(&self, margin: Margin) -> Rectangle {
        with_margin(*self, margin)
    }

    fn margin(self, margin: Margin) -> (r: Rectangle) {
        let top_left = Point::new(
            (self.top_left.x as i64 - margin.left as i64) as i32,
            (self.top_left.y as i64 - margin.top as i64) as i32,
        );
        let size = Size::new(
            self.size.width + margin.left + margin.right,
            self.size.height + margin.top + margin.bottom,
        );
        Rectangle::new(top_left, size)
    }
}

/// Growing by a margin moves the corner back by the left and top sides and
/// adds both sides of each axis to the size.
pub proof fn lemma_margin_grows(r: Rectangle, m: Margin)
    requires
        margin_fits(r, m),
    ensures
        r.with_margin(m).top_left.x == r.top_left.x - m.left,
        r.with_margin(m).top_left.y == r.top_left.y - m.top,
        r.with_margin(m).size.width == r.size.width + m.left + m.right,
        r.with_margin(m).size.height == r.size.height + m.top + m.bottom,
{
}

} // verus!
