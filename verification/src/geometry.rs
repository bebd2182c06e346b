//! Points and rectangles in whole layout units.

use vstd::prelude::*;

verus! {

/// A point that the host reports, such as the pointer or the corner of a
/// region of the screen.
#[derive(Debug, Clone, Copy, PartialEq, Eq, Structural)]
pub struct Position {
    pub x: i64,
    pub y: i64,
}

/// The width and height of the inside of a cell.
#[derive(Debug, Clone, Copy, PartialEq, Eq, Structural)]
pub struct CellSize {
    pub width: u32,
    pub height: u32,
}

/// The room around the inside of a cell, along each direction: the outside of
/// a cell is wider than its inside by `x` and taller by `y`.
#[derive(Debug, Clone, Copy, PartialEq, Eq, Structural)]
pub struct Padding {
    pub x: u16,
    pub y: u16,
}

/// The part of the scrolled content that the scroll area shows, in the
/// coordinates of the content.
#[derive(Debug, Clone, Copy, PartialEq, Eq, Structural)]
pub struct Viewport {
    pub x: u64,
    pub y: u64,
    pub width: u64,
    pub height: u64,
}

/// A stretch along one direction, from `min` up to, not including, `max`.
#[derive(Debug, Clone, Copy, PartialEq, Eq, Structural)]
pub struct Span {
    pub min: i128,
    pub max: i128,
}

impl Span {
    /// The stretch holds nothing: its length is not positive.
    pub open spec fn spec_is_empty(self) -> bool {
        self.max <= self.min
    }

    /// The largest stretch inside both.
    pub open spec fn spec_intersect(self, other: Span) -> Span {
        Span {
            min: if self.min >= other.min {
                self.min
            } else {
                other.min
            },
            max: if self.max <= other.max {
                self.max
            } else {
                other.max
            },
        }
    }

    /// Whether the stretch holds nothing.
    pub fn is_empty(&self) -> (r: bool)
        ensures
            r == self.spec_is_empty(),
    {
        self.max <= self.min
    }

    /// The largest stretch inside both. It is empty where the two do not
    /// overlap.
    pub fn intersect(&self, other: &Span) -> (r: Span)
        ensures
            r == self.spec_intersect(*other),
    {
        Span {
            min: if self.min >= other.min {
                self.min
            } else {
                other.min
            },
            max: if self.max <= other.max {
                self.max
            } else {
                other.max
            },
        }
    }
}

/// A rectangle from `min` up to, not including, `max`.
#[derive(Debug, Clone, Copy, PartialEq, Eq, Structural)]
pub struct Rect {
    pub min_x: i128,
    pub min_y: i128,
    pub max_x: i128,
    pub max_y: i128,
}

impl Rect {
    /// The rectangle that spans `x` across and `y` down.
    pub open spec fn spec_from_spans(x: Span, y: Span) -> Rect {
        Rect { min_x: x.min, min_y: y.min, max_x: x.max, max_y: y.max }
    }

    /// The stretch of the rectangle across.
    pub open spec fn spec_x(self) -> Span {
        Span { min: self.min_x, max: self.max_x }
    }

    /// The stretch of the rectangle down.
    pub open spec fn spec_y(self) -> Span {
        Span { min: self.min_y, max: self.max_y }
    }

    /// The rectangle that spans `x` across and `y` down.
    pub fn from_spans(x: Span, y: Span) -> (r: Rect)
        ensures
            r == Rect::spec_from_spans(x, y),
    {
        Rect { min_x: x.min, min_y: y.min, max_x: x.max, max_y: y.max }
    }

    /// The stretch of the rectangle across.
    pub fn x(&self) -> (r: Span)
        ensures
            r == self.spec_x(),
    {
        Span { min: self.min_x, max: self.max_x }
    }

    /// The stretch of the rectangle down.
    pub fn y(&self) -> (r: Span)
        ensures
            r == self.spec_y(),
    {
        Span { min: self.min_y, max: self.max_y }
    }

    /// The rectangle has no inside: its width or its height is not positive.
    pub open spec fn spec_is_degenerate(self) -> bool {
        self.max_x <= self.min_x || self.max_y <= self.min_y
    }

    /// The largest rectangle inside both.
    pub open spec fn spec_intersect(self, other: Rect) -> Rect {
        Rect {
            min_x: if self.min_x >= other.min_x {
                self.min_x
            } else {
                other.min_x
            },
            min_y: if self.min_y >= other.min_y {
                self.min_y
            } else {
                other.min_y
            },
            max_x: if self.max_x <= other.max_x {
                self.max_x
            } else {
                other.max_x
            },
            max_y: if self.max_y <= other.max_y {
                self.max_y
            } else {
                other.max_y
            },
        }
    }

    /// Whether the rectangle has no inside.
    pub fn is_degenerate(&self) -> (r: bool)
        ensures
            r == self.spec_is_degenerate(),
    {
        self.max_x <= self.min_x || self.max_y <= self.min_y
    }

    /// The largest rectangle inside both. It is degenerate where the two do
    /// not overlap.
    pub fn intersect(&self, other: &Rect) -> (r: Rect)
        ensures
            r == self.spec_intersect(*other),
    {
        Rect {
            min_x: if self.min_x >= other.min_x {
                self.min_x
            } else {
                other.min_x
            },
            min_y: if self.min_y >= other.min_y {
                self.min_y
            } else {
                other.min_y
            },
            max_x: if self.max_x <= other.max_x {
                self.max_x
            } else {
                other.max_x
            },
            max_y: if self.max_y <= other.max_y {
                self.max_y
            } else {
                other.max_y
            },
        }
    }
}

/// Rectangles intersect direction by direction, and a rectangle has no inside
/// exactly if one of its stretches is empty. So a layout may clip each cell
/// along the rows and along the columns apart.
pub proof fn lemma_rect_by_spans(x: Span, y: Span, other_x: Span, other_y: Span)
    ensures
        Rect::spec_from_spans(x, y).spec_intersect(Rect::spec_from_spans(other_x, other_y))
            == Rect::spec_from_spans(x.spec_intersect(other_x), y.spec_intersect(other_y)),
        Rect::spec_from_spans(x, y).spec_is_degenerate() <==> x.spec_is_empty()
            || y.spec_is_empty(),
{
}

} // verus!
