//! Rectangles in `u32` pixel space.
//!
//! A rectangle is described by a minimum coordinate (inclusive) and a maximum
//! coordinate (exclusive). Any rectangle where the order is not correct is
//! interpreted as empty; that convention simplifies operations that would
//! otherwise have to check for well-formedness first.
use vstd::prelude::*;

use crate::layout::ByteLayout;

verus! {

/// A rectangle in `u32` space, minimum inclusive and maximum exclusive.
#[derive(Clone, Copy, Debug, PartialEq, Eq, Structural, Hash)]
pub struct Rectangle {
    pub x: u32,
    pub y: u32,
    pub max_x: u32,
    pub max_y: u32,
}

impl Rectangle {
    /// The apparent width, zero when the coordinates are out of order.
    pub open spec fn spec_width(self) -> int {
        if self.max_x >= self.x {
            self.max_x - self.x
        } else {
            0
        }
    }

    /// The apparent height, zero when the coordinates are out of order.
    pub open spec fn spec_height(self) -> int {
        if self.max_y >= self.y {
            self.max_y - self.y
        } else {
            0
        }
    }

    /// Both coordinate pairs are ordered: minimum at most maximum.
    pub open spec fn is_normalized(self) -> bool {
        self.x <= self.max_x && self.y <= self.max_y
    }

    /// No pixels are selected.
    pub open spec fn is_empty(self) -> bool {
        self.max_x <= self.x || self.max_y <= self.y
    }

    /// `other` selects only pixels that `self` also selects, measured from the
    /// respective origins as the executable `contains` does.
    pub open spec fn spec_contains(self, other: Self) -> bool {
        &&& self.x <= other.x
        &&& self.y <= other.y
        &&& other.x - self.x <= self.spec_width()
        &&& other.y - self.y <= self.spec_height()
        &&& other.spec_width() <= self.spec_width() - (other.x - self.x)
        &&& other.spec_height() <= self.spec_height() - (other.y - self.y)
    }

    /// A rectangle at the origin with the given width (x) and height (y).
    pub fn with_width_height(width: u32, height: u32) -> (r: Self)
        ensures
            r == (Rectangle { x: 0, y: 0, max_x: width, max_y: height }),
    {
        Rectangle { x: 0, y: 0, max_x: width, max_y: height }
    }

    /// A rectangle describing a complete buffer.
    pub fn with_layout(buffer: &ByteLayout) -> (r: Self)
        ensures
            r == (Rectangle { x: 0, y: 0, max_x: buffer.width, max_y: buffer.height }),
    {
        Self::with_width_height(buffer.width, buffer.height)
    }

    /// The apparent width.
    pub fn width(self) -> (r: u32)
        ensures
            r == self.spec_width(),
    {
        if self.max_x >= self.x {
            self.max_x - self.x
        } else {
            0
        }
    }

    /// The apparent height.
    pub fn height(self) -> (r: u32)
        ensures
            r == self.spec_height(),
    {
        if self.max_y >= self.y {
            self.max_y - self.y
        } else {
            0
        }
    }

    /// Return true if this rectangle fully contains `other`.
    pub fn contains(self, other: Self) -> (r: bool)
        ensures
            r == self.spec_contains(other),
    {
        if self.x <= other.x && self.y <= other.y {
            let offset_x = other.x - self.x;
            let offset_y = other.y - self.y;
            let width = self.width();
            let height = self.height();
            if offset_x <= width && offset_y <= height {
                other.width() <= width - offset_x && other.height() <= height - offset_y
            } else {
                false
            }
        } else {
            false
        }
    }

    /// Bring the rectangle into normalized form where minimum and maximum form
    /// a true interval of the same width and height.
    #[must_use]
    pub fn normalize(self) -> (r: Rectangle)
        ensures
            r == self.normalize_spec(),
            r.is_normalized(),
            r.spec_width() == self.spec_width(),
            r.spec_height() == self.spec_height(),
    {
        Rectangle {
            x: self.x,
            y: self.y,
            max_x: self.x + self.width(),
            max_y: self.y + self.height(),
        }
    }

    /// The overlap of the two rectangles.
    #[must_use]
    pub fn meet(self, other: Self) -> (r: Rectangle)
        ensures
            r == self.meet_spec(other),
    {
        Rectangle {
            x: if self.x >= other.x { self.x } else { other.x },
            y: if self.y >= other.y { self.y } else { other.y },
            max_x: if self.max_x <= other.max_x { self.max_x } else { other.max_x },
            max_y: if self.max_y <= other.max_y { self.max_y } else { other.max_y },
        }
    }

    /// The meet, relative to the coordinates of this rectangle.
    ///
    /// The subtraction stays in range exactly when `other`'s maximum corner
    /// does not lie before this rectangle's origin.
    #[must_use]
    pub fn meet_in_local_coordinates(self, other: Self) -> (r: Rectangle)
        requires
            other.max_x >= self.x,
            other.max_y >= self.y,
        ensures
            r == (Rectangle {
                x: (self.normalize_spec().meet_spec(other).x - self.x) as u32,
                y: (self.normalize_spec().meet_spec(other).y - self.y) as u32,
                max_x: (self.normalize_spec().meet_spec(other).max_x - self.x) as u32,
                max_y: (self.normalize_spec().meet_spec(other).max_y - self.y) as u32,
            }),
    {
        // Normalize so that the maximum coordinates are not less than the minimum.
        let meet = self.normalize().meet(other);
        Rectangle {
            x: meet.x - self.x,
            y: meet.y - self.y,
            max_x: meet.max_x - self.x,
            max_y: meet.max_y - self.y,
        }
    }

    /// The smallest rectangle containing both.
    #[must_use]
    pub fn join(self, other: Self) -> (r: Rectangle)
        ensures
            r.x == if self.x <= other.x { self.x } else { other.x },
            r.y == if self.y <= other.y { self.y } else { other.y },
            r.max_x == if self.max_x >= other.max_x { self.max_x } else { other.max_x },
            r.max_y == if self.max_y >= other.max_y { self.max_y } else { other.max_y },
    {
        Rectangle {
            x: if self.x <= other.x { self.x } else { other.x },
            y: if self.y <= other.y { self.y } else { other.y },
            max_x: if self.max_x >= other.max_x { self.max_x } else { other.max_x },
            max_y: if self.max_y >= other.max_y { self.max_y } else { other.max_y },
        }
    }

    /// Remove a border from all sides. When the rectangle is smaller than
    /// `border` in some dimension the result is empty and contained in the
    /// original rectangle.
    #[must_use]
    pub fn inset(self, border: u32) -> (r: Self)
        ensures
            r == self.inset_spec(border),
    {
        Rectangle {
            x: if self.x <= u32::MAX - border { self.x + border } else { u32::MAX },
            y: if self.y <= u32::MAX - border { self.y + border } else { u32::MAX },
            max_x: if self.max_x >= border { self.max_x - border } else { 0 },
            max_y: if self.max_y >= border { self.max_y - border } else { 0 },
        }
    }
}

/// The overlap of two rectangles does not depend on the order of the arguments.
pub proof fn lemma_meet_commutative(a: Rectangle, b: Rectangle)
    ensures
        a.meet_spec(b) == b.meet_spec(a),
{
}

impl Rectangle {
    /// What `inset` returns, as a spec-level function of rectangle and border.
    pub open spec fn inset_spec(self, border: u32) -> Rectangle {
        Rectangle {
            x: if self.x + border <= u32::MAX { self.x + border } else { u32::MAX as int } as u32,
            y: if self.y + border <= u32::MAX { self.y + border } else { u32::MAX as int } as u32,
            max_x: if self.max_x >= border { self.max_x - border } else { 0 } as u32,
            max_y: if self.max_y >= border { self.max_y - border } else { 0 } as u32,
        }
    }

    /// What `normalize` returns, as a spec-level function of the rectangle.
    pub open spec fn normalize_spec(self) -> Rectangle {
        Rectangle {
            x: self.x,
            y: self.y,
            max_x: (self.x + self.spec_width()) as u32,
            max_y: (self.y + self.spec_height()) as u32,
        }
    }

    /// What `meet` returns, as a spec-level function of the two rectangles.
    pub open spec fn meet_spec(self, other: Self) -> Rectangle {
        Rectangle {
            x: if self.x >= other.x { self.x } else { other.x } as u32,
            y: if self.y >= other.y { self.y } else { other.y } as u32,
            max_x: if self.max_x <= other.max_x { self.max_x } else { other.max_x } as u32,
            max_y: if self.max_y <= other.max_y { self.max_y } else { other.max_y } as u32,
        }
    }
}

/// Overlapping three rectangles may be bracketed either way.
pub proof fn lemma_meet_associative(a: Rectangle, b: Rectangle, c: Rectangle)
    ensures
        a.meet_spec(b).meet_spec(c) == a.meet_spec(b.meet_spec(c)),
{
}

/// Overlapping a rectangle with itself changes nothing.
pub proof fn lemma_meet_idempotent(a: Rectangle)
    ensures
        a.meet_spec(a) == a,
{
}

/// A normalized rectangle contains its overlap with any rectangle whose
/// origin corner does not lie past the right or lower edge.
///
/// The side conditions are needed: with `a` from the origin to (2, 2) and `b`
/// from (5, 5) to (6, 6), the overlap is the empty rectangle anchored at
/// (5, 5), which lies outside of `a`.
pub proof fn lemma_contains_meet(a: Rectangle, b: Rectangle)
    requires
        a.is_normalized(),
        b.x <= a.max_x,
        b.y <= a.max_y,
    ensures
        a.spec_contains(a.meet_spec(b)),
{
}

/// Insetting by a zero border equals normalizing, on a normalized rectangle.
///
/// The hypothesis is needed: on a rectangle with out-of-order coordinates
/// `inset` keeps both corners in place while `normalize` pulls the maximum
/// corner back onto the minimum one.
pub proof fn lemma_inset_zero_normalize(a: Rectangle)
    requires
        a.is_normalized(),
    ensures
        a.inset_spec(0) == a.normalize_spec(),
{
}

} // verus!
