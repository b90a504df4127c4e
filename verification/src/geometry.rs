//! Rectangles on the terminal cell grid, with the spec-level predicates the
//! layout contracts are stated over.

use vstd::prelude::*;

verus! {

/// A rectangular region of the terminal grid. `x`/`y` is the top-left cell,
/// `width`/`height` the extent in cells; a cell `(cx, cy)` is covered when
/// `x <= cx < x + width` and `y <= cy < y + height`.
#[derive(Clone, Copy, Debug, PartialEq, Eq, Structural)]
pub struct Rect {
    pub x: u16,
    pub y: u16,
    pub width: u16,
    pub height: u16,
}

impl Rect {
    /// One past the rightmost column covered.
    pub open spec fn right(self) -> int {
        self.x + self.width
    }

    /// One past the bottom row covered.
    pub open spec fn bottom(self) -> int {
        self.y + self.height
    }

    /// The far edges stay within the coordinate space, so edge arithmetic
    /// never wraps.
    pub open spec fn wf(self) -> bool {
        self.right() <= u16::MAX && self.bottom() <= u16::MAX
    }

    /// Every cell of `self` is a cell of `outer`.
    pub open spec fn inside(self, outer: Rect) -> bool {
        &&& outer.x <= self.x
        &&& self.right() <= outer.right()
        &&& outer.y <= self.y
        &&& self.bottom() <= outer.bottom()
    }

    /// `self` and `other` cover no cell in common.
    pub open spec fn disjoint(self, other: Rect) -> bool {
        ||| self.right() <= other.x
        ||| other.right() <= self.x
        ||| self.bottom() <= other.y
        ||| other.bottom() <= self.y
    }
}

} // verus!
