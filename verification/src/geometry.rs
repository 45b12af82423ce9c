//! Two-dimensional sizes and positions, measured in terminal cells.
//!
//! All arithmetic here saturates instead of wrapping or panicking: an
//! oversized bar degrades gracefully, it never brings the container down.

use vstd::prelude::*;

verus! {

/// Saturating addition on the mathematical values of two `usize`s.
pub open spec fn sat_add(a: int, b: int) -> int {
    if a + b > usize::MAX {
        usize::MAX as int
    } else {
        a + b
    }
}

/// Saturating subtraction on the mathematical values of two `usize`s.
pub open spec fn sat_sub(a: int, b: int) -> int {
    if a - b < 0 {
        0
    } else {
        a - b
    }
}

/// The larger of two mathematical integers.
pub open spec fn spec_max(a: int, b: int) -> int {
    if a < b {
        b
    } else {
        a
    }
}

/// A pair of cell coordinates or cell extents: `x` runs to the right,
/// `y` runs down.
#[derive(Clone, Copy, Debug, PartialEq, Eq, Structural)]
pub struct XY {
    pub x: usize,
    pub y: usize,
}

impl XY {
    /// The pair `(x, y)`.
    pub fn new(x: usize, y: usize) -> (r: XY)
        ensures
            r == (XY { x, y }),
    {
        XY { x, y }
    }

    /// The origin `(0, 0)`.
    pub fn zero() -> (r: XY)
        ensures
            r == (XY { x: 0usize, y: 0usize }),
    {
        XY { x: 0, y: 0 }
    }

    /// Componentwise saturating addition.
    pub fn plus(self, o: XY) -> (r: XY)
        ensures
            r.x == sat_add(self.x as int, o.x as int),
            r.y == sat_add(self.y as int, o.y as int),
    {
        XY { x: self.x.saturating_add(o.x), y: self.y.saturating_add(o.y) }
    }

    /// Componentwise saturating subtraction.
    pub fn minus(self, o: XY) -> (r: XY)
        ensures
            r.x == sat_sub(self.x as int, o.x as int),
            r.y == sat_sub(self.y as int, o.y as int),
    {
        XY { x: self.x.saturating_sub(o.x), y: self.y.saturating_sub(o.y) }
    }

    /// Componentwise subtraction, defined only when nothing underflows.
    pub fn checked_sub(self, o: XY) -> (r: Option<XY>)
        ensures
            self.fits(o) ==> r == Some(XY { x: (self.x - o.x) as usize, y: (self.y - o.y) as usize }),
            !self.fits(o) ==> r is None,
    {
        if self.x >= o.x && self.y >= o.y {
            Some(XY { x: self.x - o.x, y: self.y - o.y })
        } else {
            None
        }
    }

    /// Whether a box of size `o` fits inside a box of size `self`,
    /// i.e. `self` dominates `o` on both axes.
    pub open spec fn fits(self, o: XY) -> bool {
        self.x >= o.x && self.y >= o.y
    }

    /// Executable form of [`XY::fits`].
    pub fn check_fits(self, o: XY) -> (r: bool)
        ensures
            r == self.fits(o),
    {
        self.x >= o.x && self.y >= o.y
    }

    /// Whether `self` is strictly greater than `o` on both axes.
    pub open spec fn strictly_gt(self, o: XY) -> bool {
        self.x > o.x && self.y > o.y
    }

    /// Executable form of [`XY::strictly_gt`].
    pub fn check_strictly_gt(self, o: XY) -> (r: bool)
        ensures
            r == self.strictly_gt(o),
    {
        self.x > o.x && self.y > o.y
    }

    /// Lay `o` to the right of `self`: widths add (saturating), the
    /// height is the taller of the two.
    pub fn stack_horizontal(self, o: XY) -> (r: XY)
        ensures
            r.x == sat_add(self.x as int, o.x as int),
            r.y == spec_max(self.y as int, o.y as int),
    {
        XY {
            x: self.x.saturating_add(o.x),
            y: if self.y < o.y {
                o.y
            } else {
                self.y
            },
        }
    }

    /// Lay `o` below `self`: heights add (saturating), the width is the
    /// wider of the two.
    pub fn stack_vertical(self, o: XY) -> (r: XY)
        ensures
            r.x == spec_max(self.x as int, o.x as int),
            r.y == sat_add(self.y as int, o.y as int),
    {
        XY {
            x: if self.x < o.x {
                o.x
            } else {
                self.x
            },
            y: self.y.saturating_add(o.y),
        }
    }

    /// Keep the `x` component, zero the `y` component.
    pub fn keep_x(self) -> (r: XY)
        ensures
            r == (XY { x: self.x, y: 0usize }),
    {
        XY { x: self.x, y: 0 }
    }

    /// Keep the `y` component, zero the `x` component.
    pub fn keep_y(self) -> (r: XY)
        ensures
            r == (XY { x: 0usize, y: self.y }),
    {
        XY { x: 0, y: self.y }
    }
}

} // verus!
