//! Screen geometry in terminal cells: rectangles, positions and padding.
//!
//! All coordinates are `u16` cell counts. Sums and differences saturate at the
//! ends of the `u16` range, so every query is defined for every rectangle.

use vstd::prelude::*;

verus! {

/// `a + b`, held at `u16::MAX`.
pub open spec fn sat_add(a: u16, b: u16) -> u16 {
    if a + b > u16::MAX {
        u16::MAX
    } else {
        (a + b) as u16
    }
}

/// `a - b`, held at zero.
pub open spec fn sat_sub(a: u16, b: u16) -> u16 {
    if a < b {
        0
    } else {
        (a - b) as u16
    }
}

/// A cell of the screen.
#[derive(Clone, Copy, Debug, PartialEq, Eq, Structural)]
pub struct Position {
    pub x: u16,
    pub y: u16,
}

/// A rectangle of cells: its top-left corner and its size.
#[derive(Clone, Copy, Debug, PartialEq, Eq, Structural)]
pub struct Rect {
    pub x: u16,
    pub y: u16,
    pub width: u16,
    pub height: u16,
}

impl Rect {
    /// The column just right of the rectangle.
    pub open spec fn spec_right(self) -> u16 {
        sat_add(self.x, self.width)
    }

    /// The row just below the rectangle.
    pub open spec fn spec_bottom(self) -> u16 {
        sat_add(self.y, self.height)
    }

    /// Whether `pos` lies inside the rectangle. The right and bottom edges are
    /// outside it.
    pub open spec fn spec_contains(self, pos: Position) -> bool {
        &&& self.x <= pos.x < self.spec_right()
        &&& self.y <= pos.y < self.spec_bottom()
    }

    /// The empty rectangle at the origin.
    pub fn zero() -> (r: Rect)
        ensures
            r == (Rect { x: 0, y: 0, width: 0, height: 0 }),
    {
        Rect { x: 0, y: 0, width: 0, height: 0 }
    }

    #[verifier::when_used_as_spec(spec_right)]
    pub fn right(self) -> (r: u16)
        ensures
            r == self.spec_right(),
    {
        self.x.saturating_add(self.width)
    }

    #[verifier::when_used_as_spec(spec_bottom)]
    pub fn bottom(self) -> (r: u16)
        ensures
            r == self.spec_bottom(),
    {
        self.y.saturating_add(self.height)
    }

    #[verifier::when_used_as_spec(spec_contains)]
    pub fn contains(self, pos: Position) -> (inside: bool)
        ensures
            inside == self.spec_contains(pos),
    {
        pos.x >= self.x && pos.x < self.right() && pos.y >= self.y && pos.y < self.bottom()
    }
}

impl Default for Rect {
    fn default() -> (r: Rect)
        ensures
            r == (Rect { x: 0, y: 0, width: 0, height: 0 }),
    {
        Rect::zero()
    }
}

/// Cells kept free on the four sides of an area: top, right, bottom, left.
#[derive(Clone, Copy, Debug, PartialEq, Eq, Structural)]
pub struct Padding {
    pub t: u16,
    pub r: u16,
    pub b: u16,
    pub l: u16,
}

impl Padding {
    /// The padding that grows each side of `self` by the same side of `other`.
    pub open spec fn plus(self, other: Padding) -> Padding {
        Padding {
            t: sat_add(self.t, other.t),
            r: sat_add(self.r, other.r),
            b: sat_add(self.b, other.b),
            l: sat_add(self.l, other.l),
        }
    }

    /// Grows each side by the same side of `padding`.
    pub fn add_padding(&mut self, padding: Padding)
        ensures
            *final(self) == old(self).plus(padding),
    {
        self.t = self.t.saturating_add(padding.t);
        self.r = self.r.saturating_add(padding.r);
        self.b = self.b.saturating_add(padding.b);
        self.l = self.l.saturating_add(padding.l);
    }

    /// Grows all four sides by `val`.
    pub fn add_value(&mut self, val: u16)
        ensures
            *final(self) == old(self).plus(Padding { t: val, r: val, b: val, l: val }),
    {
        self.t = self.t.saturating_add(val);
        self.r = self.r.saturating_add(val);
        self.b = self.b.saturating_add(val);
        self.l = self.l.saturating_add(val);
    }

    /// What is left of `area` inside the padding.
    pub open spec fn spec_inner(self, area: Rect) -> Rect {
        Rect {
            x: sat_add(area.x, self.l),
            y: sat_add(area.y, self.t),
            width: sat_sub(sat_sub(area.width, self.l), self.r),
            height: sat_sub(sat_sub(area.height, self.t), self.b),
        }
    }

    #[verifier::when_used_as_spec(spec_inner)]
    pub fn inner(self, area: Rect) -> (r: Rect)
        ensures
            r == self.spec_inner(area),
    {
        Rect {
            x: area.x.saturating_add(self.l),
            y: area.y.saturating_add(self.t),
            width: area.width.saturating_sub(self.l).saturating_sub(self.r),
            height: area.height.saturating_sub(self.t).saturating_sub(self.b),
        }
    }
}

impl Default for Padding {
    fn default() -> (p: Padding)
        ensures
            p == (Padding { t: 0, r: 0, b: 0, l: 0 }),
    {
        Padding { t: 0, r: 0, b: 0, l: 0 }
    }
}

} // verus!
