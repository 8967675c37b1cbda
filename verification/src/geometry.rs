//! Global-coordinate geometry: points, output rectangles, containment and
//! componentwise clamping.
//!
//! Positions and rectangle bounds live in one integer unit space (the
//! compositor's global coordinate space). The adapter that feeds this library
//! converts the protocol's floating coordinates into these units after
//! checking finiteness; nothing non-finite can be represented here.

use vstd::prelude::*;

verus! {

/// A position in the compositor's global coordinate space.
#[derive(Clone, Copy, PartialEq, Eq, Structural, Debug)]
pub struct Point {
    pub x: i64,
    pub y: i64,
}

/// An output's geometry: location of its top-left corner and its extent.
#[derive(Clone, Copy, PartialEq, Eq, Structural, Debug)]
pub struct Rect {
    pub x: i64,
    pub y: i64,
    pub w: i64,
    pub h: i64,
}

/// `v` clamped into `[lo, hi]` (meaningful only when `lo <= hi`).
pub open spec fn clamp_val(v: int, lo: int, hi: int) -> int {
    if v < lo {
        lo
    } else if v > hi {
        hi
    } else {
        v
    }
}

/// `a + b` saturated to the `i64` range.
pub open spec fn sat_add(a: int, b: int) -> int {
    if a + b > i64::MAX {
        i64::MAX as int
    } else if a + b < i64::MIN {
        i64::MIN as int
    } else {
        a + b
    }
}

/// Saturating addition on `i64`, proved equal to [`sat_add`].
pub fn saturating_add(a: i64, b: i64) -> (r: i64)
    ensures
        r as int == sat_add(a as int, b as int),
{
    if b >= 0 {
        if a > i64::MAX - b {
            i64::MAX
        } else {
            a + b
        }
    } else {
        if a < i64::MIN - b {
            i64::MIN
        } else {
            a + b
        }
    }
}

impl Point {
    /// The point moved by `(dx, dy)`, each component saturated to the `i64`
    /// range (the subsequent clamp against output geometry brings the result
    /// back on screen in any case).
    pub fn translated(&self, dx: i64, dy: i64) -> (r: Point)
        ensures
            r.x as int == sat_add(self.x as int, dx as int),
            r.y as int == sat_add(self.y as int, dy as int),
    {
        Point { x: saturating_add(self.x, dx), y: saturating_add(self.y, dy) }
    }
}

impl Rect {
    /// A well-formed output rectangle: a positive extent whose far edge still
    /// lies in the coordinate space.
    pub open spec fn wf(self) -> bool {
        &&& 1 <= self.w
        &&& 1 <= self.h
        &&& self.x + self.w <= i64::MAX
        &&& self.y + self.h <= i64::MAX
    }

    /// Whether `p` lies inside the rectangle (far edges exclusive).
    pub open spec fn spec_contains(self, p: Point) -> bool {
        &&& self.x <= p.x < self.x + self.w
        &&& self.y <= p.y < self.y + self.h
    }

    /// Whether `p` lies inside the rectangle.
    pub fn contains(&self, p: &Point) -> (r: bool)
        requires
            self.wf(),
        ensures
            r == self.spec_contains(*p),
    {
        self.x <= p.x && p.x < self.x + self.w && self.y <= p.y && p.y < self.y + self.h
    }

    /// `p` clamped componentwise into `[x, x + w - 1] × [y, y + h - 1]`.
    pub open spec fn spec_clamp(self, p: Point) -> Point {
        Point {
            x: clamp_val(p.x as int, self.x as int, self.x + self.w - 1) as i64,
            y: clamp_val(p.y as int, self.y as int, self.y + self.h - 1) as i64,
        }
    }

    /// Clamp `p` componentwise into the rectangle.
    ///
    /// The result always lies inside the rectangle, whatever `p` was; a point
    /// already inside comes back unchanged.
    pub fn clamp(&self, p: &Point) -> (r: Point)
        requires
            self.wf(),
        ensures
            r == self.spec_clamp(*p),
            self.spec_contains(r),
            self.spec_contains(*p) ==> r == *p,
    {
        let hx: i64 = self.x + self.w - 1;
        let hy: i64 = self.y + self.h - 1;
        let rx: i64 = if p.x < self.x {
            self.x
        } else if p.x > hx {
            hx
        } else {
            p.x
        };
        let ry: i64 = if p.y < self.y {
            self.y
        } else if p.y > hy {
            hy
        } else {
            p.y
        };
        Point { x: rx, y: ry }
    }
}

/// Clamping into a well-formed rectangle always lands inside it,
/// componentwise within `[x, x + w - 1] × [y, y + h - 1]`, and leaves a point
/// already inside unchanged.
pub proof fn lemma_clamp_in_rect(r: Rect, p: Point)
    requires
        r.wf(),
    ensures
        r.spec_contains(r.spec_clamp(p)),
        r.x <= r.spec_clamp(p).x <= r.x + r.w - 1,
        r.y <= r.spec_clamp(p).y <= r.y + r.h - 1,
        r.spec_contains(p) ==> r.spec_clamp(p) == p,
{
}

} // verus!
