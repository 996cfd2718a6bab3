//! Axis-aligned screen rectangles spanned by two corner points.

use vstd::prelude::*;

verus! {

/// A point on the screen, in pixels: `(x, y)`.
pub type Point = (i32, i32);

/// The smaller of two coordinates.
pub open spec fn lower(a: i32, b: i32) -> i32 {
    if a <= b { a } else { b }
}

/// The larger of two coordinates.
pub open spec fn upper(a: i32, b: i32) -> i32 {
    if a <= b { b } else { a }
}

/// The distance from `lo` up to `hi`, or zero where `hi` lies below `lo`.
pub open spec fn extent(lo: i32, hi: i32) -> int {
    if hi > lo { hi - lo } else { 0 }
}

/// A rectangle given by its two extreme corners.
///
/// A region built by [`Bound2::new`] or by `default` is normalized: `min` is
/// not beyond `max` on either axis.
#[derive(Debug, Copy, Clone)]
pub struct Bound2 {
    pub min: Point,
    pub max: Point,
}

impl Bound2 {
    /// The region spanned by corners `p` and `q`, as a mathematical value.
    pub open spec fn normalize(p: Point, q: Point) -> Bound2 {
        Bound2 {
            min: (lower(p.0, q.0), lower(p.1, q.1)),
            max: (upper(p.0, q.0), upper(p.1, q.1)),
        }
    }

    /// `min` is not beyond `max` on either axis.
    pub open spec fn is_normalized(&self) -> bool {
        self.min.0 <= self.max.0 && self.min.1 <= self.max.1
    }

    /// Horizontal extent in pixels; zero where `max` is left of `min`.
    pub open spec fn width(&self) -> int {
        extent(self.min.0, self.max.0)
    }

    /// Vertical extent in pixels; zero where `max` is above `min`.
    pub open spec fn height(&self) -> int {
        extent(self.min.1, self.max.1)
    }

    /// The region covers no pixel.
    pub open spec fn is_empty(&self) -> bool {
        self.width() == 0 || self.height() == 0
    }

    /// Builds the region spanned by two corners given in any order.
    pub fn new(p: Point, q: Point) -> (r: Bound2)
        ensures
            r == Bound2::normalize(p, q),
            r.is_normalized(),
    {
        Bound2 {
            min: (span_low(p.0, q.0), span_low(p.1, q.1)),
            max: (span_high(p.0, q.0), span_high(p.1, q.1)),
        }
    }

    /// The region as `(x, y, width, height)`, anchored at `min`.
    pub fn rect(&self) -> (r: (i32, i32, u32, u32))
        ensures
            r.0 == self.min.0,
            r.1 == self.min.1,
            r.2 == self.width(),
            r.3 == self.height(),
    {
        (self.min.0, self.min.1, self.get_width(), self.get_height())
    }

    /// Horizontal extent in pixels.
    pub fn get_width(&self) -> (w: u32)
        ensures
            w == self.width(),
    {
        span(self.min.0, self.max.0)
    }

    /// Vertical extent in pixels.
    pub fn get_height(&self) -> (h: u32)
        ensures
            h == self.height(),
    {
        span(self.min.1, self.max.1)
    }

    /// Whether the region covers no pixel.
    pub fn empty(&self) -> (e: bool)
        ensures
            e == self.is_empty(),
    {
        self.get_width() == 0 || self.get_height() == 0
    }
}

impl Default for Bound2 {
    /// The empty region at the origin.
    fn default() -> (r: Bound2)
        ensures
            r == Bound2::normalize((0i32, 0i32), (0i32, 0i32)),
            r.is_normalized(),
            r.is_empty(),
    {
        Bound2::new((0, 0), (0, 0))
    }
}

fn span_low(a: i32, b: i32) -> (r: i32)
    ensures
        r == lower(a, b),
{
    if a <= b { a } else { b }
}

fn span_high(a: i32, b: i32) -> (r: i32)
    ensures
        r == upper(a, b),
{
    if a <= b { b } else { a }
}

fn span(lo: i32, hi: i32) -> (r: u32)
    ensures
        r == extent(lo, hi),
{
    if hi > lo {
        let d: i64 = hi as i64 - lo as i64;
        d as u32
    } else {
        0
    }
}

/// A region built from two corners is normalized, whatever their order.
pub proof fn lemma_normalize_ordered(p: Point, q: Point)
    ensures
        Bound2::normalize(p, q).min.0 <= Bound2::normalize(p, q).max.0,
        Bound2::normalize(p, q).min.1 <= Bound2::normalize(p, q).max.1,
{
}

/// The two corners may be given in either order: the region is the same.
pub proof fn lemma_normalize_symmetric(p: Point, q: Point)
    ensures
        Bound2::normalize(p, q) == Bound2::normalize(q, p),
{
}

/// A normalized region is empty exactly when two of its sides coincide.
pub proof fn lemma_normalized_empty(b: Bound2)
    requires
        b.is_normalized(),
    ensures
        b.is_empty() <==> (b.min.0 == b.max.0 || b.min.1 == b.max.1),
{
}

} // verus!
