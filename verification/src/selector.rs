//! The state of a drag: where it began, the region it spans now, and
//! whether the selection is shown.

use vstd::prelude::*;
use crate::region::Bound2;
use crate::region::Point;

verus! {

/// An in-progress selection, owned by one overlay surface.
#[derive(Debug, Copy, Clone)]
pub struct RegionSelector {
    /// The region between the anchor and the pointer.
    pub bound: Bound2,
    /// Whether the selection is shown.
    pub visible: bool,
    /// The point at which the drag began.
    pub first: Point,
}

impl RegionSelector {
    /// The state of a selector that selects nothing: hidden, anchored at
    /// the origin, its region empty.
    pub open spec fn cleared() -> RegionSelector {
        RegionSelector {
            bound: Bound2::normalize((0i32, 0i32), (0i32, 0i32)),
            visible: false,
            first: (0i32, 0i32),
        }
    }

    /// Whether the selection is shown.
    pub open spec fn visible(&self) -> bool {
        self.visible
    }

    /// The point at which the drag began.
    pub open spec fn anchor(&self) -> Point {
        self.first
    }

    /// A selector that selects nothing.
    pub fn new() -> (s: RegionSelector)
        ensures
            s == RegionSelector::cleared(),
            !s.visible(),
            s.bound.is_normalized(),
            s.bound.is_empty(),
    {
        RegionSelector { bound: Bound2::default(), visible: false, first: (0, 0) }
    }

    /// Back to selecting nothing, as when a capture is done or the surface
    /// loses focus: hidden, and the region empty.
    pub fn reset(&mut self)
        ensures
            *final(self) == RegionSelector::cleared(),
            !final(self).visible(),
            final(self).bound.is_normalized(),
            final(self).bound.is_empty(),
    {
        self.bound = Bound2::default();
        self.visible = false;
        self.first = (0, 0);
    }

    /// Anchors the drag at `pos`; the region shrinks to that point.
    pub fn set_first(&mut self, pos: Point)
        ensures
            final(self).anchor() == pos,
            final(self).bound == Bound2::normalize(pos, pos),
            final(self).visible() == old(self).visible(),
    {
        self.first = pos;
        self.bound = Bound2::new(pos, pos);
    }

    /// Spans the region of a shown selection from the anchor to `pos`. A
    /// hidden selection stays as it is.
    pub fn set_second(&mut self, pos: Point)
        ensures
            final(self).anchor() == old(self).anchor(),
            final(self).visible() == old(self).visible(),
            old(self).visible() ==> final(self).bound == Bound2::normalize(old(self).anchor(), pos),
            !old(self).visible() ==> final(self).bound == old(self).bound,
    {
        if self.visible {
            self.bound = Bound2::new(self.first, pos);
        }
    }

    /// Shows or hides the selection; the region stays.
    pub fn set_visible(&mut self, visible: bool)
        ensures
            final(self).visible() == visible,
            final(self).anchor() == old(self).anchor(),
            final(self).bound == old(self).bound,
    {
        self.visible = visible;
    }

    /// Whether the selection is shown.
    pub fn is_visible(&self) -> (v: bool)
        ensures
            v == self.visible(),
    {
        self.visible
    }

    /// Pointer pressed at `p`: the drag starts there and is shown.
    pub fn begin(&mut self, p: Point)
        ensures
            final(self).anchor() == p,
            final(self).bound == Bound2::normalize(p, p),
            final(self).visible(),
    {
        self.set_visible(true);
        self.set_first(p);
    }

    /// Pointer moved to `p`: a shown selection follows it, a hidden one
    /// stays as it is.
    pub fn update(&mut self, p: Point)
        ensures
            final(self).anchor() == old(self).anchor(),
            final(self).visible() == old(self).visible(),
            old(self).visible() ==> final(self).bound == Bound2::normalize(old(self).anchor(), p),
            !old(self).visible() ==> final(self).bound == old(self).bound,
    {
        self.set_second(p);
    }

    /// Pointer released: the region as it stands. Nothing changes, not even
    /// whether the selection is shown.
    pub fn end(&self) -> (r: Bound2)
        ensures
            r == self.bound,
    {
        self.bound
    }

    /// Hides the selection, as on loss of focus or once a capture is done.
    pub fn dismiss(&mut self)
        ensures
            !final(self).visible(),
            final(self).anchor() == old(self).anchor(),
            final(self).bound == old(self).bound,
    {
        self.set_visible(false);
    }
}

/// Every region that a drag passes through is normalized.
pub proof fn lemma_drag_normalized(anchor: Point, p: Point)
    ensures
        Bound2::normalize(anchor, p).is_normalized(),
        Bound2::normalize(anchor, anchor).is_empty(),
{
}

} // verus!
