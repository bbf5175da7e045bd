//! Integer rectangles in device coordinates, with a points-covered model
//! and a verified geometric intersection.

use vstd::prelude::*;

verus! {

/// An axis-aligned rectangle: top-left corner `(x, y)`, extent `(w, h)`.
#[derive(Clone, Copy, Debug, PartialEq, Eq, Structural)]
pub struct Rect {
    pub x: i32,
    pub y: i32,
    pub w: u32,
    pub h: u32,
}

impl Rect {
    /// A rectangle fit for the native engine: non-empty, with both extents
    /// representable as native (32-bit signed) integers.
    pub open spec fn wf(self) -> bool {
        1 <= self.w <= i32::MAX && 1 <= self.h <= i32::MAX
    }

    pub open spec fn left(self) -> int {
        self.x as int
    }

    pub open spec fn top(self) -> int {
        self.y as int
    }

    pub open spec fn right(self) -> int {
        self.x + self.w
    }

    pub open spec fn bottom(self) -> int {
        self.y + self.h
    }

    /// The point `(px, py)` lies inside `self`.
    pub open spec fn covers(self, px: int, py: int) -> bool {
        self.left() <= px < self.right() && self.top() <= py < self.bottom()
    }

    /// `self` and `other` share at least one point.
    pub open spec fn overlaps(self, other: Rect) -> bool {
        vstd::math::max(self.left(), other.left()) < vstd::math::min(self.right(), other.right())
            && vstd::math::max(self.top(), other.top()) < vstd::math::min(
            self.bottom(),
            other.bottom(),
        )
    }

    /// The geometric intersection: the rectangle covering exactly the points
    /// covered by both operands, or nothing when the operands are disjoint.
    pub open spec fn spec_intersection(self, other: Rect) -> Option<Rect> {
        let lx = vstd::math::max(self.left(), other.left());
        let ty = vstd::math::max(self.top(), other.top());
        let rx = vstd::math::min(self.right(), other.right());
        let by = vstd::math::min(self.bottom(), other.bottom());
        if lx < rx && ty < by {
            Option::Some(
                Rect { x: lx as i32, y: ty as i32, w: (rx - lx) as u32, h: (by - ty) as u32 },
            )
        } else {
            Option::None
        }
    }

    pub fn new(x: i32, y: i32, width: u32, height: u32) -> (r: Rect)
        requires
            1 <= width <= i32::MAX,
            1 <= height <= i32::MAX,
        ensures
            r == (Rect { x, y, w: width, h: height }),
            r.wf(),
    {
        Rect { x, y, w: width, h: height }
    }

    pub fn x(&self) -> (r: i32)
        ensures
            r == self.x,
    {
        self.x
    }

    pub fn y(&self) -> (r: i32)
        ensures
            r == self.y,
    {
        self.y
    }

    pub fn width(&self) -> (r: u32)
        ensures
            r == self.w,
    {
        self.w
    }

    pub fn height(&self) -> (r: u32)
        ensures
            r == self.h,
    {
        self.h
    }

    /// The common part of two rectangles, if any.
    pub fn intersection(&self, other: Rect) -> (r: Option<Rect>)
        ensures
            r == self.spec_intersection(other),
            r is Some <==> self.overlaps(other),
    {
        let lx: i64 = if self.x >= other.x {
            self.x as i64
        } else {
            other.x as i64
        };
        let ty: i64 = if self.y >= other.y {
            self.y as i64
        } else {
            other.y as i64
        };
        let self_rx: i64 = self.x as i64 + self.w as i64;
        let other_rx: i64 = other.x as i64 + other.w as i64;
        let rx: i64 = if self_rx <= other_rx {
            self_rx
        } else {
            other_rx
        };
        let self_by: i64 = self.y as i64 + self.h as i64;
        let other_by: i64 = other.y as i64 + other.h as i64;
        let by: i64 = if self_by <= other_by {
            self_by
        } else {
            other_by
        };
        if lx < rx && ty < by {
            Some(Rect { x: lx as i32, y: ty as i32, w: (rx - lx) as u32, h: (by - ty) as u32 })
        } else {
            None
        }
    }
}

/// Two rectangles overlap exactly when some point lies inside both.
pub proof fn lemma_overlaps_iff_common_point(a: Rect, b: Rect)
    ensures
        a.overlaps(b) <==> exists|px: int, py: int| a.covers(px, py) && #[trigger] b.covers(
            px,
            py,
        ),
{
    if a.overlaps(b) {
        let px = vstd::math::max(a.left(), b.left());
        let py = vstd::math::max(a.top(), b.top());
        assert(a.covers(px, py) && b.covers(px, py));
    }
}

/// The geometric intersection covers a point exactly when both operands do;
/// disjoint operands produce no intersection.
pub proof fn lemma_intersection_covers(a: Rect, b: Rect, px: int, py: int)
    ensures
        match a.spec_intersection(b) {
            Option::Some(i) => i.covers(px, py) <==> (a.covers(px, py) && b.covers(px, py)),
            Option::None => !(a.covers(px, py) && b.covers(px, py)),
        },
{
}

} // verus!
