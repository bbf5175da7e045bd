//! The tri-state clipping area and its intersection algebra.

use vstd::prelude::*;

use crate::rect::Rect;

verus! {

/// Tri-state clipping area: a concrete (non-empty) clip rectangle, an
/// explicitly empty clip, or no clipping at all (infinite area).
#[derive(Clone, Copy, Debug, PartialEq, Eq, Structural)]
pub enum ClippingRect {
    /// a non-zero area clipping rect
    Rect(Rect),
    /// a clipping rect with zero area
    Zero,
    /// the absence of a clipping rect
    Unbounded,
}

impl ClippingRect {
    /// The intersection algebra: `Zero` absorbs, `Unbounded` is the
    /// identity, and two concrete rectangles intersect geometrically,
    /// degrading to `Zero` when they are disjoint.
    pub open spec fn spec_intersection(self, other: ClippingRect) -> ClippingRect {
        match self {
            ClippingRect::Zero => ClippingRect::Zero,
            ClippingRect::Unbounded => other,
            ClippingRect::Rect(self_rect) => match other {
                ClippingRect::Zero => ClippingRect::Zero,
                ClippingRect::Unbounded => self,
                ClippingRect::Rect(rect) => match self_rect.spec_intersection(rect) {
                    Option::Some(v) => ClippingRect::Rect(v),
                    Option::None => ClippingRect::Zero,
                },
            },
        }
    }

    pub fn intersection(&self, other: ClippingRect) -> (r: ClippingRect)
        ensures
            r == self.spec_intersection(other),
    {
        match self {
            ClippingRect::Zero => ClippingRect::Zero,
            ClippingRect::Unbounded => other,
            ClippingRect::Rect(self_rect) => match other {
                ClippingRect::Zero => ClippingRect::Zero,
                ClippingRect::Unbounded => *self,
                ClippingRect::Rect(rect) => match self_rect.intersection(rect) {
                    Some(v) => ClippingRect::Rect(v),
                    None => ClippingRect::Zero,
                },
            },
        }
    }

    /// The raw form handed to the engine when this clip state is set: a
    /// concrete rectangle as itself, the zero-area clip as an all-zero
    /// rectangle, and the absence of clipping as no rectangle at all.
    pub open spec fn spec_to_ll(self) -> Option<Rect> {
        match self {
            ClippingRect::Rect(r) => Option::Some(r),
            ClippingRect::Zero => Option::Some(Rect { x: 0, y: 0, w: 0, h: 0 }),
            ClippingRect::Unbounded => Option::None,
        }
    }

    pub fn to_ll(&self) -> (r: Option<Rect>)
        ensures
            r == self.spec_to_ll(),
    {
        match self {
            ClippingRect::Rect(rect) => Some(*rect),
            ClippingRect::Zero => Some(Rect { x: 0, y: 0, w: 0, h: 0 }),
            ClippingRect::Unbounded => None,
        }
    }

    /// The clip state read back from the engine: no state when clipping
    /// is disabled, the zero-area clip for an empty rectangle, and a
    /// concrete clip otherwise.
    pub open spec fn spec_from_ll(enabled: bool, raw: Rect) -> ClippingRect {
        if !enabled {
            ClippingRect::Unbounded
        } else if raw.w == 0 || raw.h == 0 {
            ClippingRect::Zero
        } else {
            ClippingRect::Rect(raw)
        }
    }

    pub fn from_ll(enabled: bool, raw: Rect) -> (r: ClippingRect)
        ensures
            r == ClippingRect::spec_from_ll(enabled, raw),
    {
        if !enabled {
            ClippingRect::Unbounded
        } else if raw.w == 0 || raw.h == 0 {
            ClippingRect::Zero
        } else {
            ClippingRect::Rect(raw)
        }
    }

    /// Shrink the clipping area to the part that lies inside `position`;
    /// `None` stands for a zero-area position, which absorbs everything.
    pub fn intersect_rect(&self, position: Option<Rect>) -> (r: ClippingRect)
        ensures
            match position {
                Option::Some(p) => r == self.spec_intersection(ClippingRect::Rect(p)),
                Option::None => r == ClippingRect::Zero,
            },
    {
        match position {
            Some(position) => {
                match self {
                    ClippingRect::Rect(rect) => match rect.intersection(position) {
                        Some(v) => ClippingRect::Rect(v),
                        None => ClippingRect::Zero,
                    },
                    ClippingRect::Zero => ClippingRect::Zero,
                    ClippingRect::Unbounded => {
                        // the clipping area is infinite, so the result is just the position
                        ClippingRect::Rect(position)
                    },
                }
            },
            None => {
                // the position has zero area, so the intersection has too
                ClippingRect::Zero
            },
        }
    }
}

impl From<Rect> for ClippingRect {
    /// A concrete rectangle clips to exactly itself.
    fn from(rect: Rect) -> (r: ClippingRect) {
        ClippingRect::Rect(rect)
    }
}

impl vstd::std_specs::convert::FromSpecImpl<Rect> for ClippingRect {
    open spec fn obeys_from_spec() -> bool {
        true
    }

    open spec fn from_spec(rect: Rect) -> ClippingRect {
        ClippingRect::Rect(rect)
    }
}

impl From<Option<Rect>> for ClippingRect {
    /// An absent rectangle means no clipping at all.
    fn from(rect: Option<Rect>) -> (r: ClippingRect) {
        match rect {
            Some(v) => ClippingRect::Rect(v),
            None => ClippingRect::Unbounded,
        }
    }
}

impl vstd::std_specs::convert::FromSpecImpl<Option<Rect>> for ClippingRect {
    open spec fn obeys_from_spec() -> bool {
        true
    }

    open spec fn from_spec(rect: Option<Rect>) -> ClippingRect {
        match rect {
            Option::Some(v) => ClippingRect::Rect(v),
            Option::None => ClippingRect::Unbounded,
        }
    }
}

/// Intersecting two concrete clip rectangles yields `Zero` exactly when the
/// rectangles share no point; otherwise it yields their geometric
/// intersection.
pub proof fn lemma_rect_rect_intersection(r1: Rect, r2: Rect)
    ensures
        ClippingRect::Rect(r1).spec_intersection(ClippingRect::Rect(r2)) == ClippingRect::Zero
            <==> !r1.overlaps(r2),
        r1.overlaps(r2) ==> ClippingRect::Rect(r1).spec_intersection(ClippingRect::Rect(r2))
            == ClippingRect::Rect(r1.spec_intersection(r2).unwrap()),
{
}

/// `Unbounded` is the identity of the intersection algebra.
pub proof fn lemma_intersection_identity(x: ClippingRect)
    ensures
        ClippingRect::Unbounded.spec_intersection(x) == x,
{
}

/// `Zero` absorbs everything under intersection.
pub proof fn lemma_intersection_absorption(x: ClippingRect)
    ensures
        ClippingRect::Zero.spec_intersection(x) == ClippingRect::Zero,
{
}

/// Writing a clip state into the engine's raw form (a rectangle plus
/// whether clipping is enabled) and reading it back yields the original
/// state, for concrete clip rectangles that are non-empty.
pub proof fn lemma_clip_state_round_trip(arg: ClippingRect)
    requires
        arg matches ClippingRect::Rect(r) ==> 1 <= r.w && 1 <= r.h,
    ensures
        ({
            let raw = match arg.spec_to_ll() {
                Option::Some(r) => r,
                Option::None => Rect { x: 0, y: 0, w: 0, h: 0 },
            };
            ClippingRect::spec_from_ll(arg.spec_to_ll() is Some, raw) == arg
        }),
{
}

} // verus!
