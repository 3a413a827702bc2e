//! Interval clamping and axis-aligned bounding-box (AABB) overlap, the two
//! geometric primitives everything else is built on.

use vstd::prelude::*;

use crate::config::COORD_LIMIT;

verus! {

/// `v` restricted to the closed interval `[lo, hi]`: the nearer bound if `v`
/// lies outside, `v` itself otherwise.
pub open spec fn clamp_spec(v: int, lo: int, hi: int) -> int {
    if v < lo {
        lo
    } else if v > hi {
        hi
    } else {
        v
    }
}

/// Restrict `v` to the closed interval `[lo, hi]`.
pub fn clamp_i64(v: i64, lo: i64, hi: i64) -> (r: i64)
    requires
        lo <= hi,
    ensures
        r == clamp_spec(v as int, lo as int, hi as int),
{
    if v < lo {
        lo
    } else if v > hi {
        hi
    } else {
        v
    }
}

/// Law: one clamp call lands on the nearer interval bound when `v` is outside
/// `[lo, hi]` and leaves an in-interval value untouched, so clamping an
/// already clamped value changes nothing.
pub proof fn lemma_clamp_idempotent(v: int, lo: int, hi: int)
    requires
        lo <= hi,
    ensures
        clamp_spec(clamp_spec(v, lo, hi), lo, hi) == clamp_spec(v, lo, hi),
        lo <= v <= hi ==> clamp_spec(v, lo, hi) == v,
        v < lo ==> clamp_spec(v, lo, hi) == lo,
        v > hi ==> clamp_spec(v, lo, hi) == hi,
{
}

/// An axis-aligned rectangle given by its center and half-extents,
/// in sub-units.
#[derive(Clone, Copy, Debug, PartialEq, Eq, Structural)]
pub struct Aabb {
    pub cx: i64,
    pub cy: i64,
    pub hx: i64,
    pub hy: i64,
}

/// Two axis-aligned rectangles, each given by center and half-extents,
/// overlap exactly when the distance between their centers is strictly less
/// than the sum of their half-extents on both axes.
pub open spec fn overlaps_ints(
    ax: int,
    ay: int,
    ahx: int,
    ahy: int,
    bx: int,
    by: int,
    bhx: int,
    bhy: int,
) -> bool {
    &&& -(ahx + bhx) < ax - bx < ahx + bhx
    &&& -(ahy + bhy) < ay - by < ahy + bhy
}

impl Aabb {
    /// Center within `COORD_LIMIT` and non-negative half-extents no larger
    /// than `COORD_LIMIT`: enough for every overlap computation to fit in
    /// `i64`.
    pub open spec fn wf(self) -> bool {
        &&& -COORD_LIMIT <= self.cx <= COORD_LIMIT
        &&& -COORD_LIMIT <= self.cy <= COORD_LIMIT
        &&& 0 <= self.hx <= COORD_LIMIT
        &&& 0 <= self.hy <= COORD_LIMIT
    }

    /// Whether `self` and `other` overlap with positive area.
    pub open spec fn overlaps_spec(self, other: Aabb) -> bool {
        overlaps_ints(
            self.cx as int,
            self.cy as int,
            self.hx as int,
            self.hy as int,
            other.cx as int,
            other.cy as int,
            other.hx as int,
            other.hy as int,
        )
    }

    /// AABB overlap test: strict inequality on both axes, so rectangles that
    /// merely touch along an edge do not overlap.
    pub fn overlaps(&self, other: &Aabb) -> (r: bool)
        requires
            self.wf(),
            other.wf(),
        ensures
            r == self.overlaps_spec(*other),
    {
        let dx = self.cx - other.cx;
        let sx = self.hx + other.hx;
        let dy = self.cy - other.cy;
        let sy = self.hy + other.hy;
        -sx < dx && dx < sx && -sy < dy && dy < sy
    }
}

/// Law: AABB overlap is symmetric in its two rectangles.
pub proof fn lemma_overlap_symmetric(a: Aabb, b: Aabb)
    ensures
        a.overlaps_spec(b) == b.overlaps_spec(a),
{
}

/// Law: two rectangles whose centers are at least the sum of their
/// half-extents apart on some axis do not overlap.
pub proof fn lemma_no_false_contact(a: Aabb, b: Aabb)
    requires
        a.cx - b.cx >= a.hx + b.hx || b.cx - a.cx >= a.hx + b.hx || a.cy - b.cy >= a.hy + b.hy
            || b.cy - a.cy >= a.hy + b.hy,
    ensures
        !a.overlaps_spec(b),
{
}

} // verus!
