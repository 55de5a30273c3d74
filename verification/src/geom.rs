//! Axis-aligned bounding boxes and the overlap test used for all collision
//! detection. Boxes are half-open: two boxes overlap iff their ranges
//! intersect strictly on both axes, so touching edges do not count.

use vstd::prelude::*;

verus! {

/// An axis-aligned rectangle in micro-pixels. For an entity this is the
/// collision box's offset (`x`, `y`) and size (`w`, `h`) relative to the
/// entity's position.
#[derive(Clone, Copy, PartialEq, Eq, Structural, Debug)]
pub struct Rect {
    pub x: i64,
    pub y: i64,
    pub w: i64,
    pub h: i64,
}

/// Two boxes, given by their absolute top-left corners and sizes, overlap
/// iff their ranges intersect strictly on both axes.
pub open spec fn spec_overlap(
    ax: int,
    ay: int,
    aw: int,
    ah: int,
    bx: int,
    by: int,
    bw: int,
    bh: int,
) -> bool {
    &&& ax < bx + bw
    &&& ax + aw > bx
    &&& ay < by + bh
    &&& ay + ah > by
}

/// The overlap test does not depend on which box is named first.
pub proof fn lemma_overlap_symmetric(
    ax: int,
    ay: int,
    aw: int,
    ah: int,
    bx: int,
    by: int,
    bw: int,
    bh: int,
)
    ensures
        spec_overlap(ax, ay, aw, ah, bx, by, bw, bh) == spec_overlap(
            bx,
            by,
            bw,
            bh,
            ax,
            ay,
            aw,
            ah,
        ),
{
}

/// Boxes whose ranges are disjoint on at least one axis never overlap:
/// the test reports no false positives.
pub proof fn lemma_overlap_no_false_positive(
    ax: int,
    ay: int,
    aw: int,
    ah: int,
    bx: int,
    by: int,
    bw: int,
    bh: int,
)
    requires
        ax + aw <= bx || bx + bw <= ax || ay + ah <= by || by + bh <= ay,
    ensures
        !spec_overlap(ax, ay, aw, ah, bx, by, bw, bh),
{
}

/// Two identical boxes of positive size at the same position always overlap.
pub proof fn lemma_overlap_identical(ax: int, ay: int, aw: int, ah: int)
    requires
        aw > 0,
        ah > 0,
    ensures
        spec_overlap(ax, ay, aw, ah, ax, ay, aw, ah),
{
}

} // verus!
