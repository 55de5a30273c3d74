//! Small arithmetic helpers shared by the simulation: clamped coordinate
//! arithmetic and truncating scaling by a milli-unit factor.

use vstd::prelude::*;

verus! {

use crate::POS_LIMIT;

/// Clamp a coordinate into the world's position range.
pub open spec fn spec_clamp_pos(v: int) -> int {
    if v < -POS_LIMIT {
        -POS_LIMIT as int
    } else if v > POS_LIMIT {
        POS_LIMIT as int
    } else {
        v
    }
}

/// `v * f / 1000`, truncated toward zero, for a nonnegative length `v` and a
/// milli-unit factor `f` in [-1000, 1000] (typically a sine or cosine value).
pub open spec fn spec_scale_milli(v: int, f: int) -> int {
    if f >= 0 {
        v * f / 1000
    } else {
        -(v * -f / 1000)
    }
}

/// Scale a nonnegative length by a milli-unit factor, truncating toward zero.
pub fn scale_milli(v: i64, f: i64) -> (r: i64)
    requires
        0 <= v <= 1_000_000_000_000_000,
        -1000 <= f <= 1000,
    ensures
        r == spec_scale_milli(v as int, f as int),
        -v <= r <= v,
{
    let mag: i64 = if f >= 0 {
        f
    } else {
        -f
    };
    proof {
        assert(v * mag <= v * 1000 && 0 <= v * mag && v * 1000
            <= 1_000_000_000_000_000i64 * 1000) by (nonlinear_arith)
            requires 0 <= v <= 1_000_000_000_000_000 && 0 <= mag <= 1000;
        vstd::arithmetic::div_mod::lemma_div_is_ordered(v * mag, v * 1000, 1000);
        vstd::arithmetic::div_mod::lemma_div_is_ordered(0, v * mag, 1000);
        assert(v * 1000 / 1000 == v) by (nonlinear_arith);
    }
    let q: i64 = (((v as u64) * (mag as u64)) / 1000) as i64;
    if f >= 0 {
        q
    } else {
        -q
    }
}

} // verus!
