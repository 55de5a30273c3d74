//! Integer trigonometry in milli-radians. The simulation only needs a
//! bounded, periodic wave for procedural drift and for aiming bullet fans,
//! so sine is a triangle wave: exact at multiples of a quarter turn and
//! within the unit range everywhere, with no floating point.

use vstd::prelude::*;

verus! {

/// One half turn, in milli-radians.
pub const PI_MRAD: i64 = 3142;

/// One quarter turn, in milli-radians.
pub const HALF_PI_MRAD: i64 = 1571;

/// One full turn, in milli-radians.
pub const TAU_MRAD: i64 = 6284;

/// Triangle-wave sine of an angle in milli-radians, in milli-units:
/// 0 at 0, 1000 at a quarter turn, 0 at a half turn, -1000 at three
/// quarters, periodic with one full turn.
pub open spec fn spec_sin1k(a: int) -> int {
    let m = a % 6284;
    if m <= 1571 {
        m * 1000 / 1571
    } else if m <= 3142 {
        (3142 - m) * 1000 / 1571
    } else if m <= 4713 {
        -((m - 3142) * 1000 / 1571)
    } else {
        -((6284 - m) * 1000 / 1571)
    }
}

/// Cosine as the sine shifted by a quarter turn.
pub open spec fn spec_cos1k(a: int) -> int {
    spec_sin1k(a + 1571)
}

/// The wave stays within one milli-unit of amplitude.
pub proof fn lemma_sin1k_bounds(a: int)
    ensures
        -1000 <= spec_sin1k(a) <= 1000,
{
    let m = a % 6284;
    vstd::arithmetic::div_mod::lemma_mod_bound(a, 6284);
    if m <= 1571 {
        div_le_1000(m);
    } else if m <= 3142 {
        div_le_1000(3142 - m);
    } else if m <= 4713 {
        div_le_1000(m - 3142);
    } else {
        div_le_1000(6284 - m);
    }
}

proof fn div_le_1000(x: int)
    requires
        0 <= x <= 1571,
    ensures
        0 <= x * 1000 / 1571 <= 1000,
{
    assert(x * 1000 <= 1571 * 1000) by (nonlinear_arith)
        requires x <= 1571;
    assert(0 <= x * 1000) by (nonlinear_arith)
        requires 0 <= x;
    vstd::arithmetic::div_mod::lemma_div_is_ordered(0, x * 1000, 1571);
    vstd::arithmetic::div_mod::lemma_div_is_ordered(x * 1000, 1571int * 1000, 1571);
    assert(1571 * 1000 / 1571 == 1000);
}

/// Triangle-wave sine in milli-units of an angle in milli-radians.
pub fn sin1k(a: i64) -> (r: i64)
    ensures
        r == spec_sin1k(a as int),
        -1000 <= r <= 1000,
{
    let m: i64 = match a.checked_rem_euclid(TAU_MRAD) {
        Some(m) => m,
        None => 0,
    };
    proof {
        vstd::arithmetic::div_mod::lemma_mod_bound(a as int, 6284);
        lemma_sin1k_bounds(a as int);
    }
    if m <= 1571 {
        (((m as u64) * 1000) / 1571) as i64
    } else if m <= 3142 {
        ((((3142 - m) as u64) * 1000) / 1571) as i64
    } else if m <= 4713 {
        -(((((m - 3142) as u64) * 1000) / 1571) as i64)
    } else {
        -(((((6284 - m) as u64) * 1000) / 1571) as i64)
    }
}

/// Triangle-wave cosine in milli-units of an angle in milli-radians.
pub fn cos1k(a: i64) -> (r: i64)
    requires
        a <= i64::MAX - 1571,
    ensures
        r == spec_cos1k(a as int),
        -1000 <= r <= 1000,
{
    sin1k(a + HALF_PI_MRAD)
}

} // verus!
