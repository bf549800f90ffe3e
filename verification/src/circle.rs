//! The unit circle at the thirty-two directions of the ball's outline.
//!
//! Direction `k` is `k` thirty-seconds of a full turn. Cosine and sine are
//! tabulated in units of `TRIG_ONE`, rounded to the nearest unit; only the first
//! quarter turn is written out, the rest follows by symmetry.

use vstd::prelude::*;
use crate::fixed::TRIG_ONE;

verus! {

/// Number of points on the ball's outline.
pub const NUM_VERT: usize = 32;

/// Cosine of direction `k` within the first quarter turn, `0 <= k <= 8`.
pub open spec fn quarter_cos(k: int) -> int {
    if k == 0 {
        100_000
    } else if k == 1 {
        98_079
    } else if k == 2 {
        92_388
    } else if k == 3 {
        83_147
    } else if k == 4 {
        70_711
    } else if k == 5 {
        55_557
    } else if k == 6 {
        38_268
    } else if k == 7 {
        19_509
    } else {
        0
    }
}

/// Cosine of direction `k`, `0 <= k < 32`.
pub open spec fn fan_cos(k: int) -> int {
    if k <= 8 {
        quarter_cos(k)
    } else if k <= 16 {
        -quarter_cos(16 - k)
    } else if k <= 24 {
        -quarter_cos(k - 16)
    } else {
        quarter_cos(32 - k)
    }
}

/// Sine of direction `k`, `0 <= k < 32`: the cosine a quarter turn back.
pub open spec fn fan_sin(k: int) -> int {
    if k >= 8 {
        fan_cos(k - 8)
    } else {
        fan_cos(k + 24)
    }
}

/// Every tabulated direction is a unit vector up to rounding: its squared
/// length misses `TRIG_ONE` squared by less than two units of `TRIG_ONE`, and
/// neither component exceeds `TRIG_ONE`.
pub proof fn law_unit_length(k: int)
    requires
        0 <= k < 32,
    ensures
        -TRIG_ONE <= fan_cos(k) <= TRIG_ONE,
        -TRIG_ONE <= fan_sin(k) <= TRIG_ONE,
        -2 * TRIG_ONE < fan_cos(k) * fan_cos(k) + fan_sin(k) * fan_sin(k) - TRIG_ONE * TRIG_ONE
            < 2 * TRIG_ONE,
{
    let q: int = if k <= 8 {
        k
    } else if k <= 16 {
        16 - k
    } else if k <= 24 {
        k - 16
    } else {
        32 - k
    };
    let c: int = quarter_cos(q);
    let s: int = quarter_cos(8 - q);
    assert(fan_cos(k) == c || fan_cos(k) == -c);
    assert(fan_sin(k) == s || fan_sin(k) == -s);
    assert(fan_cos(k) * fan_cos(k) == c * c) by (nonlinear_arith)
        requires
            fan_cos(k) == c || fan_cos(k) == -c,
    ;
    assert(fan_sin(k) * fan_sin(k) == s * s) by (nonlinear_arith)
        requires
            fan_sin(k) == s || fan_sin(k) == -s,
    ;
    if q == 0 || q == 8 {
        assert(c * c + s * s == 10_000_000_000);
    } else if q == 1 || q == 7 {
        assert(c * c + s * s == 10_000_091_322);
    } else if q == 2 || q == 6 {
        assert(c * c + s * s == 9_999_982_368);
    } else if q == 3 || q == 5 {
        assert(c * c + s * s == 10_000_003_858);
    } else {
        assert(c * c + s * s == 10_000_091_042);
    }
}

/// Opposite directions are mirror images of each other.
pub proof fn law_half_turn(k: int)
    requires
        0 <= k < 16,
    ensures
        fan_cos(k + 16) == -fan_cos(k),
        fan_sin(k + 16) == -fan_sin(k),
{
}

/// The first-quarter table.
fn quarter(k: usize) -> (c: i64)
    requires
        k <= 8,
    ensures
        c == quarter_cos(k as int),
{
    if k == 0 {
        100_000
    } else if k == 1 {
        98_079
    } else if k == 2 {
        92_388
    } else if k == 3 {
        83_147
    } else if k == 4 {
        70_711
    } else if k == 5 {
        55_557
    } else if k == 6 {
        38_268
    } else if k == 7 {
        19_509
    } else {
        0
    }
}

/// Cosine of direction `k` in units of `TRIG_ONE`.
pub fn circle_cos(k: usize) -> (c: i64)
    requires
        k < NUM_VERT,
    ensures
        c == fan_cos(k as int),
        -TRIG_ONE <= c <= TRIG_ONE,
{
    if k <= 8 {
        quarter(k)
    } else if k <= 16 {
        -quarter(16 - k)
    } else if k <= 24 {
        -quarter(k - 16)
    } else {
        quarter(32 - k)
    }
}

/// Sine of direction `k` in units of `TRIG_ONE`.
pub fn circle_sin(k: usize) -> (s: i64)
    requires
        k < NUM_VERT,
    ensures
        s == fan_sin(k as int),
        -TRIG_ONE <= s <= TRIG_ONE,
{
    if k >= 8 {
        circle_cos(k - 8)
    } else {
        circle_cos(k + 24)
    }
}

} // verus!
