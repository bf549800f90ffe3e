//! Fixed-point quantities shared by every entity.
//!
//! Lengths and positions are whole numbers of thousandths of a pixel and times
//! are whole milliseconds, so a velocity counts thousandths of a pixel per
//! millisecond. A dimensionless ratio is held in thousandths as well. Whatever
//! is stored lies within `LIMIT` of zero, which leaves every derived quantity
//! room in a machine word.
//!
//! Division rounds toward zero, so that mirrored inputs give mirrored results.

use vstd::prelude::*;

verus! {

/// Thousandths in one whole: a pixel is `UNIT` length units, and a ratio of one
/// is `UNIT`.
pub const UNIT: i64 = 1000;

/// Largest magnitude of a stored quantity: ten thousand million pixels.
pub const LIMIT: i64 = 10_000_000_000_000;

/// The value that stands for 1.0 on a normalized device axis.
pub const NDC_ONE: i64 = 100_000;

/// The value that stands for 1.0 in the circle table.
pub const TRIG_ONE: i64 = 100_000;

/// Whether `v` can be stored.
pub open spec fn in_range(v: int) -> bool {
    -LIMIT <= v <= LIMIT
}

/// The quotient of `a` by a positive `b`, rounded toward zero.
pub open spec fn trunc_div(a: int, b: int) -> int {
    if a >= 0 {
        a / b
    } else {
        -((-a) / b)
    }
}

/// The distance between `a` and `b`.
pub open spec fn dist(a: int, b: int) -> int {
    if a >= b {
        a - b
    } else {
        b - a
    }
}

/// Whether `x` lies strictly within `tolerance` of `y`.
pub open spec fn within(x: int, y: int, tolerance: int) -> bool {
    dist(x, y) < tolerance
}

/// Where the position `p` falls on a normalized device axis that runs from
/// `-NDC_ONE` at position 0 to `NDC_ONE` at position `extent`.
pub open spec fn ndc(p: int, extent: int) -> int {
    trunc_div(2 * NDC_ONE * p, extent) - NDC_ONE
}

/// The smaller of two numbers.
pub open spec fn min_of(a: int, b: int) -> int {
    if a <= b {
        a
    } else {
        b
    }
}

/// Truncating division never moves away from zero, and keeps the sign.
pub proof fn lemma_trunc_div_bounds(a: int, b: int)
    requires
        b > 0,
    ensures
        a >= 0 ==> 0 <= trunc_div(a, b) <= a,
        a <= 0 ==> a <= trunc_div(a, b) <= 0,
        trunc_div(-a, b) == -trunc_div(a, b),
{
    if a >= 0 {
        assert(0 <= a / b <= a) by (nonlinear_arith)
            requires
                a >= 0,
                b > 0,
        ;
    } else {
        assert(0 <= (-a) / b <= -a) by (nonlinear_arith)
            requires
                a < 0,
                b > 0,
        ;
    }
}

/// Truncating division is monotonic in the dividend.
pub proof fn lemma_trunc_div_monotonic(a: int, c: int, b: int)
    requires
        b > 0,
        a <= c,
    ensures
        trunc_div(a, b) <= trunc_div(c, b),
{
    lemma_trunc_div_bounds(a, b);
    lemma_trunc_div_bounds(c, b);
    if a >= 0 {
        assert(a / b <= c / b) by (nonlinear_arith)
            requires
                0 <= a <= c,
                b > 0,
        ;
    } else if c < 0 {
        assert((-c) / b <= (-a) / b) by (nonlinear_arith)
            requires
                0 <= -c <= -a,
                b > 0,
        ;
    }
}

/// The arena maps onto the normalized axis: its near edge to `-NDC_ONE`, its
/// far edge to `NDC_ONE`, and every position between them to a value between
/// those.
pub proof fn law_ndc_spans_the_arena(p: int, extent: int)
    requires
        extent > 0,
        0 <= p <= extent,
    ensures
        ndc(0, extent) == -NDC_ONE,
        ndc(extent, extent) == NDC_ONE,
        -NDC_ONE <= ndc(p, extent) <= NDC_ONE,
{
    assert(trunc_div(2 * NDC_ONE * extent, extent) == 2 * NDC_ONE) by (nonlinear_arith)
        requires
            extent > 0,
    ;
    assert(trunc_div(0, extent) == 0) by (nonlinear_arith)
        requires
            extent > 0,
    ;
    assert(2 * NDC_ONE * p == 200_000 * p && 2 * NDC_ONE * extent == 200_000 * extent);
    lemma_trunc_div_monotonic(0, 2 * NDC_ONE * p, extent);
    lemma_trunc_div_monotonic(2 * NDC_ONE * p, 2 * NDC_ONE * extent, extent);
}

/// The normalized axis keeps the order of positions.
pub proof fn law_ndc_keeps_order(p: int, q: int, extent: int)
    requires
        extent > 0,
        p <= q,
    ensures
        ndc(p, extent) <= ndc(q, extent),
{
    assert(2 * NDC_ONE * p == 200_000 * p && 2 * NDC_ONE * q == 200_000 * q);
    lemma_trunc_div_monotonic(2 * NDC_ONE * p, 2 * NDC_ONE * q, extent);
}

/// A product of two bounded factors is bounded by the product of the bounds.
pub proof fn lemma_product_bound(a: int, b: int, bound_a: int, bound_b: int)
    requires
        -bound_a <= a <= bound_a,
        -bound_b <= b <= bound_b,
    ensures
        -(bound_a * bound_b) <= a * b <= bound_a * bound_b,
{
    assert(-(bound_a * bound_b) <= a * b <= bound_a * bound_b) by (nonlinear_arith)
        requires
            -bound_a <= a <= bound_a,
            -bound_b <= b <= bound_b,
    ;
}

/// Scaling by a fraction of at most one in magnitude does not enlarge: for
/// `|part| <= whole`, the quotient of `a * part` by `whole` lies within `|a|`.
pub proof fn lemma_fraction_bound(a: int, part: int, whole: int)
    requires
        whole > 0,
        -whole <= part <= whole,
    ensures
        a >= 0 ==> -a <= trunc_div(a * part, whole) <= a,
        a <= 0 ==> a <= trunc_div(a * part, whole) <= -a,
{
    let m: int = if a >= 0 {
        a
    } else {
        -a
    };
    lemma_product_bound(a, part, m, whole);
    assert(trunc_div(m * whole, whole) == m) by (nonlinear_arith)
        requires
            m >= 0,
            whole > 0,
    ;
    lemma_trunc_div_monotonic(a * part, m * whole, whole);
    lemma_trunc_div_monotonic(-(m * whole), a * part, whole);
    lemma_trunc_div_bounds(m * whole, whole);
}

/// Where a point at `p` that moves at velocity `v` is after `dt`.
pub fn moved(p: i64, v: i64, dt: i64) -> (r: i128)
    ensures
        r == p + v * dt,
{
    proof {
        lemma_product_bound(v as int, dt as int, 0x8000_0000_0000_0000, 0x8000_0000_0000_0000);
    }
    p as i128 + (v as i128) * (dt as i128)
}

/// Whether `v` can be stored.
pub fn fits(v: i128) -> (r: bool)
    ensures
        r == in_range(v as int),
{
    -(LIMIT as i128) <= v && v <= LIMIT as i128
}

/// `x` lies strictly within `tolerance` of `y`.
pub fn is_within(x: i64, y: i64, tolerance: i64) -> (r: bool)
    ensures
        r == within(x as int, y as int, tolerance as int),
{
    let d: i128 = if x >= y {
        x as i128 - y as i128
    } else {
        y as i128 - x as i128
    };
    d < tolerance as i128
}

/// The smaller of `a` and `b`.
pub fn smaller(a: i64, b: i64) -> (m: i64)
    ensures
        m == min_of(a as int, b as int),
{
    if a <= b {
        a
    } else {
        b
    }
}

/// Maps the position `p` to the normalized device axis of an arena side that is
/// `extent` long.
pub fn to_ndc(p: i64, extent: i64) -> (r: i64)
    requires
        extent > 0,
        -2 * LIMIT <= p <= 2 * LIMIT,
    ensures
        r == ndc(p as int, extent as int),
{
    let gain: i64 = 2 * NDC_ONE;
    let scaled: i64 = gain * p;
    proof {
        lemma_trunc_div_bounds(scaled as int, extent as int);
    }
    scaled / extent - NDC_ONE
}

} // verus!
