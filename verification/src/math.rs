//! Fixed-point arithmetic.
//!
//! A [`Scalar`] counts thousandths: `1_500` stands for `1.5`. Sums and
//! differences are exact; a product or quotient is rounded toward zero.

use vstd::prelude::*;

verus! {

/// A quantity in thousandths.
pub type Scalar = i64;

/// The scalar that stands for `1.0`.
pub const UNIT: Scalar = 1000;

/// `v` held to the interval `[lo, hi]`.
pub open spec fn clamp(v: int, lo: int, hi: int) -> int {
    if v < lo {
        lo
    } else if v > hi {
        hi
    } else {
        v
    }
}

/// The distance of `v` from zero.
pub open spec fn magnitude(v: int) -> int {
    if v < 0 {
        -v
    } else {
        v
    }
}

/// `a / b` rounded toward zero, for a positive `b`.
pub open spec fn quotient(a: int, b: int) -> int {
    if a >= 0 {
        a / b
    } else {
        -((-a) / b)
    }
}

/// The fixed-point product of `a` and `factor`.
pub open spec fn scale(a: int, factor: int) -> int {
    quotient(a * factor, UNIT as int)
}

/// The largest magnitude that the wide intermediate values of this crate reach.
pub open spec fn wide_limit() -> int {
    0x1_0000_0000_0000_0000_0000_0000
}

/// A fixed-point product keeps the sign of its first factor and does not
/// outgrow it when the second factor lies between zero and [`UNIT`].
pub proof fn scale_shrinks(a: int, factor: int)
    requires
        0 <= factor <= UNIT,
    ensures
        magnitude(scale(a, factor)) <= magnitude(a),
        a >= 0 ==> scale(a, factor) >= 0,
        a <= 0 ==> scale(a, factor) <= 0,
{
    if a >= 0 {
        assert(0 <= a * factor <= a * 1000) by (nonlinear_arith)
            requires
                a >= 0,
                0 <= factor <= 1000,
        ;
    } else {
        assert(0 <= (-a) * factor <= (-a) * 1000 && -(a * factor) == (-a) * factor)
            by (nonlinear_arith)
            requires
                a < 0,
                0 <= factor <= 1000,
        ;
    }
}

/// `v` held to `[lo, hi]`, from a wide value.
pub(crate) fn clamp_wide(v: i128, lo: Scalar, hi: Scalar) -> (r: Scalar)
    requires
        lo <= hi,
    ensures
        r == clamp(v as int, lo as int, hi as int),
{
    if v < lo as i128 {
        lo
    } else if v > hi as i128 {
        hi
    } else {
        v as Scalar
    }
}

/// The fixed-point product of a wide value and a factor between zero and
/// [`UNIT`].
pub(crate) fn scale_wide(a: i128, factor: Scalar) -> (r: i128)
    requires
        -wide_limit() <= a <= wide_limit(),
        0 <= factor <= UNIT,
    ensures
        r == scale(a as int, factor as int),
        magnitude(r as int) <= magnitude(a as int),
{
    proof {
        scale_shrinks(a as int, factor as int);
        assert(-wide_limit() * 1000 <= a * factor <= wide_limit() * 1000) by (nonlinear_arith)
            requires
                -wide_limit() <= a <= wide_limit(),
                0 <= factor <= 1000,
        ;
    }
    (a * factor as i128) / (UNIT as i128)
}

} // verus!
