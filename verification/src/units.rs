//! Fixed-point units.
//!
//! Every length is a whole number of tenths of a micrometre, every angle a
//! whole number of thousandths of a degree, and every dimensionless factor a
//! whole number of thousandths. A sixteenth of a millimetre is 625 units, so
//! halves, quarters, eighths and sixteenths of the dimensions that come in
//! hundredths of a millimetre are whole. Quotients that are not whole round
//! toward zero, so that halving a width and negating it commute.

use vstd::prelude::*;

verus! {

/// Units in one millimetre.
pub const MM: i64 = 10_000;

/// Units in the factor one, and in one degree.
pub const WHOLE: i64 = 1_000;

/// Largest magnitude a dimension handed to a builder may have: 10 m. The
/// bound leaves every sum and product that a builder forms far inside the
/// range of the machine's integers.
pub const LIMIT: i64 = 100_000_000;

/// Whether a dimension lies within the magnitude the builders accept.
pub open spec fn in_range(v: int) -> bool {
    -LIMIT <= v <= LIMIT
}

/// The quotient of `a` by a positive `b`, rounded toward zero.
pub open spec fn quot(a: int, b: int) -> int
    recommends
        b > 0,
{
    if a >= 0 {
        a / b
    } else {
        -((-a) / b)
    }
}

/// `x` multiplied by a factor given in thousandths, rounded toward zero.
pub open spec fn scaled(x: int, factor: int) -> int {
    quot(x * factor, WHOLE as int)
}

/// Rounding toward zero makes the quotient an odd function.
pub proof fn lemma_quot_odd(a: int, b: int)
    requires
        b > 0,
    ensures
        quot(-a, b) == -quot(a, b),
{
}

/// A quotient by a positive divisor is no larger in magnitude than the dividend.
pub proof fn lemma_quot_bound(a: int, b: int, bound: int)
    requires
        b > 0,
        -bound <= a <= bound,
    ensures
        -bound <= quot(a, b) <= bound,
{
    if a >= 0 {
        assert(a / b <= a) by (nonlinear_arith)
            requires
                a >= 0,
                b > 0,
        ;
        assert(a / b >= 0) by (nonlinear_arith)
            requires
                a >= 0,
                b > 0,
        ;
    } else {
        assert((-a) / b <= -a) by (nonlinear_arith)
            requires
                -a >= 0,
                b > 0,
        ;
        assert((-a) / b >= 0) by (nonlinear_arith)
            requires
                -a >= 0,
                b > 0,
        ;
    }
}

/// Whether a test on a run-time value agrees with [`in_range`].
pub fn is_in_range(v: i64) -> (ok: bool)
    ensures
        ok == in_range(v as int),
{
    -LIMIT <= v && v <= LIMIT
}

/// Multiplies a length, or a sum of a few lengths, by a factor in thousandths.
pub fn scale(x: i64, factor: i64) -> (r: i64)
    requires
        -10 * LIMIT <= x <= 10 * LIMIT,
        in_range(factor as int),
    ensures
        r == scaled(x as int, factor as int),
        -100_000_000_000_000 <= r <= 100_000_000_000_000,
{
    assert(-100_000_000_000_000_000 <= x * factor <= 100_000_000_000_000_000) by (nonlinear_arith)
        requires
            -1_000_000_000 <= x <= 1_000_000_000,
            -100_000_000 <= factor <= 100_000_000,
    ;
    let product: i64 = x * factor;
    product / WHOLE
}

} // verus!
