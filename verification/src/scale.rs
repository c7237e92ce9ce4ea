//! Facts about scaling an integer quantity by a rational ratio `a / b`
//! using floored division.
//!
//! Both the beat/time mapping of a timeline (micro-beats per microsecond)
//! and the tick/microsecond mapping of a clock (ticks per microsecond) are
//! conversions of this shape, so the bounds on how far a floored conversion
//! and its floored inverse can drift are proved once, here.

use vstd::prelude::*;
use vstd::arithmetic::div_mod::{
    lemma_div_is_ordered, lemma_fundamental_div_mod, lemma_mod_bound,
};
use vstd::arithmetic::mul::lemma_mul_inequality;

verus! {

/// Scaling `x` by `a / b`, rounding toward negative infinity.
pub open spec fn scale(x: int, a: int, b: int) -> int {
    (x * a) / b
}

/// Core algebra of a scale round trip, on the decomposed quotients and
/// remainders: going `x -> y` by `a / b` and back `y -> z` by `b / a`
/// loses at most `(a + b - 2) / a`, never gains, and loses nothing when
/// the first division is exact.
proof fn lemma_round_trip_parts(x: int, a: int, b: int, y: int, r1: int, z: int, r2: int)
    by (nonlinear_arith)
    requires
        a >= 1,
        b >= 1,
        x * a == b * y + r1,
        0 <= r1 < b,
        y * b == a * z + r2,
        0 <= r2 < a,
    ensures
        z <= x,
        (x - z) * a < a + b,
        r1 == 0 ==> z == x,
{
}

/// Converting `x` with ratio `a / b` and converting the result back with
/// ratio `b / a` ends at or below `x`, within `(a + b) / a` of it; when
/// `(x * a)` is a multiple of `b`, the round trip is exact.
pub proof fn lemma_scale_round_trip(x: int, a: int, b: int)
    requires
        a >= 1,
        b >= 1,
    ensures
        scale(scale(x, a, b), b, a) <= x,
        (x - scale(scale(x, a, b), b, a)) * a < a + b,
        (x * a) % b == 0 ==> scale(scale(x, a, b), b, a) == x,
{
    let y = (x * a) / b;
    let r1 = (x * a) % b;
    let z = (y * b) / a;
    let r2 = (y * b) % a;
    lemma_fundamental_div_mod(x * a, b);
    lemma_mod_bound(x * a, b);
    lemma_fundamental_div_mod(y * b, a);
    lemma_mod_bound(y * b, a);
    lemma_round_trip_parts(x, a, b, y, r1, z, r2);
}

/// Scaling by a non-negative ratio preserves order.
pub proof fn lemma_scale_monotonic(x1: int, x2: int, a: int, b: int)
    requires
        x1 <= x2,
        a >= 0,
        b >= 1,
    ensures
        scale(x1, a, b) <= scale(x2, a, b),
{
    lemma_mul_inequality(x1, x2, a);
    lemma_div_is_ordered(x1 * a, x2 * a, b);
}

/// A quotient by a positive divisor lies between the dividend and zero.
pub proof fn lemma_quotient_between(x: int, d: int)
    requires
        d >= 1,
    ensures
        x >= 0 ==> 0 <= x / d <= x,
        x < 0 ==> x <= x / d <= 0,
{
    lemma_fundamental_div_mod(x, d);
    lemma_mod_bound(x, d);
    assert(x >= 0 ==> 0 <= x / d <= x) by (nonlinear_arith)
        requires
            d >= 1,
            x == d * (x / d) + (x % d),
            0 <= (x % d) < d,
    ;
    assert(x < 0 ==> x <= x / d <= 0) by (nonlinear_arith)
        requires
            d >= 1,
            x == d * (x / d) + (x % d),
            0 <= (x % d) < d,
    ;
}

/// Bound on a product from bounds on both factors, stated for the
/// magnitudes that arise when two 64-bit quantities are multiplied.
pub proof fn lemma_product_bound(x: int, y: int, xb: int, yb: int)
    requires
        -xb <= x <= xb,
        0 <= y <= yb,
    ensures
        -(xb * yb) <= x * y <= xb * yb,
{
    assert(-(xb * yb) <= x * y <= xb * yb) by (nonlinear_arith)
        requires
            -xb <= x <= xb,
            0 <= y <= yb,
    ;
}

} // verus!
