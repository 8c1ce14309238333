//! What a rounded quotient is, by its product with the divisor.

use crate::arith::{as_i128, trunc_div};
use crate::exchange::fits;
use crate::fixed_point::{mul_div_ceil, mul_div_floor};
use crate::rounding::{ceil_div, floor_div, lemma_floor};
use crate::wide::{abs, as_u128};
use vstd::prelude::*;

verus! {

/// Whether `q` is the quotient of `r` by `z`, rounded down.
pub open spec fn is_floor(q: int, r: int, z: int) -> bool {
    if z > 0 {
        q * z <= r < q * z + z
    } else {
        q * z + z < r <= q * z
    }
}

/// Whether `q` is the quotient of `r` by `z`, rounded up.
pub open spec fn is_ceil(q: int, r: int, z: int) -> bool {
    if z > 0 {
        q * z - z < r <= q * z
    } else {
        q * z <= r < q * z - z
    }
}

/// Whether `q` is the quotient of `r` by `z`, rounded toward zero: what is left
/// over is smaller than the divisor and has the sign of the dividend.
pub open spec fn is_trunc(q: int, r: int, z: int) -> bool {
    let left = r - q * z;
    &&& -abs(z) < left < abs(z)
    &&& r >= 0 ==> left >= 0
    &&& r <= 0 ==> left <= 0
}

/// There is one quotient rounded down, and `floor_div` is it.
pub proof fn law_floor_div(r: int, z: int, q: int)
    requires
        z != 0,
    ensures
        is_floor(floor_div(r, z), r, z),
        is_floor(q, r, z) ==> q == floor_div(r, z),
{
    let f = floor_div(r, z);
    if z > 0 {
        lemma_floor(r, z);
        assert(f * z <= r < f * z + z) by (nonlinear_arith)
            requires
                f * z <= r < (f + 1) * z,
        ;
    } else {
        lemma_floor(-r, -z);
        assert(f * z + z < r <= f * z) by (nonlinear_arith)
            requires
                f * (-z) <= -r < (f + 1) * (-z),
        ;
    }
    if is_floor(q, r, z) {
        assert(q == f) by (nonlinear_arith)
            requires
                z != 0,
                z > 0 ==> q * z <= r < q * z + z && f * z <= r < f * z + z,
                z < 0 ==> q * z + z < r <= q * z && f * z + z < r <= f * z,
        ;
    }
}

/// There is one quotient rounded up, and `ceil_div` is it.
pub proof fn law_ceil_div(r: int, z: int, q: int)
    requires
        z != 0,
    ensures
        is_ceil(ceil_div(r, z), r, z),
        is_ceil(q, r, z) ==> q == ceil_div(r, z),
{
    law_floor_div(-r, z, -q);
    let f = floor_div(-r, z);
    assert((-f) * z == -(f * z) && (-q) * z == -(q * z)) by (nonlinear_arith);
}

/// There is one quotient rounded toward zero, and `trunc_div` is it.
pub proof fn law_trunc_div(r: int, z: int, q: int)
    requires
        z != 0,
    ensures
        is_trunc(trunc_div(r, z), r, z),
        is_trunc(q, r, z) ==> q == trunc_div(r, z),
{
    let (n, d) = (abs(r), abs(z));
    lemma_floor(n, d);
    let f = n / d;
    let t = trunc_div(r, z);
    assert(t * z == if r < 0 {
        -(f * d)
    } else {
        f * d
    }) by (nonlinear_arith)
        requires
            t == f && (r < 0) == (z < 0) || t == -f && (r < 0) != (z < 0),
            d == if z < 0 {
                -z
            } else {
                z
            },
    ;
    assert(f * d <= n < f * d + d) by (nonlinear_arith)
        requires
            f * d <= n < (f + 1) * d,
    ;
    if is_trunc(q, r, z) {
        assert((q - t) * z == q * z - t * z) by (nonlinear_arith);
        assert(q == t) by (nonlinear_arith)
            requires
                -d < (q - t) * z < d,
                d == z || d == -z,
        ;
    }
}

/// A product over a divisor, rounded down: there is none only where the divisor
/// is zero, or the product or the quotient does not fit.
pub proof fn law_mul_div_floor(x: i128, y: i128, z: i128, q: int)
    requires
        z != 0 ==> is_floor(q, x * y, z as int),
    ensures
        match mul_div_floor(x, y, z) {
            Some(result) => z != 0 && fits(x * y) && result == q,
            None => z == 0 || !fits(x * y) || !fits(q),
        },
{
    if z != 0 {
        law_floor_div(x * y, z as int, q);
    }
}

/// A product over a divisor, rounded up: there is none only where the divisor is
/// zero, or the product or the quotient does not fit.
pub proof fn law_mul_div_ceil(x: i128, y: i128, z: i128, q: int)
    requires
        z != 0 ==> is_ceil(q, x * y, z as int),
    ensures
        match mul_div_ceil(x, y, z) {
            Some(result) => z != 0 && fits(x * y) && result == q,
            None => z == 0 || !fits(x * y) || !fits(q),
        },
{
    if z != 0 {
        law_ceil_div(x * y, z as int, q);
    }
}

/// A number is held as it is, or not at all.
pub proof fn law_holding(q: int)
    ensures
        match as_i128(q) {
            Some(held) => held == q,
            None => q < -0x8000_0000_0000_0000_0000_0000_0000_0000 || q
                >= 0x8000_0000_0000_0000_0000_0000_0000_0000,
        },
        match as_u128(q) {
            Some(held) => held == q,
            None => q < 0 || q >= 0x1_0000_0000_0000_0000_0000_0000_0000_0000,
        },
{
}

} // verus!
