//! Quotients of products that may go beyond 128 bits.

use crate::arith::{as_i128, trunc_div};
use crate::rounding::{lemma_floor_below, lemma_floor_largest};
use vstd::prelude::*;

verus! {

/// What `q` is as a `u128`, if it fits.
pub open spec fn as_u128(q: int) -> Option<u128> {
    if 0 <= q <= u128::MAX {
        Some(q as u128)
    } else {
        None
    }
}

/// Adds two numbers, each given as its quotient and remainder by `c`. None if
/// the quotient of the sum does not fit.
fn add_with_remainders(x: (u128, u128), y: (u128, u128), c: u128) -> (r: Option<(u128, u128)>)
    requires
        x.1 < c,
        y.1 < c,
    ensures
        ({
            let sum = (x.0 * c + x.1) + (y.0 * c + y.1);
            match r {
                Some((q, rem)) => rem < c && sum == q * c + rem,
                None => sum >= (u128::MAX + 1) * c,
            }
        }),
{
    let carry: bool = x.1 >= c - y.1;
    let rem: u128 = if carry {
        x.1 - (c - y.1)
    } else {
        x.1 + y.1
    };
    let ghost q = x.0 + y.0 + if carry {
        1int
    } else {
        0
    };
    proof {
        let (xq, yq, k) = (x.0 as int, y.0 as int, c as int);
        if carry {
            assert((xq + yq + 1) * k == xq * k + yq * k + k) by (nonlinear_arith);
        } else {
            assert((xq + yq) * k == xq * k + yq * k) by (nonlinear_arith);
        }
        assert((x.0 * c + x.1) + (y.0 * c + y.1) == q * k + rem);
        if q > u128::MAX {
            assert(q * k >= (u128::MAX + 1) * k) by (nonlinear_arith)
                requires
                    q >= u128::MAX + 1,
                    k >= 0,
            ;
        }
    }
    let sum: u128 = match x.0.checked_add(y.0) {
        Some(sum) => sum,
        None => return None,
    };
    if !carry {
        return Some((sum, rem));
    }
    match sum.checked_add(1) {
        Some(sum) => Some((sum, rem)),
        None => None,
    }
}

/// Quotient and remainder of `a * b` by `c`, the product taken exactly. None if
/// the quotient does not fit.
fn mul_div_rem(a: u128, b: u128, c: u128) -> (r: Option<(u128, u128)>)
    requires
        c > 0,
    ensures
        match r {
            Some((q, rem)) => rem < c && a * b == q * c + rem,
            None => a * b >= (u128::MAX + 1) * c,
        },
    decreases b,
{
    if b == 0 {
        return Some((0, 0));
    }
    let h: u128 = b / 2;
    proof {
        assert(a * b == a * h + a * h + a * (b % 2)) by (nonlinear_arith)
            requires
                b == 2 * h + b % 2,
        ;
        assert(a * h >= 0 && a * (b % 2) >= 0) by (nonlinear_arith);
    }
    let of_half = match mul_div_rem(a, h, c) {
        Some(of_half) => of_half,
        None => return None,
    };
    let doubled = match add_with_remainders(of_half, of_half, c) {
        Some(doubled) => doubled,
        None => return None,
    };
    if b % 2 == 0 {
        assert(a * (b % 2) == 0) by (nonlinear_arith)
            requires
                b % 2 == 0,
        ;
        return Some(doubled);
    }
    proof {
        assert(a * (b % 2) == a) by (nonlinear_arith)
            requires
                b % 2 == 1,
        ;
        assert(a == (a / c) * c + a % c) by (nonlinear_arith)
            requires
                c > 0,
        ;
    }
    add_with_remainders(doubled, (a / c, a % c), c)
}

/// `floor(a * b / c)`, the product taken exactly; none if `c` is zero or the
/// quotient does not fit in a `u128`.
pub open spec fn spec_exact_u128(a: u128, b: u128, c: u128) -> Option<u128> {
    if c == 0 {
        None
    } else {
        as_u128((a * b) / (c as int))
    }
}

/// `floor(a * b / c)`, the product taken exactly; none if `c` is zero or the
/// quotient does not fit in a `u128`.
#[verifier::when_used_as_spec(spec_exact_u128)]
pub fn exact_u128(a: u128, b: u128, c: u128) -> (r: Option<u128>)
    ensures
        r == spec_exact_u128(a, b, c),
{
    if c == 0 {
        return None;
    }
    match mul_div_rem(a, b, c) {
        Some((q, rem)) => {
            proof {
                let (q, c) = (q as int, c as int);
                assert((q + 1) * c == q * c + c) by (nonlinear_arith);
                lemma_floor_largest(a * b, c, q);
                lemma_floor_below(a * b, c, q + 1);
            }
            Some(q)
        },
        None => {
            proof {
                lemma_floor_largest(a * b, c as int, u128::MAX + 1);
            }
            None
        },
    }
}

/// The absolute value of `x`.
pub open spec fn abs(x: int) -> int {
    if x < 0 {
        -x
    } else {
        x
    }
}

/// The absolute value of `x`.
pub fn magnitude(x: i128) -> (r: u128)
    ensures
        r == abs(x as int),
{
    if x < 0 {
        (-(x + 1)) as u128 + 1
    } else {
        x as u128
    }
}

/// The number with this sign and this absolute value; none if it does not fit
/// in an `i128`.
pub fn with_sign(negative: bool, magnitude: u128) -> (r: Option<i128>)
    ensures
        r == as_i128(if negative {
            -(magnitude as int)
        } else {
            magnitude as int
        }),
{
    if !negative {
        if magnitude <= 0x7fff_ffff_ffff_ffff_ffff_ffff_ffff_ffff {
            Some(magnitude as i128)
        } else {
            None
        }
    } else if magnitude == 0 {
        Some(0)
    } else if magnitude <= 0x8000_0000_0000_0000_0000_0000_0000_0000 {
        Some(-((magnitude - 1) as i128) - 1)
    } else {
        None
    }
}

/// A quotient rounded toward zero has the quotient of the absolute values as
/// its own, and is negative where one of the two numbers is.
pub proof fn lemma_trunc_sign(x: int, d: int)
    requires
        d != 0,
    ensures
        abs(x) / abs(d) >= 0,
        trunc_div(x, d) == if (x < 0) != (d < 0) {
            -(abs(x) / abs(d))
        } else {
            abs(x) / abs(d)
        },
        abs(trunc_div(x, d)) == abs(x) / abs(d),
{
    lemma_floor_largest(abs(x), abs(d), 0);
}

/// The absolute value of a product, and its sign.
pub proof fn lemma_abs_of_product(a: int, b: int)
    ensures
        abs(a * b) == abs(a) * abs(b),
        a * b < 0 <==> a != 0 && b != 0 && (a < 0) != (b < 0),
        a * b == 0 <==> a == 0 || b == 0,
{
    assert(abs(a * b) == abs(a) * abs(b)) by (nonlinear_arith);
    assert(a * b < 0 <==> a != 0 && b != 0 && (a < 0) != (b < 0)) by (nonlinear_arith);
    assert(a * b == 0 <==> a == 0 || b == 0) by (nonlinear_arith);
}

/// `a * b / c` rounded toward zero, the product taken exactly; none if `c` is
/// zero or the quotient does not fit in an `i128`.
pub open spec fn spec_exact_i128(a: i128, b: i128, c: i128) -> Option<i128> {
    if c == 0 {
        None
    } else {
        as_i128(trunc_div(a * b, c as int))
    }
}

/// `a * b / c` rounded toward zero, the product taken exactly; none if `c` is
/// zero or the quotient does not fit in an `i128`.
#[verifier::when_used_as_spec(spec_exact_i128)]
pub fn exact_i128(a: i128, b: i128, c: i128) -> (r: Option<i128>)
    ensures
        r == spec_exact_i128(a, b, c),
{
    if c == 0 {
        return None;
    }
    proof {
        lemma_abs_of_product(a as int, b as int);
        lemma_trunc_sign(a * b, c as int);
        if a * b == 0 {
            lemma_floor_below(0, abs(c as int), 1);
        }
    }
    let negative: bool = ((a < 0) != (b < 0)) != (c < 0);
    match exact_u128(magnitude(a), magnitude(b), magnitude(c)) {
        Some(quotient) => with_sign(negative, quotient),
        None => None,
    }
}

} // verus!
