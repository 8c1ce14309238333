use crate::arith::as_i128;
use crate::rounding::{ceil_div, floor_div};
use soroban_fixed_point_math::FixedPoint;
use vstd::prelude::*;

verus! {

/// `floor(x * y / z)`; none if `z` is zero, or if the product or the quotient
/// does not fit in an `i128`.
pub open spec fn mul_div_floor(x: i128, y: i128, z: i128) -> Option<i128> {
    if z == 0 || as_i128(x * y) is None {
        None
    } else {
        as_i128(floor_div(x * y, z as int))
    }
}

/// `ceil(x * y / z)`; none if `z` is zero, or if the product or the quotient
/// does not fit in an `i128`.
pub open spec fn mul_div_ceil(x: i128, y: i128, z: i128) -> Option<i128> {
    if z == 0 || as_i128(x * y) is None {
        None
    } else {
        as_i128(ceil_div(x * y, z as int))
    }
}

/// Calls `FixedPoint::fixed_mul_floor` of `soroban_fixed_point_math` on
/// `i128`, and takes from it that the result is `floor(x * y / denominator)`,
/// or none where the division by zero or an overflow of `i128` stops it.
#[verifier::external_body]
pub(crate) fn fixed_mul_floor(x: i128, y: i128, denominator: i128) -> (r: Option<i128>)
    ensures
        r == mul_div_floor(x, y, denominator),
{
    x.fixed_mul_floor(y, denominator)
}

/// Calls `FixedPoint::fixed_mul_ceil` of `soroban_fixed_point_math` on
/// `i128`, and takes from it that the result is `ceil(x * y / denominator)`,
/// or none where the division by zero or an overflow of `i128` stops it.
#[verifier::external_body]
pub(crate) fn fixed_mul_ceil(x: i128, y: i128, denominator: i128) -> (r: Option<i128>)
    ensures
        r == mul_div_ceil(x, y, denominator),
{
    x.fixed_mul_ceil(y, denominator)
}

/// Calls `FixedPoint::fixed_div_floor` of `soroban_fixed_point_math` on
/// `i128`, and takes from it that the result is `floor(x * denominator / y)`,
/// or none where the division by zero or an overflow of `i128` stops it.
#[verifier::external_body]
pub(crate) fn fixed_div_floor(x: i128, y: i128, denominator: i128) -> (r: Option<i128>)
    ensures
        r == mul_div_floor(x, denominator, y),
{
    x.fixed_div_floor(y, denominator)
}

} // verus!
