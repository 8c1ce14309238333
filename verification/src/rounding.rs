use vstd::prelude::*;

verus! {

/// The largest integer not above `r / z`.
pub open spec fn floor_div(r: int, z: int) -> int {
    if z > 0 {
        r / z
    } else {
        (-r) / (-z)
    }
}

/// The smallest integer not below `r / z`.
pub open spec fn ceil_div(r: int, z: int) -> int {
    -floor_div(-r, z)
}

/// `r / z` is the one integer `q` with `q * z <= r < (q + 1) * z`.
pub proof fn lemma_floor(r: int, z: int)
    requires
        z > 0,
    ensures
        (r / z) * z <= r < (r / z + 1) * z,
        floor_div(r, z) == r / z,
{
    vstd::arithmetic::div_mod::lemma_fundamental_div_mod(r, z);
    vstd::arithmetic::div_mod::lemma_mod_bound(r, z);
    let q = r / z;
    assert(q * z <= r < (q + 1) * z) by (nonlinear_arith)
        requires
            r == z * q + r % z,
            0 <= r % z < z,
    ;
}

/// Whatever times `z` is not above `r` is not above `r / z`.
pub proof fn lemma_floor_largest(r: int, z: int, q: int)
    requires
        z > 0,
        q * z <= r,
    ensures
        q <= r / z,
{
    lemma_floor(r, z);
    let f = r / z;
    assert(q <= f) by (nonlinear_arith)
        requires
            z > 0,
            q * z <= r,
            r < (f + 1) * z,
    ;
}

/// Whatever times `z` is above `r` is above `r / z`.
pub proof fn lemma_floor_below(r: int, z: int, q: int)
    requires
        z > 0,
        r < q * z,
    ensures
        r / z < q,
{
    lemma_floor(r, z);
    let f = r / z;
    assert(f < q) by (nonlinear_arith)
        requires
            z > 0,
            r < q * z,
            f * z <= r,
    ;
}

/// `ceil_div(r, z)` is the one integer `q` with `(q - 1) * z < r <= q * z`.
pub proof fn lemma_ceil(r: int, z: int)
    requires
        z > 0,
    ensures
        (ceil_div(r, z) - 1) * z < r <= ceil_div(r, z) * z,
{
    lemma_floor(-r, z);
    let f = (-r) / z;
    assert((-f - 1) * z < r <= (-f) * z) by (nonlinear_arith)
        requires
            f * z <= -r < (f + 1) * z,
    ;
}

/// Whatever times `z` is not below `r` is not below `ceil_div(r, z)`.
pub proof fn lemma_ceil_smallest(r: int, z: int, q: int)
    requires
        z > 0,
        r <= q * z,
    ensures
        ceil_div(r, z) <= q,
{
    lemma_ceil(r, z);
    let c = ceil_div(r, z);
    assert(c <= q) by (nonlinear_arith)
        requires
            z > 0,
            r <= q * z,
            (c - 1) * z < r,
    ;
}

/// Rounding down, the parts of a sum come to no more than the sum.
pub proof fn lemma_floor_of_sum(r: int, s: int, z: int)
    requires
        z > 0,
    ensures
        r / z + s / z <= (r + s) / z,
{
    lemma_floor(r, z);
    lemma_floor(s, z);
    let (a, b) = (r / z, s / z);
    assert((a + b) * z <= r + s) by (nonlinear_arith)
        requires
            a * z <= r,
            b * z <= s,
    ;
    lemma_floor_largest(r + s, z, a + b);
}

/// Rounding down keeps the order.
pub proof fn lemma_floor_monotone(r: int, s: int, z: int)
    requires
        z > 0,
        r <= s,
    ensures
        r / z <= s / z,
{
    lemma_floor(r, z);
    lemma_floor_largest(s, z, r / z);
}

} // verus!
