use vstd::prelude::*;

verus! {

/// `x / d` rounded toward zero.
pub open spec fn trunc_div(x: int, d: int) -> int {
    if x >= 0 && d > 0 {
        x / d
    } else if x < 0 && d < 0 {
        (-x) / (-d)
    } else if x < 0 {
        -((-x) / d)
    } else {
        -(x / (-d))
    }
}

/// What `q` is as an `i128`, if it fits.
pub open spec fn as_i128(q: int) -> Option<i128> {
    if i128::MIN <= q <= i128::MAX {
        Some(q as i128)
    } else {
        None
    }
}

/// `a * b / c` rounded toward zero; zero if `c` is zero, or if the product or
/// the quotient does not fit in an `i128`.
pub open spec fn spec_scale_i128(a: i128, b: i128, c: i128) -> i128 {
    if c == 0 || as_i128(a * b) is None {
        0
    } else {
        match as_i128(trunc_div(a * b, c as int)) {
            Some(q) => q,
            None => 0,
        }
    }
}

/// `a * b / c` rounded toward zero; zero if `c` is zero, or if the product or
/// the quotient does not fit in an `i128`.
#[verifier::when_used_as_spec(spec_scale_i128)]
pub fn scale_i128(a: i128, b: i128, c: i128) -> (r: i128)
    ensures
        r == spec_scale_i128(a, b, c),
{
    let product: i128 = a.checked_mul(b).unwrap_or(0);
    let quotient: i128 = product.checked_div(c).unwrap_or(0);
    proof {
        if c != 0 && product == 0 {
            assert(trunc_div(0, c as int) == 0) by (nonlinear_arith)
                requires
                    c != 0,
            ;
        }
    }
    quotient
}

/// `floor(a * b / c)`; zero if `c` is zero or the product does not fit in a
/// `u128`.
pub open spec fn spec_scale_u128(a: u128, b: u128, c: u128) -> u128 {
    if c == 0 || a * b > u128::MAX {
        0
    } else {
        ((a * b) / (c as int)) as u128
    }
}

/// `floor(a * b / c)`; zero if `c` is zero or the product does not fit in a
/// `u128`.
#[verifier::when_used_as_spec(spec_scale_u128)]
pub fn scale_u128(a: u128, b: u128, c: u128) -> (r: u128)
    ensures
        r == spec_scale_u128(a, b, c),
{
    let product: u128 = a.checked_mul(b).unwrap_or(0);
    let quotient: u128 = product.checked_div(c).unwrap_or(0);
    proof {
        assert(a * b >= 0) by (nonlinear_arith);
        if c != 0 {
            assert(0int / (c as int) == 0) by (nonlinear_arith)
                requires
                    c != 0,
            ;
        }
    }
    quotient
}

/// The signed amount with the same bits as `x`.
pub open spec fn spec_to_signed(x: u128) -> i128 {
    if x <= i128::MAX {
        x as i128
    } else {
        (x - 0x1_0000_0000_0000_0000_0000_0000_0000_0000int) as i128
    }
}

/// The signed amount with the same bits as `x`.
#[verifier::when_used_as_spec(spec_to_signed)]
pub fn to_signed(x: u128) -> (r: i128)
    ensures
        r == spec_to_signed(x),
{
    if x <= 0x7fff_ffff_ffff_ffff_ffff_ffff_ffff_ffff {
        x as i128
    } else {
        -((u128::MAX - x) as i128) - 1
    }
}

/// The unsigned amount with the same bits as `x`.
pub open spec fn spec_to_unsigned(x: i128) -> u128 {
    if x >= 0 {
        x as u128
    } else {
        (x + 0x1_0000_0000_0000_0000_0000_0000_0000_0000int) as u128
    }
}

/// The unsigned amount with the same bits as `x`.
#[verifier::when_used_as_spec(spec_to_unsigned)]
pub fn to_unsigned(x: i128) -> (r: u128)
    ensures
        r == spec_to_unsigned(x),
{
    if x >= 0 {
        x as u128
    } else {
        u128::MAX - (-(x + 1)) as u128
    }
}

/// Half of `amount`, rounded toward zero.
pub open spec fn spec_half(amount: i128) -> i128 {
    trunc_div(amount as int, 2) as i128
}

/// Half of `amount`, rounded toward zero.
#[verifier::when_used_as_spec(spec_half)]
pub fn half(amount: i128) -> (r: i128)
    ensures
        r == spec_half(amount),
        r == trunc_div(amount as int, 2),
{
    match amount.checked_div(2) {
        Some(q) => q,
        None => 0,
    }
}

/// The smaller of two amounts.
pub open spec fn spec_smaller(a: i128, b: i128) -> i128 {
    if a <= b {
        a
    } else {
        b
    }
}

/// The smaller of two amounts.
#[verifier::when_used_as_spec(spec_smaller)]
pub fn smaller(a: i128, b: i128) -> (r: i128)
    ensures
        r == spec_smaller(a, b),
{
    if a <= b {
        a
    } else {
        b
    }
}

/// The entry of `amounts` at `idx`; zero if there is none.
pub open spec fn spec_entry_or_zero(amounts: &Vec<u128>, idx: u32) -> u128 {
    if idx < amounts@.len() {
        amounts@[idx as int]
    } else {
        0
    }
}

/// The entry of `amounts` at `idx`; zero if there is none.
#[verifier::when_used_as_spec(spec_entry_or_zero)]
pub fn entry_or_zero(amounts: &Vec<u128>, idx: u32) -> (r: u128)
    ensures
        r == spec_entry_or_zero(amounts, idx),
{
    if (idx as usize) < amounts.len() {
        amounts[idx as usize]
    } else {
        0
    }
}

/// The last of `amounts`; zero if there is none.
pub open spec fn spec_last_or_zero(amounts: &Vec<i128>) -> i128 {
    if amounts@.len() > 0 {
        amounts@.last()
    } else {
        0
    }
}

/// The last of `amounts`; zero if there is none.
#[verifier::when_used_as_spec(spec_last_or_zero)]
pub fn last_or_zero(amounts: &Vec<i128>) -> (r: i128)
    ensures
        r == spec_last_or_zero(amounts),
{
    if amounts.len() > 0 {
        amounts[amounts.len() - 1]
    } else {
        0
    }
}

/// The number that `bytes` spells in base 256, most significant digit first.
pub open spec fn big_endian(bytes: Seq<u8>) -> nat
    decreases bytes.len(),
{
    if bytes.len() == 0 {
        0
    } else {
        256 * big_endian(bytes.drop_last()) + bytes.last() as nat
    }
}

/// The two's complement number that sixteen big-endian bytes spell.
pub fn i128_from_be_bytes(bytes: &Vec<u8>) -> (r: i128)
    requires
        bytes@.len() == 16,
    ensures
        big_endian(bytes@) <= u128::MAX,
        r == spec_to_signed(big_endian(bytes@) as u128),
{
    let mut value: u128 = 0;
    let mut bound: Ghost<int> = Ghost(1);
    let mut i: usize = 0;
    proof {
        vstd::arithmetic::power::lemma_pow0(256);
    }
    while i < 16
        invariant
            i <= 16,
            bytes@.len() == 16,
            value == big_endian(bytes@.take(i as int)),
            value < bound@,
            bound@ == vstd::arithmetic::power::pow(256, i as nat),
        decreases 16 - i,
    {
        proof {
            assert(bytes@.take(i + 1).drop_last() =~= bytes@.take(i as int));
            reveal_with_fuel(vstd::arithmetic::power::pow, 17);
            vstd::arithmetic::power::lemma_pow_adds(256, i as nat, 1);
            vstd::arithmetic::power::lemma_pow1(256);
            vstd::arithmetic::power::lemma_pow_increases(256, (i + 1) as nat, 16);
            assert(vstd::arithmetic::power::pow(256, 16)
                == 0x1_0000_0000_0000_0000_0000_0000_0000_0000int);
            bound@ = bound@ * 256;
        }
        value = value * 256 + bytes[i] as u128;
        i = i + 1;
    }
    assert(bytes@.take(16) =~= bytes@);
    to_signed(value)
}

} // verus!
