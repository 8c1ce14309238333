use crate::arith::trunc_div;
use crate::error::StrategyError;
use crate::rounding::{
    lemma_floor, lemma_floor_below, lemma_floor_largest, lemma_floor_monotone, lemma_floor_of_sum,
};
use crate::wide::{as_u128, exact_i128, exact_u128};
use vstd::prelude::*;

verus! {

/// A price per share of one, in the seven decimals in which it is reported.
pub const PRICE_SCALE: i128 = 10_000_000;

/// How many of `vault_shares` shares, worth `total_value` together, are burnt
/// to take out `amount`: all of them if `amount` is not below their value,
/// otherwise a proportional part, rounded toward zero. It is an error if the
/// product overflows, or if the part is nothing.
pub open spec fn spec_shares_to_burn(vault_shares: i128, amount: i128, total_value: i128) -> Result<
    i128,
    StrategyError,
> {
    if amount >= total_value {
        if vault_shares == 0 {
            Err(StrategyError::InsufficientBalance)
        } else {
            Ok(vault_shares)
        }
    } else if vault_shares * amount > i128::MAX || vault_shares * amount < i128::MIN || total_value
        == 0 {
        Err(StrategyError::ArithmeticError)
    } else {
        let burnt = trunc_div(vault_shares * amount, total_value as int);
        if burnt > i128::MAX || burnt < i128::MIN {
            Err(StrategyError::ArithmeticError)
        } else if burnt == 0 {
            Err(StrategyError::InsufficientBalance)
        } else {
            Ok(burnt as i128)
        }
    }
}

/// How many of `vault_shares` shares, worth `total_value` together, are burnt
/// to take out `amount`: all of them if `amount` is not below their value,
/// otherwise a proportional part, rounded toward zero. It is an error if the
/// product overflows, or if the part is nothing.
#[verifier::when_used_as_spec(spec_shares_to_burn)]
pub fn shares_to_burn(vault_shares: i128, amount: i128, total_value: i128) -> (r: Result<
    i128,
    StrategyError,
>)
    ensures
        r == spec_shares_to_burn(vault_shares, amount, total_value),
{
    let burnt: i128 = if amount >= total_value {
        vault_shares
    } else {
        let product: i128 = match vault_shares.checked_mul(amount) {
            Some(product) => product,
            None => return Err(StrategyError::ArithmeticError),
        };
        match product.checked_div(total_value) {
            Some(quotient) => quotient,
            None => return Err(StrategyError::ArithmeticError),
        }
    };
    if burnt == 0 {
        return Err(StrategyError::InsufficientBalance);
    }
    Ok(burnt)
}

/// The value of one of `shares` shares worth `total_value` together, in seven
/// decimals, rounded toward zero; zero if there are none or it does not fit.
pub open spec fn spec_price_per_share(total_value: i128, shares: i128) -> i128 {
    if shares > 0 {
        exact_i128(total_value, PRICE_SCALE, shares).unwrap_or(0)
    } else {
        0
    }
}

/// The value of one of `shares` shares worth `total_value` together, in seven
/// decimals, rounded toward zero; zero if there are none or it does not fit.
#[verifier::when_used_as_spec(spec_price_per_share)]
pub fn price_per_share(total_value: i128, shares: i128) -> (r: i128)
    ensures
        r == spec_price_per_share(total_value, shares),
{
    if shares > 0 {
        exact_i128(total_value, PRICE_SCALE, shares).unwrap_or(0)
    } else {
        0
    }
}

/// Of a position that is worth something, a withdrawal burns shares in
/// proportion: as many as come nearest to `amount` from below, at least one and
/// no more than there are; all of them exactly if `amount` covers the value.
/// The one other outcome is an error.
pub proof fn law_burn_is_proportional(vault_shares: i128, amount: i128, total_value: i128)
    requires
        vault_shares > 0,
        amount > 0,
        total_value > 0,
    ensures
        match shares_to_burn(vault_shares, amount, total_value) {
            Ok(burnt) => {
                &&& 0 < burnt <= vault_shares
                &&& amount >= total_value ==> burnt == vault_shares
                &&& amount < total_value ==> burnt * total_value <= vault_shares * amount < (burnt
                    + 1) * total_value
            },
            Err(StrategyError::ArithmeticError) => amount < total_value && vault_shares * amount
                > i128::MAX,
            Err(StrategyError::InsufficientBalance) => vault_shares * amount < total_value,
            Err(_) => false,
        },
{
    if amount < total_value {
        let product = vault_shares * amount;
        let t = total_value as int;
        assert(product >= 0) by (nonlinear_arith)
            requires
                vault_shares > 0,
                amount > 0,
                product == vault_shares * amount,
        ;
        let burnt = product / t;
        vstd::arithmetic::div_mod::lemma_fundamental_div_mod(product, t);
        vstd::arithmetic::div_mod::lemma_mod_bound(product, t);
        assert(burnt * t <= product < (burnt + 1) * t) by (nonlinear_arith)
            requires
                product == t * burnt + product % t,
                0 <= product % t < t,
        ;
        assert(burnt <= vault_shares && burnt >= 0) by (nonlinear_arith)
            requires
                burnt * t <= product < (burnt + 1) * t,
                product == vault_shares * amount,
                0 <= amount < t,
                vault_shares > 0,
                product >= 0,
        ;
        if burnt == 0 {
            assert(product < t) by (nonlinear_arith)
                requires
                    product < (burnt + 1) * t,
                    burnt == 0,
            ;
        }
        assert((burnt as i128) * total_value == burnt * t);
        assert(((burnt as i128) + 1) * total_value == (burnt + 1) * t);
    }
}

/// What `shares` of `total` shares of a pool have in its second token, in its
/// first token at the spot price, each step rounded down.
pub open spec fn spot_part(shares: int, total: int, reserve_a: int, reserve_b: int) -> int {
    (reserve_b * shares / total) * reserve_a / reserve_b
}

/// What `shares` of `total` shares of a pool are worth in its first token: their
/// part of `reserve_a`, and their part of `reserve_b` at the spot price, each
/// step rounded down.
pub open spec fn pool_value(shares: int, total: int, reserve_a: int, reserve_b: int) -> int {
    reserve_a * shares / total + spot_part(shares, total, reserve_a, reserve_b)
}

/// Shares that make up `total` a whole number of times have that many times the
/// first reserve; the rest has no more than it.
proof fn lemma_spot_part_splits(whole: int, rest: int, total: int, reserve_a: int, reserve_b: int)
    requires
        0 <= rest < total,
        reserve_a >= 0,
        reserve_b > 0,
    ensures
        0 <= reserve_b * rest / total < reserve_b,
        0 <= spot_part(rest, total, reserve_a, reserve_b) <= reserve_a,
        spot_part(whole * total + rest, total, reserve_a, reserve_b) == whole * reserve_a
            + spot_part(rest, total, reserve_a, reserve_b),
{
    let of_rest = reserve_b * rest;
    let s = of_rest / total;
    assert(0 <= of_rest < reserve_b * total) by (nonlinear_arith)
        requires
            0 <= rest < total,
            reserve_b > 0,
            of_rest == reserve_b * rest,
    ;
    lemma_floor(of_rest, total);
    lemma_floor_largest(of_rest, total, 0);
    lemma_floor_below(of_rest, total, reserve_b);
    let x = s * reserve_a;
    let t = x / reserve_b;
    assert(0 <= x <= reserve_a * reserve_b) by (nonlinear_arith)
        requires
            0 <= s < reserve_b,
            reserve_a >= 0,
            x == s * reserve_a,
    ;
    lemma_floor(x, reserve_b);
    lemma_floor_largest(x, reserve_b, 0);
    assert(x < (reserve_a + 1) * reserve_b) by (nonlinear_arith)
        requires
            x <= reserve_a * reserve_b,
            reserve_b > 0,
    ;
    lemma_floor_below(x, reserve_b, reserve_a + 1);
    let all = reserve_b * (whole * total + rest);
    let both = whole * reserve_b + s;
    assert(all / total == both) by {
        assert(both * total <= all < (both + 1) * total) by (nonlinear_arith)
            requires
                s * total <= of_rest < (s + 1) * total,
                of_rest == reserve_b * rest,
                all == reserve_b * (whole * total + rest),
                both == whole * reserve_b + s,
        ;
        lemma_floor_largest(all, total, both);
        lemma_floor_below(all, total, both + 1);
    }
    let y = both * reserve_a;
    let sum = whole * reserve_a + t;
    assert(sum * reserve_b <= y < (sum + 1) * reserve_b) by (nonlinear_arith)
        requires
            t * reserve_b <= x < (t + 1) * reserve_b,
            x == s * reserve_a,
            y == both * reserve_a,
            both == whole * reserve_b + s,
            sum == whole * reserve_a + t,
    ;
    lemma_floor_largest(y, reserve_b, sum);
    lemma_floor_below(y, reserve_b, sum + 1);
}

/// `spot_part`, every product taken exactly; none if there are no shares in
/// all, if there is no second token, or if the part does not fit in a `u128`.
pub open spec fn spec_exact_spot_part(
    shares: u128,
    total: u128,
    reserve_a: u128,
    reserve_b: u128,
) -> Option<u128> {
    if total == 0 || reserve_b == 0 {
        None
    } else {
        as_u128(spot_part(shares as int, total as int, reserve_a as int, reserve_b as int))
    }
}

/// `spot_part`, every product taken exactly; none if there are no shares in
/// all, if there is no second token, or if the part does not fit in a `u128`.
#[verifier::when_used_as_spec(spec_exact_spot_part)]
pub fn exact_spot_part(shares: u128, total: u128, reserve_a: u128, reserve_b: u128) -> (r: Option<
    u128,
>)
    ensures
        r == spec_exact_spot_part(shares, total, reserve_a, reserve_b),
{
    if total == 0 || reserve_b == 0 {
        return None;
    }
    let whole: u128 = shares / total;
    let rest: u128 = shares % total;
    proof {
        vstd::arithmetic::div_mod::lemma_fundamental_div_mod(shares as int, total as int);
        assert(whole * total == total * whole) by (nonlinear_arith);
        lemma_spot_part_splits(
            whole as int,
            rest as int,
            total as int,
            reserve_a as int,
            reserve_b as int,
        );
        assert(whole * reserve_a >= 0) by (nonlinear_arith);
    }
    let share_b: u128 = exact_u128(reserve_b, rest, total)?;
    let of_rest: u128 = exact_u128(share_b, reserve_a, reserve_b)?;
    let of_whole: u128 = whole.checked_mul(reserve_a)?;
    of_whole.checked_add(of_rest)
}

/// No part of a position is negative.
pub proof fn lemma_parts_are_nonnegative(
    shares: int,
    total: int,
    reserve_a: int,
    reserve_b: int,
)
    requires
        shares >= 0,
        total > 0,
        reserve_a >= 0,
        reserve_b > 0,
    ensures
        reserve_a * shares >= 0,
        reserve_b * shares >= 0,
        reserve_a * shares / total >= 0,
        reserve_b * shares / total >= 0,
        (reserve_b * shares / total) * reserve_a >= 0,
        spot_part(shares, total, reserve_a, reserve_b) >= 0,
{
    assert(reserve_a * shares >= 0 && reserve_b * shares >= 0) by (nonlinear_arith)
        requires
            shares >= 0,
            reserve_a >= 0,
            reserve_b > 0,
    ;
    lemma_floor_largest(reserve_a * shares, total, 0);
    lemma_floor_largest(reserve_b * shares, total, 0);
    let share_b = reserve_b * shares / total;
    assert(share_b * reserve_a >= 0) by (nonlinear_arith)
        requires
            share_b >= 0,
            reserve_a >= 0,
    ;
    lemma_floor_largest(share_b * reserve_a, reserve_b, 0);
}

/// A position is never valued above twice its part of the reserve of the first
/// token.
pub proof fn law_value_is_bounded(shares: int, total: int, reserve_a: int, reserve_b: int)
    requires
        shares >= 0,
        total > 0,
        reserve_a >= 0,
        reserve_b > 0,
    ensures
        0 <= pool_value(shares, total, reserve_a, reserve_b),
        pool_value(shares, total, reserve_a, reserve_b) * total <= 2 * (reserve_a * shares),
{
    let share_a = reserve_a * shares / total;
    let share_b = reserve_b * shares / total;
    let b_in_a = share_b * reserve_a / reserve_b;
    lemma_parts_are_nonnegative(shares, total, reserve_a, reserve_b);
    lemma_floor(reserve_a * shares, total);
    lemma_floor(reserve_b * shares, total);
    lemma_floor(share_b * reserve_a, reserve_b);
    assert(b_in_a * total <= reserve_a * shares) by (nonlinear_arith)
        requires
            b_in_a * reserve_b <= share_b * reserve_a,
            share_b * total <= reserve_b * shares,
            reserve_a >= 0,
            reserve_b > 0,
            total > 0,
    {
        assert(b_in_a * reserve_b * total <= share_b * reserve_a * total);
        assert(share_b * total * reserve_a <= reserve_b * shares * reserve_a);
        assert((b_in_a * total) * reserve_b <= (reserve_a * shares) * reserve_b);
    }
    assert((share_a + b_in_a) * total <= 2 * (reserve_a * shares)) by (nonlinear_arith)
        requires
            share_a * total <= reserve_a * shares,
            b_in_a * total <= reserve_a * shares,
    ;
}

/// All shares of a pool are worth twice the reserve of the first token.
pub proof fn law_value_of_whole_pool(total: int, reserve_a: int, reserve_b: int)
    requires
        total > 0,
        reserve_a >= 0,
        reserve_b > 0,
    ensures
        pool_value(total, total, reserve_a, reserve_b) == 2 * reserve_a,
{
    vstd::arithmetic::div_mod::lemma_div_by_multiple(reserve_a, total);
    vstd::arithmetic::div_mod::lemma_div_by_multiple(reserve_b, total);
    vstd::arithmetic::div_mod::lemma_div_by_multiple(reserve_a, reserve_b);
    assert(reserve_b * reserve_a == reserve_a * reserve_b) by (nonlinear_arith);
}

/// Two positions are worth no more apart than together: splitting a position
/// among vaults creates no value.
pub proof fn law_value_of_parts(
    shares1: int,
    shares2: int,
    total: int,
    reserve_a: int,
    reserve_b: int,
)
    requires
        shares1 >= 0,
        shares2 >= 0,
        total > 0,
        reserve_a >= 0,
        reserve_b > 0,
    ensures
        pool_value(shares1, total, reserve_a, reserve_b) + pool_value(
            shares2,
            total,
            reserve_a,
            reserve_b,
        ) <= pool_value(shares1 + shares2, total, reserve_a, reserve_b),
{
    lemma_floor_of_sum(reserve_a * shares1, reserve_a * shares2, total);
    lemma_floor_of_sum(reserve_b * shares1, reserve_b * shares2, total);
    let sum = shares1 + shares2;
    assert(reserve_a * sum == reserve_a * shares1 + reserve_a * shares2) by (nonlinear_arith)
        requires
            sum == shares1 + shares2,
    ;
    assert(reserve_b * sum == reserve_b * shares1 + reserve_b * shares2) by (nonlinear_arith)
        requires
            sum == shares1 + shares2,
    ;
    let b1 = reserve_b * shares1 / total;
    let b2 = reserve_b * shares2 / total;
    let b = reserve_b * sum / total;
    lemma_floor_of_sum(b1 * reserve_a, b2 * reserve_a, reserve_b);
    assert(b1 * reserve_a + b2 * reserve_a <= b * reserve_a) by (nonlinear_arith)
        requires
            b1 + b2 <= b,
            reserve_a >= 0,
    ;
    lemma_floor_monotone(b1 * reserve_a + b2 * reserve_a, b * reserve_a, reserve_b);
}

/// More shares are worth no less.
pub proof fn law_value_is_monotone(
    fewer: int,
    more: int,
    total: int,
    reserve_a: int,
    reserve_b: int,
)
    requires
        0 <= fewer <= more,
        total > 0,
        reserve_a >= 0,
        reserve_b > 0,
    ensures
        pool_value(fewer, total, reserve_a, reserve_b) <= pool_value(
            more,
            total,
            reserve_a,
            reserve_b,
        ),
{
    law_value_of_parts(fewer, more - fewer, total, reserve_a, reserve_b);
    law_value_is_bounded(more - fewer, total, reserve_a, reserve_b);
}

} // verus!
