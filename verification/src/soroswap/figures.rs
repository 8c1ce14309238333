//! What the figures of the strategy come to, by sums and products.

use crate::exchange::{fits, least};
use crate::figures::{law_exact_i128, law_scale_i128};
use crate::quotients::{is_trunc, law_trunc_div};
use crate::soroswap::calls::Env;
use crate::soroswap::soroswap_pool::{b_in_a, b_to_add, position_value};
use crate::soroswap::storage::{is_initialized, save_config, StrategyConfig};
use vstd::prelude::*;

verus! {

/// Of token b goes in what stands to the token a that goes in as the reserves
/// stand to each other, and no more than was received; nothing asked for where
/// that cannot be computed.
pub proof fn law_b_to_add(
    remaining_a: i128,
    b_received: i128,
    reserve_a: i128,
    reserve_b: i128,
    q: int,
)
    requires
        reserve_a != 0 ==> is_trunc(q, remaining_a * reserve_b, reserve_a as int),
    ensures
        b_to_add(remaining_a, b_received, reserve_a, reserve_b) == if reserve_a != 0 && fits(
            remaining_a * reserve_b,
        ) && fits(q) {
            least(q, b_received as int)
        } else {
            least(0, b_received as int)
        },
{
    law_scale_i128(remaining_a, reserve_b, reserve_a, q);
}

/// What LP tokens have in token b, in token a: the quotient of their part at the
/// spot price, whatever the signs; none without LP tokens at all, without token
/// b, or where it does not fit.
pub proof fn law_b_in_a(
    lp: i128,
    total_lp: i128,
    reserve_a: i128,
    reserve_b: i128,
    of_b: int,
    part: int,
)
    requires
        total_lp != 0 ==> is_trunc(of_b, lp * reserve_b, total_lp as int),
        reserve_b != 0 ==> is_trunc(part, of_b * reserve_a, reserve_b as int),
    ensures
        match b_in_a(lp, total_lp, reserve_a, reserve_b) {
            Some(found) => total_lp != 0 && reserve_b != 0 && found == part,
            None => total_lp == 0 || reserve_b == 0 || !fits(part),
        },
{
    if total_lp != 0 && reserve_b != 0 {
        assert(lp * reserve_b == reserve_b * lp) by (nonlinear_arith);
        law_trunc_div(reserve_b * lp, total_lp as int, of_b);
        law_trunc_div(of_b * reserve_a, reserve_b as int, part);
    }
}

/// A position is valued, whatever the signs, at the sum of its two parts, of
/// which one that does not fit counts as nothing; there is no value only where
/// the sum does not fit.
pub proof fn law_value_of_parts(
    lp: i128,
    total_lp: i128,
    reserve_a: i128,
    reserve_b: i128,
    of_a: int,
    of_b: int,
    part: int,
)
    requires
        total_lp != 0,
        reserve_b != 0,
        is_trunc(of_a, lp * reserve_a, total_lp as int),
        is_trunc(of_b, lp * reserve_b, total_lp as int),
        is_trunc(part, of_b * reserve_a, reserve_b as int),
    ensures
        ({
            let first = if fits(of_a) {
                of_a
            } else {
                0
            };
            let second = if fits(part) {
                part
            } else {
                0
            };
            match position_value(lp, total_lp, reserve_a, reserve_b) {
                Some(value) => value == first + second,
                None => !fits(first + second),
            }
        }),
{
    assert(lp * reserve_a == reserve_a * lp) by (nonlinear_arith);
    law_exact_i128(reserve_a, lp, total_lp, of_a);
    law_b_in_a(lp, total_lp, reserve_a, reserve_b, of_b, part);
}

/// Without LP tokens at all a position has no part; without token b it has only
/// its part of token a.
pub proof fn law_value_without_parts(
    lp: i128,
    total_lp: i128,
    reserve_a: i128,
    reserve_b: i128,
    of_a: int,
)
    requires
        total_lp == 0 || reserve_b == 0,
        total_lp != 0 ==> is_trunc(of_a, lp * reserve_a, total_lp as int),
    ensures
        position_value(lp, total_lp, reserve_a, reserve_b) == if total_lp != 0 && fits(of_a) {
            Some(of_a as i128)
        } else {
            Some(0i128)
        },
{
    assert(lp * reserve_a == reserve_a * lp) by (nonlinear_arith);
    law_exact_i128(reserve_a, lp, total_lp, of_a);
}

/// Storing the configuration takes two replies, and asking whether there is one
/// takes one.
pub proof fn law_configuration_replies(env: &Env, at: usize, config: &StrategyConfig)
    ensures
        save_config(env, at, config) matches Ok(next) ==> next == at + 2,
        is_initialized(env, at) matches Ok((_, next)) ==> next == at + 1,
{
    assert(env.replies@.len() == env.replies.len());
}

} // verus!
