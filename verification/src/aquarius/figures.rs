//! What the figures of the strategy come to, by sums and products.

use crate::address::Address;
use crate::aquarius::aquarius_pool::{
    acceptable, in_pool_order, min_with_slippage, pair_to_add, position_parts, position_value,
};
use crate::aquarius::calls::{Call, Env};
use crate::aquarius::contract::{resolve_indices, validate_indices};
use crate::aquarius::exchange::stands_last_at;
use crate::aquarius::laws::law_last_index;
use crate::aquarius::storage::{
    is_initialized, save_config, validate_slippage, StrategyConfig,
};
use crate::error::StrategyError;
use crate::exchange::{fits, least};
use crate::figures::{law_exact_spot_part, law_exact_u128, law_scale_i128, law_scale_u128};
use crate::quotients::{is_floor, is_trunc, law_floor_div};
use crate::rounding::floor_div;
use crate::session::Halt;
use vstd::prelude::*;

verus! {

/// The least that is acceptable is what remains of ten thousand parts, rounded
/// down; zero where the product does not fit. A tolerance of more than ten
/// thousand parts traps.
pub proof fn law_acceptable(expected: u128, config: &StrategyConfig, q: int)
    requires
        is_floor(q, expected * (10_000 - config.max_slippage_bps), 10_000),
    ensures
        ({
            let remains = expected * (10_000 - config.max_slippage_bps);
            match acceptable(expected, config) {
                Ok(min) => config.max_slippage_bps <= 10_000 && min == if remains <= u128::MAX {
                    q
                } else {
                    0
                },
                Err(halt) => config.max_slippage_bps > 10_000 && halt == Halt::<Call>::Trap,
            }
        }),
        config.max_slippage_bps <= 10_000 ==> acceptable(expected, config) == Ok::<
            u128,
            Halt<Call>,
        >(min_with_slippage(expected, config.max_slippage_bps)),
{
    if config.max_slippage_bps <= 10_000 {
        let kept = (10_000 - config.max_slippage_bps) as u128;
        law_scale_u128(expected, kept, 10_000, q);
    }
}

/// The amount of the deposit token stands at its index, and that of the pair
/// token at the other.
pub proof fn law_in_pool_order(config: &StrategyConfig, of_deposit: u128, of_pair: u128)
    ensures
        ({
            let (first, second) = in_pool_order(config, of_deposit, of_pair);
            &&& config.deposit_token_idx == 0 ==> first == of_deposit && second == of_pair
            &&& config.deposit_token_idx != 0 ==> first == of_pair && second == of_deposit
        }),
{
}

/// Of the pair token goes in what stands to the deposit token that goes in as
/// the reserves stand to each other, and no more than was received; all that was
/// received where there is no reserve of the deposit token.
pub proof fn law_pair_to_add(
    remaining: i128,
    pair_received: i128,
    reserve_deposit: i128,
    reserve_pair: i128,
    q: int,
)
    requires
        reserve_deposit > 0 ==> is_trunc(q, remaining * reserve_pair, reserve_deposit as int),
    ensures
        pair_to_add(remaining, pair_received, reserve_deposit, reserve_pair) == if reserve_deposit
            <= 0 {
            pair_received as int
        } else if fits(remaining * reserve_pair) && fits(q) {
            least(q, pair_received as int)
        } else {
            least(0, pair_received as int)
        },
{
    if reserve_deposit > 0 {
        law_scale_i128(remaining, reserve_pair, reserve_deposit, q);
    }
}

/// Shares that a signed amount can hold have exactly their parts; one that does
/// not fit counts as nothing.
pub proof fn law_parts(
    shares: u128,
    total_shares: u128,
    reserve_deposit: u128,
    reserve_pair: u128,
    of_deposit: int,
    of_pair: int,
    in_deposit: int,
)
    requires
        shares < 0x8000_0000_0000_0000_0000_0000_0000_0000,
        total_shares > 0 ==> is_floor(of_deposit, shares * reserve_deposit, total_shares as int),
        total_shares > 0 ==> is_floor(of_pair, shares * reserve_pair, total_shares as int),
        reserve_pair > 0 ==> is_floor(in_deposit, of_pair * reserve_deposit, reserve_pair as int),
    ensures
        position_parts(shares, total_shares, reserve_deposit, reserve_pair).0 == if total_shares > 0
            && of_deposit <= u128::MAX {
            of_deposit
        } else {
            0
        },
        position_parts(shares, total_shares, reserve_deposit, reserve_pair).1 == if total_shares > 0
            && reserve_pair > 0 && in_deposit <= u128::MAX {
            in_deposit
        } else {
            0
        },
{
    assert(shares * reserve_deposit == reserve_deposit * shares) by (nonlinear_arith);
    law_exact_u128(reserve_deposit, shares, total_shares, of_deposit);
    law_exact_spot_part(
        shares,
        total_shares,
        reserve_deposit,
        reserve_pair,
        of_pair,
        in_deposit,
    );
}

/// Shares beyond what a signed amount can hold have their parts only as far as no
/// product goes beyond an unsigned amount.
pub proof fn law_parts_beyond(
    shares: u128,
    total_shares: u128,
    reserve_deposit: u128,
    reserve_pair: u128,
    of_deposit: int,
    of_pair: int,
    in_deposit: int,
)
    requires
        shares >= 0x8000_0000_0000_0000_0000_0000_0000_0000,
        total_shares > 0 ==> is_floor(of_deposit, shares * reserve_deposit, total_shares as int),
        if total_shares > 0 && shares * reserve_pair <= u128::MAX {
            is_floor(of_pair, shares * reserve_pair, total_shares as int)
        } else {
            of_pair == 0
        },
        reserve_pair > 0 ==> is_floor(in_deposit, of_pair * reserve_deposit, reserve_pair as int),
    ensures
        position_parts(shares, total_shares, reserve_deposit, reserve_pair).0 == if total_shares > 0
            && shares * reserve_deposit <= u128::MAX {
            of_deposit
        } else {
            0
        },
        position_parts(shares, total_shares, reserve_deposit, reserve_pair).1 == if reserve_pair > 0
            && of_pair * reserve_deposit <= u128::MAX {
            in_deposit
        } else {
            0
        },
{
    assert(shares * reserve_deposit == reserve_deposit * shares && shares * reserve_pair
        == reserve_pair * shares) by (nonlinear_arith);
    law_scale_u128(reserve_deposit, shares, total_shares, of_deposit);
    if total_shares > 0 {
        law_floor_div(reserve_pair * shares, total_shares as int, of_pair);
    }
    law_scale_u128(
        reserve_pair,
        shares,
        total_shares,
        floor_div(reserve_pair * shares, total_shares as int),
    );
    law_scale_u128(of_pair as u128, reserve_deposit, reserve_pair, in_deposit);
}

/// A position is valued at the sum of its parts, or at what has the bits of that
/// sum where a signed amount cannot hold it; there is no value only where the sum
/// goes beyond an unsigned amount.
pub proof fn law_value_is_sum(
    shares: u128,
    total_shares: u128,
    reserve_deposit: u128,
    reserve_pair: u128,
)
    ensures
        ({
            let parts = position_parts(shares, total_shares, reserve_deposit, reserve_pair);
            let sum = parts.0 + parts.1;
            match position_value(shares, total_shares, reserve_deposit, reserve_pair) {
                Some(value) => sum <= u128::MAX && (value == sum || value == sum
                    - 0x1_0000_0000_0000_0000_0000_0000_0000_0000),
                None => sum > u128::MAX,
            }
        }),
{
}

/// A slippage tolerance is valid up to a thousand parts in ten thousand, and
/// indices are valid up to one.
pub proof fn law_limits(slippage_bps: u32, indices: (u32, u32))
    ensures
        match validate_slippage(slippage_bps) {
            Ok(_) => slippage_bps <= 1_000,
            Err(halt) => slippage_bps > 1_000 && halt == Halt::<Call>::Abort(
                StrategyError::InvalidArgument,
            ),
        },
        match validate_indices(indices) {
            Ok(_) => indices.0 <= 1 && indices.1 <= 1,
            Err(halt) => (indices.0 > 1 || indices.1 > 1) && halt == Halt::<Call>::Abort(
                StrategyError::InvalidArgument,
            ),
        },
{
}

/// Each index is where its token stands last in the list of the pool; it aborts
/// only where one of the two is not listed, and traps only on a list beyond what
/// an index can reach.
pub proof fn law_resolved(tokens: &Vec<Address>, deposit_token: Address, pair_token: Address)
    ensures
        match resolve_indices(tokens, deposit_token, pair_token) {
            Ok((deposit_idx, pair_idx)) => {
                &&& tokens@.len() <= u32::MAX
                &&& stands_last_at(tokens@, deposit_token, deposit_idx as int)
                &&& stands_last_at(tokens@, pair_token, pair_idx as int)
            },
            Err(Halt::Abort(error)) => {
                &&& error == StrategyError::ProtocolAddressNotFound
                &&& tokens@.len() <= u32::MAX
                &&& !tokens@.contains(deposit_token) || !tokens@.contains(pair_token)
            },
            Err(halt) => halt == Halt::<Call>::Trap && tokens@.len() > u32::MAX,
        },
{
    law_last_index(tokens@, deposit_token);
    law_last_index(tokens@, pair_token);
}

/// Storing the configuration takes two replies, and asking whether there is one
/// takes one.
pub proof fn law_configuration_replies(env: &Env, at: usize, config: &StrategyConfig)
    ensures
        save_config(env, at, config) matches Ok(next) ==> next == at + 2,
        is_initialized(env, at) matches Ok((_, next)) ==> next == at + 1,
{
    assert(env.replies@.len() == env.replies.len());
}

} // verus!
