use crate::address::{Address, Authorization};
use crate::aquarius::calls::{Call, Env};
use crate::aquarius::storage::StrategyConfig;
use crate::arith::{entry_or_zero, half, scale_i128, scale_u128, smaller, to_signed, to_unsigned};
use crate::position::exact_spot_part;
use crate::session::{chain, Halt};
use crate::wide::exact_u128;
use vstd::prelude::*;

verus! {

/// One hundred percent in basis points.
pub const BPS: u128 = 10_000;

/// The least that is acceptable where `expected` is due: `expected` less
/// `slippage_bps` basis points, rounded down; zero if the product overflows.
pub open spec fn spec_min_with_slippage(expected: u128, slippage_bps: u32) -> u128 {
    if expected * (BPS - slippage_bps) > u128::MAX {
        0
    } else {
        ((expected * (BPS - slippage_bps)) / (BPS as int)) as u128
    }
}

/// The least that is acceptable where `expected` is due: `expected` less
/// `slippage_bps` basis points, rounded down; zero if the product overflows.
#[verifier::when_used_as_spec(spec_min_with_slippage)]
pub fn min_with_slippage(expected: u128, slippage_bps: u32) -> (r: u128)
    requires
        slippage_bps <= BPS,
    ensures
        r == spec_min_with_slippage(expected, slippage_bps),
{
    scale_u128(expected, BPS - slippage_bps as u128, BPS)
}

/// `min_with_slippage` at the configured tolerance; traps if that is above one
/// hundred percent.
pub open spec fn spec_acceptable(expected: u128, config: &StrategyConfig) -> Result<
    u128,
    Halt<Call>,
> {
    if config.max_slippage_bps > BPS {
        Err(Halt::Trap)
    } else {
        Ok(min_with_slippage(expected, config.max_slippage_bps))
    }
}

/// `min_with_slippage` at the configured tolerance; traps if that is above one
/// hundred percent.
#[verifier::when_used_as_spec(spec_acceptable)]
pub fn acceptable(expected: u128, config: &StrategyConfig) -> (r: Result<u128, Halt<Call>>)
    ensures
        r == spec_acceptable(expected, config),
{
    if config.max_slippage_bps as u128 > BPS {
        return Err(Halt::Trap);
    }
    Ok(min_with_slippage(expected, config.max_slippage_bps))
}

/// An amount of the deposit token and one of the pair token, in the order in
/// which the pool lists its tokens.
pub open spec fn spec_in_pool_order(config: &StrategyConfig, of_deposit: u128, of_pair: u128) -> (
    u128,
    u128,
) {
    if config.deposit_token_idx == 0 {
        (of_deposit, of_pair)
    } else {
        (of_pair, of_deposit)
    }
}

/// An amount of the deposit token and one of the pair token, in the order in
/// which the pool lists its tokens.
#[verifier::when_used_as_spec(spec_in_pool_order)]
pub fn in_pool_order(config: &StrategyConfig, of_deposit: u128, of_pair: u128) -> (r: (u128, u128))
    ensures
        r == spec_in_pool_order(config, of_deposit, of_pair),
{
    if config.deposit_token_idx == 0 {
        (of_deposit, of_pair)
    } else {
        (of_pair, of_deposit)
    }
}

/// How much of the pair token goes into the pool beside `remaining` of the
/// deposit token: what the ratio of the reserves asks for, and no more than
/// was received from the swap.
pub open spec fn spec_pair_to_add(
    remaining: i128,
    pair_received: i128,
    reserve_deposit: i128,
    reserve_pair: i128,
) -> i128 {
    if reserve_deposit > 0 {
        smaller(scale_i128(remaining, reserve_pair, reserve_deposit), pair_received)
    } else {
        pair_received
    }
}

/// How much of the pair token goes into the pool beside `remaining` of the
/// deposit token: what the ratio of the reserves asks for, and no more than
/// was received from the swap.
#[verifier::when_used_as_spec(spec_pair_to_add)]
pub fn pair_to_add(
    remaining: i128,
    pair_received: i128,
    reserve_deposit: i128,
    reserve_pair: i128,
) -> (r: i128)
    ensures
        r == spec_pair_to_add(remaining, pair_received, reserve_deposit, reserve_pair),
{
    let pair_optimal: i128 = if reserve_deposit > 0 {
        scale_i128(remaining, reserve_pair, reserve_deposit)
    } else {
        pair_received
    };
    smaller(pair_optimal, pair_received)
}

/// What `shares` of the `total_shares` of a pool have in its deposit token, and
/// what they have in its pair token at the spot price. Every product is taken
/// exactly; a part that does not fit counts as nothing. Shares above `i128::MAX`,
/// which is how a negative number comes here, count only where no product
/// overflows.
pub open spec fn spec_position_parts(
    shares: u128,
    total_shares: u128,
    reserve_deposit: u128,
    reserve_pair: u128,
) -> (u128, u128) {
    if shares <= i128::MAX {
        (
            exact_u128(reserve_deposit, shares, total_shares).unwrap_or(0),
            exact_spot_part(shares, total_shares, reserve_deposit, reserve_pair).unwrap_or(0),
        )
    } else {
        (
            scale_u128(reserve_deposit, shares, total_shares),
            scale_u128(
                scale_u128(reserve_pair, shares, total_shares),
                reserve_deposit,
                reserve_pair,
            ),
        )
    }
}

/// What `shares` of the `total_shares` of a pool have in its deposit token, and
/// what they have in its pair token at the spot price. Every product is taken
/// exactly; a part that does not fit counts as nothing. Shares above `i128::MAX`,
/// which is how a negative number comes here, count only where no product
/// overflows.
#[verifier::when_used_as_spec(spec_position_parts)]
pub fn position_parts(
    shares: u128,
    total_shares: u128,
    reserve_deposit: u128,
    reserve_pair: u128,
) -> (r: (u128, u128))
    ensures
        r == spec_position_parts(shares, total_shares, reserve_deposit, reserve_pair),
{
    if shares <= 0x7fff_ffff_ffff_ffff_ffff_ffff_ffff_ffff {
        (
            exact_u128(reserve_deposit, shares, total_shares).unwrap_or(0),
            exact_spot_part(shares, total_shares, reserve_deposit, reserve_pair).unwrap_or(0),
        )
    } else {
        let share_pair: u128 = scale_u128(reserve_pair, shares, total_shares);
        (
            scale_u128(reserve_deposit, shares, total_shares),
            scale_u128(share_pair, reserve_deposit, reserve_pair),
        )
    }
}

/// What `shares` of the `total_shares` of a pool are worth in the deposit
/// token: their part of the deposit reserve, and their part of the pair
/// reserve at the spot price. None if the sum overflows.
pub open spec fn spec_position_value(
    shares: u128,
    total_shares: u128,
    reserve_deposit: u128,
    reserve_pair: u128,
) -> Option<i128> {
    let parts = position_parts(shares, total_shares, reserve_deposit, reserve_pair);
    if parts.0 + parts.1 > u128::MAX {
        None
    } else {
        Some(to_signed((parts.0 + parts.1) as u128))
    }
}

/// What `shares` of the `total_shares` of a pool are worth in the deposit
/// token: their part of the deposit reserve, and their part of the pair
/// reserve at the spot price. None if the sum overflows.
#[verifier::when_used_as_spec(spec_position_value)]
pub fn position_value(
    shares: u128,
    total_shares: u128,
    reserve_deposit: u128,
    reserve_pair: u128,
) -> (r: Option<i128>)
    ensures
        r == spec_position_value(shares, total_shares, reserve_deposit, reserve_pair),
{
    let (share_deposit, pair_in_deposit) = position_parts(
        shares,
        total_shares,
        reserve_deposit,
        reserve_pair,
    );
    match share_deposit.checked_add(pair_in_deposit) {
        Some(value) => Some(to_signed(value)),
        None => None,
    }
}

/// The first half of a deposit: swaps half of `amount` for the pair token.
/// Gives back the pair tokens received.
pub open spec fn spec_swap_half(
    env: &Env,
    at: usize,
    amount: i128,
    config: &StrategyConfig,
) -> Result<(i128, usize), Halt<Call>> {
    let swap_amount = half(amount);
    chain(env.unsigned(at, Call::PoolEstimateSwap {
        pool: config.pool,
        in_idx: config.deposit_token_idx,
        out_idx: config.pair_token_idx,
        in_amount: to_unsigned(swap_amount),
    }), |estimated: u128|
    chain(acceptable(estimated, config), |out_min: u128|
    chain(env.done((at + 1) as usize, Call::Authorize { entry: Authorization::Transfer {
        token: config.deposit_token,
        from: env.contract,
        to: config.pool,
        amount: swap_amount,
    } }), |_authorized: ()|
    chain(env.unsigned((at + 2) as usize, Call::PoolSwap {
        pool: config.pool,
        user: env.contract,
        in_idx: config.deposit_token_idx,
        out_idx: config.pair_token_idx,
        in_amount: to_unsigned(swap_amount),
        out_min,
    }), |received: u128|
    Ok((to_signed(received), (at + 3) as usize))))))
}

/// The first half of a deposit: swaps half of `amount` for the pair token.
/// Gives back the pair tokens received.
#[verifier::when_used_as_spec(spec_swap_half)]
pub fn swap_half(env: &Env, at: usize, amount: i128, config: &StrategyConfig) -> (r: Result<
    (i128, usize),
    Halt<Call>,
>)
    ensures
        r == spec_swap_half(env, at, amount, config),
        r matches Ok((_, next)) ==> next <= env.replies@.len(),
{
    let swap_amount: i128 = half(amount);
    let estimated: u128 = env.unsigned(
        at,
        Call::PoolEstimateSwap {
            pool: config.pool,
            in_idx: config.deposit_token_idx,
            out_idx: config.pair_token_idx,
            in_amount: to_unsigned(swap_amount),
        },
    )?;
    let out_min: u128 = acceptable(estimated, config)?;
    env.done(
        at + 1,
        Call::Authorize {
            entry: Authorization::Transfer {
                token: config.deposit_token,
                from: env.contract,
                to: config.pool,
                amount: swap_amount,
            },
        },
    )?;
    let received: u128 = env.unsigned(
        at + 2,
        Call::PoolSwap {
            pool: config.pool,
            user: env.contract,
            in_idx: config.deposit_token_idx,
            out_idx: config.pair_token_idx,
            in_amount: to_unsigned(swap_amount),
            out_min,
        },
    )?;
    Ok((to_signed(received), at + 3))
}

/// The second half of a deposit: adds `remaining` of the deposit token to the
/// pool, with as much of the `pair_received` as fits the reserves. Gives back
/// the share tokens that came in.
pub open spec fn spec_add_liquidity(
    env: &Env,
    at: usize,
    remaining: i128,
    pair_received: i128,
    config: &StrategyConfig,
) -> Result<(i128, usize), Halt<Call>> {
    chain(env.unsigneds(at, Call::PoolReserves { pool: config.pool }), |reserves: &Vec<u128>| {
    let pair_added = pair_to_add(
        remaining,
        pair_received,
        to_signed(entry_or_zero(reserves, config.deposit_token_idx)),
        to_signed(entry_or_zero(reserves, config.pair_token_idx)),
    );
    let amounts = in_pool_order(config, to_unsigned(remaining), to_unsigned(pair_added));
    chain(env.unsigned((at + 1) as usize, Call::PoolEstimateDeposit {
        pool: config.pool,
        amounts,
    }), |estimated: u128|
    chain(acceptable(estimated, config), |min_shares: u128|
    chain(env.amount((at + 2) as usize, Call::TokenBalance {
        token: config.share_token,
        holder: env.contract,
    }), |shares_before: i128|
    chain(env.done((at + 3) as usize, Call::AuthorizeBoth {
        first: Authorization::Transfer {
            token: config.deposit_token,
            from: env.contract,
            to: config.pool,
            amount: remaining,
        },
        second: Authorization::Transfer {
            token: config.pair_token,
            from: env.contract,
            to: config.pool,
            amount: pair_added,
        },
    }), |_authorized: ()|
    chain(env.done((at + 4) as usize, Call::PoolDeposit {
        pool: config.pool,
        user: env.contract,
        amounts,
        min_shares,
    }), |_deposited: ()|
    chain(env.amount((at + 5) as usize, Call::TokenBalance {
        token: config.share_token,
        holder: env.contract,
    }), |shares_after: i128|
    match shares_after.checked_sub(shares_before) {
        Some(minted) => Ok((minted, (at + 6) as usize)),
        None => Err(Halt::Trap),
    }
    ))))))
    })
}

/// The second half of a deposit: adds `remaining` of the deposit token to the
/// pool, with as much of the `pair_received` as fits the reserves. Gives back
/// the share tokens that came in.
#[verifier::when_used_as_spec(spec_add_liquidity)]
pub fn add_liquidity(
    env: &Env,
    at: usize,
    remaining: i128,
    pair_received: i128,
    config: &StrategyConfig,
) -> (r: Result<(i128, usize), Halt<Call>>)
    ensures
        r == spec_add_liquidity(env, at, remaining, pair_received, config),
        r matches Ok((_, next)) ==> next <= env.replies@.len(),
{
    let reserves = env.unsigneds(at, Call::PoolReserves { pool: config.pool })?;
    let reserve_deposit: i128 = to_signed(entry_or_zero(reserves, config.deposit_token_idx));
    let reserve_pair: i128 = to_signed(entry_or_zero(reserves, config.pair_token_idx));
    let pair_added: i128 = pair_to_add(remaining, pair_received, reserve_deposit, reserve_pair);
    let amounts = in_pool_order(config, to_unsigned(remaining), to_unsigned(pair_added));
    let estimated: u128 = env.unsigned(
        at + 1,
        Call::PoolEstimateDeposit { pool: config.pool, amounts },
    )?;
    let min_shares: u128 = acceptable(estimated, config)?;
    let shares_before: i128 = env.amount(
        at + 2,
        Call::TokenBalance { token: config.share_token, holder: env.contract },
    )?;
    env.done(
        at + 3,
        Call::AuthorizeBoth {
            first: Authorization::Transfer {
                token: config.deposit_token,
                from: env.contract,
                to: config.pool,
                amount: remaining,
            },
            second: Authorization::Transfer {
                token: config.pair_token,
                from: env.contract,
                to: config.pool,
                amount: pair_added,
            },
        },
    )?;
    env.done(
        at + 4,
        Call::PoolDeposit { pool: config.pool, user: env.contract, amounts, min_shares },
    )?;
    let shares_after: i128 = env.amount(
        at + 5,
        Call::TokenBalance { token: config.share_token, holder: env.contract },
    )?;
    match shares_after.checked_sub(shares_before) {
        Some(minted) => Ok((minted, at + 6)),
        None => Err(Halt::Trap),
    }
}

/// Deposits `amount` of the deposit token, which the strategy holds already,
/// into the pool: half of it is swapped for the pair token, and the rest is
/// added beside what the swap brought. Gives back the share tokens minted.
pub open spec fn spec_deposit(
    env: &Env,
    at: usize,
    amount: i128,
    config: &StrategyConfig,
) -> Result<(i128, usize), Halt<Call>> {
    chain(swap_half(env, at, amount, config), |swapped: (i128, usize)|
    add_liquidity(env, swapped.1, (amount - half(amount)) as i128, swapped.0, config))
}

/// Deposits `amount` of the deposit token, which the strategy holds already,
/// into the pool: half of it is swapped for the pair token, and the rest is
/// added beside what the swap brought. Gives back the share tokens minted.
#[verifier::when_used_as_spec(spec_deposit)]
pub fn deposit(env: &Env, at: usize, amount: i128, config: &StrategyConfig) -> (r: Result<
    (i128, usize),
    Halt<Call>,
>)
    ensures
        r == spec_deposit(env, at, amount, config),
        r matches Ok((_, next)) ==> next <= env.replies@.len(),
{
    let (pair_received, at) = swap_half(env, at, amount, config)?;
    let remaining: i128 = amount - half(amount);
    add_liquidity(env, at, remaining, pair_received, config)
}

/// Burns `shares_to_burn` share tokens for their part of both reserves. Gives
/// back what came out of the deposit token and of the pair token.
pub open spec fn spec_remove_liquidity(
    env: &Env,
    at: usize,
    shares_to_burn: i128,
    config: &StrategyConfig,
) -> Result<(i128, i128, usize), Halt<Call>> {
    let shares = to_unsigned(shares_to_burn);
    chain(env.unsigneds(at, Call::PoolReserves { pool: config.pool }), |reserves: &Vec<u128>|
    chain(env.unsigned((at + 1) as usize, Call::PoolTotalShares {
        pool: config.pool,
    }), |total_lp: u128|
    chain(acceptable(
        scale_u128(entry_or_zero(reserves, config.deposit_token_idx), shares, total_lp),
        config,
    ), |min_deposit_out: u128|
    chain(acceptable(
        scale_u128(entry_or_zero(reserves, config.pair_token_idx), shares, total_lp),
        config,
    ), |min_pair_out: u128|
    chain(env.done((at + 2) as usize, Call::Authorize { entry: Authorization::Burn {
        token: config.share_token,
        from: env.contract,
        amount: shares_to_burn,
    } }), |_authorized: ()|
    chain(env.unsigneds((at + 3) as usize, Call::PoolWithdraw {
        pool: config.pool,
        user: env.contract,
        shares,
        min_amounts: in_pool_order(config, min_deposit_out, min_pair_out),
    }), |amounts_out: &Vec<u128>|
    Ok((
        to_signed(entry_or_zero(amounts_out, config.deposit_token_idx)),
        to_signed(entry_or_zero(amounts_out, config.pair_token_idx)),
        (at + 4) as usize,
    ))))))))
}

/// Burns `shares_to_burn` share tokens for their part of both reserves. Gives
/// back what came out of the deposit token and of the pair token.
#[verifier::when_used_as_spec(spec_remove_liquidity)]
pub fn remove_liquidity(env: &Env, at: usize, shares_to_burn: i128, config: &StrategyConfig) -> (r:
    Result<(i128, i128, usize), Halt<Call>>)
    ensures
        r == spec_remove_liquidity(env, at, shares_to_burn, config),
        r matches Ok((_, _, next)) ==> next <= env.replies@.len(),
{
    let shares: u128 = to_unsigned(shares_to_burn);
    let reserves = env.unsigneds(at, Call::PoolReserves { pool: config.pool })?;
    let total_lp: u128 = env.unsigned(at + 1, Call::PoolTotalShares { pool: config.pool })?;
    let reserve_deposit: u128 = entry_or_zero(reserves, config.deposit_token_idx);
    let reserve_pair: u128 = entry_or_zero(reserves, config.pair_token_idx);
    let min_deposit_out: u128 = acceptable(scale_u128(reserve_deposit, shares, total_lp), config)?;
    let min_pair_out: u128 = acceptable(scale_u128(reserve_pair, shares, total_lp), config)?;
    env.done(
        at + 2,
        Call::Authorize {
            entry: Authorization::Burn {
                token: config.share_token,
                from: env.contract,
                amount: shares_to_burn,
            },
        },
    )?;
    let amounts_out = env.unsigneds(
        at + 3,
        Call::PoolWithdraw {
            pool: config.pool,
            user: env.contract,
            shares,
            min_amounts: in_pool_order(config, min_deposit_out, min_pair_out),
        },
    )?;
    Ok(
        (
            to_signed(entry_or_zero(amounts_out, config.deposit_token_idx)),
            to_signed(entry_or_zero(amounts_out, config.pair_token_idx)),
            at + 4,
        ),
    )
}

/// Swaps `pair_out` of the pair token for the deposit token, if it is
/// positive. Gives back `deposit_out` and what the swap brought, together.
pub open spec fn spec_swap_back(
    env: &Env,
    at: usize,
    deposit_out: i128,
    pair_out: i128,
    config: &StrategyConfig,
) -> Result<(i128, usize), Halt<Call>> {
    if pair_out > 0 {
        chain(env.unsigned(at, Call::PoolEstimateSwap {
            pool: config.pool,
            in_idx: config.pair_token_idx,
            out_idx: config.deposit_token_idx,
            in_amount: to_unsigned(pair_out),
        }), |estimated: u128|
        chain(acceptable(estimated, config), |out_min: u128|
        chain(env.done((at + 1) as usize, Call::Authorize { entry: Authorization::Transfer {
            token: config.pair_token,
            from: env.contract,
            to: config.pool,
            amount: pair_out,
        } }), |_authorized: ()|
        chain(env.unsigned((at + 2) as usize, Call::PoolSwap {
            pool: config.pool,
            user: env.contract,
            in_idx: config.pair_token_idx,
            out_idx: config.deposit_token_idx,
            in_amount: to_unsigned(pair_out),
            out_min,
        }), |swapped: u128|
        match deposit_out.checked_add(to_signed(swapped)) {
            Some(total) => Ok((total, (at + 3) as usize)),
            None => Err(Halt::Trap),
        }))))
    } else {
        Ok((deposit_out, at))
    }
}

/// Swaps `pair_out` of the pair token for the deposit token, if it is
/// positive. Gives back `deposit_out` and what the swap brought, together.
#[verifier::when_used_as_spec(spec_swap_back)]
pub fn swap_back(
    env: &Env,
    at: usize,
    deposit_out: i128,
    pair_out: i128,
    config: &StrategyConfig,
) -> (r: Result<(i128, usize), Halt<Call>>)
    requires
        at <= env.replies@.len(),
    ensures
        r == spec_swap_back(env, at, deposit_out, pair_out, config),
        r matches Ok((_, next)) ==> next <= env.replies@.len(),
{
    if pair_out > 0 {
        let estimated: u128 = env.unsigned(
            at,
            Call::PoolEstimateSwap {
                pool: config.pool,
                in_idx: config.pair_token_idx,
                out_idx: config.deposit_token_idx,
                in_amount: to_unsigned(pair_out),
            },
        )?;
        let out_min: u128 = acceptable(estimated, config)?;
        env.done(
            at + 1,
            Call::Authorize {
                entry: Authorization::Transfer {
                    token: config.pair_token,
                    from: env.contract,
                    to: config.pool,
                    amount: pair_out,
                },
            },
        )?;
        let swapped: u128 = env.unsigned(
            at + 2,
            Call::PoolSwap {
                pool: config.pool,
                user: env.contract,
                in_idx: config.pair_token_idx,
                out_idx: config.deposit_token_idx,
                in_amount: to_unsigned(pair_out),
                out_min,
            },
        )?;
        match deposit_out.checked_add(to_signed(swapped)) {
            Some(total) => Ok((total, at + 3)),
            None => Err(Halt::Trap),
        }
    } else {
        Ok((deposit_out, at))
    }
}

/// Transfers `amount` of `token` from the strategy to `to`, if it is positive.
pub open spec fn spec_pay_out(
    env: &Env,
    at: usize,
    token: Address,
    to: Address,
    amount: i128,
) -> Result<usize, Halt<Call>> {
    if amount > 0 {
        chain(env.done(at, Call::TokenTransfer {
            token,
            from: env.contract,
            to,
            amount,
        }), |_transferred: ()|
        Ok((at + 1) as usize))
    } else {
        Ok(at)
    }
}

/// Transfers `amount` of `token` from the strategy to `to`, if it is positive.
#[verifier::when_used_as_spec(spec_pay_out)]
pub fn pay_out(env: &Env, at: usize, token: Address, to: Address, amount: i128) -> (r: Result<
    usize,
    Halt<Call>,
>)
    requires
        at <= env.replies@.len(),
    ensures
        r == spec_pay_out(env, at, token, to, amount),
        r matches Ok(next) ==> next <= env.replies@.len(),
{
    if amount > 0 {
        env.done(at, Call::TokenTransfer { token, from: env.contract, to, amount })?;
        Ok(at + 1)
    } else {
        Ok(at)
    }
}

/// Takes liquidity out of the pool and sends it to `to` in the deposit token:
/// burns `shares_to_burn` share tokens, swaps the pair token that comes out,
/// and transfers the total. Gives back that total.
pub open spec fn spec_withdraw(
    env: &Env,
    at: usize,
    shares_to_burn: i128,
    to: Address,
    config: &StrategyConfig,
) -> Result<(i128, usize), Halt<Call>> {
    chain(remove_liquidity(env, at, shares_to_burn, config), |out: (i128, i128, usize)|
    chain(swap_back(env, out.2, out.0, out.1, config), |total: (i128, usize)|
    chain(pay_out(env, total.1, config.deposit_token, to, total.0), |next: usize|
    Ok((total.0, next)))))
}

/// Takes liquidity out of the pool and sends it to `to` in the deposit token:
/// burns `shares_to_burn` share tokens, swaps the pair token that comes out,
/// and transfers the total. Gives back that total.
#[verifier::when_used_as_spec(spec_withdraw)]
pub fn withdraw(
    env: &Env,
    at: usize,
    shares_to_burn: i128,
    to: Address,
    config: &StrategyConfig,
) -> (r: Result<(i128, usize), Halt<Call>>)
    ensures
        r == spec_withdraw(env, at, shares_to_burn, to, config),
        r matches Ok((_, next)) ==> next <= env.replies@.len(),
{
    let (deposit_out, pair_out, at) = remove_liquidity(env, at, shares_to_burn, config)?;
    let (total_deposit, at) = swap_back(env, at, deposit_out, pair_out, config)?;
    let at: usize = pay_out(env, at, config.deposit_token, to, total_deposit)?;
    Ok((total_deposit, at))
}

/// The value of `vault_shares` share tokens in the deposit token; nothing if
/// there are none, or if the pool has no shares or no pair token.
pub open spec fn spec_shares_value_in_deposit(
    env: &Env,
    at: usize,
    vault_shares: i128,
    config: &StrategyConfig,
) -> Result<(i128, usize), Halt<Call>> {
    if vault_shares == 0 {
        Ok((0i128, at))
    } else {
        chain(env.unsigned(at, Call::PoolTotalShares { pool: config.pool }), |total_lp: u128|
        if total_lp == 0 {
            Ok((0i128, (at + 1) as usize))
        } else {
            chain(env.unsigneds((at + 1) as usize, Call::PoolReserves {
                pool: config.pool,
            }), |reserves: &Vec<u128>| {
            let reserve_deposit = entry_or_zero(reserves, config.deposit_token_idx);
            let reserve_pair = entry_or_zero(reserves, config.pair_token_idx);
            if reserve_pair == 0 {
                Ok((0i128, (at + 2) as usize))
            } else {
                match position_value(
                    to_unsigned(vault_shares),
                    total_lp,
                    reserve_deposit,
                    reserve_pair,
                ) {
                    Some(value) => Ok((value, (at + 2) as usize)),
                    None => Err(Halt::Trap),
                }
            }
            })
        })
    }
}

/// The value of `vault_shares` share tokens in the deposit token; nothing if
/// there are none, or if the pool has no shares or no pair token.
#[verifier::when_used_as_spec(spec_shares_value_in_deposit)]
pub fn shares_value_in_deposit(
    env: &Env,
    at: usize,
    vault_shares: i128,
    config: &StrategyConfig,
) -> (r: Result<(i128, usize), Halt<Call>>)
    requires
        at <= env.replies@.len(),
    ensures
        r == spec_shares_value_in_deposit(env, at, vault_shares, config),
        r matches Ok((_, next)) ==> next <= env.replies@.len(),
{
    if vault_shares == 0 {
        return Ok((0, at));
    }
    let total_lp: u128 = env.unsigned(at, Call::PoolTotalShares { pool: config.pool })?;
    if total_lp == 0 {
        return Ok((0, at + 1));
    }
    let reserves = env.unsigneds(at + 1, Call::PoolReserves { pool: config.pool })?;
    let reserve_deposit: u128 = entry_or_zero(reserves, config.deposit_token_idx);
    let reserve_pair: u128 = entry_or_zero(reserves, config.pair_token_idx);
    if reserve_pair == 0 {
        return Ok((0, at + 2));
    }
    match position_value(to_unsigned(vault_shares), total_lp, reserve_deposit, reserve_pair) {
        Some(value) => Ok((value, at + 2)),
        None => Err(Halt::Trap),
    }
}

/// Claims the AQUA rewards of the strategy and forwards them to `to`. Gives
/// back how much there was.
pub open spec fn spec_claim(env: &Env, at: usize, to: Address, config: &StrategyConfig) -> Result<
    (i128, usize),
    Halt<Call>,
> {
    chain(env.unsigned(at, Call::PoolClaim {
        pool: config.pool,
        user: env.contract,
    }), |claimed: u128|
    chain(pay_out(env, (at + 1) as usize, config.aqua_token, to, to_signed(claimed)), |next: usize|
    Ok((to_signed(claimed), next))))
}

/// Claims the AQUA rewards of the strategy and forwards them to `to`. Gives
/// back how much there was.
#[verifier::when_used_as_spec(spec_claim)]
pub fn claim(env: &Env, at: usize, to: Address, config: &StrategyConfig) -> (r: Result<
    (i128, usize),
    Halt<Call>,
>)
    ensures
        r == spec_claim(env, at, to, config),
        r matches Ok((_, next)) ==> next <= env.replies@.len(),
{
    let claimed: u128 = env.unsigned(
        at,
        Call::PoolClaim { pool: config.pool, user: env.contract },
    )?;
    let aqua_harvested: i128 = to_signed(claimed);
    let at: usize = pay_out(env, at + 1, config.aqua_token, to, aqua_harvested)?;
    Ok((aqua_harvested, at))
}

} // verus!
