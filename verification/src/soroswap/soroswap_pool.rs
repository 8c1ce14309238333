use crate::address::{Address, Authorization};
use crate::arith::{as_i128, half, last_or_zero, scale_i128, smaller, trunc_div};
use crate::position::exact_spot_part;
use crate::rounding::lemma_floor_below;
use crate::session::{chain, Halt};
use crate::soroswap::calls::{Call, Env};
use crate::soroswap::storage::StrategyConfig;
use crate::wide::{
    abs, exact_i128, lemma_abs_of_product, lemma_trunc_sign, magnitude, with_sign,
};
use vstd::prelude::*;

verus! {

/// The least that the strategy accepts out of a swap or of the pair: anything.
pub const MIN_OUT: i128 = 0;

/// For how many seconds the router may take a request.
pub const DEADLINE_SECONDS: u64 = 3600;

/// Until when the router may take a request; traps if that is beyond what a
/// time can be.
pub open spec fn spec_deadline(env: &Env, at: usize) -> Result<(u64, usize), Halt<Call>> {
    chain(env.time(at, Call::LedgerTimestamp), |now: u64|
    if now + DEADLINE_SECONDS > u64::MAX {
        Err(Halt::Trap)
    } else {
        Ok(((now + DEADLINE_SECONDS) as u64, (at + 1) as usize))
    })
}

/// Until when the router may take a request; traps if that is beyond what a
/// time can be.
#[verifier::when_used_as_spec(spec_deadline)]
pub fn deadline(env: &Env, at: usize) -> (r: Result<(u64, usize), Halt<Call>>)
    ensures
        r == spec_deadline(env, at),
        r matches Ok((_, next)) ==> next <= env.replies@.len(),
{
    let now: u64 = env.time(at, Call::LedgerTimestamp)?;
    match now.checked_add(DEADLINE_SECONDS) {
        Some(deadline) => Ok((deadline, at + 1)),
        None => Err(Halt::Trap),
    }
}

/// The reserves of the pair, that of token a first.
pub open spec fn spec_reserves(env: &Env, at: usize, config: &StrategyConfig) -> Result<
    (i128, i128, usize),
    Halt<Call>,
> {
    chain(env.account(at, Call::PairToken0 { pair: config.pair }), |token0: Address|
    chain(env.pair((at + 1) as usize, Call::PairReserves {
        pair: config.pair,
    }), |reserves: (i128, i128)|
    if token0 == config.token_a {
        Ok((reserves.0, reserves.1, (at + 2) as usize))
    } else {
        Ok((reserves.1, reserves.0, (at + 2) as usize))
    }))
}

/// The reserves of the pair, that of token a first.
#[verifier::when_used_as_spec(spec_reserves)]
pub fn reserves(env: &Env, at: usize, config: &StrategyConfig) -> (r: Result<
    (i128, i128, usize),
    Halt<Call>,
>)
    ensures
        r == spec_reserves(env, at, config),
        r matches Ok((_, _, next)) ==> next <= env.replies@.len(),
{
    let token0 = env.account(at, Call::PairToken0 { pair: config.pair })?;
    let (reserve0, reserve1) = env.pair(at + 1, Call::PairReserves { pair: config.pair })?;
    if token0 == config.token_a {
        Ok((reserve0, reserve1, at + 2))
    } else {
        Ok((reserve1, reserve0, at + 2))
    }
}

/// How much of token b goes into the pair beside `remaining_a` of token a:
/// what the ratio of the reserves asks for, and no more than was received from
/// the swap.
pub open spec fn spec_b_to_add(
    remaining_a: i128,
    b_received: i128,
    reserve_a: i128,
    reserve_b: i128,
) -> i128 {
    smaller(scale_i128(remaining_a, reserve_b, reserve_a), b_received)
}

/// How much of token b goes into the pair beside `remaining_a` of token a:
/// what the ratio of the reserves asks for, and no more than was received from
/// the swap.
#[verifier::when_used_as_spec(spec_b_to_add)]
pub fn b_to_add(remaining_a: i128, b_received: i128, reserve_a: i128, reserve_b: i128) -> (r: i128)
    ensures
        r == spec_b_to_add(remaining_a, b_received, reserve_a, reserve_b),
{
    smaller(scale_i128(remaining_a, reserve_b, reserve_a), b_received)
}

/// What `lp` of the `total_lp` LP tokens of a pair have in token b, in token a
/// at the spot price, every product taken exactly and each step rounded toward
/// zero. None if there are no LP tokens at all, if there is no token b, or if
/// the part does not fit.
pub open spec fn spec_b_in_a(
    lp: i128,
    total_lp: i128,
    reserve_a: i128,
    reserve_b: i128,
) -> Option<i128> {
    if total_lp == 0 || reserve_b == 0 {
        None
    } else {
        let share_b = trunc_div(reserve_b * lp, total_lp as int);
        as_i128(trunc_div(share_b * reserve_a, reserve_b as int))
    }
}

/// What `lp` of the `total_lp` LP tokens of a pair have in token b, in token a
/// at the spot price, every product taken exactly and each step rounded toward
/// zero. None if there are no LP tokens at all, if there is no token b, or if
/// the part does not fit.
#[verifier::when_used_as_spec(spec_b_in_a)]
pub fn b_in_a(lp: i128, total_lp: i128, reserve_a: i128, reserve_b: i128) -> (r: Option<i128>)
    ensures
        r == spec_b_in_a(lp, total_lp, reserve_a, reserve_b),
{
    if total_lp == 0 || reserve_b == 0 {
        return None;
    }
    proof {
        let share_b = trunc_div(reserve_b * lp, total_lp as int);
        lemma_abs_of_product(reserve_b as int, lp as int);
        lemma_trunc_sign(reserve_b * lp, total_lp as int);
        lemma_abs_of_product(share_b, reserve_a as int);
        lemma_trunc_sign(share_b * reserve_a, reserve_b as int);
        if share_b * reserve_a == 0 {
            lemma_floor_below(0, abs(reserve_b as int), 1);
        }
        if reserve_b * lp == 0 {
            lemma_floor_below(0, abs(total_lp as int), 1);
        }
    }
    let negative: bool = ((lp < 0) != (total_lp < 0)) != (reserve_a < 0);
    match exact_spot_part(
        magnitude(lp),
        magnitude(total_lp),
        magnitude(reserve_a),
        magnitude(reserve_b),
    ) {
        Some(part) => with_sign(negative, part),
        None => None,
    }
}

/// What `lp` of the `total_lp` LP tokens of a pair are worth in token a: their
/// part of the reserve of token a, and their part of the reserve of token b at
/// the spot price. Every product is taken exactly; a part that does not fit
/// counts as nothing. None if the sum overflows.
pub open spec fn spec_position_value(
    lp: i128,
    total_lp: i128,
    reserve_a: i128,
    reserve_b: i128,
) -> Option<i128> {
    let share_a = exact_i128(reserve_a, lp, total_lp).unwrap_or(0);
    share_a.checked_add(b_in_a(lp, total_lp, reserve_a, reserve_b).unwrap_or(0))
}

/// What `lp` of the `total_lp` LP tokens of a pair are worth in token a: their
/// part of the reserve of token a, and their part of the reserve of token b at
/// the spot price. Every product is taken exactly; a part that does not fit
/// counts as nothing. None if the sum overflows.
#[verifier::when_used_as_spec(spec_position_value)]
pub fn position_value(lp: i128, total_lp: i128, reserve_a: i128, reserve_b: i128) -> (r: Option<
    i128,
>)
    ensures
        r == spec_position_value(lp, total_lp, reserve_a, reserve_b),
{
    let share_a: i128 = exact_i128(reserve_a, lp, total_lp).unwrap_or(0);
    let of_b: i128 = b_in_a(lp, total_lp, reserve_a, reserve_b).unwrap_or(0);
    share_a.checked_add(of_b)
}

/// Swaps `amount` of the first token of `path` for the second. Gives back what
/// came of the second.
pub open spec fn spec_swap(
    env: &Env,
    at: usize,
    amount: i128,
    path: (Address, Address),
    deadline: u64,
    config: &StrategyConfig,
) -> Result<(i128, usize), Halt<Call>> {
    chain(env.done(at, Call::Authorize { entry: Authorization::Transfer {
        token: path.0,
        from: env.contract,
        to: config.pair,
        amount,
    } }), |_authorized: ()|
    chain(env.amounts((at + 1) as usize, Call::RouterSwap {
        router: config.router,
        amount_in: amount,
        amount_out_min: MIN_OUT,
        path,
        to: env.contract,
        deadline,
    }), |swap_out: &Vec<i128>|
    Ok((last_or_zero(swap_out), (at + 2) as usize))))
}

/// Swaps `amount` of the first token of `path` for the second. Gives back what
/// came of the second.
#[verifier::when_used_as_spec(spec_swap)]
pub fn swap(
    env: &Env,
    at: usize,
    amount: i128,
    path: (Address, Address),
    deadline: u64,
    config: &StrategyConfig,
) -> (r: Result<(i128, usize), Halt<Call>>)
    ensures
        r == spec_swap(env, at, amount, path, deadline, config),
        r matches Ok((_, next)) ==> next <= env.replies@.len(),
{
    env.done(
        at,
        Call::Authorize {
            entry: Authorization::Transfer {
                token: path.0,
                from: env.contract,
                to: config.pair,
                amount,
            },
        },
    )?;
    let swap_out = env.amounts(
        at + 1,
        Call::RouterSwap {
            router: config.router,
            amount_in: amount,
            amount_out_min: MIN_OUT,
            path,
            to: env.contract,
            deadline,
        },
    )?;
    Ok((last_or_zero(swap_out), at + 2))
}

/// Adds `remaining_a` of token a to the pair, with as much of the `b_received`
/// as fits the reserves. Gives back the LP tokens that came in.
pub open spec fn spec_add_liquidity(
    env: &Env,
    at: usize,
    remaining_a: i128,
    b_received: i128,
    deadline: u64,
    config: &StrategyConfig,
) -> Result<(i128, usize), Halt<Call>> {
    chain(reserves(env, at, config), |found: (i128, i128, usize)| {
    let b_added = b_to_add(remaining_a, b_received, found.0, found.1);
    chain(env.amount(found.2, Call::PairBalance {
        pair: config.pair,
        holder: env.contract,
    }), |lp_before: i128|
    chain(env.done((found.2 + 1) as usize, Call::AuthorizeBoth {
        first: Authorization::Transfer {
            token: config.token_a,
            from: env.contract,
            to: config.pair,
            amount: remaining_a,
        },
        second: Authorization::Transfer {
            token: config.token_b,
            from: env.contract,
            to: config.pair,
            amount: b_added,
        },
    }), |_authorized: ()|
    chain(env.done((found.2 + 2) as usize, Call::RouterAddLiquidity {
        router: config.router,
        token_a: config.token_a,
        token_b: config.token_b,
        amount_a_desired: remaining_a,
        amount_b_desired: b_added,
        amount_a_min: MIN_OUT,
        amount_b_min: MIN_OUT,
        to: env.contract,
        deadline,
    }), |_added: ()|
    chain(env.amount((found.2 + 3) as usize, Call::PairBalance {
        pair: config.pair,
        holder: env.contract,
    }), |lp_after: i128|
    match lp_after.checked_sub(lp_before) {
        Some(minted) => Ok((minted, (found.2 + 4) as usize)),
        None => Err(Halt::Trap),
    }
    ))))
    })
}

/// Adds `remaining_a` of token a to the pair, with as much of the `b_received`
/// as fits the reserves. Gives back the LP tokens that came in.
#[verifier::when_used_as_spec(spec_add_liquidity)]
pub fn add_liquidity(
    env: &Env,
    at: usize,
    remaining_a: i128,
    b_received: i128,
    deadline: u64,
    config: &StrategyConfig,
) -> (r: Result<(i128, usize), Halt<Call>>)
    ensures
        r == spec_add_liquidity(env, at, remaining_a, b_received, deadline, config),
        r matches Ok((_, next)) ==> next <= env.replies@.len(),
{
    let (reserve_a, reserve_b, at) = reserves(env, at, config)?;
    let b_added: i128 = b_to_add(remaining_a, b_received, reserve_a, reserve_b);
    let lp_before: i128 = env.amount(
        at,
        Call::PairBalance { pair: config.pair, holder: env.contract },
    )?;
    env.done(
        at + 1,
        Call::AuthorizeBoth {
            first: Authorization::Transfer {
                token: config.token_a,
                from: env.contract,
                to: config.pair,
                amount: remaining_a,
            },
            second: Authorization::Transfer {
                token: config.token_b,
                from: env.contract,
                to: config.pair,
                amount: b_added,
            },
        },
    )?;
    env.done(
        at + 2,
        Call::RouterAddLiquidity {
            router: config.router,
            token_a: config.token_a,
            token_b: config.token_b,
            amount_a_desired: remaining_a,
            amount_b_desired: b_added,
            amount_a_min: MIN_OUT,
            amount_b_min: MIN_OUT,
            to: env.contract,
            deadline,
        },
    )?;
    let lp_after: i128 = env.amount(
        at + 3,
        Call::PairBalance { pair: config.pair, holder: env.contract },
    )?;
    match lp_after.checked_sub(lp_before) {
        Some(minted) => Ok((minted, at + 4)),
        None => Err(Halt::Trap),
    }
}

/// Deposits `amount` of token a, which the strategy holds already, into the
/// pair: half of it is swapped for token b, and the rest is added beside what
/// the swap brought. Gives back the LP tokens minted.
pub open spec fn spec_deposit(
    env: &Env,
    at: usize,
    amount: i128,
    config: &StrategyConfig,
) -> Result<(i128, usize), Halt<Call>> {
    chain(deadline(env, at), |until: (u64, usize)|
    chain(swap(
        env,
        until.1,
        half(amount),
        (config.token_a, config.token_b),
        until.0,
        config,
    ), |received: (i128, usize)|
    add_liquidity(
        env,
        received.1,
        (amount - half(amount)) as i128,
        received.0,
        until.0,
        config,
    )))
}

/// Deposits `amount` of token a, which the strategy holds already, into the
/// pair: half of it is swapped for token b, and the rest is added beside what
/// the swap brought. Gives back the LP tokens minted.
#[verifier::when_used_as_spec(spec_deposit)]
pub fn deposit(env: &Env, at: usize, amount: i128, config: &StrategyConfig) -> (r: Result<
    (i128, usize),
    Halt<Call>,
>)
    ensures
        r == spec_deposit(env, at, amount, config),
        r matches Ok((_, next)) ==> next <= env.replies@.len(),
{
    let (until, at) = deadline(env, at)?;
    let swap_amount: i128 = half(amount);
    let remaining_a: i128 = amount - swap_amount;
    let (b_received, at) = swap(
        env,
        at,
        swap_amount,
        (config.token_a, config.token_b),
        until,
        config,
    )?;
    add_liquidity(env, at, remaining_a, b_received, until, config)
}

/// Takes `lp_to_burn` LP tokens out of the pair. Gives back what came out of
/// token a and of token b.
pub open spec fn spec_remove_liquidity(
    env: &Env,
    at: usize,
    lp_to_burn: i128,
    deadline: u64,
    config: &StrategyConfig,
) -> Result<(i128, i128, usize), Halt<Call>> {
    chain(env.done(at, Call::Authorize { entry: Authorization::Transfer {
        token: config.pair,
        from: env.contract,
        to: config.pair,
        amount: lp_to_burn,
    } }), |_authorized: ()|
    chain(env.pair((at + 1) as usize, Call::RouterRemoveLiquidity {
        router: config.router,
        token_a: config.token_a,
        token_b: config.token_b,
        liquidity: lp_to_burn,
        amount_a_min: MIN_OUT,
        amount_b_min: MIN_OUT,
        to: env.contract,
        deadline,
    }), |out: (i128, i128)|
    Ok((out.0, out.1, (at + 2) as usize))))
}

/// Takes `lp_to_burn` LP tokens out of the pair. Gives back what came out of
/// token a and of token b.
#[verifier::when_used_as_spec(spec_remove_liquidity)]
pub fn remove_liquidity(
    env: &Env,
    at: usize,
    lp_to_burn: i128,
    deadline: u64,
    config: &StrategyConfig,
) -> (r: Result<(i128, i128, usize), Halt<Call>>)
    ensures
        r == spec_remove_liquidity(env, at, lp_to_burn, deadline, config),
        r matches Ok((_, _, next)) ==> next <= env.replies@.len(),
{
    env.done(
        at,
        Call::Authorize {
            entry: Authorization::Transfer {
                token: config.pair,
                from: env.contract,
                to: config.pair,
                amount: lp_to_burn,
            },
        },
    )?;
    let (a_out, b_out) = env.pair(
        at + 1,
        Call::RouterRemoveLiquidity {
            router: config.router,
            token_a: config.token_a,
            token_b: config.token_b,
            liquidity: lp_to_burn,
            amount_a_min: MIN_OUT,
            amount_b_min: MIN_OUT,
            to: env.contract,
            deadline,
        },
    )?;
    Ok((a_out, b_out, at + 2))
}

/// Swaps `b_out` of token b for token a, if it is positive. Gives back `a_out`
/// and what the swap brought, together.
pub open spec fn spec_swap_back(
    env: &Env,
    at: usize,
    a_out: i128,
    b_out: i128,
    deadline: u64,
    config: &StrategyConfig,
) -> Result<(i128, usize), Halt<Call>> {
    if b_out > 0 {
        chain(swap(
            env,
            at,
            b_out,
            (config.token_b, config.token_a),
            deadline,
            config,
        ), |swapped: (i128, usize)|
        match a_out.checked_add(swapped.0) {
            Some(total) => Ok((total, swapped.1)),
            None => Err(Halt::Trap),
        })
    } else {
        Ok((a_out, at))
    }
}

/// Swaps `b_out` of token b for token a, if it is positive. Gives back `a_out`
/// and what the swap brought, together.
#[verifier::when_used_as_spec(spec_swap_back)]
pub fn swap_back(
    env: &Env,
    at: usize,
    a_out: i128,
    b_out: i128,
    deadline: u64,
    config: &StrategyConfig,
) -> (r: Result<(i128, usize), Halt<Call>>)
    requires
        at <= env.replies@.len(),
    ensures
        r == spec_swap_back(env, at, a_out, b_out, deadline, config),
        r matches Ok((_, next)) ==> next <= env.replies@.len(),
{
    if b_out > 0 {
        let (swapped, at) = swap(
            env,
            at,
            b_out,
            (config.token_b, config.token_a),
            deadline,
            config,
        )?;
        match a_out.checked_add(swapped) {
            Some(total) => Ok((total, at)),
            None => Err(Halt::Trap),
        }
    } else {
        Ok((a_out, at))
    }
}

/// Transfers `amount` of token a from the strategy to `to`, if it is positive.
pub open spec fn spec_pay_out(
    env: &Env,
    at: usize,
    to: Address,
    amount: i128,
    config: &StrategyConfig,
) -> Result<usize, Halt<Call>> {
    if amount > 0 {
        chain(env.done(at, Call::TokenTransfer {
            token: config.token_a,
            from: env.contract,
            to,
            amount,
        }), |_transferred: ()|
        Ok((at + 1) as usize))
    } else {
        Ok(at)
    }
}

/// Transfers `amount` of token a from the strategy to `to`, if it is positive.
#[verifier::when_used_as_spec(spec_pay_out)]
pub fn pay_out(env: &Env, at: usize, to: Address, amount: i128, config: &StrategyConfig) -> (r:
    Result<usize, Halt<Call>>)
    requires
        at <= env.replies@.len(),
    ensures
        r == spec_pay_out(env, at, to, amount, config),
        r matches Ok(next) ==> next <= env.replies@.len(),
{
    if amount > 0 {
        env.done(
            at,
            Call::TokenTransfer { token: config.token_a, from: env.contract, to, amount },
        )?;
        Ok(at + 1)
    } else {
        Ok(at)
    }
}

/// Takes liquidity out of the pair and sends it to `to` in token a: burns
/// `lp_to_burn` LP tokens, swaps the token b that comes out, and transfers the
/// total. Gives back that total.
pub open spec fn spec_withdraw(
    env: &Env,
    at: usize,
    lp_to_burn: i128,
    to: Address,
    config: &StrategyConfig,
) -> Result<(i128, usize), Halt<Call>> {
    chain(deadline(env, at), |until: (u64, usize)|
    chain(remove_liquidity(
        env,
        until.1,
        lp_to_burn,
        until.0,
        config,
    ), |out: (i128, i128, usize)|
    chain(swap_back(env, out.2, out.0, out.1, until.0, config), |total: (i128, usize)|
    chain(pay_out(env, total.1, to, total.0, config), |next: usize|
    Ok((total.0, next))))))
}

/// Takes liquidity out of the pair and sends it to `to` in token a: burns
/// `lp_to_burn` LP tokens, swaps the token b that comes out, and transfers the
/// total. Gives back that total.
#[verifier::when_used_as_spec(spec_withdraw)]
pub fn withdraw(env: &Env, at: usize, lp_to_burn: i128, to: Address, config: &StrategyConfig) -> (r:
    Result<(i128, usize), Halt<Call>>)
    ensures
        r == spec_withdraw(env, at, lp_to_burn, to, config),
        r matches Ok((_, next)) ==> next <= env.replies@.len(),
{
    let (until, at) = deadline(env, at)?;
    let (a_out, b_out, at) = remove_liquidity(env, at, lp_to_burn, until, config)?;
    let (total_a, at) = swap_back(env, at, a_out, b_out, until, config)?;
    let at: usize = pay_out(env, at, to, total_a, config)?;
    Ok((total_a, at))
}

/// The value of `vault_lp` LP tokens in token a; nothing if there are none, or
/// if the pair has no LP tokens or no token b.
pub open spec fn spec_lp_value_in_a(
    env: &Env,
    at: usize,
    vault_lp: i128,
    config: &StrategyConfig,
) -> Result<(i128, usize), Halt<Call>> {
    if vault_lp == 0 {
        Ok((0i128, at))
    } else {
        chain(env.amount(at, Call::PairTotalSupply { pair: config.pair }), |total_lp: i128|
        if total_lp == 0 {
            Ok((0i128, (at + 1) as usize))
        } else {
            chain(reserves(env, (at + 1) as usize, config), |found: (i128, i128, usize)|
            if found.1 == 0 {
                Ok((0i128, found.2))
            } else {
                match position_value(vault_lp, total_lp, found.0, found.1) {
                    Some(value) => Ok((value, found.2)),
                    None => Err(Halt::Trap),
                }
            })
        })
    }
}

/// The value of `vault_lp` LP tokens in token a; nothing if there are none, or
/// if the pair has no LP tokens or no token b.
///
/// The LP tokens of one vault are valued, not those that the strategy holds,
/// so several vaults can share the strategy.
#[verifier::when_used_as_spec(spec_lp_value_in_a)]
pub fn lp_value_in_a(env: &Env, at: usize, vault_lp: i128, config: &StrategyConfig) -> (r: Result<
    (i128, usize),
    Halt<Call>,
>)
    requires
        at <= env.replies@.len(),
    ensures
        r == spec_lp_value_in_a(env, at, vault_lp, config),
        r matches Ok((_, next)) ==> next <= env.replies@.len(),
{
    if vault_lp == 0 {
        return Ok((0, at));
    }
    let total_lp: i128 = env.amount(at, Call::PairTotalSupply { pair: config.pair })?;
    if total_lp == 0 {
        return Ok((0, at + 1));
    }
    let (reserve_a, reserve_b, at) = reserves(env, at + 1, config)?;
    if reserve_b == 0 {
        return Ok((0, at));
    }
    match position_value(vault_lp, total_lp, reserve_a, reserve_b) {
        Some(value) => Ok((value, at)),
        None => Err(Halt::Trap),
    }
}

} // verus!
