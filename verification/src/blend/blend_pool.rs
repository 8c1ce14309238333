use crate::address::{Address, Authorization};
use crate::blend::calls::{Call, Env, Request};
use crate::blend::reserves;
use crate::blend::reserves::StrategyReserves;
use crate::blend::storage::Config;
use crate::error::StrategyError;
use crate::session::{chain, Halt};
use vstd::prelude::*;

verus! {

/// The kinds of request to the pool that the strategy makes.
#[derive(Clone, Copy, Debug, PartialEq, Eq, Structural)]
pub enum RequestType {
    Supply,
    Withdraw,
}

impl RequestType {
    /// The number by which the pool knows the kind of request.
    pub open spec fn spec_to_u32(self) -> u32 {
        match self {
            RequestType::Supply => 0,
            RequestType::Withdraw => 1,
        }
    }

    /// The number by which the pool knows the kind of request.
    #[verifier::when_used_as_spec(spec_to_u32)]
    pub fn to_u32(self) -> (r: u32)
        ensures
            r == self.spec_to_u32(),
    {
        match self {
            RequestType::Supply => 0,
            RequestType::Withdraw => 1,
        }
    }
}

/// The supply that a position states: none where it states nothing or cannot
/// be read.
pub open spec fn spec_supplied(position: Option<Option<i128>>) -> i128 {
    match position {
        Some(Some(supply)) => supply,
        _ => 0,
    }
}

/// The supply that a position states: none where it states nothing or cannot
/// be read.
#[verifier::when_used_as_spec(spec_supplied)]
pub fn supplied(position: Option<Option<i128>>) -> (r: i128)
    ensures
        r == spec_supplied(position),
{
    match position {
        Some(Some(supply)) => supply,
        _ => 0,
    }
}

/// The call that submits a request of the strategy to the pool, what it pays
/// going to `to`.
pub open spec fn spec_submission(
    env: &Env,
    kind: RequestType,
    to: Address,
    amount: i128,
    config: &Config,
) -> Call {
    Call::PoolSubmit {
        pool: config.pool,
        from: env.contract,
        spender: env.contract,
        to,
        request: Request { address: config.asset, amount, request_type: kind.to_u32() },
        reserve_id: config.reserve_id,
    }
}

/// The call that submits a request of the strategy to the pool, what it pays
/// going to `to`.
#[verifier::when_used_as_spec(spec_submission)]
pub fn submission(env: &Env, kind: RequestType, to: Address, amount: i128, config: &Config) -> (r:
    Call)
    ensures
        r == spec_submission(env, kind, to, amount, config),
{
    Call::PoolSubmit {
        pool: config.pool,
        from: env.contract,
        spender: env.contract,
        to,
        request: Request { address: config.asset, amount, request_type: kind.to_u32() },
        reserve_id: config.reserve_id,
    }
}

/// Authorizes the pool to take `amount` of the asset and submits its supply.
/// Gives back the position after it.
pub open spec fn spec_submit_supply(
    env: &Env,
    at: usize,
    from: Address,
    amount: i128,
    config: &Config,
) -> Result<(Option<Option<i128>>, usize), Halt<Call>> {
    chain(env.done(at, Call::Authorize { entry: Authorization::Transfer {
        token: config.asset,
        from: env.contract,
        to: config.pool,
        amount,
    } }), |_authorized: ()|
    chain(env.position(
        (at + 1) as usize,
        submission(env, RequestType::Supply, from, amount, config),
    ), |position: Option<Option<i128>>|
    Ok((position, (at + 2) as usize))))
}

/// Authorizes the pool to take `amount` of the asset and submits its supply.
/// Gives back the position after it.
#[verifier::when_used_as_spec(spec_submit_supply)]
pub fn submit_supply(env: &Env, at: usize, from: Address, amount: i128, config: &Config) -> (r:
    Result<(Option<Option<i128>>, usize), Halt<Call>>)
    ensures
        r == spec_submit_supply(env, at, from, amount, config),
        r matches Ok((_, next)) ==> next <= env.replies@.len(),
{
    env.done(
        at,
        Call::Authorize {
            entry: Authorization::Transfer {
                token: config.asset,
                from: env.contract,
                to: config.pool,
                amount,
            },
        },
    )?;
    let position = env.position(
        at + 1,
        submission(env, RequestType::Supply, from, amount, config),
    )?;
    Ok((position, at + 2))
}

/// Supplies `amount` of the asset, which the strategy holds, to the pool. On a
/// reinvestment, gives back by how many b_tokens the supply of the strategy
/// grew; otherwise `amount`.
pub open spec fn spec_supply(
    env: &Env,
    at: usize,
    from: Address,
    amount: i128,
    config: &Config,
    is_reinvest: bool,
) -> Result<(i128, usize), Halt<Call>> {
    if is_reinvest {
        chain(env.position(at, Call::PoolSupplyPosition {
            pool: config.pool,
            owner: env.contract,
            reserve_id: config.reserve_id,
        }), |before: Option<Option<i128>>|
        chain(submit_supply(
            env,
            (at + 1) as usize,
            from,
            amount,
            config,
        ), |after: (Option<Option<i128>>, usize)|
        match supplied(after.0).checked_sub(supplied(before)) {
            Some(b_tokens) => Ok((b_tokens, after.1)),
            None => Err(Halt::Error(StrategyError::UnderflowOverflow)),
        }))
    } else {
        chain(submit_supply(
            env,
            at,
            from,
            amount,
            config,
        ), |after: (Option<Option<i128>>, usize)|
        Ok((amount, after.1)))
    }
}

/// Supplies `amount` of the asset, which the strategy holds, to the pool. On a
/// reinvestment, gives back by how many b_tokens the supply of the strategy
/// grew; otherwise `amount`.
#[verifier::when_used_as_spec(spec_supply)]
pub fn supply(
    env: &Env,
    at: usize,
    from: Address,
    amount: i128,
    config: &Config,
    is_reinvest: bool,
) -> (r: Result<(i128, usize), Halt<Call>>)
    ensures
        r == spec_supply(env, at, from, amount, config, is_reinvest),
        r matches Ok((_, next)) ==> next <= env.replies@.len(),
{
    if is_reinvest {
        let before = env.position(
            at,
            Call::PoolSupplyPosition {
                pool: config.pool,
                owner: env.contract,
                reserve_id: config.reserve_id,
            },
        )?;
        let pre_supply_amount: i128 = supplied(before);
        let (after, at) = submit_supply(env, at + 1, from, amount, config)?;
        let new_supply_amount: i128 = supplied(after);
        match new_supply_amount.checked_sub(pre_supply_amount) {
            Some(b_tokens_amount) => Ok((b_tokens_amount, at)),
            None => Err(Halt::Error(StrategyError::UnderflowOverflow)),
        }
    } else {
        let (_, at) = submit_supply(env, at, from, amount, config)?;
        Ok((amount, at))
    }
}

/// Withdraws `amount` of the asset from the pool to `to`. Gives back `amount`.
pub open spec fn spec_withdraw(
    env: &Env,
    at: usize,
    to: Address,
    amount: i128,
    config: &Config,
) -> Result<(i128, usize), Halt<Call>> {
    chain(env.position(
        at,
        submission(env, RequestType::Withdraw, to, amount, config),
    ), |_position: Option<Option<i128>>|
    Ok((amount, (at + 1) as usize)))
}

/// Withdraws `amount` of the asset from the pool to `to`. Gives back `amount`.
#[verifier::when_used_as_spec(spec_withdraw)]
pub fn withdraw(env: &Env, at: usize, to: Address, amount: i128, config: &Config) -> (r: Result<
    (i128, usize),
    Halt<Call>,
>)
    ensures
        r == spec_withdraw(env, at, to, amount, config),
        r matches Ok((_, next)) ==> next <= env.replies@.len(),
{
    env.position(at, submission(env, RequestType::Withdraw, to, amount, config))?;
    Ok((amount, at + 1))
}

/// Claims the emissions of `from`. Gives back how much BLND there was.
pub open spec fn spec_claim(env: &Env, at: usize, from: Address, config: &Config) -> Result<
    (i128, usize),
    Halt<Call>,
> {
    chain(env.amount(at, Call::PoolClaim {
        pool: config.pool,
        from,
        reserve_token_ids: config.claim_ids,
        to: from,
    }), |claimed: i128|
    Ok((claimed, (at + 1) as usize)))
}

/// Claims the emissions of `from`. Gives back how much BLND there was.
#[verifier::when_used_as_spec(spec_claim)]
pub fn claim(env: &Env, at: usize, from: Address, config: &Config) -> (r: Result<
    (i128, usize),
    Halt<Call>,
>)
    ensures
        r == spec_claim(env, at, from, config),
        r matches Ok((_, next)) ==> next <= env.replies@.len(),
{
    let claimed: i128 = env.amount(
        at,
        Call::PoolClaim {
            pool: config.pool,
            from,
            reserve_token_ids: config.claim_ids,
            to: from,
        },
    )?;
    Ok((claimed, at + 1))
}

/// The b_rate of the asset in the pool.
pub open spec fn spec_reserve_b_rate(env: &Env, at: usize, config: &Config) -> Result<
    (i128, usize),
    Halt<Call>,
> {
    chain(env.amount(at, Call::PoolBRate {
        pool: config.pool,
        asset: config.asset,
    }), |b_rate: i128|
    Ok((b_rate, (at + 1) as usize)))
}

/// The b_rate of the asset in the pool.
#[verifier::when_used_as_spec(spec_reserve_b_rate)]
pub fn reserve_b_rate(env: &Env, at: usize, config: &Config) -> (r: Result<
    (i128, usize),
    Halt<Call>,
>)
    ensures
        r == spec_reserve_b_rate(env, at, config),
        r matches Ok((_, next)) ==> next <= env.replies@.len(),
{
    let b_rate: i128 = env.amount(
        at,
        Call::PoolBRate { pool: config.pool, asset: config.asset },
    )?;
    Ok((b_rate, at + 1))
}

/// What a swap along a path of two tokens brought of the second.
pub open spec fn spec_amount_out(swapped: &Result<Vec<i128>, StrategyError>) -> Result<
    i128,
    Halt<Call>,
> {
    match swapped {
        Err(error) => Err(Halt::Error(*error)),
        Ok(amounts) => if amounts@.len() > 1 {
            Ok(amounts@[1])
        } else {
            Err(Halt::Error(StrategyError::InternalSwapError))
        },
    }
}

/// What a swap along a path of two tokens brought of the second.
#[verifier::when_used_as_spec(spec_amount_out)]
pub fn amount_out(swapped: &Result<Vec<i128>, StrategyError>) -> (r: Result<i128, Halt<Call>>)
    ensures
        r == spec_amount_out(swapped),
{
    match swapped {
        Err(error) => Err(Halt::Error(*error)),
        Ok(amounts) => if amounts.len() > 1 {
            Ok(amounts[1])
        } else {
            Err(Halt::Error(StrategyError::InternalSwapError))
        },
    }
}

/// Swaps the BLND that the strategy holds for the asset and supplies what came
/// of it, if the reward threshold is reached. Gives back the reserve record.
pub open spec fn spec_perform_reinvest(
    env: &Env,
    at: usize,
    config: &Config,
    amount_out_min: i128,
) -> Result<(StrategyReserves, usize), Halt<Call>> {
    chain(env.amount(at, Call::TokenBalance {
        token: config.blend_token,
        holder: env.contract,
    }), |blnd_balance: i128|
    if blnd_balance < config.reward_threshold {
        reserves::get_strategy_reserve_updated(env, (at + 1) as usize, config)
    } else {
        chain(env.time((at + 1) as usize, Call::LedgerTimestamp), |now: u64|
        if now == u64::MAX {
            Err(Halt::Error(StrategyError::UnderflowOverflow))
        } else {
            chain(env.swapped((at + 2) as usize, Call::SwapExactTokensForTokens {
                router: config.router,
                amount_in: blnd_balance,
                amount_out_min,
                path: (config.blend_token, config.asset),
                to: env.contract,
                deadline: (now + 1) as u64,
            }), |swapped: &Result<Vec<i128>, StrategyError>|
            chain(amount_out(swapped), |bought: i128|
            chain(supply(
                env,
                (at + 3) as usize,
                env.contract,
                bought,
                config,
                true,
            ), |minted: (i128, usize)|
            reserves::harvest(env, minted.1, minted.0, config))))
        })
    })
}

/// Swaps the BLND that the strategy holds for the asset and supplies what came
/// of it, if the reward threshold is reached. Gives back the reserve record.
#[verifier::when_used_as_spec(spec_perform_reinvest)]
pub fn perform_reinvest(env: &Env, at: usize, config: &Config, amount_out_min: i128) -> (r: Result<
    (StrategyReserves, usize),
    Halt<Call>,
>)
    ensures
        r == spec_perform_reinvest(env, at, config, amount_out_min),
        r matches Ok((_, next)) ==> next <= env.replies@.len(),
{
    let blnd_balance: i128 = env.amount(
        at,
        Call::TokenBalance { token: config.blend_token, holder: env.contract },
    )?;
    if blnd_balance < config.reward_threshold {
        return reserves::get_strategy_reserve_updated(env, at + 1, config);
    }
    let now: u64 = env.time(at + 1, Call::LedgerTimestamp)?;
    let deadline: u64 = match now.checked_add(1) {
        Some(deadline) => deadline,
        None => return Err(Halt::Error(StrategyError::UnderflowOverflow)),
    };
    let swapped = env.swapped(
        at + 2,
        Call::SwapExactTokensForTokens {
            router: config.router,
            amount_in: blnd_balance,
            amount_out_min,
            path: (config.blend_token, config.asset),
            to: env.contract,
            deadline,
        },
    )?;
    let bought: i128 = amount_out(swapped)?;
    let (b_tokens_minted, at) = supply(env, at + 3, env.contract, bought, config, true)?;
    reserves::harvest(env, at, b_tokens_minted, config)
}

} // verus!
