use crate::address::Address;
use crate::blend::blend_pool;
use crate::blend::calls::{Call, Env};
use crate::blend::constants::{LOCKED_SHARES, SCALAR_12};
use crate::blend::storage::Config;
use crate::error::StrategyError;
use crate::fixed_point::{
    fixed_div_floor, fixed_mul_ceil, fixed_mul_floor, mul_div_ceil, mul_div_floor,
};
use crate::session::{chain, Halt};
use vstd::prelude::*;

verus! {

/// What the strategy holds in the pool for all of its vaults.
#[derive(Clone, Copy, Debug, PartialEq, Eq, Structural)]
pub struct StrategyReserves {
    /// The shares of all vaults, and the locked ones.
    pub total_shares: i128,
    /// The b_tokens of the strategy.
    pub total_b_tokens: i128,
    /// What a b_token is worth in the underlying asset, in twelve decimals.
    pub b_rate: i128,
}

/// `value`, or `error` if there is none.
pub open spec fn or_error(value: Option<i128>, error: StrategyError) -> Result<
    i128,
    StrategyError,
> {
    match value {
        Some(value) => Ok(value),
        None => Err(error),
    }
}

/// `result`, with its error as what the entry point returns.
pub open spec fn spec_returning<T>(result: Result<T, StrategyError>) -> Result<T, Halt<Call>> {
    match result {
        Ok(value) => Ok(value),
        Err(error) => Err(Halt::Error(error)),
    }
}

/// `result`, with its error as what the entry point returns.
#[verifier::when_used_as_spec(spec_returning)]
pub fn returning<T>(result: Result<T, StrategyError>) -> (r: Result<T, Halt<Call>>)
    ensures
        r == spec_returning(result),
{
    match result {
        Ok(value) => Ok(value),
        Err(error) => Err(Halt::Error(error)),
    }
}

impl StrategyReserves {
    /// The shares that `amount` of b_tokens buys, rounded down; as many as
    /// b_tokens if there are no shares or no b_tokens.
    pub open spec fn spec_b_tokens_to_shares_down(&self, amount: i128) -> Result<
        i128,
        StrategyError,
    > {
        if self.total_shares == 0 || self.total_b_tokens == 0 {
            Ok(amount)
        } else {
            or_error(
                mul_div_floor(amount, self.total_shares, self.total_b_tokens),
                StrategyError::ArithmeticError,
            )
        }
    }

    /// The shares that `amount` of b_tokens buys, rounded down; as many as
    /// b_tokens if there are no shares or no b_tokens.
    #[verifier::when_used_as_spec(spec_b_tokens_to_shares_down)]
    pub fn b_tokens_to_shares_down(&self, amount: i128) -> (r: Result<i128, StrategyError>)
        ensures
            r == self.spec_b_tokens_to_shares_down(amount),
    {
        if self.total_shares == 0 || self.total_b_tokens == 0 {
            return Ok(amount);
        }
        match fixed_mul_floor(amount, self.total_shares, self.total_b_tokens) {
            Some(shares) => Ok(shares),
            None => Err(StrategyError::ArithmeticError),
        }
    }

    /// The shares that `amount` of b_tokens costs, rounded up; as many as
    /// b_tokens if there are no shares or no b_tokens.
    pub open spec fn spec_b_tokens_to_shares_up(&self, amount: i128) -> Result<
        i128,
        StrategyError,
    > {
        if self.total_shares == 0 || self.total_b_tokens == 0 {
            Ok(amount)
        } else {
            or_error(
                mul_div_ceil(amount, self.total_shares, self.total_b_tokens),
                StrategyError::ArithmeticError,
            )
        }
    }

    /// The shares that `amount` of b_tokens costs, rounded up; as many as
    /// b_tokens if there are no shares or no b_tokens.
    #[verifier::when_used_as_spec(spec_b_tokens_to_shares_up)]
    pub fn b_tokens_to_shares_up(&self, amount: i128) -> (r: Result<i128, StrategyError>)
        ensures
            r == self.spec_b_tokens_to_shares_up(amount),
    {
        if self.total_shares == 0 || self.total_b_tokens == 0 {
            return Ok(amount);
        }
        match fixed_mul_ceil(amount, self.total_shares, self.total_b_tokens) {
            Some(shares) => Ok(shares),
            None => Err(StrategyError::ArithmeticError),
        }
    }

    /// The b_tokens behind `amount` of shares, rounded down.
    pub open spec fn spec_shares_to_b_tokens_down(&self, amount: i128) -> Result<
        i128,
        StrategyError,
    > {
        or_error(
            mul_div_floor(amount, self.total_b_tokens, self.total_shares),
            StrategyError::DivisionByZero,
        )
    }

    /// The b_tokens behind `amount` of shares, rounded down.
    #[verifier::when_used_as_spec(spec_shares_to_b_tokens_down)]
    pub fn shares_to_b_tokens_down(&self, amount: i128) -> (r: Result<i128, StrategyError>)
        ensures
            r == self.spec_shares_to_b_tokens_down(amount),
    {
        match fixed_div_floor(amount, self.total_shares, self.total_b_tokens) {
            Some(b_tokens) => Ok(b_tokens),
            None => Err(StrategyError::DivisionByZero),
        }
    }

    /// What `amount` of b_tokens is worth in the underlying asset, rounded
    /// down.
    pub open spec fn spec_b_tokens_to_underlying_down(&self, amount: i128) -> Result<
        i128,
        StrategyError,
    > {
        or_error(mul_div_floor(amount, self.b_rate, SCALAR_12), StrategyError::ArithmeticError)
    }

    /// What `amount` of b_tokens is worth in the underlying asset, rounded
    /// down.
    #[verifier::when_used_as_spec(spec_b_tokens_to_underlying_down)]
    pub fn b_tokens_to_underlying_down(&self, amount: i128) -> (r: Result<i128, StrategyError>)
        ensures
            r == self.spec_b_tokens_to_underlying_down(amount),
    {
        match fixed_mul_floor(amount, self.b_rate, SCALAR_12) {
            Some(underlying) => Ok(underlying),
            None => Err(StrategyError::ArithmeticError),
        }
    }

    /// Takes over the b_rate of the pool. Gives back where the script goes on.
    pub fn update_rate(&mut self, env: &Env, at: usize, config: &Config) -> (r: Result<
        usize,
        Halt<Call>,
    >)
        ensures
            match blend_pool::spec_reserve_b_rate(env, at, config) {
                Ok((b_rate, next)) => r == Ok::<usize, Halt<Call>>(next) && *final(self) == (
                StrategyReserves { b_rate, ..*old(self) }) && next <= env.replies@.len(),
                Err(halt) => r == Err::<usize, Halt<Call>>(halt) && *final(self) == *old(self),
            },
    {
        let (b_rate, next) = blend_pool::reserve_b_rate(env, at, config)?;
        self.b_rate = b_rate;
        Ok(next)
    }
}

/// The stored reserve record, at the b_rate of the pool.
pub open spec fn spec_get_strategy_reserve_updated(env: &Env, at: usize, config: &Config) -> Result<
    (StrategyReserves, usize),
    Halt<Call>,
> {
    chain(env.reserves(at, Call::GetStrategyReserves), |stored: StrategyReserves|
    chain(blend_pool::reserve_b_rate(env, (at + 1) as usize, config), |rate: (i128, usize)|
    Ok((StrategyReserves { b_rate: rate.0, ..stored }, rate.1))))
}

/// The stored reserve record, at the b_rate of the pool.
#[verifier::when_used_as_spec(spec_get_strategy_reserve_updated)]
pub fn get_strategy_reserve_updated(env: &Env, at: usize, config: &Config) -> (r: Result<
    (StrategyReserves, usize),
    Halt<Call>,
>)
    ensures
        r == spec_get_strategy_reserve_updated(env, at, config),
        r matches Ok((_, next)) ==> next <= env.replies@.len(),
{
    let mut reserve = env.reserves(at, Call::GetStrategyReserves)?;
    let next: usize = reserve.update_rate(env, at + 1, config)?;
    Ok((reserve, next))
}

/// Stores the shares of the vault `from`; an error if they are negative.
pub open spec fn spec_set_validated_vault_shares(
    env: &Env,
    at: usize,
    from: Address,
    vault_shares: i128,
) -> Result<(i128, usize), Halt<Call>> {
    if vault_shares >= 0 {
        chain(env.done(at, Call::SetVaultShares {
            vault: from,
            shares: vault_shares,
        }), |_set: ()|
        Ok((vault_shares, (at + 1) as usize)))
    } else {
        Err(Halt::Error(StrategyError::OnlyPositiveAmountAllowed))
    }
}

/// Stores the shares of the vault `from`; an error if they are negative.
#[verifier::when_used_as_spec(spec_set_validated_vault_shares)]
pub fn set_validated_vault_shares(env: &Env, at: usize, from: Address, vault_shares: i128) -> (r:
    Result<(i128, usize), Halt<Call>>)
    ensures
        r == spec_set_validated_vault_shares(env, at, from, vault_shares),
        r matches Ok((_, next)) ==> next <= env.replies@.len(),
{
    if vault_shares >= 0 {
        env.done(at, Call::SetVaultShares { vault: from, shares: vault_shares })?;
        Ok((vault_shares, at + 1))
    } else {
        Err(Halt::Error(StrategyError::OnlyPositiveAmountAllowed))
    }
}

/// The shares of a vault that had `old_vault_shares`, and the reserve record,
/// after `b_tokens_amount` of b_tokens came in for it. The first deposit of
/// all leaves `LOCKED_SHARES` of its shares to nobody.
pub open spec fn spec_credit(
    old_vault_shares: i128,
    b_tokens_amount: i128,
    reserves: &StrategyReserves,
) -> Result<(i128, StrategyReserves), Halt<Call>> {
    chain(returning(reserves.b_tokens_to_shares_down(b_tokens_amount)), |minted: i128| {
    let locked = if reserves.total_shares == 0 {
        LOCKED_SHARES as int
    } else {
        0
    };
    if minted <= locked {
        Err(Halt::Abort(StrategyError::InvalidSharesMinted))
    } else if reserves.total_shares + minted > i128::MAX || reserves.total_b_tokens
        + b_tokens_amount > i128::MAX || reserves.total_b_tokens + b_tokens_amount < i128::MIN
        || old_vault_shares + (minted - locked) > i128::MAX {
        Err(Halt::Error(StrategyError::UnderflowOverflow))
    } else {
        Ok((
            (old_vault_shares + (minted - locked)) as i128,
            StrategyReserves {
                total_shares: (reserves.total_shares + minted) as i128,
                total_b_tokens: (reserves.total_b_tokens + b_tokens_amount) as i128,
                b_rate: reserves.b_rate,
            },
        ))
    }
    })
}

/// The shares of a vault that had `old_vault_shares`, and the reserve record,
/// after `b_tokens_amount` of b_tokens came in for it. The first deposit of
/// all leaves `LOCKED_SHARES` of its shares to nobody.
#[verifier::when_used_as_spec(spec_credit)]
pub fn credit(old_vault_shares: i128, b_tokens_amount: i128, reserves: &StrategyReserves) -> (r:
    Result<(i128, StrategyReserves), Halt<Call>>)
    ensures
        r == spec_credit(old_vault_shares, b_tokens_amount, reserves),
{
    let new_minted_shares: i128 = returning(reserves.b_tokens_to_shares_down(b_tokens_amount))?;
    if new_minted_shares <= 0 {
        return Err(Halt::Abort(StrategyError::InvalidSharesMinted));
    }
    let new_vault_minted_shares: i128 = if reserves.total_shares == 0 {
        if new_minted_shares <= LOCKED_SHARES {
            return Err(Halt::Abort(StrategyError::InvalidSharesMinted));
        }
        new_minted_shares - LOCKED_SHARES
    } else {
        new_minted_shares
    };
    let total_shares: i128 = match reserves.total_shares.checked_add(new_minted_shares) {
        Some(total_shares) => total_shares,
        None => return Err(Halt::Error(StrategyError::UnderflowOverflow)),
    };
    let total_b_tokens: i128 = match reserves.total_b_tokens.checked_add(b_tokens_amount) {
        Some(total_b_tokens) => total_b_tokens,
        None => return Err(Halt::Error(StrategyError::UnderflowOverflow)),
    };
    let new_vault_shares: i128 = match old_vault_shares.checked_add(new_vault_minted_shares) {
        Some(new_vault_shares) => new_vault_shares,
        None => return Err(Halt::Error(StrategyError::UnderflowOverflow)),
    };
    Ok(
        (
            new_vault_shares,
            StrategyReserves { total_shares, total_b_tokens, b_rate: reserves.b_rate },
        ),
    )
}

/// Books `b_tokens_amount` of b_tokens that came in for the vault `from`. Gives
/// back its shares and the reserve record.
pub open spec fn spec_deposit(
    env: &Env,
    at: usize,
    from: Address,
    b_tokens_amount: i128,
    reserves: &StrategyReserves,
) -> Result<(i128, StrategyReserves, usize), Halt<Call>> {
    if b_tokens_amount <= 0 {
        Err(Halt::Error(StrategyError::BTokensAmountBelowMin))
    } else {
        chain(env.amount(at, Call::GetVaultShares { vault: from }), |old_vault_shares: i128|
        chain(credit(
            old_vault_shares,
            b_tokens_amount,
            reserves,
        ), |booked: (i128, StrategyReserves)|
        chain(env.done((at + 1) as usize, Call::SetStrategyReserves {
            reserves: booked.1,
        }), |_set: ()|
        chain(set_validated_vault_shares(
            env,
            (at + 2) as usize,
            from,
            booked.0,
        ), |set: (i128, usize)|
        Ok((booked.0, booked.1, set.1))))))
    }
}

/// Books `b_tokens_amount` of b_tokens that came in for the vault `from`. Gives
/// back its shares and the reserve record.
#[verifier::when_used_as_spec(spec_deposit)]
pub fn deposit(
    env: &Env,
    at: usize,
    from: Address,
    b_tokens_amount: i128,
    reserves: &StrategyReserves,
) -> (r: Result<(i128, StrategyReserves, usize), Halt<Call>>)
    ensures
        r == spec_deposit(env, at, from, b_tokens_amount, reserves),
        r matches Ok((_, _, next)) ==> next <= env.replies@.len(),
{
    if b_tokens_amount <= 0 {
        return Err(Halt::Error(StrategyError::BTokensAmountBelowMin));
    }
    let old_vault_shares: i128 = env.amount(at, Call::GetVaultShares { vault: from })?;
    let (new_vault_shares, reserves) = credit(old_vault_shares, b_tokens_amount, reserves)?;
    env.done(at + 1, Call::SetStrategyReserves { reserves })?;
    let (_, next) = set_validated_vault_shares(env, at + 2, from, new_vault_shares)?;
    Ok((new_vault_shares, reserves, next))
}

/// The shares of a vault that had `vault_shares`, and the reserve record, after
/// `b_tokens_amount` of b_tokens went out for it.
pub open spec fn spec_debit(
    vault_shares: i128,
    b_tokens_amount: i128,
    reserves: &StrategyReserves,
) -> Result<(i128, StrategyReserves), Halt<Call>> {
    chain(returning(reserves.b_tokens_to_shares_up(b_tokens_amount)), |burnt: i128|
    if reserves.total_shares < burnt || reserves.total_b_tokens < b_tokens_amount {
        Err(Halt::Error(StrategyError::InsufficientBalance))
    } else if reserves.total_shares - burnt > i128::MAX || reserves.total_b_tokens - b_tokens_amount
        > i128::MAX {
        Err(Halt::Error(StrategyError::UnderflowOverflow))
    } else if burnt > vault_shares {
        Err(Halt::Error(StrategyError::InsufficientBalance))
    } else if vault_shares - burnt > i128::MAX {
        Err(Halt::Error(StrategyError::UnderflowOverflow))
    } else {
        Ok((
            (vault_shares - burnt) as i128,
            StrategyReserves {
                total_shares: (reserves.total_shares - burnt) as i128,
                total_b_tokens: (reserves.total_b_tokens - b_tokens_amount) as i128,
                b_rate: reserves.b_rate,
            },
        ))
    })
}

/// The shares of a vault that had `vault_shares`, and the reserve record, after
/// `b_tokens_amount` of b_tokens went out for it.
#[verifier::when_used_as_spec(spec_debit)]
pub fn debit(vault_shares: i128, b_tokens_amount: i128, reserves: &StrategyReserves) -> (r: Result<
    (i128, StrategyReserves),
    Halt<Call>,
>)
    ensures
        r == spec_debit(vault_shares, b_tokens_amount, reserves),
{
    let share_amount: i128 = returning(reserves.b_tokens_to_shares_up(b_tokens_amount))?;
    if reserves.total_shares < share_amount || reserves.total_b_tokens < b_tokens_amount {
        return Err(Halt::Error(StrategyError::InsufficientBalance));
    }
    let total_shares: i128 = match reserves.total_shares.checked_sub(share_amount) {
        Some(total_shares) => total_shares,
        None => return Err(Halt::Error(StrategyError::UnderflowOverflow)),
    };
    let total_b_tokens: i128 = match reserves.total_b_tokens.checked_sub(b_tokens_amount) {
        Some(total_b_tokens) => total_b_tokens,
        None => return Err(Halt::Error(StrategyError::UnderflowOverflow)),
    };
    if share_amount > vault_shares {
        return Err(Halt::Error(StrategyError::InsufficientBalance));
    }
    let rest: i128 = match vault_shares.checked_sub(share_amount) {
        Some(rest) => rest,
        None => return Err(Halt::Error(StrategyError::UnderflowOverflow)),
    };
    Ok((rest, StrategyReserves { total_shares, total_b_tokens, b_rate: reserves.b_rate }))
}

/// Books `b_tokens_amount` of b_tokens that went out for the vault `from`.
/// Gives back its shares and the reserve record.
pub open spec fn spec_withdraw(
    env: &Env,
    at: usize,
    from: Address,
    b_tokens_amount: i128,
    reserves: &StrategyReserves,
) -> Result<(i128, StrategyReserves, usize), Halt<Call>> {
    if b_tokens_amount <= 0 {
        Err(Halt::Error(StrategyError::BTokensAmountBelowMin))
    } else {
        chain(env.amount(at, Call::GetVaultShares { vault: from }), |vault_shares: i128|
        chain(debit(vault_shares, b_tokens_amount, reserves), |booked: (i128, StrategyReserves)|
        chain(env.done((at + 1) as usize, Call::SetStrategyReserves {
            reserves: booked.1,
        }), |_set: ()|
        chain(set_validated_vault_shares(
            env,
            (at + 2) as usize,
            from,
            booked.0,
        ), |set: (i128, usize)|
        Ok((booked.0, booked.1, set.1))))))
    }
}

/// Books `b_tokens_amount` of b_tokens that went out for the vault `from`.
/// Gives back its shares and the reserve record.
#[verifier::when_used_as_spec(spec_withdraw)]
pub fn withdraw(
    env: &Env,
    at: usize,
    from: Address,
    b_tokens_amount: i128,
    reserves: &StrategyReserves,
) -> (r: Result<(i128, StrategyReserves, usize), Halt<Call>>)
    ensures
        r == spec_withdraw(env, at, from, b_tokens_amount, reserves),
        r matches Ok((_, _, next)) ==> next <= env.replies@.len(),
{
    if b_tokens_amount <= 0 {
        return Err(Halt::Error(StrategyError::BTokensAmountBelowMin));
    }
    let vault_shares: i128 = env.amount(at, Call::GetVaultShares { vault: from })?;
    let (rest, reserves) = debit(vault_shares, b_tokens_amount, reserves)?;
    env.done(at + 1, Call::SetStrategyReserves { reserves })?;
    let (_, next) = set_validated_vault_shares(env, at + 2, from, rest)?;
    Ok((rest, reserves, next))
}

/// The reserve record after `b_tokens_amount` of b_tokens came in for all
/// vaults together.
pub open spec fn spec_accrue(b_tokens_amount: i128, reserves: &StrategyReserves) -> Result<
    StrategyReserves,
    Halt<Call>,
> {
    if b_tokens_amount <= 0 {
        Err(Halt::Abort(StrategyError::BTokensAmountBelowMin))
    } else if reserves.total_b_tokens + b_tokens_amount > i128::MAX {
        Err(Halt::Error(StrategyError::UnderflowOverflow))
    } else {
        Ok(StrategyReserves {
            total_b_tokens: (reserves.total_b_tokens + b_tokens_amount) as i128,
            ..*reserves
        })
    }
}

/// The reserve record after `b_tokens_amount` of b_tokens came in for all
/// vaults together.
#[verifier::when_used_as_spec(spec_accrue)]
pub fn accrue(b_tokens_amount: i128, reserves: &StrategyReserves) -> (r: Result<
    StrategyReserves,
    Halt<Call>,
>)
    ensures
        r == spec_accrue(b_tokens_amount, reserves),
{
    if b_tokens_amount <= 0 {
        return Err(Halt::Abort(StrategyError::BTokensAmountBelowMin));
    }
    match reserves.total_b_tokens.checked_add(b_tokens_amount) {
        Some(total_b_tokens) => Ok(StrategyReserves { total_b_tokens, ..*reserves }),
        None => Err(Halt::Error(StrategyError::UnderflowOverflow)),
    }
}

/// Books `b_tokens_amount` of b_tokens that came in for all vaults together.
/// Gives back the reserve record.
pub open spec fn spec_harvest(
    env: &Env,
    at: usize,
    b_tokens_amount: i128,
    config: &Config,
) -> Result<(StrategyReserves, usize), Halt<Call>> {
    chain(get_strategy_reserve_updated(env, at, config), |updated: (StrategyReserves, usize)|
    chain(accrue(b_tokens_amount, &updated.0), |reserves: StrategyReserves|
    chain(env.done(updated.1, Call::SetStrategyReserves { reserves }), |_set: ()|
    Ok((reserves, (updated.1 + 1) as usize)))))
}

/// Books `b_tokens_amount` of b_tokens that came in for all vaults together.
/// Gives back the reserve record.
#[verifier::when_used_as_spec(spec_harvest)]
pub fn harvest(env: &Env, at: usize, b_tokens_amount: i128, config: &Config) -> (r: Result<
    (StrategyReserves, usize),
    Halt<Call>,
>)
    ensures
        r == spec_harvest(env, at, b_tokens_amount, config),
        r matches Ok((_, next)) ==> next <= env.replies@.len(),
{
    let (reserves, at) = get_strategy_reserve_updated(env, at, config)?;
    let reserves = accrue(b_tokens_amount, &reserves)?;
    env.done(at, Call::SetStrategyReserves { reserves })?;
    Ok((reserves, at + 1))
}

} // verus!
