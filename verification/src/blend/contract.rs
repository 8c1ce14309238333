use crate::address::{Address, Val};
use crate::arguments::{address_arg, i128_arg};
use crate::arith::{big_endian, i128_from_be_bytes, scale_i128, to_signed};
use crate::blend::blend_pool;
use crate::blend::calls::{Call, Env};
use crate::blend::constants::SCALAR_12;
use crate::blend::reserves;
use crate::blend::reserves::{returning, StrategyReserves};
use crate::blend::storage::Config;
use crate::blend::utils::{
    calculate_optimal_deposit_amount, calculate_optimal_withdraw_amount, shares_to_underlying,
};
use crate::error::StrategyError;
use crate::session::{chain, Halt};
use vstd::prelude::*;

verus! {

pub const STRATEGY_NAME: &'static str = "BlendStrategy";

/// Supplies the asset of its vaults to a Blend pool.
///
/// A deposit pulls the asset from the vault and supplies it; what the strategy
/// holds belongs to its vaults by shares. BLND rewards are claimed by a keeper,
/// swapped for the asset and supplied for all vaults together.
pub struct BlendStrategy;

/// An error unless `amount` is positive.
pub open spec fn spec_check_positive_amount(amount: i128) -> Result<(), StrategyError> {
    if amount <= 0 {
        Err(StrategyError::OnlyPositiveAmountAllowed)
    } else {
        Ok(())
    }
}

/// An error unless `amount` is positive.
#[verifier::when_used_as_spec(spec_check_positive_amount)]
pub fn check_positive_amount(amount: i128) -> (r: Result<(), StrategyError>)
    ensures
        r == spec_check_positive_amount(amount),
{
    if amount <= 0 {
        Err(StrategyError::OnlyPositiveAmountAllowed)
    } else {
        Ok(())
    }
}

/// The stored configuration; its error is what the entry point returns.
pub open spec fn spec_get_config(env: &Env, at: usize) -> Result<(Config, usize), Halt<Call>> {
    chain(env.configured(at, Call::GetConfig), |stored: &Result<Config, StrategyError>|
    match stored {
        Ok(config) => Ok((*config, (at + 1) as usize)),
        Err(error) => Err(Halt::Error(*error)),
    })
}

/// The stored configuration; its error is what the entry point returns.
#[verifier::when_used_as_spec(spec_get_config)]
pub fn get_config(env: &Env, at: usize) -> (r: Result<(Config, usize), Halt<Call>>)
    ensures
        r == spec_get_config(env, at),
        r matches Ok((_, next)) ==> next <= env.replies@.len(),
{
    let stored = env.configured(at, Call::GetConfig)?;
    match stored {
        Ok(config) => Ok((*config, at + 1)),
        Err(error) => Err(Halt::Error(*error)),
    }
}

/// The stored keeper; its error is what the entry point returns.
pub open spec fn spec_stored_keeper(env: &Env, at: usize) -> Result<(Address, usize), Halt<Call>> {
    chain(env.keeper(at, Call::GetKeeper), |stored: Result<Address, StrategyError>|
    chain(returning(stored), |keeper: Address|
    Ok((keeper, (at + 1) as usize))))
}

/// The stored keeper; its error is what the entry point returns.
#[verifier::when_used_as_spec(spec_stored_keeper)]
pub fn stored_keeper(env: &Env, at: usize) -> (r: Result<(Address, usize), Halt<Call>>)
    ensures
        r == spec_stored_keeper(env, at),
        r matches Ok((_, next)) ==> next <= env.replies@.len(),
{
    let stored = env.keeper(at, Call::GetKeeper)?;
    let keeper = returning(stored)?;
    Ok((keeper, at + 1))
}

/// The least that a harvest accepts out of its swap: what sixteen big-endian
/// bytes of `data` spell, or nothing if there are no bytes. Traps on another
/// number of bytes.
pub open spec fn spec_min_out(data: &Option<Vec<u8>>) -> Result<i128, Halt<Call>> {
    match data {
        None => Ok(0),
        Some(bytes) => if bytes@.len() == 0 {
            Ok(0)
        } else if bytes@.len() != 16 {
            Err(Halt::Trap)
        } else {
            Ok(to_signed(big_endian(bytes@) as u128))
        },
    }
}

/// The least that a harvest accepts out of its swap: what sixteen big-endian
/// bytes of `data` spell, or nothing if there are no bytes. Traps on another
/// number of bytes.
#[verifier::when_used_as_spec(spec_min_out)]
pub fn min_out(data: &Option<Vec<u8>>) -> (r: Result<i128, Halt<Call>>)
    ensures
        r == spec_min_out(data),
{
    match data {
        None => Ok(0),
        Some(bytes) => if bytes.len() == 0 {
            Ok(0)
        } else if bytes.len() != 16 {
            Err(Halt::Trap)
        } else {
            Ok(i128_from_be_bytes(bytes))
        },
    }
}

/// What one share is worth in the underlying asset, in twelve decimals; zero if
/// there are no shares.
pub open spec fn spec_share_price(reserves: &StrategyReserves) -> Result<i128, StrategyError> {
    if reserves.total_shares > 0 {
        match shares_to_underlying(reserves.total_shares, *reserves) {
            Ok(total) => Ok(scale_i128(total, SCALAR_12, reserves.total_shares)),
            Err(error) => Err(error),
        }
    } else {
        Ok(0)
    }
}

/// What one share is worth in the underlying asset, in twelve decimals; zero if
/// there are no shares.
#[verifier::when_used_as_spec(spec_share_price)]
pub fn share_price(reserves: &StrategyReserves) -> (r: Result<i128, StrategyError>)
    ensures
        r == spec_share_price(reserves),
{
    if reserves.total_shares > 0 {
        let total: i128 = shares_to_underlying(reserves.total_shares, *reserves)?;
        Ok(scale_i128(total, SCALAR_12, reserves.total_shares))
    } else {
        Ok(0)
    }
}

/// Takes `amount` of the asset from the vault `from`, and hands back what of it
/// is not `supplied`.
pub open spec fn spec_pull(
    env: &Env,
    at: usize,
    from: Address,
    amount: i128,
    supplied: i128,
    config: &Config,
) -> Result<usize, Halt<Call>> {
    chain(env.done(at, Call::TokenTransfer {
        token: config.asset,
        from,
        to: env.contract,
        amount,
    }), |_pulled: ()|
    if amount == supplied {
        Ok((at + 1) as usize)
    } else {
        match amount.checked_sub(supplied) {
            None => Err(Halt::Trap),
            Some(refund) =>
                chain(env.done((at + 1) as usize, Call::TokenTransfer {
                    token: config.asset,
                    from: env.contract,
                    to: from,
                    amount: refund,
                }), |_refunded: ()|
                Ok((at + 2) as usize)),
        }
    })
}

/// Takes `amount` of the asset from the vault `from`, and hands back what of it
/// is not `supplied`.
#[verifier::when_used_as_spec(spec_pull)]
pub fn pull(
    env: &Env,
    at: usize,
    from: Address,
    amount: i128,
    supplied: i128,
    config: &Config,
) -> (r: Result<usize, Halt<Call>>)
    ensures
        r == spec_pull(env, at, from, amount, supplied, config),
        r matches Ok(next) ==> next <= env.replies@.len(),
{
    env.done(
        at,
        Call::TokenTransfer { token: config.asset, from, to: env.contract, amount },
    )?;
    if amount == supplied {
        return Ok(at + 1);
    }
    let refund: i128 = match amount.checked_sub(supplied) {
        Some(refund) => refund,
        None => return Err(Halt::Trap),
    };
    env.done(
        at + 1,
        Call::TokenTransfer { token: config.asset, from: env.contract, to: from, amount: refund },
    )?;
    Ok(at + 2)
}

impl BlendStrategy {
    /// Sets the strategy up, once. `init_args` holds the pool, the BLND token,
    /// the router, the reward threshold and the keeper. The index of the
    /// reserve comes from the pool.
    pub open spec fn spec_constructor(env: &Env, asset: Address, init_args: &Vec<Val>) -> Result<
        (),
        Halt<Call>,
    > {
        chain(env.flag(0, Call::IsInitialized), |initialized: bool|
        if initialized {
            Err(Halt::Abort(StrategyError::InvalidArgument))
        } else {
            chain(address_arg(init_args, 0), |pool: Address|
            chain(address_arg(init_args, 1), |blend_token: Address|
            chain(address_arg(init_args, 2), |router: Address|
            chain(i128_arg(init_args, 3), |reward_threshold: i128|
            chain(address_arg(init_args, 4), |keeper: Address|
            chain(env.index(1, Call::PoolReserveIndex { pool, asset }), |reserve_id: u32|
            if reserve_id * 2 + 1 > u32::MAX {
                Err(Halt::Trap)
            } else if check_positive_amount(reward_threshold) is Err {
                Err(Halt::Abort(StrategyError::InvalidArgument))
            } else {
                chain(env.done(2, Call::SetConfig { config: Config {
                    asset,
                    pool,
                    reserve_id,
                    blend_token,
                    router,
                    claim_ids: [(reserve_id * 2 + 1) as u32],
                    reward_threshold,
                } }), |_configured: ()|
                env.done(3, Call::SetKeeper { keeper }))
            }))))))
        })
    }

    /// Sets the strategy up, once. `init_args` holds the pool, the BLND token,
    /// the router, the reward threshold and the keeper. The index of the
    /// reserve comes from the pool.
    pub fn __constructor(env: &Env, asset: Address, init_args: &Vec<Val>) -> (r: Result<
        (),
        Halt<Call>,
    >)
        ensures
            r == Self::spec_constructor(env, asset, init_args),
    {
        let initialized = env.flag(0, Call::IsInitialized)?;
        if initialized {
            return Err(Halt::Abort(StrategyError::InvalidArgument));
        }
        let pool = address_arg(init_args, 0)?;
        let blend_token = address_arg(init_args, 1)?;
        let router = address_arg(init_args, 2)?;
        let reward_threshold: i128 = i128_arg(init_args, 3)?;
        let keeper = address_arg(init_args, 4)?;
        let reserve_id: u32 = env.index(1, Call::PoolReserveIndex { pool, asset })?;
        let doubled: u32 = match reserve_id.checked_mul(2) {
            Some(doubled) => doubled,
            None => return Err(Halt::Trap),
        };
        let claim_id: u32 = match doubled.checked_add(1) {
            Some(claim_id) => claim_id,
            None => return Err(Halt::Trap),
        };
        if check_positive_amount(reward_threshold).is_err() {
            return Err(Halt::Abort(StrategyError::InvalidArgument));
        }
        let config = Config {
            asset,
            pool,
            reserve_id,
            blend_token,
            router,
            claim_ids: [claim_id],
            reward_threshold,
        };
        env.done(2, Call::SetConfig { config })?;
        env.done(3, Call::SetKeeper { keeper })
    }

    /// The underlying asset.
    pub open spec fn spec_asset(env: &Env) -> Result<Address, Halt<Call>> {
        chain(env.done(0, Call::ExtendInstanceTtl), |_extended: ()|
        chain(get_config(env, 1), |stored: (Config, usize)|
        Ok(stored.0.asset)))
    }

    /// The underlying asset.
    pub fn asset(env: &Env) -> (r: Result<Address, Halt<Call>>)
        ensures
            r == Self::spec_asset(env),
    {
        env.done(0, Call::ExtendInstanceTtl)?;
        let (config, _) = get_config(env, 1)?;
        Ok(config.asset)
    }

    /// Deposits `amount` for the vault `from`: pulls it, hands back what would
    /// not buy a further share, supplies the rest and credits the vault. Gives
    /// back its balance in the underlying asset.
    pub open spec fn spec_deposit(env: &Env, amount: i128, from: Address) -> Result<
        i128,
        Halt<Call>,
    > {
        chain(env.done(0, Call::ExtendInstanceTtl), |_extended: ()|
        chain(returning(check_positive_amount(amount)), |_positive: ()|
        chain(env.done(1, Call::RequireAuth { address: from }), |_authorized: ()|
        chain(get_config(env, 2), |stored: (Config, usize)|
        chain(reserves::get_strategy_reserve_updated(
            env,
            stored.1,
            &stored.0,
        ), |updated: (StrategyReserves, usize)|
        chain(returning(calculate_optimal_deposit_amount(
            amount,
            &updated.0,
        )), |optimal: (i128, i128)|
        chain(pull(env, updated.1, from, amount, optimal.0, &stored.0), |pulled: usize|
        chain(blend_pool::supply(
            env,
            pulled,
            from,
            optimal.0,
            &stored.0,
            false,
        ), |supplied: (i128, usize)|
        chain(reserves::deposit(
            env,
            supplied.1,
            from,
            optimal.1,
            &updated.0,
        ), |booked: (i128, StrategyReserves, usize)|
        chain(returning(shares_to_underlying(booked.0, booked.1)), |balance: i128|
        chain(env.done(booked.2, Call::EmitDeposit {
            strategy: STRATEGY_NAME,
            amount: optimal.0,
            from,
        }), |_emitted: ()|
        Ok(balance))))))))))))
    }

    /// Deposits `amount` for the vault `from`: pulls it, hands back what would
    /// not buy a further share, supplies the rest and credits the vault. Gives
    /// back its balance in the underlying asset.
    pub fn deposit(env: &Env, amount: i128, from: Address) -> (r: Result<i128, Halt<Call>>)
        ensures
            r == Self::spec_deposit(env, amount, from),
    {
        env.done(0, Call::ExtendInstanceTtl)?;
        returning(check_positive_amount(amount))?;
        env.done(1, Call::RequireAuth { address: from })?;
        let (config, at) = get_config(env, 2)?;
        let (reserves, at) = reserves::get_strategy_reserve_updated(env, at, &config)?;
        let (optimal_deposit_amount, b_tokens_minted) = returning(
            calculate_optimal_deposit_amount(amount, &reserves),
        )?;
        let at: usize = pull(env, at, from, amount, optimal_deposit_amount, &config)?;
        let (_, at) = blend_pool::supply(env, at, from, optimal_deposit_amount, &config, false)?;
        let (vault_shares, reserves, at) = reserves::deposit(
            env,
            at,
            from,
            b_tokens_minted,
            &reserves,
        )?;
        let underlying_balance: i128 = returning(shares_to_underlying(vault_shares, reserves))?;
        env.done(
            at,
            Call::EmitDeposit { strategy: STRATEGY_NAME, amount: optimal_deposit_amount, from },
        )?;
        Ok(underlying_balance)
    }

    /// Claims the BLND rewards, reinvests them if they reach the threshold, and
    /// reports them with the value of one share. Only for the keeper. `data`
    /// may hold the least that the swap of rewards is to bring.
    pub open spec fn spec_harvest(env: &Env, from: Address, data: &Option<Vec<u8>>) -> Result<
        (),
        Halt<Call>,
    > {
        chain(env.done(0, Call::ExtendInstanceTtl), |_extended: ()|
        chain(stored_keeper(env, 1), |keeper: (Address, usize)|
        chain(env.done(keeper.1, Call::RequireAuth { address: keeper.0 }), |_authorized: ()|
        if from != keeper.0 {
            Err(Halt::Error(StrategyError::NotAuthorized))
        } else {
            chain(get_config(env, (keeper.1 + 1) as usize), |stored: (Config, usize)|
            chain(blend_pool::claim(
                env,
                stored.1,
                env.contract,
                &stored.0,
            ), |claimed: (i128, usize)|
            chain(min_out(data), |amount_out_min: i128|
            chain(blend_pool::perform_reinvest(
                env,
                claimed.1,
                &stored.0,
                amount_out_min,
            ), |after: (StrategyReserves, usize)|
            chain(returning(share_price(&after.0)), |price_per_share: i128|
            env.done(after.1, Call::EmitHarvest {
                strategy: STRATEGY_NAME,
                amount: claimed.0,
                from: keeper.0,
                price_per_share,
            }))))))
        })))
    }

    /// Claims the BLND rewards, reinvests them if they reach the threshold, and
    /// reports them with the value of one share. Only for the keeper. `data`
    /// may hold the least that the swap of rewards is to bring.
    pub fn harvest(env: &Env, from: Address, data: &Option<Vec<u8>>) -> (r: Result<(), Halt<Call>>)
        ensures
            r == Self::spec_harvest(env, from, data),
    {
        env.done(0, Call::ExtendInstanceTtl)?;
        let (keeper, at) = stored_keeper(env, 1)?;
        env.done(at, Call::RequireAuth { address: keeper })?;
        if from != keeper {
            return Err(Halt::Error(StrategyError::NotAuthorized));
        }
        let (config, at) = get_config(env, at + 1)?;
        let (harvested_blend, at) = blend_pool::claim(env, at, env.contract, &config)?;
        let amount_out_min: i128 = min_out(data)?;
        let (reserves_after, at) = blend_pool::perform_reinvest(
            env,
            at,
            &config,
            amount_out_min,
        )?;
        let price_per_share: i128 = returning(share_price(&reserves_after))?;
        env.done(
            at,
            Call::EmitHarvest {
                strategy: STRATEGY_NAME,
                amount: harvested_blend,
                from: keeper,
                price_per_share,
            },
        )
    }

    /// Withdraws `amount` of the asset for the vault `from` and sends it to
    /// `to`; with it goes what the shares burnt for it bring beyond. Gives back
    /// the remaining balance of the vault.
    pub open spec fn spec_withdraw(env: &Env, amount: i128, from: Address, to: Address) -> Result<
        i128,
        Halt<Call>,
    > {
        chain(env.done(0, Call::ExtendInstanceTtl), |_extended: ()|
        chain(returning(check_positive_amount(amount)), |_positive: ()|
        chain(env.done(1, Call::RequireAuth { address: from }), |_authorized: ()|
        chain(get_config(env, 2), |stored: (Config, usize)|
        chain(reserves::get_strategy_reserve_updated(
            env,
            stored.1,
            &stored.0,
        ), |updated: (StrategyReserves, usize)|
        chain(returning(calculate_optimal_withdraw_amount(
            amount,
            &updated.0,
        )), |optimal: (i128, i128)|
        chain(blend_pool::withdraw(
            env,
            updated.1,
            to,
            optimal.0,
            &stored.0,
        ), |withdrawn: (i128, usize)|
        chain(reserves::withdraw(
            env,
            withdrawn.1,
            from,
            optimal.1,
            &updated.0,
        ), |booked: (i128, StrategyReserves, usize)|
        chain(returning(shares_to_underlying(booked.0, booked.1)), |balance: i128|
        chain(env.done(booked.2, Call::EmitWithdraw {
            strategy: STRATEGY_NAME,
            amount: optimal.0,
            from,
        }), |_emitted: ()|
        Ok(balance)))))))))))
    }

    /// Withdraws `amount` of the asset for the vault `from` and sends it to
    /// `to`; with it goes what the shares burnt for it bring beyond. Gives back
    /// the remaining balance of the vault.
    pub fn withdraw(env: &Env, amount: i128, from: Address, to: Address) -> (r: Result<
        i128,
        Halt<Call>,
    >)
        ensures
            r == Self::spec_withdraw(env, amount, from, to),
    {
        env.done(0, Call::ExtendInstanceTtl)?;
        returning(check_positive_amount(amount))?;
        env.done(1, Call::RequireAuth { address: from })?;
        let (config, at) = get_config(env, 2)?;
        let (reserves, at) = reserves::get_strategy_reserve_updated(env, at, &config)?;
        let (optimal_withdraw_amount, b_tokens_burnt) = returning(
            calculate_optimal_withdraw_amount(amount, &reserves),
        )?;
        let (_, at) = blend_pool::withdraw(env, at, to, optimal_withdraw_amount, &config)?;
        let (vault_shares, reserves, at) = reserves::withdraw(
            env,
            at,
            from,
            b_tokens_burnt,
            &reserves,
        )?;
        let underlying_balance: i128 = returning(shares_to_underlying(vault_shares, reserves))?;
        env.done(
            at,
            Call::EmitWithdraw { strategy: STRATEGY_NAME, amount: optimal_withdraw_amount, from },
        )?;
        Ok(underlying_balance)
    }

    /// The balance of the vault `from` in the underlying asset; nothing if it
    /// has no shares.
    pub open spec fn spec_balance(env: &Env, from: Address) -> Result<i128, Halt<Call>> {
        chain(env.done(0, Call::ExtendInstanceTtl), |_extended: ()|
        chain(env.amount(1, Call::GetVaultShares { vault: from }), |vault_shares: i128|
        if vault_shares > 0 {
            chain(get_config(env, 2), |stored: (Config, usize)|
            chain(reserves::get_strategy_reserve_updated(
                env,
                stored.1,
                &stored.0,
            ), |updated: (StrategyReserves, usize)|
            returning(shares_to_underlying(vault_shares, updated.0))))
        } else {
            Ok(0i128)
        }))
    }

    /// The balance of the vault `from` in the underlying asset; nothing if it
    /// has no shares.
    pub fn balance(env: &Env, from: Address) -> (r: Result<i128, Halt<Call>>)
        ensures
            r == Self::spec_balance(env, from),
    {
        env.done(0, Call::ExtendInstanceTtl)?;
        let vault_shares: i128 = env.amount(1, Call::GetVaultShares { vault: from })?;
        if vault_shares > 0 {
            let (config, at) = get_config(env, 2)?;
            let (reserves, _) = reserves::get_strategy_reserve_updated(env, at, &config)?;
            returning(shares_to_underlying(vault_shares, reserves))
        } else {
            Ok(0)
        }
    }

    /// Makes `new_keeper` the keeper. Only for the keeper of before.
    pub open spec fn spec_set_keeper(env: &Env, new_keeper: Address) -> Result<(), Halt<Call>> {
        chain(env.done(0, Call::ExtendInstanceTtl), |_extended: ()|
        chain(stored_keeper(env, 1), |old_keeper: (Address, usize)|
        chain(env.done(old_keeper.1, Call::RequireAuth {
            address: old_keeper.0,
        }), |_authorized: ()|
        env.done((old_keeper.1 + 1) as usize, Call::SetKeeper { keeper: new_keeper }))))
    }

    /// Makes `new_keeper` the keeper. Only for the keeper of before.
    pub fn set_keeper(env: &Env, new_keeper: Address) -> (r: Result<(), Halt<Call>>)
        ensures
            r == Self::spec_set_keeper(env, new_keeper),
    {
        env.done(0, Call::ExtendInstanceTtl)?;
        let (old_keeper, at) = stored_keeper(env, 1)?;
        env.done(at, Call::RequireAuth { address: old_keeper })?;
        env.done(at + 1, Call::SetKeeper { keeper: new_keeper })
    }

    /// The keeper.
    pub open spec fn spec_get_keeper(env: &Env) -> Result<Address, Halt<Call>> {
        chain(env.done(0, Call::ExtendInstanceTtl), |_extended: ()|
        chain(stored_keeper(env, 1), |keeper: (Address, usize)|
        Ok(keeper.0)))
    }

    /// The keeper.
    pub fn get_keeper(env: &Env) -> (r: Result<Address, Halt<Call>>)
        ensures
            r == Self::spec_get_keeper(env),
    {
        env.done(0, Call::ExtendInstanceTtl)?;
        let (keeper, _) = stored_keeper(env, 1)?;
        Ok(keeper)
    }
}

} // verus!
