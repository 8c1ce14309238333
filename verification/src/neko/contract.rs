use crate::address::{Address, Authorization, Val};
use crate::arguments::{address_arg, symbol_arg};
use crate::arith::{as_i128, smaller, trunc_div};
use crate::error::StrategyError;
use crate::rwa_lending::calls::{Call, Env};
use crate::rwa_lending::storage::{
    get_b_tokens, is_initialized, load_config, save_config, set_b_tokens, StrategyConfig, SCALAR_12,
};
use crate::session::{chain, Halt};
use crate::wide::exact_i128;
use vstd::prelude::*;

verus! {

pub const STRATEGY_NAME: &'static str = "NekoStrategy";

/// Lends the asset of its vaults in a Neko pool.
///
/// The strategy is the lender of all deposits; what of its b_tokens belongs to
/// which vault is kept in persistent storage. The yield is in the rate at which
/// b_tokens turn into the underlying asset.
pub struct NekoStrategy;

/// How many b_tokens, at `b_rate`, `amount` of the underlying asset takes:
/// `amount * SCALAR_12 / b_rate`, rounded up by adding `b_rate - 1` first.
pub open spec fn spec_b_tokens_for(amount: i128, b_rate: i128) -> Result<i128, Halt<Call>> {
    let scaled = amount * SCALAR_12;
    if b_rate == 0 {
        Err(Halt::Error(StrategyError::DivisionByZero))
    } else if scaled > i128::MAX || scaled < i128::MIN {
        Err(Halt::Error(StrategyError::ArithmeticError))
    } else if b_rate == i128::MIN {
        Err(Halt::Trap)
    } else if scaled + (b_rate - 1) > i128::MAX || scaled + (b_rate - 1) < i128::MIN {
        Err(Halt::Error(StrategyError::ArithmeticError))
    } else {
        let b_tokens = trunc_div(scaled + (b_rate - 1), b_rate as int);
        if b_tokens > i128::MAX || b_tokens < i128::MIN {
            Err(Halt::Error(StrategyError::ArithmeticError))
        } else if b_tokens == 0 {
            Err(Halt::Error(StrategyError::InsufficientBalance))
        } else {
            Ok(b_tokens as i128)
        }
    }
}

/// How many b_tokens, at `b_rate`, `amount` of the underlying asset takes:
/// `amount * SCALAR_12 / b_rate`, rounded up by adding `b_rate - 1` first.
#[verifier::when_used_as_spec(spec_b_tokens_for)]
pub fn b_tokens_for(amount: i128, b_rate: i128) -> (r: Result<i128, Halt<Call>>)
    ensures
        r == spec_b_tokens_for(amount, b_rate),
{
    if b_rate == 0 {
        return Err(Halt::Error(StrategyError::DivisionByZero));
    }
    let scaled: i128 = match amount.checked_mul(SCALAR_12) {
        Some(scaled) => scaled,
        None => return Err(Halt::Error(StrategyError::ArithmeticError)),
    };
    let round_up: i128 = match b_rate.checked_sub(1) {
        Some(round_up) => round_up,
        None => return Err(Halt::Trap),
    };
    let raised: i128 = match scaled.checked_add(round_up) {
        Some(raised) => raised,
        None => return Err(Halt::Error(StrategyError::ArithmeticError)),
    };
    let b_tokens: i128 = match raised.checked_div(b_rate) {
        Some(b_tokens) => b_tokens,
        None => return Err(Halt::Error(StrategyError::ArithmeticError)),
    };
    if b_tokens == 0 {
        return Err(Halt::Error(StrategyError::InsufficientBalance));
    }
    Ok(b_tokens)
}

/// What `b_tokens` come to in the underlying asset, rounded toward zero; an
/// error if the product overflows.
pub open spec fn spec_underlying_for(b_tokens: i128, b_rate: i128) -> Result<i128, Halt<Call>> {
    if b_tokens * b_rate > i128::MAX || b_tokens * b_rate < i128::MIN {
        Err(Halt::Error(StrategyError::ArithmeticError))
    } else {
        Ok(trunc_div(b_tokens * b_rate, SCALAR_12 as int) as i128)
    }
}

/// What `b_tokens` come to in the underlying asset, rounded toward zero; an
/// error if the product overflows.
#[verifier::when_used_as_spec(spec_underlying_for)]
pub fn underlying_for(b_tokens: i128, b_rate: i128) -> (r: Result<i128, Halt<Call>>)
    ensures
        r == spec_underlying_for(b_tokens, b_rate),
{
    match b_tokens.checked_mul(b_rate) {
        Some(product) => match product.checked_div(SCALAR_12) {
            Some(underlying) => Ok(underlying),
            None => Err(Halt::Error(StrategyError::ArithmeticError)),
        },
        None => Err(Halt::Error(StrategyError::ArithmeticError)),
    }
}

/// What `b_tokens` come to in the underlying asset, rounded toward zero, the
/// product taken exactly; none if that does not fit.
pub open spec fn spec_at_rate(b_tokens: i128, b_rate: i128) -> Option<i128> {
    as_i128(trunc_div(b_tokens * b_rate, SCALAR_12 as int))
}

/// What `b_tokens` come to in the underlying asset, rounded toward zero, the
/// product taken exactly; none if that does not fit.
#[verifier::when_used_as_spec(spec_at_rate)]
pub fn at_rate(b_tokens: i128, b_rate: i128) -> (r: Option<i128>)
    ensures
        r == as_i128(trunc_div(b_tokens * b_rate, SCALAR_12 as int)),
{
    exact_i128(b_tokens, b_rate, SCALAR_12)
}

/// The value of the b_tokens of `vault` in the underlying asset: `b_tokens *
/// b_rate / SCALAR_12`, rounded toward zero; zero if that does not fit.
pub open spec fn spec_underlying_balance(
    env: &Env,
    at: usize,
    vault: Address,
    config: &StrategyConfig,
) -> Result<(i128, usize), Halt<Call>> {
    chain(get_b_tokens(env, at, vault), |held: (i128, usize)|
    if held.0 == 0 {
        Ok((0i128, held.1))
    } else {
        chain(env.amount(held.1, Call::LendingBTokenRate {
            lending: config.lending_pool,
            asset: config.rwa_asset,
        }), |b_rate: i128|
        Ok((at_rate(held.0, b_rate).unwrap_or(0), (held.1 + 1) as usize)))
    })
}

/// The value of the b_tokens of `vault` in the underlying asset: `b_tokens *
/// b_rate / SCALAR_12`, rounded toward zero; zero if that does not fit.
#[verifier::when_used_as_spec(spec_underlying_balance)]
pub fn underlying_balance(env: &Env, at: usize, vault: Address, config: &StrategyConfig) -> (r:
    Result<(i128, usize), Halt<Call>>)
    ensures
        r == spec_underlying_balance(env, at, vault, config),
        r matches Ok((_, next)) ==> next <= env.replies@.len(),
{
    let (b_tokens, at) = get_b_tokens(env, at, vault)?;
    if b_tokens == 0 {
        return Ok((0, at));
    }
    let b_rate: i128 = env.amount(
        at,
        Call::LendingBTokenRate { lending: config.lending_pool, asset: config.rwa_asset },
    )?;
    Ok((at_rate(b_tokens, b_rate).unwrap_or(0), at + 1))
}

impl NekoStrategy {
    /// Sets the strategy up, once. `init_args` holds the lending pool and the
    /// name of the asset there.
    pub open spec fn spec_constructor(env: &Env, asset: Address, init_args: &Vec<Val>) -> Result<
        (),
        Halt<Call>,
    > {
        chain(is_initialized(env, 0), |initialized: (bool, usize)|
        if initialized.0 {
            Err(Halt::Abort(StrategyError::InvalidArgument))
        } else {
            chain(address_arg(init_args, 0), |lending_pool: Address|
            chain(symbol_arg(init_args, 1), |rwa_asset: crate::address::Symbol|
            chain(save_config(env, 1, &StrategyConfig {
                asset,
                lending_pool,
                rwa_asset,
            }), |_saved: usize|
            Ok(()))))
        })
    }

    /// Sets the strategy up, once. `init_args` holds the lending pool and the
    /// name of the asset there.
    pub fn __constructor(env: &Env, asset: Address, init_args: &Vec<Val>) -> (r: Result<
        (),
        Halt<Call>,
    >)
        ensures
            r == Self::spec_constructor(env, asset, init_args),
    {
        let (initialized, at) = is_initialized(env, 0)?;
        if initialized {
            return Err(Halt::Abort(StrategyError::InvalidArgument));
        }
        let lending_pool = address_arg(init_args, 0)?;
        let rwa_asset = symbol_arg(init_args, 1)?;
        save_config(env, at, &StrategyConfig { asset, lending_pool, rwa_asset })?;
        Ok(())
    }

    /// The underlying asset.
    pub open spec fn spec_asset(env: &Env) -> Result<Address, Halt<Call>> {
        chain(load_config(env, 0), |loaded: (StrategyConfig, usize)|
        Ok(loaded.0.asset))
    }

    /// The underlying asset.
    pub fn asset(env: &Env) -> (r: Result<Address, Halt<Call>>)
        ensures
            r == Self::spec_asset(env),
    {
        let (config, _) = load_config(env, 0)?;
        Ok(config.asset)
    }

    /// Lends `amount` for the vault `from`, which has transferred it to the
    /// strategy before. The b_tokens minted are added to those of the vault.
    /// Gives back its balance in the underlying asset.
    pub open spec fn spec_deposit(env: &Env, amount: i128, from: Address) -> Result<
        i128,
        Halt<Call>,
    > {
        if amount <= 0 {
            Err(Halt::Error(StrategyError::OnlyPositiveAmountAllowed))
        } else {
            chain(load_config(env, 0), |loaded: (StrategyConfig, usize)|
            chain(env.done(loaded.1, Call::Authorize { entry: Authorization::Transfer {
                token: loaded.0.asset,
                from: env.contract,
                to: loaded.0.lending_pool,
                amount,
            } }), |_authorized: ()|
            chain(env.amount((loaded.1 + 1) as usize, Call::LendingDeposit {
                lending: loaded.0.lending_pool,
                lender: env.contract,
                asset: loaded.0.rwa_asset,
                amount,
            }), |minted: i128|
            chain(get_b_tokens(env, (loaded.1 + 2) as usize, from), |prev: (i128, usize)|
            if prev.0 + minted > i128::MAX || prev.0 + minted < i128::MIN {
                Err(Halt::Trap)
            } else {
                chain(set_b_tokens(env, prev.1, from, (prev.0 + minted) as i128), |set: usize|
                chain(env.done(set, Call::EmitDeposit {
                    strategy: STRATEGY_NAME,
                    amount,
                    from,
                }), |_emitted: ()|
                chain(underlying_balance(
                    env,
                    (set + 1) as usize,
                    from,
                    &loaded.0,
                ), |balance: (i128, usize)|
                Ok(balance.0))))
            }))))
        }
    }

    /// Lends `amount` for the vault `from`, which has transferred it to the
    /// strategy before. The b_tokens minted are added to those of the vault.
    /// Gives back its balance in the underlying asset.
    pub fn deposit(env: &Env, amount: i128, from: Address) -> (r: Result<i128, Halt<Call>>)
        ensures
            r == Self::spec_deposit(env, amount, from),
    {
        if amount <= 0 {
            return Err(Halt::Error(StrategyError::OnlyPositiveAmountAllowed));
        }
        let (config, at) = load_config(env, 0)?;
        env.done(
            at,
            Call::Authorize {
                entry: Authorization::Transfer {
                    token: config.asset,
                    from: env.contract,
                    to: config.lending_pool,
                    amount,
                },
            },
        )?;
        let b_tokens_minted: i128 = env.amount(
            at + 1,
            Call::LendingDeposit {
                lending: config.lending_pool,
                lender: env.contract,
                asset: config.rwa_asset,
                amount,
            },
        )?;
        let (prev_b, at) = get_b_tokens(env, at + 2, from)?;
        let b_tokens: i128 = match prev_b.checked_add(b_tokens_minted) {
            Some(b_tokens) => b_tokens,
            None => return Err(Halt::Trap),
        };
        let at: usize = set_b_tokens(env, at, from, b_tokens)?;
        env.done(at, Call::EmitDeposit { strategy: STRATEGY_NAME, amount, from })?;
        let (balance, _) = underlying_balance(env, at + 1, from, &config)?;
        Ok(balance)
    }

    /// Takes `b_actual` of the `vault_b` b_tokens of the vault `from`, which
    /// come to `underlying_out`, out of the lending pool, sends what it pays to
    /// `to`, and gives back the remaining balance of the vault.
    pub open spec fn spec_pay_withdrawal(
        env: &Env,
        at: usize,
        vault_b: i128,
        b_actual: i128,
        underlying_out: i128,
        from: Address,
        to: Address,
        config: &StrategyConfig,
    ) -> Result<i128, Halt<Call>> {
        chain(env.done(at, Call::Authorize { entry: Authorization::Transfer {
            token: config.asset,
            from: config.lending_pool,
            to: env.contract,
            amount: underlying_out,
        } }), |_authorized: ()|
        chain(env.amount((at + 1) as usize, Call::LendingWithdraw {
            lending: config.lending_pool,
            lender: env.contract,
            asset: config.rwa_asset,
            b_tokens: b_actual,
        }), |withdrawn: i128|
        chain(env.done((at + 2) as usize, Call::TokenTransfer {
            token: config.asset,
            from: env.contract,
            to,
            amount: withdrawn,
        }), |_transferred: ()|
        if vault_b - b_actual > i128::MAX || vault_b - b_actual < i128::MIN {
            Err(Halt::Trap)
        } else {
            chain(set_b_tokens(
                env,
                (at + 3) as usize,
                from,
                (vault_b - b_actual) as i128,
            ), |set: usize|
            chain(env.done(set, Call::EmitWithdraw {
                strategy: STRATEGY_NAME,
                amount: withdrawn,
                from,
            }), |_emitted: ()|
            chain(underlying_balance(
                env,
                (set + 1) as usize,
                from,
                config,
            ), |balance: (i128, usize)|
            Ok(balance.0))))
        })))
    }

    /// Takes `b_actual` of the `vault_b` b_tokens of the vault `from`, which
    /// come to `underlying_out`, out of the lending pool, sends what it pays to
    /// `to`, and gives back the remaining balance of the vault.
    #[verifier::when_used_as_spec(spec_pay_withdrawal)]
    pub fn pay_withdrawal(
        env: &Env,
        at: usize,
        vault_b: i128,
        b_actual: i128,
        underlying_out: i128,
        from: Address,
        to: Address,
        config: &StrategyConfig,
    ) -> (r: Result<i128, Halt<Call>>)
        ensures
            r == Self::spec_pay_withdrawal(
                env,
                at,
                vault_b,
                b_actual,
                underlying_out,
                from,
                to,
                config,
            ),
    {
        env.done(
            at,
            Call::Authorize {
                entry: Authorization::Transfer {
                    token: config.asset,
                    from: config.lending_pool,
                    to: env.contract,
                    amount: underlying_out,
                },
            },
        )?;
        let actual_withdrawn: i128 = env.amount(
            at + 1,
            Call::LendingWithdraw {
                lending: config.lending_pool,
                lender: env.contract,
                asset: config.rwa_asset,
                b_tokens: b_actual,
            },
        )?;
        env.done(
            at + 2,
            Call::TokenTransfer {
                token: config.asset,
                from: env.contract,
                to,
                amount: actual_withdrawn,
            },
        )?;
        let rest: i128 = match vault_b.checked_sub(b_actual) {
            Some(rest) => rest,
            None => return Err(Halt::Trap),
        };
        let at: usize = set_b_tokens(env, at + 3, from, rest)?;
        env.done(
            at,
            Call::EmitWithdraw { strategy: STRATEGY_NAME, amount: actual_withdrawn, from },
        )?;
        let (balance, _) = underlying_balance(env, at + 1, from, config)?;
        Ok(balance)
    }

    /// Withdraws `amount` of the underlying asset for the vault `from` and sends
    /// it to `to`; no more than the b_tokens of the vault come to. Gives back
    /// its remaining balance.
    pub open spec fn spec_withdraw(env: &Env, amount: i128, from: Address, to: Address) -> Result<
        i128,
        Halt<Call>,
    > {
        if amount <= 0 {
            Err(Halt::Error(StrategyError::OnlyPositiveAmountAllowed))
        } else {
            chain(load_config(env, 0), |loaded: (StrategyConfig, usize)|
            chain(env.amount(loaded.1, Call::LendingBTokenRate {
                lending: loaded.0.lending_pool,
                asset: loaded.0.rwa_asset,
            }), |b_rate: i128|
            chain(b_tokens_for(amount, b_rate), |b_to_burn: i128|
            chain(get_b_tokens(env, (loaded.1 + 1) as usize, from), |held: (i128, usize)|
            if held.0 == 0 {
                Err(Halt::Error(StrategyError::InsufficientBalance))
            } else {
                chain(underlying_for(
                    smaller(b_to_burn, held.0),
                    b_rate,
                ), |underlying_out: i128|
                Self::spec_pay_withdrawal(
                    env,
                    held.1,
                    held.0,
                    smaller(b_to_burn, held.0),
                    underlying_out,
                    from,
                    to,
                    &loaded.0,
                ))
            }))))
        }
    }

    /// Withdraws `amount` of the underlying asset for the vault `from` and sends
    /// it to `to`; no more than the b_tokens of the vault come to. Gives back
    /// its remaining balance.
    pub fn withdraw(env: &Env, amount: i128, from: Address, to: Address) -> (r: Result<
        i128,
        Halt<Call>,
    >)
        ensures
            r == Self::spec_withdraw(env, amount, from, to),
    {
        if amount <= 0 {
            return Err(Halt::Error(StrategyError::OnlyPositiveAmountAllowed));
        }
        let (config, at) = load_config(env, 0)?;
        let b_rate: i128 = env.amount(
            at,
            Call::LendingBTokenRate { lending: config.lending_pool, asset: config.rwa_asset },
        )?;
        let b_to_burn: i128 = b_tokens_for(amount, b_rate)?;
        let (vault_b, at) = get_b_tokens(env, at + 1, from)?;
        if vault_b == 0 {
            return Err(Halt::Error(StrategyError::InsufficientBalance));
        }
        let b_actual: i128 = smaller(b_to_burn, vault_b);
        let underlying_out: i128 = underlying_for(b_actual, b_rate)?;
        Self::pay_withdrawal(env, at, vault_b, b_actual, underlying_out, from, to, &config)
    }

    /// The balance of the vault `from` in the underlying asset.
    pub open spec fn spec_balance(env: &Env, from: Address) -> Result<i128, Halt<Call>> {
        chain(load_config(env, 0), |loaded: (StrategyConfig, usize)|
        chain(underlying_balance(env, loaded.1, from, &loaded.0), |balance: (i128, usize)|
        Ok(balance.0)))
    }

    /// The balance of the vault `from` in the underlying asset.
    pub fn balance(env: &Env, from: Address) -> (r: Result<i128, Halt<Call>>)
        ensures
            r == Self::spec_balance(env, from),
    {
        let (config, at) = load_config(env, 0)?;
        let (balance, _) = underlying_balance(env, at, from, &config)?;
        Ok(balance)
    }

    /// Reports the rate of b_tokens as the price per share. The yield is in
    /// that rate, so there is nothing to claim.
    pub open spec fn spec_harvest(env: &Env, from: Address) -> Result<(), Halt<Call>> {
        chain(load_config(env, 0), |loaded: (StrategyConfig, usize)|
        chain(env.amount(loaded.1, Call::LendingBTokenRate {
            lending: loaded.0.lending_pool,
            asset: loaded.0.rwa_asset,
        }), |b_rate: i128|
        env.done((loaded.1 + 1) as usize, Call::EmitHarvest {
            strategy: STRATEGY_NAME,
            amount: 0,
            from,
            price_per_share: b_rate,
        })))
    }

    /// Reports the rate of b_tokens as the price per share. The yield is in
    /// that rate, so there is nothing to claim. `data` is not used.
    pub fn harvest(env: &Env, from: Address, data: Option<Vec<u8>>) -> (r: Result<(), Halt<Call>>)
        ensures
            r == Self::spec_harvest(env, from),
    {
        let (config, at) = load_config(env, 0)?;
        let b_rate: i128 = env.amount(
            at,
            Call::LendingBTokenRate { lending: config.lending_pool, asset: config.rwa_asset },
        )?;
        env.done(
            at + 1,
            Call::EmitHarvest {
                strategy: STRATEGY_NAME,
                amount: 0,
                from,
                price_per_share: b_rate,
            },
        )
    }
}

} // verus!
