use crate::address::{Address, Val};
use crate::arguments::address_arg;
use crate::error::StrategyError;
use crate::position::{price_per_share, shares_to_burn};
use crate::session::{chain, Halt};
use crate::soroswap::calls::{Call, Env};
use crate::soroswap::soroswap_pool;
use crate::soroswap::storage::{
    get_lp_tokens, is_initialized, load_config, save_config, set_lp_tokens, StrategyConfig,
};
use vstd::prelude::*;

verus! {

pub const STRATEGY_NAME: &'static str = "SoroswapStrategy";

/// Single-asset entry into a Soroswap pair. A deposit swaps half of the amount
/// to token b and adds liquidity; a withdrawal removes liquidity and swaps
/// token b back.
///
/// The strategy holds all LP tokens; what of them belongs to which vault is
/// kept in persistent storage.
pub struct SoroswapStrategy;

impl SoroswapStrategy {
    /// Sets the strategy up, once. `init_args` holds the router and token b.
    /// The pair comes from the router.
    pub open spec fn spec_constructor(env: &Env, asset: Address, init_args: &Vec<Val>) -> Result<
        (),
        Halt<Call>,
    > {
        chain(is_initialized(env, 0), |initialized: (bool, usize)|
        if initialized.0 {
            Err(Halt::Abort(StrategyError::InvalidArgument))
        } else {
            chain(address_arg(init_args, 0), |router: Address|
            chain(address_arg(init_args, 1), |token_b: Address|
            chain(env.account(1, Call::RouterPairFor {
                router,
                token_a: asset,
                token_b,
            }), |pair: Address|
            chain(save_config(env, 2, &StrategyConfig {
                token_a: asset,
                token_b,
                router,
                pair,
            }), |_saved: usize|
            Ok(())))))
        })
    }

    /// Sets the strategy up, once. `init_args` holds the router and token b.
    /// The pair comes from the router.
    pub fn __constructor(env: &Env, asset: Address, init_args: &Vec<Val>) -> (r: Result<
        (),
        Halt<Call>,
    >)
        ensures
            r == Self::spec_constructor(env, asset, init_args),
    {
        let (initialized, at) = is_initialized(env, 0)?;
        if initialized {
            return Err(Halt::Abort(StrategyError::InvalidArgument));
        }
        let router = address_arg(init_args, 0)?;
        let token_b = address_arg(init_args, 1)?;
        let pair = env.account(at, Call::RouterPairFor { router, token_a: asset, token_b })?;
        let config = StrategyConfig { token_a: asset, token_b, router, pair };
        save_config(env, at + 1, &config)?;
        Ok(())
    }

    /// The token that vaults deposit and withdraw.
    pub open spec fn spec_asset(env: &Env) -> Result<Address, Halt<Call>> {
        chain(load_config(env, 0), |loaded: (StrategyConfig, usize)|
        Ok(loaded.0.token_a))
    }

    /// The token that vaults deposit and withdraw.
    pub fn asset(env: &Env) -> (r: Result<Address, Halt<Call>>)
        ensures
            r == Self::spec_asset(env),
    {
        let (config, _) = load_config(env, 0)?;
        Ok(config.token_a)
    }

    /// Deposits `amount` for the vault `from`, which has transferred it to the
    /// strategy before. The LP tokens minted are added to those of the
    /// vault. Gives back the value of its position.
    pub open spec fn spec_deposit(env: &Env, amount: i128, from: Address) -> Result<
        i128,
        Halt<Call>,
    > {
        if amount <= 0 {
            Err(Halt::Error(StrategyError::OnlyPositiveAmountAllowed))
        } else {
            chain(load_config(env, 0), |loaded: (StrategyConfig, usize)|
            chain(soroswap_pool::deposit(
                env,
                loaded.1,
                amount,
                &loaded.0,
            ), |minted: (i128, usize)|
            chain(get_lp_tokens(env, minted.1, from), |prev: (i128, usize)|
            if prev.0 + minted.0 > i128::MAX || prev.0 + minted.0 < i128::MIN {
                Err(Halt::Trap)
            } else {
                chain(set_lp_tokens(env, prev.1, from, (prev.0 + minted.0) as i128), |set: usize|
                chain(env.done(set, Call::EmitDeposit {
                    strategy: STRATEGY_NAME,
                    amount,
                    from,
                }), |_emitted: ()|
                chain(get_lp_tokens(env, (set + 1) as usize, from), |lp: (i128, usize)|
                chain(soroswap_pool::lp_value_in_a(
                    env,
                    lp.1,
                    lp.0,
                    &loaded.0,
                ), |value: (i128, usize)|
                Ok(value.0)))))
            })))
        }
    }

    /// Deposits `amount` for the vault `from`, which has transferred it to the
    /// strategy before. The LP tokens minted are added to those of the
    /// vault. Gives back the value of its position.
    pub fn deposit(env: &Env, amount: i128, from: Address) -> (r: Result<i128, Halt<Call>>)
        ensures
            r == Self::spec_deposit(env, amount, from),
    {
        if amount <= 0 {
            return Err(Halt::Error(StrategyError::OnlyPositiveAmountAllowed));
        }
        let (config, at) = load_config(env, 0)?;
        let (lp_minted, at) = soroswap_pool::deposit(env, at, amount, &config)?;
        let (prev, at) = get_lp_tokens(env, at, from)?;
        let shares: i128 = match prev.checked_add(lp_minted) {
            Some(shares) => shares,
            None => return Err(Halt::Trap),
        };
        let at: usize = set_lp_tokens(env, at, from, shares)?;
        env.done(at, Call::EmitDeposit { strategy: STRATEGY_NAME, amount, from })?;
        let (vault_lp, at) = get_lp_tokens(env, at + 1, from)?;
        let (value, _) = soroswap_pool::lp_value_in_a(env, at, vault_lp, &config)?;
        Ok(value)
    }

    /// Withdraws `amount` of the token a for the vault `from` and sends
    /// it to `to`, burning a proportional part of the LP tokens of the vault.
    /// Gives back the value of what remains.
    pub open spec fn spec_withdraw(env: &Env, amount: i128, from: Address, to: Address) -> Result<
        i128,
        Halt<Call>,
    > {
        if amount <= 0 {
            Err(Halt::Error(StrategyError::OnlyPositiveAmountAllowed))
        } else {
            chain(load_config(env, 0), |loaded: (StrategyConfig, usize)|
            chain(get_lp_tokens(env, loaded.1, from), |held: (i128, usize)|
            if held.0 == 0 {
                Err(Halt::Error(StrategyError::InsufficientBalance))
            } else {
                chain(soroswap_pool::lp_value_in_a(
                    env,
                    held.1,
                    held.0,
                    &loaded.0,
                ), |worth: (i128, usize)|
                if worth.0 == 0 {
                    Err(Halt::Error(StrategyError::InsufficientBalance))
                } else {
                    match shares_to_burn(held.0, amount, worth.0) {
                        Err(error) => Err(Halt::Error(error)),
                        Ok(burnt) =>
                            chain(soroswap_pool::withdraw(
                                env,
                                worth.1,
                                burnt,
                                to,
                                &loaded.0,
                            ), |withdrawn: (i128, usize)|
                            if held.0 - burnt > i128::MAX || held.0 - burnt < i128::MIN {
                                Err(Halt::Trap)
                            } else {
                                chain(set_lp_tokens(
                                    env,
                                    withdrawn.1,
                                    from,
                                    (held.0 - burnt) as i128,
                                ), |set: usize|
                                chain(env.done(set, Call::EmitWithdraw {
                                    strategy: STRATEGY_NAME,
                                    amount: withdrawn.0,
                                    from,
                                }), |_emitted: ()|
                                chain(get_lp_tokens(
                                    env,
                                    (set + 1) as usize,
                                    from,
                                ), |rest: (i128, usize)|
                                chain(soroswap_pool::lp_value_in_a(
                                    env,
                                    rest.1,
                                    rest.0,
                                    &loaded.0,
                                ), |value: (i128, usize)|
                                Ok(value.0)))))
                            }),
                    }
                })
            }))
        }
    }

    /// Withdraws `amount` of the token a for the vault `from` and sends
    /// it to `to`, burning a proportional part of the LP tokens of the vault.
    /// Gives back the value of what remains.
    pub fn withdraw(env: &Env, amount: i128, from: Address, to: Address) -> (r: Result<
        i128,
        Halt<Call>,
    >)
        ensures
            r == Self::spec_withdraw(env, amount, from, to),
    {
        if amount <= 0 {
            return Err(Halt::Error(StrategyError::OnlyPositiveAmountAllowed));
        }
        let (config, at) = load_config(env, 0)?;
        let (vault_lp, at) = get_lp_tokens(env, at, from)?;
        if vault_lp == 0 {
            return Err(Halt::Error(StrategyError::InsufficientBalance));
        }
        let (total_value, at) = soroswap_pool::lp_value_in_a(
            env,
            at,
            vault_lp,
            &config,
        )?;
        if total_value == 0 {
            return Err(Halt::Error(StrategyError::InsufficientBalance));
        }
        let burnt: i128 = match shares_to_burn(vault_lp, amount, total_value) {
            Ok(burnt) => burnt,
            Err(error) => return Err(Halt::Error(error)),
        };
        let (actual_withdrawn, at) = soroswap_pool::withdraw(env, at, burnt, to, &config)?;
        let rest: i128 = match vault_lp.checked_sub(burnt) {
            Some(rest) => rest,
            None => return Err(Halt::Trap),
        };
        let at: usize = set_lp_tokens(env, at, from, rest)?;
        env.done(
            at,
            Call::EmitWithdraw { strategy: STRATEGY_NAME, amount: actual_withdrawn, from },
        )?;
        let (remaining_lp, at) = get_lp_tokens(env, at + 1, from)?;
        let (value, _) = soroswap_pool::lp_value_in_a(
            env,
            at,
            remaining_lp,
            &config,
        )?;
        Ok(value)
    }

    /// The value of the position of the vault `from` in the token a.
    pub open spec fn spec_balance(env: &Env, from: Address) -> Result<i128, Halt<Call>> {
        chain(load_config(env, 0), |loaded: (StrategyConfig, usize)|
        chain(get_lp_tokens(env, loaded.1, from), |lp: (i128, usize)|
        chain(soroswap_pool::lp_value_in_a(
            env,
            lp.1,
            lp.0,
            &loaded.0,
        ), |value: (i128, usize)|
        Ok(value.0))))
    }

    /// The value of the position of the vault `from` in the token a.
    pub fn balance(env: &Env, from: Address) -> (r: Result<i128, Halt<Call>>)
        ensures
            r == Self::spec_balance(env, from),
    {
        let (config, at) = load_config(env, 0)?;
        let (vault_lp, at) = get_lp_tokens(env, at, from)?;
        let (value, _) = soroswap_pool::lp_value_in_a(env, at, vault_lp, &config)?;
        Ok(value)
    }

    /// Reports the value of one LP token of the vault `from` in seven decimals.
    /// Fees accrue in the reserves, so there is nothing to claim.
    pub open spec fn spec_harvest(env: &Env, from: Address) -> Result<(), Halt<Call>> {
        chain(load_config(env, 0), |loaded: (StrategyConfig, usize)|
        chain(get_lp_tokens(env, loaded.1, from), |lp: (i128, usize)|
        if lp.0 > 0 {
            chain(soroswap_pool::lp_value_in_a(
                env,
                lp.1,
                lp.0,
                &loaded.0,
            ), |value: (i128, usize)|
            env.done(value.1, Call::EmitHarvest {
                strategy: STRATEGY_NAME,
                amount: 0,
                from,
                price_per_share: price_per_share(value.0, lp.0),
            }))
        } else {
            env.done(lp.1, Call::EmitHarvest {
                strategy: STRATEGY_NAME,
                amount: 0,
                from,
                price_per_share: 0,
            })
        }))
    }

    /// Reports the value of one LP token of the vault `from` in seven decimals.
    /// Fees accrue in the reserves, so there is nothing to claim. `data` is not
    /// used.
    pub fn harvest(env: &Env, from: Address, data: Option<Vec<u8>>) -> (r: Result<(), Halt<Call>>)
        ensures
            r == Self::spec_harvest(env, from),
    {
        let (config, at) = load_config(env, 0)?;
        let (vault_lp, at) = get_lp_tokens(env, at, from)?;
        if vault_lp > 0 {
            let (total_value, at) = soroswap_pool::lp_value_in_a(env, at, vault_lp, &config)?;
            env.done(
                at,
                Call::EmitHarvest {
                    strategy: STRATEGY_NAME,
                    amount: 0,
                    from,
                    price_per_share: price_per_share(total_value, vault_lp),
                },
            )
        } else {
            env.done(
                at,
                Call::EmitHarvest { strategy: STRATEGY_NAME, amount: 0, from, price_per_share: 0 },
            )
        }
    }
}

} // verus!
