use crate::address::{Address, Val};
use crate::aquarius::aquarius_pool;
use crate::aquarius::calls::{Call, Env};
use crate::aquarius::storage::{
    get_shares, is_initialized, load_config, save_config, set_shares, validate_slippage,
    StrategyConfig,
};
use crate::arguments::{address_arg, u32_arg};
use crate::error::StrategyError;
use crate::position::{price_per_share, shares_to_burn};
use crate::session::{chain, Halt};
use vstd::prelude::*;

verus! {

pub const STRATEGY_NAME: &'static str = "AquariusStrategy";

/// Single-asset entry into an Aquarius pool. A deposit swaps half of the
/// amount to the pair token and adds liquidity; a withdrawal removes liquidity
/// and swaps the pair token back. AQUA rewards are harvested explicitly.
///
/// The strategy holds all LP share tokens; what of them belongs to which vault
/// is kept in persistent storage.
pub struct AquariusStrategy;

/// Where `address` stands last in `tokens`, if it does.
pub open spec fn last_index(tokens: Seq<Address>, address: Address) -> Option<int>
    decreases tokens.len(),
{
    if tokens.len() == 0 {
        None
    } else if tokens.last() == address {
        Some(tokens.len() - 1)
    } else {
        last_index(tokens.drop_last(), address)
    }
}

/// The indices of the deposit token and of the pair token in the token list of
/// the pool, each the last one that fits; aborts if one is not listed. Traps
/// on a list that indices cannot reach into.
pub open spec fn spec_resolve_indices(
    tokens: &Vec<Address>,
    deposit_token: Address,
    pair_token: Address,
) -> Result<(u32, u32), Halt<Call>> {
    if tokens@.len() > u32::MAX {
        Err(Halt::Trap)
    } else {
        match (last_index(tokens@, deposit_token), last_index(tokens@, pair_token)) {
            (Some(deposit_idx), Some(pair_idx)) => Ok((deposit_idx as u32, pair_idx as u32)),
            _ => Err(Halt::Abort(StrategyError::ProtocolAddressNotFound)),
        }
    }
}

/// The indices of the deposit token and of the pair token in the token list of
/// the pool, each the last one that fits; aborts if one is not listed. Traps
/// on a list that indices cannot reach into.
#[verifier::when_used_as_spec(spec_resolve_indices)]
pub fn resolve_indices(tokens: &Vec<Address>, deposit_token: Address, pair_token: Address) -> (r:
    Result<(u32, u32), Halt<Call>>)
    ensures
        r == spec_resolve_indices(tokens, deposit_token, pair_token),
{
    if tokens.len() > u32::MAX as usize {
        return Err(Halt::Trap);
    }
    let mut deposit_idx: u32 = u32::MAX;
    let mut pair_idx: u32 = u32::MAX;
    let len: u32 = tokens.len() as u32;
    let mut i: u32 = 0;
    while i < len
        invariant
            i <= len,
            len == tokens@.len(),
            match last_index(tokens@.take(i as int), deposit_token) {
                Some(idx) => 0 <= idx < i && deposit_idx == idx,
                None => deposit_idx == u32::MAX,
            },
            match last_index(tokens@.take(i as int), pair_token) {
                Some(idx) => 0 <= idx < i && pair_idx == idx,
                None => pair_idx == u32::MAX,
            },
        decreases len - i,
    {
        proof {
            assert(tokens@.take(i + 1).drop_last() =~= tokens@.take(i as int));
        }
        let token = tokens[i as usize];
        if token == deposit_token {
            deposit_idx = i;
        }
        if token == pair_token {
            pair_idx = i;
        }
        i = i + 1;
    }
    proof {
        assert(tokens@.take(len as int) =~= tokens@);
    }
    if deposit_idx == u32::MAX || pair_idx == u32::MAX {
        return Err(Halt::Abort(StrategyError::ProtocolAddressNotFound));
    }
    Ok((deposit_idx, pair_idx))
}

/// Aborts unless both indices are 0 or 1: the strategy hands the pool two
/// amounts, for the two tokens that it lists first.
pub open spec fn spec_validate_indices(indices: (u32, u32)) -> Result<(), Halt<Call>> {
    if indices.0 > 1 || indices.1 > 1 {
        Err(Halt::Abort(StrategyError::InvalidArgument))
    } else {
        Ok(())
    }
}

/// Aborts unless both indices are 0 or 1: the strategy hands the pool two
/// amounts, for the two tokens that it lists first.
#[verifier::when_used_as_spec(spec_validate_indices)]
pub fn validate_indices(indices: (u32, u32)) -> (r: Result<(), Halt<Call>>)
    ensures
        r == spec_validate_indices(indices),
{
    if indices.0 > 1 || indices.1 > 1 {
        return Err(Halt::Abort(StrategyError::InvalidArgument));
    }
    Ok(())
}

impl AquariusStrategy {
    /// Sets the strategy up, once. `init_args` holds the pool, the pair token,
    /// the AQUA token and the slippage tolerance in basis points. The indices
    /// of the tokens and the share token come from the pool, which must list
    /// the two tokens first; the contract itself becomes the admin.
    pub open spec fn spec_constructor(env: &Env, asset: Address, init_args: &Vec<Val>) -> Result<
        (),
        Halt<Call>,
    > {
        chain(is_initialized(env, 0), |initialized: (bool, usize)|
        if initialized.0 {
            Err(Halt::Abort(StrategyError::InvalidArgument))
        } else {
            chain(address_arg(init_args, 0), |pool: Address|
            chain(address_arg(init_args, 1), |pair_token: Address|
            chain(address_arg(init_args, 2), |aqua_token: Address|
            chain(u32_arg(init_args, 3), |max_slippage_bps: u32|
            chain(validate_slippage(max_slippage_bps), |_valid: ()|
            chain(env.accounts(1, Call::PoolTokens { pool }), |tokens: &Vec<Address>|
            chain(env.account(2, Call::PoolShareId { pool }), |share_token: Address|
            chain(resolve_indices(tokens, asset, pair_token), |indices: (u32, u32)|
            chain(validate_indices(indices), |_among_two: ()|
            chain(save_config(env, 3, &StrategyConfig {
                deposit_token: asset,
                deposit_token_idx: indices.0,
                pair_token,
                pair_token_idx: indices.1,
                pool,
                share_token,
                aqua_token,
                max_slippage_bps,
                admin: env.contract,
            }), |_saved: usize|
            Ok(())))))))))))
        })
    }

    /// Sets the strategy up, once. `init_args` holds the pool, the pair token,
    /// the AQUA token and the slippage tolerance in basis points. The indices
    /// of the tokens and the share token come from the pool, which must list
    /// the two tokens first; the contract itself becomes the admin.
    pub fn __constructor(env: &Env, asset: Address, init_args: &Vec<Val>) -> (r: Result<
        (),
        Halt<Call>,
    >)
        ensures
            r == Self::spec_constructor(env, asset, init_args),
    {
        let (initialized, at) = is_initialized(env, 0)?;
        if initialized {
            return Err(Halt::Abort(StrategyError::InvalidArgument));
        }
        let pool = address_arg(init_args, 0)?;
        let pair_token = address_arg(init_args, 1)?;
        let aqua_token = address_arg(init_args, 2)?;
        let max_slippage_bps: u32 = u32_arg(init_args, 3)?;
        validate_slippage(max_slippage_bps)?;
        let tokens = env.accounts(at, Call::PoolTokens { pool })?;
        let share_token = env.account(at + 1, Call::PoolShareId { pool })?;
        let (deposit_token_idx, pair_token_idx) = resolve_indices(tokens, asset, pair_token)?;
        validate_indices((deposit_token_idx, pair_token_idx))?;
        let config = StrategyConfig {
            deposit_token: asset,
            deposit_token_idx,
            pair_token,
            pair_token_idx,
            pool,
            share_token,
            aqua_token,
            max_slippage_bps,
            admin: env.contract,
        };
        save_config(env, at + 2, &config)?;
        Ok(())
    }

    /// Changes the slippage tolerance. Only for the admin.
    pub open spec fn spec_update_slippage(
        env: &Env,
        admin: Address,
        new_slippage_bps: u32,
    ) -> Result<(), Halt<Call>> {
        chain(env.done(0, Call::RequireAuth { address: admin }), |_authorized: ()|
        chain(load_config(env, 1), |loaded: (StrategyConfig, usize)|
        if admin != loaded.0.admin {
            Err(Halt::Abort(StrategyError::NotAuthorized))
        } else {
            chain(validate_slippage(new_slippage_bps), |_valid: ()|
            chain(save_config(env, loaded.1, &StrategyConfig {
                max_slippage_bps: new_slippage_bps,
                ..loaded.0
            }), |_saved: usize|
            Ok(())))
        }))
    }

    /// Changes the slippage tolerance. Only for the admin.
    pub fn update_slippage(env: &Env, admin: Address, new_slippage_bps: u32) -> (r: Result<
        (),
        Halt<Call>,
    >)
        ensures
            r == Self::spec_update_slippage(env, admin, new_slippage_bps),
    {
        env.done(0, Call::RequireAuth { address: admin })?;
        let (config, at) = load_config(env, 1)?;
        if admin != config.admin {
            return Err(Halt::Abort(StrategyError::NotAuthorized));
        }
        validate_slippage(new_slippage_bps)?;
        let updated = StrategyConfig { max_slippage_bps: new_slippage_bps, ..config };
        save_config(env, at, &updated)?;
        Ok(())
    }

    /// Sends `amount` of `token`, stuck in the strategy, to `to`. Only for the
    /// admin. Tokens can stay behind when the pool takes less of the pair
    /// token than was swapped for.
    pub open spec fn spec_sweep(
        env: &Env,
        admin: Address,
        token: Address,
        to: Address,
        amount: i128,
    ) -> Result<(), Halt<Call>> {
        chain(env.done(0, Call::RequireAuth { address: admin }), |_authorized: ()|
        chain(load_config(env, 1), |loaded: (StrategyConfig, usize)|
        if admin != loaded.0.admin {
            Err(Halt::Abort(StrategyError::NotAuthorized))
        } else {
            env.done(loaded.1, Call::TokenTransfer { token, from: env.contract, to, amount })
        }))
    }

    /// Sends `amount` of `token`, stuck in the strategy, to `to`. Only for the
    /// admin. Tokens can stay behind when the pool takes less of the pair
    /// token than was swapped for.
    pub fn sweep(env: &Env, admin: Address, token: Address, to: Address, amount: i128) -> (r:
        Result<(), Halt<Call>>)
        ensures
            r == Self::spec_sweep(env, admin, token, to, amount),
    {
        env.done(0, Call::RequireAuth { address: admin })?;
        let (config, at) = load_config(env, 1)?;
        if admin != config.admin {
            return Err(Halt::Abort(StrategyError::NotAuthorized));
        }
        env.done(at, Call::TokenTransfer { token, from: env.contract, to, amount })
    }

    /// The token that vaults deposit and withdraw.
    pub open spec fn spec_asset(env: &Env) -> Result<Address, Halt<Call>> {
        chain(load_config(env, 0), |loaded: (StrategyConfig, usize)|
        Ok(loaded.0.deposit_token))
    }

    /// The token that vaults deposit and withdraw.
    pub fn asset(env: &Env) -> (r: Result<Address, Halt<Call>>)
        ensures
            r == Self::spec_asset(env),
    {
        let (config, _) = load_config(env, 0)?;
        Ok(config.deposit_token)
    }

    /// Deposits `amount` for the vault `from`, which has transferred it to the
    /// strategy before. The share tokens minted are added to those of the
    /// vault. Gives back the value of its position.
    pub open spec fn spec_deposit(env: &Env, amount: i128, from: Address) -> Result<
        i128,
        Halt<Call>,
    > {
        if amount <= 0 {
            Err(Halt::Error(StrategyError::OnlyPositiveAmountAllowed))
        } else {
            chain(load_config(env, 0), |loaded: (StrategyConfig, usize)|
            chain(aquarius_pool::deposit(
                env,
                loaded.1,
                amount,
                &loaded.0,
            ), |minted: (i128, usize)|
            chain(get_shares(env, minted.1, from), |prev: (i128, usize)|
            if prev.0 + minted.0 > i128::MAX || prev.0 + minted.0 < i128::MIN {
                Err(Halt::Trap)
            } else {
                chain(set_shares(env, prev.1, from, (prev.0 + minted.0) as i128), |set: usize|
                chain(env.done(set, Call::EmitDeposit {
                    strategy: STRATEGY_NAME,
                    amount,
                    from,
                }), |_emitted: ()|
                chain(get_shares(env, (set + 1) as usize, from), |shares: (i128, usize)|
                chain(aquarius_pool::shares_value_in_deposit(
                    env,
                    shares.1,
                    shares.0,
                    &loaded.0,
                ), |value: (i128, usize)|
                Ok(value.0)))))
            })))
        }
    }

    /// Deposits `amount` for the vault `from`, which has transferred it to the
    /// strategy before. The share tokens minted are added to those of the
    /// vault. Gives back the value of its position.
    pub fn deposit(env: &Env, amount: i128, from: Address) -> (r: Result<i128, Halt<Call>>)
        ensures
            r == Self::spec_deposit(env, amount, from),
    {
        if amount <= 0 {
            return Err(Halt::Error(StrategyError::OnlyPositiveAmountAllowed));
        }
        let (config, at) = load_config(env, 0)?;
        let (shares_minted, at) = aquarius_pool::deposit(env, at, amount, &config)?;
        let (prev, at) = get_shares(env, at, from)?;
        let shares: i128 = match prev.checked_add(shares_minted) {
            Some(shares) => shares,
            None => return Err(Halt::Trap),
        };
        let at: usize = set_shares(env, at, from, shares)?;
        env.done(at, Call::EmitDeposit { strategy: STRATEGY_NAME, amount, from })?;
        let (vault_shares, at) = get_shares(env, at + 1, from)?;
        let (value, _) = aquarius_pool::shares_value_in_deposit(env, at, vault_shares, &config)?;
        Ok(value)
    }

    /// Withdraws `amount` of the deposit token for the vault `from` and sends
    /// it to `to`, burning a proportional part of the shares of the vault.
    /// Gives back the value of what remains.
    pub open spec fn spec_withdraw(env: &Env, amount: i128, from: Address, to: Address) -> Result<
        i128,
        Halt<Call>,
    > {
        if amount <= 0 {
            Err(Halt::Error(StrategyError::OnlyPositiveAmountAllowed))
        } else {
            chain(load_config(env, 0), |loaded: (StrategyConfig, usize)|
            chain(get_shares(env, loaded.1, from), |held: (i128, usize)|
            if held.0 == 0 {
                Err(Halt::Error(StrategyError::InsufficientBalance))
            } else {
                chain(aquarius_pool::shares_value_in_deposit(
                    env,
                    held.1,
                    held.0,
                    &loaded.0,
                ), |worth: (i128, usize)|
                if worth.0 == 0 {
                    Err(Halt::Error(StrategyError::InsufficientBalance))
                } else {
                    match shares_to_burn(held.0, amount, worth.0) {
                        Err(error) => Err(Halt::Error(error)),
                        Ok(burnt) =>
                            chain(aquarius_pool::withdraw(
                                env,
                                worth.1,
                                burnt,
                                to,
                                &loaded.0,
                            ), |withdrawn: (i128, usize)|
                            if held.0 - burnt > i128::MAX || held.0 - burnt < i128::MIN {
                                Err(Halt::Trap)
                            } else {
                                chain(set_shares(
                                    env,
                                    withdrawn.1,
                                    from,
                                    (held.0 - burnt) as i128,
                                ), |set: usize|
                                chain(env.done(set, Call::EmitWithdraw {
                                    strategy: STRATEGY_NAME,
                                    amount: withdrawn.0,
                                    from,
                                }), |_emitted: ()|
                                chain(get_shares(
                                    env,
                                    (set + 1) as usize,
                                    from,
                                ), |rest: (i128, usize)|
                                chain(aquarius_pool::shares_value_in_deposit(
                                    env,
                                    rest.1,
                                    rest.0,
                                    &loaded.0,
                                ), |value: (i128, usize)|
                                Ok(value.0)))))
                            }),
                    }
                })
            }))
        }
    }

    /// Withdraws `amount` of the deposit token for the vault `from` and sends
    /// it to `to`, burning a proportional part of the shares of the vault.
    /// Gives back the value of what remains.
    pub fn withdraw(env: &Env, amount: i128, from: Address, to: Address) -> (r: Result<
        i128,
        Halt<Call>,
    >)
        ensures
            r == Self::spec_withdraw(env, amount, from, to),
    {
        if amount <= 0 {
            return Err(Halt::Error(StrategyError::OnlyPositiveAmountAllowed));
        }
        let (config, at) = load_config(env, 0)?;
        let (vault_shares, at) = get_shares(env, at, from)?;
        if vault_shares == 0 {
            return Err(Halt::Error(StrategyError::InsufficientBalance));
        }
        let (total_value, at) = aquarius_pool::shares_value_in_deposit(
            env,
            at,
            vault_shares,
            &config,
        )?;
        if total_value == 0 {
            return Err(Halt::Error(StrategyError::InsufficientBalance));
        }
        let burnt: i128 = match shares_to_burn(vault_shares, amount, total_value) {
            Ok(burnt) => burnt,
            Err(error) => return Err(Halt::Error(error)),
        };
        let (actual_withdrawn, at) = aquarius_pool::withdraw(env, at, burnt, to, &config)?;
        let rest: i128 = match vault_shares.checked_sub(burnt) {
            Some(rest) => rest,
            None => return Err(Halt::Trap),
        };
        let at: usize = set_shares(env, at, from, rest)?;
        env.done(
            at,
            Call::EmitWithdraw { strategy: STRATEGY_NAME, amount: actual_withdrawn, from },
        )?;
        let (remaining_shares, at) = get_shares(env, at + 1, from)?;
        let (value, _) = aquarius_pool::shares_value_in_deposit(
            env,
            at,
            remaining_shares,
            &config,
        )?;
        Ok(value)
    }

    /// The value of the position of the vault `from` in the deposit token.
    pub open spec fn spec_balance(env: &Env, from: Address) -> Result<i128, Halt<Call>> {
        chain(load_config(env, 0), |loaded: (StrategyConfig, usize)|
        chain(get_shares(env, loaded.1, from), |shares: (i128, usize)|
        chain(aquarius_pool::shares_value_in_deposit(
            env,
            shares.1,
            shares.0,
            &loaded.0,
        ), |value: (i128, usize)|
        Ok(value.0))))
    }

    /// The value of the position of the vault `from` in the deposit token.
    pub fn balance(env: &Env, from: Address) -> (r: Result<i128, Halt<Call>>)
        ensures
            r == Self::spec_balance(env, from),
    {
        let (config, at) = load_config(env, 0)?;
        let (vault_shares, at) = get_shares(env, at, from)?;
        let (value, _) = aquarius_pool::shares_value_in_deposit(env, at, vault_shares, &config)?;
        Ok(value)
    }

    /// Claims the AQUA rewards for the vault `from` and reports them, with the
    /// value of one share in seven decimals.
    pub open spec fn spec_harvest(env: &Env, from: Address) -> Result<(), Halt<Call>> {
        chain(load_config(env, 0), |loaded: (StrategyConfig, usize)|
        chain(aquarius_pool::claim(env, loaded.1, from, &loaded.0), |claimed: (i128, usize)|
        chain(get_shares(env, claimed.1, from), |shares: (i128, usize)|
        if shares.0 > 0 {
            chain(aquarius_pool::shares_value_in_deposit(
                env,
                shares.1,
                shares.0,
                &loaded.0,
            ), |value: (i128, usize)|
            env.done(value.1, Call::EmitHarvest {
                strategy: STRATEGY_NAME,
                amount: claimed.0,
                from,
                price_per_share: price_per_share(value.0, shares.0),
            }))
        } else {
            env.done(shares.1, Call::EmitHarvest {
                strategy: STRATEGY_NAME,
                amount: claimed.0,
                from,
                price_per_share: 0,
            })
        })))
    }

    /// Claims the AQUA rewards for the vault `from` and reports them, with the
    /// value of one share in seven decimals. `data` is not used.
    pub fn harvest(env: &Env, from: Address, data: Option<Vec<u8>>) -> (r: Result<(), Halt<Call>>)
        ensures
            r == Self::spec_harvest(env, from),
    {
        let (config, at) = load_config(env, 0)?;
        let (aqua_harvested, at) = aquarius_pool::claim(env, at, from, &config)?;
        let (vault_shares, at) = get_shares(env, at, from)?;
        if vault_shares > 0 {
            let (total_value, at) = aquarius_pool::shares_value_in_deposit(
                env,
                at,
                vault_shares,
                &config,
            )?;
            env.done(
                at,
                Call::EmitHarvest {
                    strategy: STRATEGY_NAME,
                    amount: aqua_harvested,
                    from,
                    price_per_share: price_per_share(total_value, vault_shares),
                },
            )
        } else {
            env.done(
                at,
                Call::EmitHarvest {
                    strategy: STRATEGY_NAME,
                    amount: aqua_harvested,
                    from,
                    price_per_share: 0,
                },
            )
        }
    }
}

} // verus!
