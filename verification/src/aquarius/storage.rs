use crate::address::Address;
use crate::aquarius::calls::{Call, Env};
use crate::error::StrategyError;
use crate::session::{chain, Halt};
use vstd::prelude::*;

verus! {

pub const ONE_DAY_LEDGERS: u32 = 17_280;

pub const INSTANCE_TTL: u32 = ONE_DAY_LEDGERS * 30;

pub const INSTANCE_BUMP: u32 = ONE_DAY_LEDGERS * 31;

pub const PERSISTENT_TTL: u32 = ONE_DAY_LEDGERS * 365;

pub const PERSISTENT_BUMP: u32 = ONE_DAY_LEDGERS * 366;

/// The highest slippage tolerance that can be configured: 10%.
pub const MAX_SLIPPAGE_BPS: u32 = 1_000;

/// The configuration of the strategy, kept in instance storage.
#[derive(Clone, Copy, Debug, PartialEq, Eq, Structural)]
pub struct StrategyConfig {
    /// Single-asset entry token. This is what vaults deposit and withdraw.
    pub deposit_token: Address,
    /// Index of `deposit_token` in the token list of the pool: 0 or 1.
    pub deposit_token_idx: u32,
    /// Pair token, held only in the course of a deposit or a withdrawal.
    pub pair_token: Address,
    /// Index of `pair_token` in the token list of the pool: 0 or 1.
    pub pair_token_idx: u32,
    /// Aquarius pool contract.
    pub pool: Address,
    /// LP share token minted by the pool, attributed to vaults in storage.
    pub share_token: Address,
    /// AQUA reward token that the pool pays out on a claim.
    pub aqua_token: Address,
    /// Highest acceptable slippage in basis points (50 is 0.5%).
    pub max_slippage_bps: u32,
    /// May update the slippage and sweep stuck tokens.
    pub admin: Address,
}

impl StrategyConfig {
    /// What holds of every configuration that is stored: both indices are 0 or
    /// 1, and the slippage tolerance is within the limit.
    pub open spec fn well_formed(&self) -> bool {
        &&& self.deposit_token_idx <= 1
        &&& self.pair_token_idx <= 1
        &&& self.max_slippage_bps <= MAX_SLIPPAGE_BPS
    }
}

/// Under what the strategy stores its data.
#[derive(Clone, Copy, Debug, PartialEq, Eq, Structural)]
pub enum StorageKey {
    /// The configuration.
    Config,
    /// The LP share tokens attributed to one vault.
    ShareTokens(Address),
}

/// Reads the configuration; aborts if there is none.
pub open spec fn spec_load_config(env: &Env, at: usize) -> Result<
    (StrategyConfig, usize),
    Halt<Call>,
> {
    chain(
        env.config(at, Call::InstanceGet { key: StorageKey::Config }),
        |stored: &Option<StrategyConfig>|
            match stored {
                Some(config) => Ok((*config, (at + 1) as usize)),
                None => Err(Halt::Abort(StrategyError::NotInitialized)),
            },
    )
}

/// Reads the configuration; aborts if there is none.
#[verifier::when_used_as_spec(spec_load_config)]
pub fn load_config(env: &Env, at: usize) -> (r: Result<(StrategyConfig, usize), Halt<Call>>)
    ensures
        r == spec_load_config(env, at),
        r matches Ok((_, next)) ==> next <= env.replies@.len(),
{
    let stored = env.config(at, Call::InstanceGet { key: StorageKey::Config })?;
    match stored {
        Some(config) => Ok((*config, at + 1)),
        None => Err(Halt::Abort(StrategyError::NotInitialized)),
    }
}

/// Stores the configuration and extends the life of instance storage.
pub open spec fn spec_save_config(env: &Env, at: usize, config: &StrategyConfig) -> Result<
    usize,
    Halt<Call>,
> {
    chain(
        env.done(at, Call::InstanceSet { key: StorageKey::Config, config: *config }),
        |_set: ()|
            chain(
                env.done(
                    (at + 1) as usize,
                    Call::InstanceExtendTtl { threshold: INSTANCE_TTL, extend_to: INSTANCE_BUMP },
                ),
                |_extended: ()| Ok((at + 2) as usize),
            ),
    )
}

/// Stores the configuration and extends the life of instance storage.
#[verifier::when_used_as_spec(spec_save_config)]
pub fn save_config(env: &Env, at: usize, config: &StrategyConfig) -> (r: Result<usize, Halt<Call>>)
    ensures
        r == spec_save_config(env, at, config),
        r matches Ok(next) ==> next <= env.replies@.len(),
{
    env.done(at, Call::InstanceSet { key: StorageKey::Config, config: *config })?;
    env.done(
        at + 1,
        Call::InstanceExtendTtl { threshold: INSTANCE_TTL, extend_to: INSTANCE_BUMP },
    )?;
    Ok(at + 2)
}

/// Whether a configuration has been stored.
pub open spec fn spec_is_initialized(env: &Env, at: usize) -> Result<(bool, usize), Halt<Call>> {
    chain(
        env.flag(at, Call::InstanceHas { key: StorageKey::Config }),
        |has: bool| Ok((has, (at + 1) as usize)),
    )
}

/// Whether a configuration has been stored.
#[verifier::when_used_as_spec(spec_is_initialized)]
pub fn is_initialized(env: &Env, at: usize) -> (r: Result<(bool, usize), Halt<Call>>)
    ensures
        r == spec_is_initialized(env, at),
        r matches Ok((_, next)) ==> next <= env.replies@.len(),
{
    let has = env.flag(at, Call::InstanceHas { key: StorageKey::Config })?;
    Ok((has, at + 1))
}

/// Aborts on a slippage tolerance above `MAX_SLIPPAGE_BPS`.
pub open spec fn spec_validate_slippage(slippage_bps: u32) -> Result<(), Halt<Call>> {
    if slippage_bps > MAX_SLIPPAGE_BPS {
        Err(Halt::Abort(StrategyError::InvalidArgument))
    } else {
        Ok(())
    }
}

/// Aborts on a slippage tolerance above `MAX_SLIPPAGE_BPS`.
#[verifier::when_used_as_spec(spec_validate_slippage)]
pub fn validate_slippage(slippage_bps: u32) -> (r: Result<(), Halt<Call>>)
    ensures
        r == spec_validate_slippage(slippage_bps),
{
    if slippage_bps > MAX_SLIPPAGE_BPS {
        return Err(Halt::Abort(StrategyError::InvalidArgument));
    }
    Ok(())
}

/// The LP share tokens attributed to `vault`, none if nothing is stored. A
/// positive entry has its life extended.
pub open spec fn spec_get_shares(env: &Env, at: usize, vault: Address) -> Result<
    (i128, usize),
    Halt<Call>,
> {
    let key = StorageKey::ShareTokens(vault);
    chain(
        env.stored(at, Call::PersistentGet { key }),
        |stored: Option<i128>|
            {
                let shares = stored.unwrap_or(0);
                if shares > 0 {
                    chain(
                        env.done(
                            (at + 1) as usize,
                            Call::PersistentExtendTtl {
                                key,
                                threshold: PERSISTENT_TTL,
                                extend_to: PERSISTENT_BUMP,
                            },
                        ),
                        |_extended: ()| Ok((shares, (at + 2) as usize)),
                    )
                } else {
                    Ok((shares, (at + 1) as usize))
                }
            },
    )
}

/// The LP share tokens attributed to `vault`, none if nothing is stored. A
/// positive entry has its life extended.
///
/// The pool mints a share token of its own, all of which the strategy holds;
/// the attribution lets several vaults share one strategy.
#[verifier::when_used_as_spec(spec_get_shares)]
pub fn get_shares(env: &Env, at: usize, vault: Address) -> (r: Result<(i128, usize), Halt<Call>>)
    ensures
        r == spec_get_shares(env, at, vault),
        r matches Ok((_, next)) ==> next <= env.replies@.len(),
{
    let key = StorageKey::ShareTokens(vault);
    let stored = env.stored(at, Call::PersistentGet { key })?;
    let shares: i128 = stored.unwrap_or(0);
    if shares > 0 {
        env.done(
            at + 1,
            Call::PersistentExtendTtl {
                key,
                threshold: PERSISTENT_TTL,
                extend_to: PERSISTENT_BUMP,
            },
        )?;
        Ok((shares, at + 2))
    } else {
        Ok((shares, at + 1))
    }
}

/// Overwrites the LP share tokens attributed to `vault`.
pub open spec fn spec_set_shares(env: &Env, at: usize, vault: Address, shares: i128) -> Result<
    usize,
    Halt<Call>,
> {
    let key = StorageKey::ShareTokens(vault);
    chain(
        env.done(at, Call::PersistentSet { key, value: shares }),
        |_set: ()|
            chain(
                env.done(
                    (at + 1) as usize,
                    Call::PersistentExtendTtl {
                        key,
                        threshold: PERSISTENT_TTL,
                        extend_to: PERSISTENT_BUMP,
                    },
                ),
                |_extended: ()| Ok((at + 2) as usize),
            ),
    )
}

/// Overwrites the LP share tokens attributed to `vault`.
#[verifier::when_used_as_spec(spec_set_shares)]
pub fn set_shares(env: &Env, at: usize, vault: Address, shares: i128) -> (r: Result<
    usize,
    Halt<Call>,
>)
    ensures
        r == spec_set_shares(env, at, vault, shares),
        r matches Ok(next) ==> next <= env.replies@.len(),
{
    let key = StorageKey::ShareTokens(vault);
    env.done(at, Call::PersistentSet { key, value: shares })?;
    env.done(
        at + 1,
        Call::PersistentExtendTtl { key, threshold: PERSISTENT_TTL, extend_to: PERSISTENT_BUMP },
    )?;
    Ok(at + 2)
}

} // verus!
