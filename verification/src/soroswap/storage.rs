use crate::address::Address;
use crate::soroswap::calls::{Call, Env};
use crate::error::StrategyError;
use crate::session::{chain, Halt};
use vstd::prelude::*;

verus! {

pub const ONE_DAY_LEDGERS: u32 = 17_280;

pub const INSTANCE_TTL: u32 = ONE_DAY_LEDGERS * 30;

pub const INSTANCE_BUMP: u32 = ONE_DAY_LEDGERS * 31;

pub const PERSISTENT_TTL: u32 = ONE_DAY_LEDGERS * 365;

pub const PERSISTENT_BUMP: u32 = ONE_DAY_LEDGERS * 366;

/// The configuration of the strategy, kept in instance storage.
#[derive(Clone, Copy, Debug, PartialEq, Eq, Structural)]
pub struct StrategyConfig {
    /// Single-asset entry token. This is what vaults deposit and withdraw.
    pub token_a: Address,
    /// Pair token, held only in the course of a deposit or a withdrawal.
    pub token_b: Address,
    /// Soroswap router contract.
    pub router: Address,
    /// Soroswap pair contract, as the router has it.
    pub pair: Address,
}

/// Under what the strategy stores its data.
#[derive(Clone, Copy, Debug, PartialEq, Eq, Structural)]
pub enum StorageKey {
    /// The configuration.
    Config,
    /// The LP tokens attributed to one vault.
    LpTokens(Address),
}

/// Reads the configuration; aborts if there is none.
pub open spec fn spec_load_config(env: &Env, at: usize) -> Result<
    (StrategyConfig, usize),
    Halt<Call>,
> {
    chain(
        env.config(at, Call::InstanceGet { key: StorageKey::Config }),
        |stored: &Option<StrategyConfig>|
            match stored {
                Some(config) => Ok((*config, (at + 1) as usize)),
                None => Err(Halt::Abort(StrategyError::NotInitialized)),
            },
    )
}

/// Reads the configuration; aborts if there is none.
#[verifier::when_used_as_spec(spec_load_config)]
pub fn load_config(env: &Env, at: usize) -> (r: Result<(StrategyConfig, usize), Halt<Call>>)
    ensures
        r == spec_load_config(env, at),
        r matches Ok((_, next)) ==> next <= env.replies@.len(),
{
    let stored = env.config(at, Call::InstanceGet { key: StorageKey::Config })?;
    match stored {
        Some(config) => Ok((*config, at + 1)),
        None => Err(Halt::Abort(StrategyError::NotInitialized)),
    }
}

/// Stores the configuration and extends the life of instance storage.
pub open spec fn spec_save_config(env: &Env, at: usize, config: &StrategyConfig) -> Result<
    usize,
    Halt<Call>,
> {
    chain(
        env.done(at, Call::InstanceSet { key: StorageKey::Config, config: *config }),
        |_set: ()|
            chain(
                env.done(
                    (at + 1) as usize,
                    Call::InstanceExtendTtl { threshold: INSTANCE_TTL, extend_to: INSTANCE_BUMP },
                ),
                |_extended: ()| Ok((at + 2) as usize),
            ),
    )
}

/// Stores the configuration and extends the life of instance storage.
#[verifier::when_used_as_spec(spec_save_config)]
pub fn save_config(env: &Env, at: usize, config: &StrategyConfig) -> (r: Result<usize, Halt<Call>>)
    ensures
        r == spec_save_config(env, at, config),
        r matches Ok(next) ==> next <= env.replies@.len(),
{
    env.done(at, Call::InstanceSet { key: StorageKey::Config, config: *config })?;
    env.done(
        at + 1,
        Call::InstanceExtendTtl { threshold: INSTANCE_TTL, extend_to: INSTANCE_BUMP },
    )?;
    Ok(at + 2)
}

/// Whether a configuration has been stored.
pub open spec fn spec_is_initialized(env: &Env, at: usize) -> Result<(bool, usize), Halt<Call>> {
    chain(
        env.flag(at, Call::InstanceHas { key: StorageKey::Config }),
        |has: bool| Ok((has, (at + 1) as usize)),
    )
}

/// Whether a configuration has been stored.
#[verifier::when_used_as_spec(spec_is_initialized)]
pub fn is_initialized(env: &Env, at: usize) -> (r: Result<(bool, usize), Halt<Call>>)
    ensures
        r == spec_is_initialized(env, at),
        r matches Ok((_, next)) ==> next <= env.replies@.len(),
{
    let has = env.flag(at, Call::InstanceHas { key: StorageKey::Config })?;
    Ok((has, at + 1))
}

/// The LP tokens attributed to `vault`, none if nothing is stored. A
/// positive entry has its life extended.
pub open spec fn spec_get_lp_tokens(env: &Env, at: usize, vault: Address) -> Result<
    (i128, usize),
    Halt<Call>,
> {
    let key = StorageKey::LpTokens(vault);
    chain(
        env.stored(at, Call::PersistentGet { key }),
        |stored: Option<i128>|
            {
                let lp = stored.unwrap_or(0);
                if lp > 0 {
                    chain(
                        env.done(
                            (at + 1) as usize,
                            Call::PersistentExtendTtl {
                                key,
                                threshold: PERSISTENT_TTL,
                                extend_to: PERSISTENT_BUMP,
                            },
                        ),
                        |_extended: ()| Ok((lp, (at + 2) as usize)),
                    )
                } else {
                    Ok((lp, (at + 1) as usize))
                }
            },
    )
}

/// The LP tokens attributed to `vault`, none if nothing is stored. A
/// positive entry has its life extended.
///
/// The strategy holds all LP tokens of the pair; the attribution lets several
/// vaults share one strategy.
#[verifier::when_used_as_spec(spec_get_lp_tokens)]
pub fn get_lp_tokens(env: &Env, at: usize, vault: Address) -> (r: Result<(i128, usize), Halt<Call>>)
    ensures
        r == spec_get_lp_tokens(env, at, vault),
        r matches Ok((_, next)) ==> next <= env.replies@.len(),
{
    let key = StorageKey::LpTokens(vault);
    let stored = env.stored(at, Call::PersistentGet { key })?;
    let lp: i128 = stored.unwrap_or(0);
    if lp > 0 {
        env.done(
            at + 1,
            Call::PersistentExtendTtl {
                key,
                threshold: PERSISTENT_TTL,
                extend_to: PERSISTENT_BUMP,
            },
        )?;
        Ok((lp, at + 2))
    } else {
        Ok((lp, at + 1))
    }
}

/// Overwrites the LP tokens attributed to `vault`.
pub open spec fn spec_set_lp_tokens(env: &Env, at: usize, vault: Address, lp: i128) -> Result<
    usize,
    Halt<Call>,
> {
    let key = StorageKey::LpTokens(vault);
    chain(
        env.done(at, Call::PersistentSet { key, value: lp }),
        |_set: ()|
            chain(
                env.done(
                    (at + 1) as usize,
                    Call::PersistentExtendTtl {
                        key,
                        threshold: PERSISTENT_TTL,
                        extend_to: PERSISTENT_BUMP,
                    },
                ),
                |_extended: ()| Ok((at + 2) as usize),
            ),
    )
}

/// Overwrites the LP tokens attributed to `vault`.
#[verifier::when_used_as_spec(spec_set_lp_tokens)]
pub fn set_lp_tokens(env: &Env, at: usize, vault: Address, lp: i128) -> (r: Result<
    usize,
    Halt<Call>,
>)
    ensures
        r == spec_set_lp_tokens(env, at, vault, lp),
        r matches Ok(next) ==> next <= env.replies@.len(),
{
    let key = StorageKey::LpTokens(vault);
    env.done(at, Call::PersistentSet { key, value: lp })?;
    env.done(
        at + 1,
        Call::PersistentExtendTtl { key, threshold: PERSISTENT_TTL, extend_to: PERSISTENT_BUMP },
    )?;
    Ok(at + 2)
}

} // verus!
