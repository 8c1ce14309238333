use crate::address::{Address, Symbol};
use crate::error::StrategyError;
use crate::rwa_lending::calls::{Call, Env};
use crate::session::{chain, Halt};
use vstd::prelude::*;

verus! {

/// A rate of one, in the twelve decimals in which the lending pool states
/// rates.
pub const SCALAR_12: i128 = 1_000_000_000_000;

pub const ONE_DAY_LEDGERS: u32 = 17_280;

/// The life, in ledgers, below which instance storage has its life extended:
/// thirty days. Reading and storing the configuration do so.
pub const INSTANCE_TTL: u32 = ONE_DAY_LEDGERS * 30;

/// The life to which instance storage is extended: thirty-one days.
pub const INSTANCE_BUMP: u32 = ONE_DAY_LEDGERS * 31;

/// The life, in ledgers, below which a persistent entry has its life extended:
/// one year.
pub const PERSISTENT_TTL: u32 = ONE_DAY_LEDGERS * 365;

/// The life to which a persistent entry is extended.
pub const PERSISTENT_BUMP: u32 = ONE_DAY_LEDGERS * 366;

/// The configuration of the strategy, kept in instance storage.
#[derive(Clone, Copy, Debug, PartialEq, Eq, Structural)]
pub struct StrategyConfig {
    /// Underlying asset that the strategy manages.
    pub asset: Address,
    /// Lending pool contract.
    pub lending_pool: Address,
    /// Name of the asset in the lending pool.
    pub rwa_asset: Symbol,
}

/// Under what the strategy stores its data.
#[derive(Clone, Copy, Debug, PartialEq, Eq, Structural)]
pub enum StorageKey {
    /// The configuration.
    Config,
    /// The b_tokens attributed to one vault.
    BTokens(Address),
}

/// Reads the configuration and extends the life of instance storage; aborts if
/// there is none.
pub open spec fn spec_load_config(env: &Env, at: usize) -> Result<
    (StrategyConfig, usize),
    Halt<Call>,
> {
    chain(env.config(at, Call::InstanceGet {
        key: StorageKey::Config,
    }), |stored: &Option<StrategyConfig>|
    match stored {
        Some(config) =>
            chain(env.done((at + 1) as usize, Call::InstanceExtendTtl {
                threshold: INSTANCE_TTL,
                extend_to: INSTANCE_BUMP,
            }), |_extended: ()|
            Ok((*config, (at + 2) as usize))),
        None => Err(Halt::Abort(StrategyError::NotInitialized)),
    })
}

/// Reads the configuration and extends the life of instance storage; aborts if
/// there is none.
#[verifier::when_used_as_spec(spec_load_config)]
pub fn load_config(env: &Env, at: usize) -> (r: Result<(StrategyConfig, usize), Halt<Call>>)
    ensures
        r == spec_load_config(env, at),
        r matches Ok((_, next)) ==> next <= env.replies@.len(),
{
    let stored = env.config(at, Call::InstanceGet { key: StorageKey::Config })?;
    match stored {
        Some(config) => {
            env.done(
                at + 1,
                Call::InstanceExtendTtl { threshold: INSTANCE_TTL, extend_to: INSTANCE_BUMP },
            )?;
            Ok((*config, at + 2))
        },
        None => Err(Halt::Abort(StrategyError::NotInitialized)),
    }
}

/// Stores the configuration and extends the life of instance storage.
pub open spec fn spec_save_config(env: &Env, at: usize, config: &StrategyConfig) -> Result<
    usize,
    Halt<Call>,
> {
    chain(
        env.done(at, Call::InstanceSet { key: StorageKey::Config, config: *config }),
        |_set: ()|
            chain(
                env.done(
                    (at + 1) as usize,
                    Call::InstanceExtendTtl { threshold: INSTANCE_TTL, extend_to: INSTANCE_BUMP },
                ),
                |_extended: ()| Ok((at + 2) as usize),
            ),
    )
}

/// Stores the configuration and extends the life of instance storage.
#[verifier::when_used_as_spec(spec_save_config)]
pub fn save_config(env: &Env, at: usize, config: &StrategyConfig) -> (r: Result<usize, Halt<Call>>)
    ensures
        r == spec_save_config(env, at, config),
        r matches Ok(next) ==> next <= env.replies@.len(),
{
    env.done(at, Call::InstanceSet { key: StorageKey::Config, config: *config })?;
    env.done(
        at + 1,
        Call::InstanceExtendTtl { threshold: INSTANCE_TTL, extend_to: INSTANCE_BUMP },
    )?;
    Ok(at + 2)
}

/// Whether a configuration has been stored.
pub open spec fn spec_is_initialized(env: &Env, at: usize) -> Result<(bool, usize), Halt<Call>> {
    chain(
        env.flag(at, Call::InstanceHas { key: StorageKey::Config }),
        |has: bool| Ok((has, (at + 1) as usize)),
    )
}

/// Whether a configuration has been stored.
#[verifier::when_used_as_spec(spec_is_initialized)]
pub fn is_initialized(env: &Env, at: usize) -> (r: Result<(bool, usize), Halt<Call>>)
    ensures
        r == spec_is_initialized(env, at),
        r matches Ok((_, next)) ==> next <= env.replies@.len(),
{
    let has = env.flag(at, Call::InstanceHas { key: StorageKey::Config })?;
    Ok((has, at + 1))
}

/// The b_tokens attributed to `vault`, none if nothing is stored. A
/// positive entry has its life extended.
pub open spec fn spec_get_b_tokens(env: &Env, at: usize, vault: Address) -> Result<
    (i128, usize),
    Halt<Call>,
> {
    let key = StorageKey::BTokens(vault);
    chain(
        env.stored(at, Call::PersistentGet { key }),
        |stored: Option<i128>|
            {
                let b_tokens = stored.unwrap_or(0);
                if b_tokens > 0 {
                    chain(
                        env.done(
                            (at + 1) as usize,
                            Call::PersistentExtendTtl {
                                key,
                                threshold: PERSISTENT_TTL,
                                extend_to: PERSISTENT_BUMP,
                            },
                        ),
                        |_extended: ()| Ok((b_tokens, (at + 2) as usize)),
                    )
                } else {
                    Ok((b_tokens, (at + 1) as usize))
                }
            },
    )
}

/// The b_tokens attributed to `vault`, none if nothing is stored. A
/// positive entry has its life extended.
///
/// The strategy is the lender in the pool; the attribution lets several vaults
/// share one strategy.
#[verifier::when_used_as_spec(spec_get_b_tokens)]
pub fn get_b_tokens(env: &Env, at: usize, vault: Address) -> (r: Result<(i128, usize), Halt<Call>>)
    ensures
        r == spec_get_b_tokens(env, at, vault),
        r matches Ok((_, next)) ==> next <= env.replies@.len(),
{
    let key = StorageKey::BTokens(vault);
    let stored = env.stored(at, Call::PersistentGet { key })?;
    let b_tokens: i128 = stored.unwrap_or(0);
    if b_tokens > 0 {
        env.done(
            at + 1,
            Call::PersistentExtendTtl {
                key,
                threshold: PERSISTENT_TTL,
                extend_to: PERSISTENT_BUMP,
            },
        )?;
        Ok((b_tokens, at + 2))
    } else {
        Ok((b_tokens, at + 1))
    }
}

/// Overwrites the b_tokens attributed to `vault`.
pub open spec fn spec_set_b_tokens(env: &Env, at: usize, vault: Address, b_tokens: i128) -> Result<
    usize,
    Halt<Call>,
> {
    let key = StorageKey::BTokens(vault);
    chain(
        env.done(at, Call::PersistentSet { key, value: b_tokens }),
        |_set: ()|
            chain(
                env.done(
                    (at + 1) as usize,
                    Call::PersistentExtendTtl {
                        key,
                        threshold: PERSISTENT_TTL,
                        extend_to: PERSISTENT_BUMP,
                    },
                ),
                |_extended: ()| Ok((at + 2) as usize),
            ),
    )
}

/// Overwrites the b_tokens attributed to `vault`.
#[verifier::when_used_as_spec(spec_set_b_tokens)]
pub fn set_b_tokens(env: &Env, at: usize, vault: Address, b_tokens: i128) -> (r: Result<
    usize,
    Halt<Call>,
>)
    ensures
        r == spec_set_b_tokens(env, at, vault, b_tokens),
        r matches Ok(next) ==> next <= env.replies@.len(),
{
    let key = StorageKey::BTokens(vault);
    env.done(at, Call::PersistentSet { key, value: b_tokens })?;
    env.done(
        at + 1,
        Call::PersistentExtendTtl { key, threshold: PERSISTENT_TTL, extend_to: PERSISTENT_BUMP },
    )?;
    Ok(at + 2)
}

} // verus!
