use crate::address::{Address, Authorization};
use crate::aquarius::storage::{StorageKey, StrategyConfig};
use crate::session::Session;
use vstd::prelude::*;

verus! {

/// What the strategy asks of its host.
#[derive(Clone, Copy, Debug, PartialEq, Eq)]
pub enum Call {
    /// Whether instance storage has the key: a flag.
    InstanceHas { key: StorageKey },
    /// The configuration that instance storage has under the key.
    InstanceGet { key: StorageKey },
    /// Stores the configuration.
    InstanceSet { key: StorageKey, config: StrategyConfig },
    /// Extends the life of instance storage.
    InstanceExtendTtl { threshold: u32, extend_to: u32 },
    /// The amount that persistent storage has under the key.
    PersistentGet { key: StorageKey },
    /// Stores the amount.
    PersistentSet { key: StorageKey, value: i128 },
    /// Extends the life of one persistent entry.
    PersistentExtendTtl { key: StorageKey, threshold: u32, extend_to: u32 },
    /// Fails unless the address has authorized the invocation.
    RequireAuth { address: Address },
    /// Permits the next call to move tokens.
    Authorize { entry: Authorization },
    /// Permits the next call to move tokens twice.
    AuthorizeBoth { first: Authorization, second: Authorization },
    /// `token.balance(holder)`: a signed amount.
    TokenBalance { token: Address, holder: Address },
    /// `token.transfer(from, to, amount)`
    TokenTransfer { token: Address, from: Address, to: Address, amount: i128 },
    /// `pool.get_tokens()`: a list of addresses.
    PoolTokens { pool: Address },
    /// `pool.share_id()`: an address.
    PoolShareId { pool: Address },
    /// `pool.estimate_swap(in_idx, out_idx, in_amount)`: an unsigned amount.
    PoolEstimateSwap { pool: Address, in_idx: u32, out_idx: u32, in_amount: u128 },
    /// `pool.swap(user, in_idx, out_idx, in_amount, out_min)`: an unsigned
    /// amount.
    PoolSwap {
        pool: Address,
        user: Address,
        in_idx: u32,
        out_idx: u32,
        in_amount: u128,
        out_min: u128,
    },
    /// `pool.get_reserves()`: a list of unsigned amounts.
    PoolReserves { pool: Address },
    /// `pool.get_total_shares()`: an unsigned amount.
    PoolTotalShares { pool: Address },
    /// `pool.estimate_deposit(amounts)`: an unsigned amount.
    PoolEstimateDeposit { pool: Address, amounts: (u128, u128) },
    /// `pool.deposit(user, amounts, min_shares)`
    PoolDeposit { pool: Address, user: Address, amounts: (u128, u128), min_shares: u128 },
    /// `pool.withdraw(user, shares, min_amounts)`: a list of unsigned amounts.
    PoolWithdraw { pool: Address, user: Address, shares: u128, min_amounts: (u128, u128) },
    /// `pool.claim(user)`: an unsigned amount.
    PoolClaim { pool: Address, user: Address },
    /// Publishes a deposit event.
    EmitDeposit { strategy: &'static str, amount: i128, from: Address },
    /// Publishes a withdraw event.
    EmitWithdraw { strategy: &'static str, amount: i128, from: Address },
    /// Publishes a harvest event.
    EmitHarvest { strategy: &'static str, amount: i128, from: Address, price_per_share: i128 },
}

/// An invocation of this strategy.
pub type Env = Session<StrategyConfig>;

} // verus!
