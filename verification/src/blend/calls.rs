use crate::address::{Address, Authorization};
use crate::blend::reserves::StrategyReserves;
use crate::blend::storage::Config;
use crate::session::Session;
use vstd::prelude::*;

verus! {

/// What the pool is to do with an amount of an asset.
#[derive(Clone, Copy, Debug, PartialEq, Eq, Structural)]
pub struct Request {
    pub address: Address,
    pub amount: i128,
    pub request_type: u32,
}

/// What the strategy asks of its host.
#[derive(Clone, Copy, Debug, PartialEq, Eq)]
pub enum Call {
    /// Extends the life of instance storage.
    ExtendInstanceTtl,
    /// Whether the configuration has been stored: a flag.
    IsInitialized,
    /// The stored configuration, or why there is none.
    GetConfig,
    /// Stores the configuration.
    SetConfig { config: Config },
    /// The stored keeper, or why there is none.
    GetKeeper,
    /// Stores the keeper.
    SetKeeper { keeper: Address },
    /// The stored shares of one vault: a signed amount.
    GetVaultShares { vault: Address },
    /// Stores the shares of one vault.
    SetVaultShares { vault: Address, shares: i128 },
    /// The stored reserve record.
    GetStrategyReserves,
    /// Stores the reserve record.
    SetStrategyReserves { reserves: StrategyReserves },
    /// The time of the ledger, in seconds.
    LedgerTimestamp,
    /// Fails unless the address has authorized the invocation.
    RequireAuth { address: Address },
    /// Permits the next call to move tokens.
    Authorize { entry: Authorization },
    /// `token.balance(holder)`: a signed amount.
    TokenBalance { token: Address, holder: Address },
    /// `token.transfer(from, to, amount)`
    TokenTransfer { token: Address, from: Address, to: Address, amount: i128 },
    /// The index of the asset, from `pool.get_reserve(asset)`.
    PoolReserveIndex { pool: Address, asset: Address },
    /// The b_rate of the asset, from `pool.get_reserve(asset)`: a signed amount.
    PoolBRate { pool: Address, asset: Address },
    /// The supply in the reserve, from `pool.get_positions(owner)`.
    PoolSupplyPosition { pool: Address, owner: Address, reserve_id: u32 },
    /// `pool.submit(from, spender, to, [request])`, and the supply in the
    /// reserve from the positions that it answers.
    PoolSubmit {
        pool: Address,
        from: Address,
        spender: Address,
        to: Address,
        request: Request,
        reserve_id: u32,
    },
    /// `pool.claim(from, reserve_token_ids, to)`: a signed amount.
    PoolClaim { pool: Address, from: Address, reserve_token_ids: [u32; 1], to: Address },
    /// Swaps an exact amount through the router: the amounts along the path,
    /// or why it failed.
    SwapExactTokensForTokens {
        router: Address,
        amount_in: i128,
        amount_out_min: i128,
        path: (Address, Address),
        to: Address,
        deadline: u64,
    },
    /// Publishes a deposit event.
    EmitDeposit { strategy: &'static str, amount: i128, from: Address },
    /// Publishes a withdraw event.
    EmitWithdraw { strategy: &'static str, amount: i128, from: Address },
    /// Publishes a harvest event.
    EmitHarvest { strategy: &'static str, amount: i128, from: Address, price_per_share: i128 },
}

/// An invocation of this strategy.
pub type Env = Session<Config>;

} // verus!
