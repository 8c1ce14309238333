use crate::address::{Address, Authorization};
use crate::session::Session;
use crate::soroswap::storage::{StorageKey, StrategyConfig};
use vstd::prelude::*;

verus! {

/// What the strategy asks of its host.
#[derive(Clone, Copy, Debug, PartialEq, Eq)]
pub enum Call {
    /// Whether instance storage has the key: a flag.
    InstanceHas { key: StorageKey },
    /// The configuration that instance storage has under the key.
    InstanceGet { key: StorageKey },
    /// Stores the configuration.
    InstanceSet { key: StorageKey, config: StrategyConfig },
    /// Extends the life of instance storage.
    InstanceExtendTtl { threshold: u32, extend_to: u32 },
    /// The amount that persistent storage has under the key.
    PersistentGet { key: StorageKey },
    /// Stores the amount.
    PersistentSet { key: StorageKey, value: i128 },
    /// Extends the life of one persistent entry.
    PersistentExtendTtl { key: StorageKey, threshold: u32, extend_to: u32 },
    /// The time of the ledger, in seconds.
    LedgerTimestamp,
    /// Permits the next call to move tokens.
    Authorize { entry: Authorization },
    /// Permits the next call to move tokens twice.
    AuthorizeBoth { first: Authorization, second: Authorization },
    /// `token.transfer(from, to, amount)`
    TokenTransfer { token: Address, from: Address, to: Address, amount: i128 },
    /// `router.router_pair_for(token_a, token_b)`: an address.
    RouterPairFor { router: Address, token_a: Address, token_b: Address },
    /// `router.swap_exact_tokens_for_tokens(amount_in, amount_out_min, path,
    /// to, deadline)`: a list of signed amounts.
    RouterSwap {
        router: Address,
        amount_in: i128,
        amount_out_min: i128,
        path: (Address, Address),
        to: Address,
        deadline: u64,
    },
    /// `router.add_liquidity(token_a, token_b, amount_a_desired,
    /// amount_b_desired, amount_a_min, amount_b_min, to, deadline)`
    RouterAddLiquidity {
        router: Address,
        token_a: Address,
        token_b: Address,
        amount_a_desired: i128,
        amount_b_desired: i128,
        amount_a_min: i128,
        amount_b_min: i128,
        to: Address,
        deadline: u64,
    },
    /// `router.remove_liquidity(token_a, token_b, liquidity, amount_a_min,
    /// amount_b_min, to, deadline)`: a pair of amounts.
    RouterRemoveLiquidity {
        router: Address,
        token_a: Address,
        token_b: Address,
        liquidity: i128,
        amount_a_min: i128,
        amount_b_min: i128,
        to: Address,
        deadline: u64,
    },
    /// `pair.token_0()`: an address.
    PairToken0 { pair: Address },
    /// `pair.get_reserves()`: a pair of amounts.
    PairReserves { pair: Address },
    /// `pair.total_supply()`: a signed amount.
    PairTotalSupply { pair: Address },
    /// `pair.balance(holder)`: a signed amount.
    PairBalance { pair: Address, holder: Address },
    /// Publishes a deposit event.
    EmitDeposit { strategy: &'static str, amount: i128, from: Address },
    /// Publishes a withdraw event.
    EmitWithdraw { strategy: &'static str, amount: i128, from: Address },
    /// Publishes a harvest event.
    EmitHarvest { strategy: &'static str, amount: i128, from: Address, price_per_share: i128 },
}

/// An invocation of this strategy.
pub type Env = Session<StrategyConfig>;

} // verus!
