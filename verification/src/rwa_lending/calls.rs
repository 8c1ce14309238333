use crate::address::{Address, Authorization, Symbol};
use crate::rwa_lending::storage::{StorageKey, StrategyConfig};
use crate::session::Session;
use vstd::prelude::*;

verus! {

/// What the strategy asks of its host.
#[derive(Clone, Copy, Debug, PartialEq, Eq)]
pub enum Call {
    /// Whether instance storage has the key: a flag.
    InstanceHas { key: StorageKey },
    /// The configuration that instance storage has under the key.
    InstanceGet { key: StorageKey },
    /// Stores the configuration.
    InstanceSet { key: StorageKey, config: StrategyConfig },
    /// Extends the life of instance storage.
    InstanceExtendTtl { threshold: u32, extend_to: u32 },
    /// The amount that persistent storage has under the key.
    PersistentGet { key: StorageKey },
    /// Stores the amount.
    PersistentSet { key: StorageKey, value: i128 },
    /// Extends the life of one persistent entry.
    PersistentExtendTtl { key: StorageKey, threshold: u32, extend_to: u32 },
    /// Permits the next call to move tokens.
    Authorize { entry: Authorization },
    /// `token.transfer(from, to, amount)`
    TokenTransfer { token: Address, from: Address, to: Address, amount: i128 },
    /// `lending.deposit(lender, asset, amount)`: a signed amount.
    LendingDeposit { lending: Address, lender: Address, asset: Symbol, amount: i128 },
    /// `lending.withdraw(lender, asset, b_tokens)`: a signed amount.
    LendingWithdraw { lending: Address, lender: Address, asset: Symbol, b_tokens: i128 },
    /// `lending.get_b_token_rate(asset)`: a signed amount.
    LendingBTokenRate { lending: Address, asset: Symbol },
    /// Publishes a deposit event.
    EmitDeposit { strategy: &'static str, amount: i128, from: Address },
    /// Publishes a withdraw event.
    EmitWithdraw { strategy: &'static str, amount: i128, from: Address },
    /// Publishes a harvest event.
    EmitHarvest { strategy: &'static str, amount: i128, from: Address, price_per_share: i128 },
}

/// An invocation of such a strategy.
pub type Env = Session<StrategyConfig>;

} // verus!
