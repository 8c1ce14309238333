use crate::address::Address;
use vstd::prelude::*;

verus! {

/// The configuration of the strategy.
#[derive(Clone, Copy, Debug, PartialEq, Eq)]
pub struct Config {
    /// Underlying asset that the strategy manages.
    pub asset: Address,
    /// Blend pool contract.
    pub pool: Address,
    /// Index of the asset among the reserves of the pool.
    pub reserve_id: u32,
    /// BLND reward token.
    pub blend_token: Address,
    /// Soroswap router contract, for the swap of rewards.
    pub router: Address,
    /// What emissions of the pool the strategy claims.
    pub claim_ids: [u32; 1],
    /// Below how many BLND rewards are not reinvested.
    pub reward_threshold: i128,
}

} // verus!
