//! Single-asset liquidity provision on a Soroswap pair.

pub mod calls;
pub mod contract;
pub mod exchange;
pub mod figures;
pub mod laws;
pub mod soroswap_pool;
pub mod storage;
