//! Single-asset liquidity provision on an Aquarius pool.

pub mod aquarius_pool;
pub mod calls;
pub mod contract;
pub mod exchange;
pub mod figures;
pub mod laws;
pub mod storage;
