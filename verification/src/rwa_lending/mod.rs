//! What a strategy on a pool that lends real-world assets stores, and what it
//! asks of its host.

pub mod calls;
pub mod storage;
