//! Lending on a Blend pool.

pub mod accounting;
pub mod blend_pool;
pub mod calls;
pub mod constants;
pub mod contract;
pub mod exchange;
pub mod figures;
pub mod laws;
pub mod reserves;
pub mod storage;
pub mod utils;
