//! Lending of real-world assets on a Neko pool.

pub mod contract;
pub mod exchange;
pub mod figures;
pub mod laws;
