//! Strategies that invest the single asset of DeFindex vaults: as liquidity on
//! an Aquarius pool or a Soroswap pair, or as a loan on a Neko or a Blend pool.
//!
//! An entry point of a strategy is a script: a function of its arguments and of
//! a [`session::Session`], which holds what the host has answered so far. As
//! long as the answers do not suffice, the script asks for the next call;
//! whoever runs it performs the call and resumes. So what a strategy does is
//! stated, and proved, for every answer that its host may give.
//!
//! The `laws` modules hold what is true of the scripts as a whole;
//! [`blend::accounting`], [`position`] and [`attribution`] hold what is true of
//! the books. The `exchange` modules tell every call and every result of an entry
//! point by the replies alone, and the `figures` modules tell every amount in them
//! by sums and products.

pub mod address;
pub mod aquarius;
pub mod arguments;
pub mod arith;
pub mod attribution;
pub mod blend;
pub mod error;
pub mod exchange;
pub mod figures;
pub mod fixed_point;
pub mod neko;
pub mod position;
pub mod quotients;
pub mod rounding;
pub mod rwa_lending;
pub mod session;
pub mod soroswap;
pub mod wide;
