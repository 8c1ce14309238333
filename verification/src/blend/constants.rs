use vstd::prelude::*;

verus! {

/// A rate of one, in the twelve decimals in which the pool states rates.
pub const SCALAR_12: i128 = 1_000_000_000_000;

/// The shares that the first deposit leaves to nobody.
pub const LOCKED_SHARES: i128 = 1000;

} // verus!
