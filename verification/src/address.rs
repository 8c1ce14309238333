use vstd::prelude::*;

verus! {

/// Who holds tokens or answers calls: an account, named by its Ed25519 public
/// key, or a contract, named by its hash. The thirty-two bytes of the name
/// stand as two big-endian halves.
#[derive(Clone, Copy, Debug, PartialEq, Eq, Structural)]
pub enum Address {
    Account { high: u128, low: u128 },
    Contract { high: u128, low: u128 },
}

/// A short name of up to thirty-two characters, padded with zero bytes and
/// read as two big-endian halves.
#[derive(Clone, Copy, Debug, PartialEq, Eq, Structural)]
pub struct Symbol {
    pub high: u128,
    pub low: u128,
}

/// A dynamically typed argument of a constructor.
#[derive(Clone, Copy, Debug, PartialEq, Eq, Structural)]
pub enum Val {
    Address(Address),
    Symbol(Symbol),
    U32(u32),
    I128(i128),
    /// A value of a type that no strategy takes.
    Other,
}

/// A token movement that the strategy permits the next contract call to make
/// in its name.
#[derive(Clone, Copy, Debug, PartialEq, Eq, Structural)]
pub enum Authorization {
    /// `token.transfer(from, to, amount)`
    Transfer { token: Address, from: Address, to: Address, amount: i128 },
    /// `token.burn(from, amount)`
    Burn { token: Address, from: Address, amount: i128 },
}

} // verus!
