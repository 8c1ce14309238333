use crate::address::{Address, Symbol, Val};
use crate::error::StrategyError;
use crate::session::Halt;
use vstd::prelude::*;

verus! {

/// The argument at `idx` as an address; aborts if it is missing or something
/// else.
pub open spec fn spec_address_arg<Q>(args: &Vec<Val>, idx: usize) -> Result<Address, Halt<Q>> {
    if idx < args@.len() && args@[idx as int] is Address {
        Ok(args@[idx as int]->Address_0)
    } else {
        Err(Halt::Abort(StrategyError::InvalidArgument))
    }
}

/// The argument at `idx` as an address; aborts if it is missing or something
/// else.
#[verifier::when_used_as_spec(spec_address_arg)]
pub fn address_arg<Q>(args: &Vec<Val>, idx: usize) -> (r: Result<Address, Halt<Q>>)
    ensures
        r == spec_address_arg::<Q>(args, idx),
{
    if idx < args.len() {
        if let Val::Address(address) = args[idx] {
            return Ok(address);
        }
    }
    Err(Halt::Abort(StrategyError::InvalidArgument))
}

/// The argument at `idx` as a symbol; aborts if it is missing or something
/// else.
pub open spec fn spec_symbol_arg<Q>(args: &Vec<Val>, idx: usize) -> Result<Symbol, Halt<Q>> {
    if idx < args@.len() && args@[idx as int] is Symbol {
        Ok(args@[idx as int]->Symbol_0)
    } else {
        Err(Halt::Abort(StrategyError::InvalidArgument))
    }
}

/// The argument at `idx` as a symbol; aborts if it is missing or something
/// else.
#[verifier::when_used_as_spec(spec_symbol_arg)]
pub fn symbol_arg<Q>(args: &Vec<Val>, idx: usize) -> (r: Result<Symbol, Halt<Q>>)
    ensures
        r == spec_symbol_arg::<Q>(args, idx),
{
    if idx < args.len() {
        if let Val::Symbol(symbol) = args[idx] {
            return Ok(symbol);
        }
    }
    Err(Halt::Abort(StrategyError::InvalidArgument))
}

/// The argument at `idx` as a `u32`; aborts if it is missing or something
/// else.
pub open spec fn spec_u32_arg<Q>(args: &Vec<Val>, idx: usize) -> Result<u32, Halt<Q>> {
    if idx < args@.len() && args@[idx as int] is U32 {
        Ok(args@[idx as int]->U32_0)
    } else {
        Err(Halt::Abort(StrategyError::InvalidArgument))
    }
}

/// The argument at `idx` as a `u32`; aborts if it is missing or something
/// else.
#[verifier::when_used_as_spec(spec_u32_arg)]
pub fn u32_arg<Q>(args: &Vec<Val>, idx: usize) -> (r: Result<u32, Halt<Q>>)
    ensures
        r == spec_u32_arg::<Q>(args, idx),
{
    if idx < args.len() {
        if let Val::U32(value) = args[idx] {
            return Ok(value);
        }
    }
    Err(Halt::Abort(StrategyError::InvalidArgument))
}

/// The argument at `idx` as an `i128`; aborts if it is missing or something
/// else.
pub open spec fn spec_i128_arg<Q>(args: &Vec<Val>, idx: usize) -> Result<i128, Halt<Q>> {
    if idx < args@.len() && args@[idx as int] is I128 {
        Ok(args@[idx as int]->I128_0)
    } else {
        Err(Halt::Abort(StrategyError::InvalidArgument))
    }
}

/// The argument at `idx` as an `i128`; aborts if it is missing or something
/// else.
#[verifier::when_used_as_spec(spec_i128_arg)]
pub fn i128_arg<Q>(args: &Vec<Val>, idx: usize) -> (r: Result<i128, Halt<Q>>)
    ensures
        r == spec_i128_arg::<Q>(args, idx),
{
    if idx < args.len() {
        if let Val::I128(value) = args[idx] {
            return Ok(value);
        }
    }
    Err(Halt::Abort(StrategyError::InvalidArgument))
}

} // verus!
