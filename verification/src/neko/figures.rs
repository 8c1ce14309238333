//! What the figures of the strategy come to, by sums and products.

use crate::address::Address;
use crate::error::StrategyError;
use crate::exchange::{fits, past_read, stored_at};
use crate::neko::contract::{at_rate, b_tokens_for, underlying_balance, underlying_for};
use crate::quotients::{is_trunc, law_trunc_div};
use crate::rwa_lending::calls::{Call, Env};
use crate::rwa_lending::storage::{is_initialized, save_config, StrategyConfig};
use crate::session::Halt;
use vstd::prelude::*;

verus! {

/// The b_tokens that an amount takes are the quotient of the amount in twelve
/// decimals, raised by one less than the rate, by the rate. Each failure has its
/// own ground, whatever the signs.
pub proof fn law_b_tokens_for(amount: i128, b_rate: i128, q: int)
    requires
        b_rate != 0 ==> is_trunc(q, amount * 1_000_000_000_000 + (b_rate - 1), b_rate as int),
    ensures
        ({
            let scaled = amount * 1_000_000_000_000;
            let in_range = fits(b_rate - 1) && fits(scaled + (b_rate - 1)) && fits(q);
            match b_tokens_for(amount, b_rate) {
                Ok(b_tokens) => b_rate != 0 && fits(scaled) && in_range && b_tokens == q && q != 0,
                Err(Halt::Error(StrategyError::DivisionByZero)) => b_rate == 0,
                Err(Halt::Error(StrategyError::ArithmeticError)) => b_rate != 0 && (!fits(scaled)
                    || fits(b_rate - 1) && !in_range),
                Err(Halt::Error(StrategyError::InsufficientBalance)) => b_rate != 0 && fits(scaled)
                    && in_range && q == 0,
                Err(Halt::Trap) => b_rate != 0 && fits(scaled) && !fits(b_rate - 1),
                Err(_) => false,
            }
        }),
{
    if b_rate != 0 {
        law_trunc_div(amount * 1_000_000_000_000 + (b_rate - 1), b_rate as int, q);
    }
}

/// What b_tokens come to is their product with the rate over twelve decimals,
/// rounded toward zero. A withdrawal fails where the product does not fit; a
/// valuation has none only where the quotient does not.
pub proof fn law_underlying(b_tokens: i128, b_rate: i128, q: int)
    requires
        is_trunc(q, b_tokens * b_rate, 1_000_000_000_000),
    ensures
        match underlying_for(b_tokens, b_rate) {
            Ok(underlying) => fits(b_tokens * b_rate) && underlying == q,
            Err(halt) => !fits(b_tokens * b_rate) && halt == Halt::<Call>::Error(
                StrategyError::ArithmeticError,
            ),
        },
        match at_rate(b_tokens, b_rate) {
            Some(underlying) => underlying == q,
            None => !fits(q),
        },
{
    let product = b_tokens * b_rate;
    law_trunc_div(product, 1_000_000_000_000, q);
}

/// A valuation goes on after the b_tokens were read, and after the rate where
/// there are any.
pub proof fn law_valuation_replies(env: &Env, at: usize, vault: Address, config: &StrategyConfig)
    ensures
        underlying_balance(env, at, vault, config) matches Ok((_, next)) ==> next == past_read(
            env.replies@,
            at as int,
        ) + if stored_at(env.replies@, at as int) == 0 {
            0int
        } else {
            1
        },
{
    assert(env.replies@.len() == env.replies.len());
}

/// Storing the configuration takes two replies, and asking whether there is one
/// takes one.
pub proof fn law_configuration_replies(env: &Env, at: usize, config: &StrategyConfig)
    ensures
        save_config(env, at, config) matches Ok(next) ==> next == at + 2,
        is_initialized(env, at) matches Ok((_, next)) ==> next == at + 1,
{
    assert(env.replies@.len() == env.replies.len());
}

} // verus!
