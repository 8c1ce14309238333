use crate::blend::constants::SCALAR_12;
use crate::blend::reserves::{or_error, StrategyReserves};
use crate::error::StrategyError;
use crate::fixed_point::{fixed_mul_ceil, fixed_mul_floor, mul_div_ceil, mul_div_floor};
use vstd::prelude::*;

verus! {

/// What `shares` are worth in the underlying asset: their b_tokens, rounded
/// down, at the b_rate, rounded down; nothing if there are no shares or no
/// b_tokens at all.
pub open spec fn spec_shares_to_underlying(shares: i128, reserves: StrategyReserves) -> Result<
    i128,
    StrategyError,
> {
    if reserves.total_shares == 0 || reserves.total_b_tokens == 0 {
        Ok(0)
    } else {
        match reserves.shares_to_b_tokens_down(shares) {
            Ok(vault_b_tokens) => reserves.b_tokens_to_underlying_down(vault_b_tokens),
            Err(error) => Err(error),
        }
    }
}

/// What `shares` are worth in the underlying asset: their b_tokens, rounded
/// down, at the b_rate, rounded down; nothing if there are no shares or no
/// b_tokens at all.
#[verifier::when_used_as_spec(spec_shares_to_underlying)]
pub fn shares_to_underlying(shares: i128, reserves: StrategyReserves) -> (r: Result<
    i128,
    StrategyError,
>)
    ensures
        r == spec_shares_to_underlying(shares, reserves),
{
    if reserves.total_shares == 0 || reserves.total_b_tokens == 0 {
        return Ok(0);
    }
    let vault_b_tokens: i128 = reserves.shares_to_b_tokens_down(shares)?;
    reserves.b_tokens_to_underlying_down(vault_b_tokens)
}

/// The b_tokens that a deposit is to bring: those that `deposit_amount` buys,
/// rounded down to as many as the shares that they buy cost.
pub open spec fn optimal_deposit_b_tokens(
    deposit_amount: i128,
    reserves: &StrategyReserves,
) -> Result<i128, StrategyError> {
    match mul_div_floor(deposit_amount, SCALAR_12, reserves.b_rate) {
        None => Err(StrategyError::ArithmeticError),
        Some(b_tokens_minted) => if reserves.total_shares == 0 {
            Ok(b_tokens_minted)
        } else {
            match reserves.b_tokens_to_shares_down(b_tokens_minted) {
                Err(error) => Err(error),
                Ok(shares_minted) => if shares_minted == 0 {
                    Err(StrategyError::InvalidSharesMinted)
                } else {
                    or_error(
                        mul_div_ceil(shares_minted, reserves.total_b_tokens, reserves.total_shares),
                        StrategyError::ArithmeticError,
                    )
                },
            }
        },
    }
}

/// How much of `deposit_amount` to supply, and the b_tokens that it brings: no
/// more than it takes for the shares that the whole of it would buy.
pub open spec fn spec_calculate_optimal_deposit_amount(
    deposit_amount: i128,
    reserves: &StrategyReserves,
) -> Result<(i128, i128), StrategyError> {
    match optimal_deposit_b_tokens(deposit_amount, reserves) {
        Err(error) => Err(error),
        Ok(b_tokens) => if b_tokens <= 0 {
            Err(StrategyError::BTokensAmountBelowMin)
        } else {
            match mul_div_ceil(b_tokens, reserves.b_rate, SCALAR_12) {
                None => Err(StrategyError::ArithmeticError),
                Some(amount) => Ok((amount, b_tokens)),
            }
        },
    }
}

/// How much of `deposit_amount` to supply, and the b_tokens that it brings: no
/// more than it takes for the shares that the whole of it would buy.
#[verifier::when_used_as_spec(spec_calculate_optimal_deposit_amount)]
pub fn calculate_optimal_deposit_amount(deposit_amount: i128, reserves: &StrategyReserves) -> (r:
    Result<(i128, i128), StrategyError>)
    ensures
        r == spec_calculate_optimal_deposit_amount(deposit_amount, reserves),
{
    let b_tokens_minted: i128 = match fixed_mul_floor(deposit_amount, SCALAR_12, reserves.b_rate) {
        Some(b_tokens) => b_tokens,
        None => return Err(StrategyError::ArithmeticError),
    };
    let optimal_b_token_amount: i128 = if reserves.total_shares == 0 {
        b_tokens_minted
    } else {
        let shares_minted: i128 = reserves.b_tokens_to_shares_down(b_tokens_minted)?;
        if shares_minted == 0 {
            return Err(StrategyError::InvalidSharesMinted);
        }
        match fixed_mul_ceil(shares_minted, reserves.total_b_tokens, reserves.total_shares) {
            Some(b_tokens) => b_tokens,
            None => return Err(StrategyError::ArithmeticError),
        }
    };
    if optimal_b_token_amount <= 0 {
        return Err(StrategyError::BTokensAmountBelowMin);
    }
    match fixed_mul_ceil(optimal_b_token_amount, reserves.b_rate, SCALAR_12) {
        Some(optimal_deposit_amt) => Ok((optimal_deposit_amt, optimal_b_token_amount)),
        None => Err(StrategyError::ArithmeticError),
    }
}

/// The b_tokens that a withdrawal is to take: those that `withdraw_amount`
/// costs, rounded up to as many as the shares that they cost bring.
pub open spec fn optimal_withdraw_b_tokens(
    withdraw_amount: i128,
    reserves: &StrategyReserves,
) -> Result<i128, StrategyError> {
    match mul_div_ceil(withdraw_amount, SCALAR_12, reserves.b_rate) {
        None => Err(StrategyError::ArithmeticError),
        Some(b_tokens_burnt) => match reserves.b_tokens_to_shares_up(b_tokens_burnt) {
            Err(error) => Err(error),
            Ok(shares_burnt) => or_error(
                mul_div_floor(shares_burnt, reserves.total_b_tokens, reserves.total_shares),
                StrategyError::ArithmeticError,
            ),
        },
    }
}

/// How much to withdraw for a request of `withdraw_amount`, and the b_tokens
/// that it takes: all that the shares bring that the request costs.
pub open spec fn spec_calculate_optimal_withdraw_amount(
    withdraw_amount: i128,
    reserves: &StrategyReserves,
) -> Result<(i128, i128), StrategyError> {
    match optimal_withdraw_b_tokens(withdraw_amount, reserves) {
        Err(error) => Err(error),
        Ok(b_tokens) => match mul_div_floor(b_tokens, reserves.b_rate, SCALAR_12) {
            None => Err(StrategyError::ArithmeticError),
            Some(amount) => Ok((amount, b_tokens)),
        },
    }
}

/// How much to withdraw for a request of `withdraw_amount`, and the b_tokens
/// that it takes: all that the shares bring that the request costs.
#[verifier::when_used_as_spec(spec_calculate_optimal_withdraw_amount)]
pub fn calculate_optimal_withdraw_amount(withdraw_amount: i128, reserves: &StrategyReserves) -> (r:
    Result<(i128, i128), StrategyError>)
    ensures
        r == spec_calculate_optimal_withdraw_amount(withdraw_amount, reserves),
{
    let b_tokens_burnt: i128 = match fixed_mul_ceil(withdraw_amount, SCALAR_12, reserves.b_rate) {
        Some(b_tokens) => b_tokens,
        None => return Err(StrategyError::ArithmeticError),
    };
    let shares_burnt: i128 = reserves.b_tokens_to_shares_up(b_tokens_burnt)?;
    let optimal_b_tokens: i128 = match fixed_mul_floor(
        shares_burnt,
        reserves.total_b_tokens,
        reserves.total_shares,
    ) {
        Some(b_tokens) => b_tokens,
        None => return Err(StrategyError::ArithmeticError),
    };
    match fixed_mul_floor(optimal_b_tokens, reserves.b_rate, SCALAR_12) {
        Some(optimal_withdraw_amount) => Ok((optimal_withdraw_amount, optimal_b_tokens)),
        None => Err(StrategyError::ArithmeticError),
    }
}

} // verus!
