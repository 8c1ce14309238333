//! What the figures of the strategy come to, by sums and products.

use crate::address::Address;
use crate::arith::big_endian;
use crate::blend::blend_pool;
use crate::blend::blend_pool::{amount_out, supplied, RequestType};
use crate::blend::calls::{Call, Env};
use crate::blend::contract::{check_positive_amount, min_out, share_price};
use crate::blend::exchange::supply_in;
use crate::blend::reserves;
use crate::blend::reserves::{
    accrue, credit, debit, returning, set_validated_vault_shares, StrategyReserves,
};
use crate::blend::storage::Config;
use crate::blend::utils::{
    calculate_optimal_deposit_amount, calculate_optimal_withdraw_amount, shares_to_underlying,
};
use crate::error::StrategyError;
use crate::exchange::fits;
use crate::figures::law_scale_i128;
use crate::quotients::{
    is_ceil, is_floor, is_trunc, law_ceil_div, law_floor_div, law_mul_div_ceil, law_mul_div_floor,
};
use crate::rounding::{ceil_div, floor_div};
use crate::session::{Halt, Reply};
use vstd::prelude::*;

verus! {

/// Whether `shares` are those that `b_tokens` buy: their part of the shares,
/// rounded down, and as many as b_tokens where there are no shares or no
/// b_tokens yet.
pub open spec fn are_bought(reserves: StrategyReserves, b_tokens: int, shares: int) -> bool {
    if reserves.total_shares == 0 || reserves.total_b_tokens == 0 {
        shares == b_tokens
    } else {
        is_floor(shares, b_tokens * reserves.total_shares, reserves.total_b_tokens as int)
    }
}

/// Whether `shares` are those that `b_tokens` cost: their part of the shares,
/// rounded up, and as many as b_tokens where there are no shares or no b_tokens
/// yet.
pub open spec fn are_burnt(reserves: StrategyReserves, b_tokens: int, shares: int) -> bool {
    if reserves.total_shares == 0 || reserves.total_b_tokens == 0 {
        shares == b_tokens
    } else {
        is_ceil(shares, b_tokens * reserves.total_shares, reserves.total_b_tokens as int)
    }
}

/// Whether b_tokens cannot be turned into `shares` for want of range.
pub open spec fn turns_out_of_range(
    reserves: StrategyReserves,
    b_tokens: int,
    shares: int,
) -> bool {
    &&& reserves.total_shares != 0
    &&& reserves.total_b_tokens != 0
    &&& !fits(b_tokens * reserves.total_shares) || !fits(shares)
}

/// The shares that b_tokens buy are their part, rounded down; and those that they
/// cost are their part, rounded up. What does not fit is an error.
pub proof fn law_b_tokens_to_shares(
    reserves: StrategyReserves,
    amount: i128,
    bought: int,
    burnt: int,
)
    requires
        are_bought(reserves, amount as int, bought),
        are_burnt(reserves, amount as int, burnt),
    ensures
        match reserves.b_tokens_to_shares_down(amount) {
            Ok(shares) => shares == bought && !turns_out_of_range(reserves, amount as int, bought),
            Err(error) => turns_out_of_range(reserves, amount as int, bought) && error
                == StrategyError::ArithmeticError,
        },
        match reserves.b_tokens_to_shares_up(amount) {
            Ok(shares) => shares == burnt && !turns_out_of_range(reserves, amount as int, burnt),
            Err(error) => turns_out_of_range(reserves, amount as int, burnt) && error
                == StrategyError::ArithmeticError,
        },
{
    if reserves.total_shares != 0 && reserves.total_b_tokens != 0 {
        law_mul_div_floor(amount, reserves.total_shares, reserves.total_b_tokens, bought);
        law_mul_div_ceil(amount, reserves.total_shares, reserves.total_b_tokens, burnt);
    }
}

/// The b_tokens behind shares are their part, rounded down; the only error is one
/// of division, without shares in all or out of range.
pub proof fn law_shares_to_b_tokens(reserves: StrategyReserves, shares: i128, b_tokens: int)
    requires
        reserves.total_shares != 0 ==> is_floor(
            b_tokens,
            shares * reserves.total_b_tokens,
            reserves.total_shares as int,
        ),
    ensures
        ({
            let in_range = reserves.total_shares != 0 && fits(shares * reserves.total_b_tokens)
                && fits(b_tokens);
            match reserves.shares_to_b_tokens_down(shares) {
                Ok(found) => in_range && found == b_tokens,
                Err(error) => !in_range && error == StrategyError::DivisionByZero,
            }
        }),
{
    law_mul_div_floor(shares, reserves.total_b_tokens, reserves.total_shares, b_tokens);
}

/// What b_tokens are worth is their product with the b_rate in twelve decimals,
/// rounded down; the only error is one of arithmetic, out of range.
pub proof fn law_b_tokens_to_underlying(reserves: StrategyReserves, b_tokens: i128, worth: int)
    requires
        is_floor(worth, b_tokens * reserves.b_rate, 1_000_000_000_000),
    ensures
        match reserves.b_tokens_to_underlying_down(b_tokens) {
            Ok(underlying) => fits(b_tokens * reserves.b_rate) && underlying == worth,
            Err(error) => !fits(b_tokens * reserves.b_rate) && error
                == StrategyError::ArithmeticError,
        },
{
    law_mul_div_floor(b_tokens, reserves.b_rate, 1_000_000_000_000, worth);
    let product = b_tokens * reserves.b_rate;
    law_floor_div(product, 1_000_000_000_000, worth);
}

/// Shares are worth what the b_tokens behind them are worth, each step rounded
/// down; nothing where there are no shares or no b_tokens at all. Each error has
/// its own ground.
pub proof fn law_shares_to_underlying(
    shares: i128,
    reserves: StrategyReserves,
    b_tokens: int,
    worth: int,
)
    requires
        reserves.total_shares != 0 ==> is_floor(
            b_tokens,
            shares * reserves.total_b_tokens,
            reserves.total_shares as int,
        ),
        is_floor(worth, b_tokens * reserves.b_rate, 1_000_000_000_000),
    ensures
        ({
            let some = reserves.total_shares != 0 && reserves.total_b_tokens != 0;
            let behind = fits(shares * reserves.total_b_tokens) && fits(b_tokens);
            match shares_to_underlying(shares, reserves) {
                Ok(value) => !some && value == 0 || some && behind && fits(
                    b_tokens * reserves.b_rate,
                ) && value == worth,
                Err(StrategyError::DivisionByZero) => some && !behind,
                Err(StrategyError::ArithmeticError) => some && behind && !fits(
                    b_tokens * reserves.b_rate,
                ),
                Err(_) => false,
            }
        }),
{
    law_shares_to_b_tokens(reserves, shares, b_tokens);
    if fits(b_tokens) {
        law_b_tokens_to_underlying(reserves, b_tokens as i128, worth);
    }
}

/// Of a deposit is supplied, rounded up, what the b_tokens are worth that the
/// shares cost, rounded up, that the b_tokens buy, rounded down, that the deposit
/// buys, rounded down. The first deposit is not rounded to shares. Each error has
/// its own ground.
pub proof fn law_optimal_deposit_figures(
    deposit_amount: i128,
    reserves: StrategyReserves,
    minted: int,
    shares: int,
    b_tokens: int,
    amount: int,
)
    requires
        reserves.b_rate != 0 ==> is_floor(
            minted,
            deposit_amount * 1_000_000_000_000,
            reserves.b_rate as int,
        ),
        are_bought(reserves, minted, shares),
        if reserves.total_shares == 0 {
            b_tokens == minted
        } else {
            is_ceil(b_tokens, shares * reserves.total_b_tokens, reserves.total_shares as int)
        },
        is_ceil(amount, b_tokens * reserves.b_rate, 1_000_000_000_000),
    ensures
        ({
            let first = reserves.total_shares == 0;
            let mints = reserves.b_rate != 0 && fits(deposit_amount * 1_000_000_000_000) && fits(
                minted,
            );
            let buys = first || !turns_out_of_range(reserves, minted, shares);
            let costs = first || fits(shares * reserves.total_b_tokens) && fits(b_tokens);
            let worth = fits(b_tokens * reserves.b_rate);
            match calculate_optimal_deposit_amount(deposit_amount, &reserves) {
                Ok(optimal) => {
                    &&& mints && buys && costs && worth
                    &&& first || shares != 0
                    &&& b_tokens > 0
                    &&& optimal == (amount as i128, b_tokens as i128)
                    &&& fits(amount)
                },
                Err(StrategyError::InvalidSharesMinted) => mints && buys && !first && shares == 0,
                Err(StrategyError::BTokensAmountBelowMin) => mints && buys && (first || shares != 0)
                    && costs && b_tokens <= 0,
                Err(StrategyError::ArithmeticError) => {
                    ||| !mints
                    ||| !buys
                    ||| (first || shares != 0) && !costs
                    ||| (first || shares != 0) && b_tokens > 0 && !worth
                },
                Err(_) => false,
            }
        }),
{
    law_mul_div_floor(deposit_amount, 1_000_000_000_000, reserves.b_rate, minted);
    if fits(minted) {
        if reserves.total_shares != 0 {
            if reserves.total_b_tokens != 0 {
                law_mul_div_floor(
                    minted as i128,
                    reserves.total_shares,
                    reserves.total_b_tokens,
                    shares,
                );
            }
            if fits(shares) {
                law_mul_div_ceil(
                    shares as i128,
                    reserves.total_b_tokens,
                    reserves.total_shares,
                    b_tokens,
                );
            }
        }
        if fits(b_tokens) {
            law_mul_div_ceil(b_tokens as i128, reserves.b_rate, 1_000_000_000_000, amount);
        }
    }
}

/// A withdrawal pays, rounded down, what the b_tokens are worth that the shares
/// bring, rounded down, that the b_tokens cost, rounded up, that the amount asked
/// for costs, rounded up. The only error is one of arithmetic.
pub proof fn law_optimal_withdraw_figures(
    withdraw_amount: i128,
    reserves: StrategyReserves,
    needed: int,
    shares: int,
    b_tokens: int,
    amount: int,
)
    requires
        reserves.b_rate != 0 ==> is_ceil(
            needed,
            withdraw_amount * 1_000_000_000_000,
            reserves.b_rate as int,
        ),
        are_burnt(reserves, needed, shares),
        reserves.total_shares != 0 ==> is_floor(
            b_tokens,
            shares * reserves.total_b_tokens,
            reserves.total_shares as int,
        ),
        is_floor(amount, b_tokens * reserves.b_rate, 1_000_000_000_000),
    ensures
        ({
            let in_range = {
                &&& reserves.b_rate != 0
                &&& fits(withdraw_amount * 1_000_000_000_000) && fits(needed)
                &&& !turns_out_of_range(reserves, needed, shares)
                &&& reserves.total_shares != 0
                &&& fits(shares * reserves.total_b_tokens) && fits(b_tokens)
                &&& fits(b_tokens * reserves.b_rate)
            };
            match calculate_optimal_withdraw_amount(withdraw_amount, &reserves) {
                Ok(optimal) => in_range && fits(amount) && optimal == (
                    amount as i128,
                    b_tokens as i128,
                ),
                Err(error) => !in_range && error == StrategyError::ArithmeticError,
            }
        }),
{
    law_mul_div_ceil(withdraw_amount, 1_000_000_000_000, reserves.b_rate, needed);
    if fits(needed) {
        if reserves.total_shares != 0 && reserves.total_b_tokens != 0 {
            law_mul_div_ceil(
                needed as i128,
                reserves.total_shares,
                reserves.total_b_tokens,
                shares,
            );
        }
        if fits(shares) {
            law_mul_div_floor(
                shares as i128,
                reserves.total_b_tokens,
                reserves.total_shares,
                b_tokens,
            );
        }
        if fits(b_tokens) {
            law_mul_div_floor(b_tokens as i128, reserves.b_rate, 1_000_000_000_000, amount);
            let product = b_tokens * reserves.b_rate;
            law_floor_div(product, 1_000_000_000_000, amount);
        }
    }
}

/// A credit adds the b_tokens and the shares that they buy to the reserve record,
/// and those shares to the vault, but for the thousand that the first deposit
/// leaves to nobody. It aborts only where too few shares are bought; each error
/// has its own ground.
pub proof fn law_credit_figures(
    old_vault_shares: i128,
    b_tokens: i128,
    reserves: StrategyReserves,
    minted: int,
)
    requires
        are_bought(reserves, b_tokens as int, minted),
    ensures
        ({
            let locked = if reserves.total_shares == 0 {
                1_000int
            } else {
                0
            };
            let in_range = {
                &&& fits(reserves.total_shares + minted)
                &&& fits(reserves.total_b_tokens + b_tokens)
                &&& fits(old_vault_shares + minted - locked)
            };
            let turns = !turns_out_of_range(reserves, b_tokens as int, minted);
            match credit(old_vault_shares, b_tokens, &reserves) {
                Ok((vault_shares, after)) => {
                    &&& turns && minted > locked && in_range
                    &&& vault_shares == old_vault_shares + minted - locked
                    &&& after.total_shares == reserves.total_shares + minted
                    &&& after.total_b_tokens == reserves.total_b_tokens + b_tokens
                    &&& after.b_rate == reserves.b_rate
                },
                Err(Halt::Abort(error)) => turns && minted <= locked && error
                    == StrategyError::InvalidSharesMinted,
                Err(Halt::Error(StrategyError::ArithmeticError)) => !turns,
                Err(Halt::Error(StrategyError::UnderflowOverflow)) => turns && minted > locked
                    && !in_range,
                Err(_) => false,
            }
        }),
{
    let burnt = if reserves.total_b_tokens != 0 && reserves.total_shares != 0 {
        law_ceil_div(b_tokens * reserves.total_shares, reserves.total_b_tokens as int, 0);
        ceil_div(b_tokens * reserves.total_shares, reserves.total_b_tokens as int)
    } else {
        b_tokens as int
    };
    law_b_tokens_to_shares(reserves, b_tokens, minted, burnt);
}

/// A debit takes the b_tokens and the shares that they cost from the reserve
/// record, and those shares from the vault. It fails where one of the three does
/// not suffice, and on a figure that does not fit.
pub proof fn law_debit_figures(
    vault_shares: i128,
    b_tokens: i128,
    reserves: StrategyReserves,
    burnt: int,
)
    requires
        are_burnt(reserves, b_tokens as int, burnt),
    ensures
        ({
            let held = reserves.total_shares >= burnt && reserves.total_b_tokens >= b_tokens;
            let booked = fits(reserves.total_shares - burnt) && fits(
                reserves.total_b_tokens - b_tokens,
            );
            let turns = !turns_out_of_range(reserves, b_tokens as int, burnt);
            match debit(vault_shares, b_tokens, &reserves) {
                Ok((left, after)) => {
                    &&& turns && held && booked && vault_shares >= burnt
                    &&& left == vault_shares - burnt
                    &&& after.total_shares == reserves.total_shares - burnt
                    &&& after.total_b_tokens == reserves.total_b_tokens - b_tokens
                    &&& after.b_rate == reserves.b_rate
                },
                Err(Halt::Error(StrategyError::ArithmeticError)) => !turns,
                Err(Halt::Error(StrategyError::InsufficientBalance)) => turns && (!held || booked
                    && burnt > vault_shares),
                Err(Halt::Error(StrategyError::UnderflowOverflow)) => turns && held && (!booked
                    || vault_shares >= burnt && !fits(vault_shares - burnt)),
                Err(_) => false,
            }
        }),
{
    let bought = if reserves.total_b_tokens != 0 && reserves.total_shares != 0 {
        law_floor_div(b_tokens * reserves.total_shares, reserves.total_b_tokens as int, 0);
        floor_div(b_tokens * reserves.total_shares, reserves.total_b_tokens as int)
    } else {
        b_tokens as int
    };
    law_b_tokens_to_shares(reserves, b_tokens, bought, burnt);
}

/// What accrues to all vaults is added to the b_tokens of the reserve record, of
/// which nothing else changes. It has to be something, and the sum has to fit.
pub proof fn law_accrue_figures(b_tokens: i128, reserves: StrategyReserves)
    ensures
        match accrue(b_tokens, &reserves) {
            Ok(after) => {
                &&& b_tokens > 0
                &&& after.total_b_tokens - reserves.total_b_tokens == b_tokens
                &&& after.total_shares == reserves.total_shares
                &&& after.b_rate == reserves.b_rate
            },
            Err(Halt::Abort(error)) => b_tokens <= 0 && error
                == StrategyError::BTokensAmountBelowMin,
            Err(Halt::Error(error)) => b_tokens > 0 && !fits(reserves.total_b_tokens + b_tokens)
                && error == StrategyError::UnderflowOverflow,
            Err(_) => false,
        },
{
}

/// The price of a share is what all shares are worth, in twelve decimals, over
/// their number, rounded toward zero; zero without shares or out of range. It is
/// an error only where all shares have no worth for an error.
pub proof fn law_share_price(reserves: StrategyReserves, q: int)
    requires
        reserves.total_shares > 0 ==> is_trunc(
            q,
            shares_to_underlying(reserves.total_shares, reserves)->Ok_0 * 1_000_000_000_000,
            reserves.total_shares as int,
        ),
    ensures
        ({
            let total = shares_to_underlying(reserves.total_shares, reserves);
            match share_price(&reserves) {
                Ok(price) => {
                    ||| reserves.total_shares <= 0 && price == 0
                    ||| reserves.total_shares > 0 && total is Ok && price == if fits(
                        total->Ok_0 * 1_000_000_000_000,
                    ) && fits(q) {
                        q
                    } else {
                        0
                    }
                },
                Err(error) => reserves.total_shares > 0 && total == Err::<i128, StrategyError>(
                    error,
                ),
            }
        }),
{
    if reserves.total_shares > 0 {
        law_scale_i128(
            shares_to_underlying(reserves.total_shares, reserves)->Ok_0,
            1_000_000_000_000,
            reserves.total_shares,
            q,
        );
    }
}

/// The least out of a swap is nothing without data, and otherwise what its
/// sixteen bytes spell, as two's complement; other data traps.
pub proof fn law_min_out(data: &Option<Vec<u8>>)
    ensures
        match min_out(data) {
            Ok(least) => match data {
                None => least == 0,
                Some(bytes) => {
                    ||| bytes@.len() == 0 && least == 0
                    ||| bytes@.len() == 16 && big_endian(bytes@) <= u128::MAX && (least
                        == big_endian(bytes@) || least == big_endian(bytes@)
                        - 0x1_0000_0000_0000_0000_0000_0000_0000_0000)
                },
            },
            Err(halt) => halt == Halt::<Call>::Trap && data is Some && data->Some_0@.len() != 0
                && data->Some_0@.len() != 16,
        },
{
    if data is Some && data->Some_0@.len() == 16 {
        lemma_bytes_in_range(data->Some_0@);
    }
}

/// Bytes spell a number below what as many digits in base 256 reach.
proof fn lemma_bytes_below(bytes: Seq<u8>)
    ensures
        big_endian(bytes) < vstd::arithmetic::power::pow(256, bytes.len()),
    decreases bytes.len(),
{
    if bytes.len() == 0 {
        vstd::arithmetic::power::lemma_pow0(256);
    } else {
        lemma_bytes_below(bytes.drop_last());
        reveal(vstd::arithmetic::power::pow);
    }
}

/// Sixteen bytes spell an unsigned amount.
proof fn lemma_bytes_in_range(bytes: Seq<u8>)
    requires
        bytes.len() == 16,
    ensures
        big_endian(bytes) <= u128::MAX,
{
    lemma_bytes_below(bytes);
    reveal_with_fuel(vstd::arithmetic::power::pow, 17);
}

/// What a swap brought is the second of the amounts along its path. A swap that
/// failed is that error, and one without a second amount is an error of its own.
pub proof fn law_amount_out(swapped: &Result<Vec<i128>, StrategyError>)
    ensures
        match amount_out(swapped) {
            Ok(bought) => swapped is Ok && swapped->Ok_0@.len() >= 2 && swapped->Ok_0@[1] == bought,
            Err(halt) => {
                ||| swapped is Err && halt == Halt::<Call>::Error(swapped->Err_0)
                ||| swapped is Ok && swapped->Ok_0@.len() < 2 && halt == Halt::<Call>::Error(
                    StrategyError::InternalSwapError,
                )
            },
        },
{
}

/// A position states its supply, or none; a positive amount passes and another is
/// an error; an error is returned as it is; and the pool knows a supply as 0 and a
/// withdrawal as 1.
pub proof fn law_small_figures(
    position: Option<Option<i128>>,
    amount: i128,
    result: Result<i128, StrategyError>,
)
    ensures
        supplied(position) == supply_in(Reply::<Config>::Position(position)),
        match check_positive_amount(amount) {
            Ok(_) => amount > 0,
            Err(error) => amount <= 0 && error == StrategyError::OnlyPositiveAmountAllowed,
        },
        match returning(result) {
            Ok(value) => result == Ok::<i128, StrategyError>(value),
            Err(halt) => result is Err && halt == Halt::<Call>::Error(result->Err_0),
        },
        RequestType::Supply.to_u32() == 0,
        RequestType::Withdraw.to_u32() == 1,
{
}

/// A supply gives back its amount, or on a reinvestment by how much the position
/// grew; a withdrawal gives back its amount; and storing shares gives back those
/// shares, none of them negative.
pub proof fn law_what_is_given_back(
    env: &Env,
    at: usize,
    from: Address,
    amount: i128,
    config: &Config,
)
    ensures
        blend_pool::supply(env, at, from, amount, config, false) matches Ok((value, next))
            ==> value == amount && next == at + 2,
        blend_pool::supply(env, at, from, amount, config, true) matches Ok((value, next)) ==> value
            == supply_in(env.replies@[at + 2]) - supply_in(env.replies@[at as int]) && next == at
            + 3,
        blend_pool::withdraw(env, at, from, amount, config) matches Ok((value, next)) ==> value
            == amount && next == at + 1,
        blend_pool::claim(env, at, from, config) matches Ok((value, next)) ==> env.replies@[at as
            int] == Reply::<Config>::Amount(value) && next == at + 1,
        set_validated_vault_shares(env, at, from, amount) matches Ok((value, next)) ==> value
            == amount && amount >= 0 && next == at + 1,
        set_validated_vault_shares(env, at, from, amount) matches Err(Halt::Error(error)) ==> amount
            < 0 && error == StrategyError::OnlyPositiveAmountAllowed,
{
    assert(env.replies@.len() == env.replies.len());
}

/// No b_tokens are booked in or out of a vault unless there are some.
pub proof fn law_nothing_is_not_booked(
    env: &Env,
    at: usize,
    from: Address,
    b_tokens: i128,
    reserves: &StrategyReserves,
)
    requires
        b_tokens <= 0,
    ensures
        reserves::deposit(env, at, from, b_tokens, reserves) == Err::<
            (i128, StrategyReserves, usize),
            Halt<Call>,
        >(Halt::Error(StrategyError::BTokensAmountBelowMin)),
        reserves::withdraw(env, at, from, b_tokens, reserves) == Err::<
            (i128, StrategyReserves, usize),
            Halt<Call>,
        >(Halt::Error(StrategyError::BTokensAmountBelowMin)),
{
}

} // verus!
