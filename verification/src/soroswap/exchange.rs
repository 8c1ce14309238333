//! What is exchanged with the host, told by the replies alone.
//!
//! For each entry point there is what it asks for next, on what grounds it stops,
//! and what it returns. Together these leave open nothing that the arguments and
//! the replies decide.

use crate::address::{Address, Authorization, Val};
use crate::arith::trunc_div;
use crate::error::StrategyError;
use crate::exchange::{
    fits, least, past_read, read_in_kind, stored_at, MONTH_AND_DAY_IN_LEDGERS, MONTH_IN_LEDGERS,
    YEAR_AND_DAY_IN_LEDGERS, YEAR_IN_LEDGERS,
};
use crate::position::{
    lemma_parts_are_nonnegative, pool_value, price_per_share, shares_to_burn,
};
use crate::session::{Halt, Reply};
use crate::soroswap::calls::{Call, Env};
use crate::soroswap::contract::{SoroswapStrategy, STRATEGY_NAME};
use crate::soroswap::soroswap_pool;
use crate::soroswap::soroswap_pool::position_value;
use crate::soroswap::storage::{
    get_lp_tokens, load_config, set_lp_tokens, StorageKey, StrategyConfig,
};
use vstd::prelude::*;

verus! {

/// The configuration in the first reply.
pub open spec fn config_in(replies: Seq<Reply<StrategyConfig>>) -> StrategyConfig {
    replies[0]->Config_0->Some_0
}

/// Whether the first reply has a configuration.
pub open spec fn is_configured(replies: Seq<Reply<StrategyConfig>>) -> bool {
    replies.len() > 0 ==> replies[0] matches Reply::Config(Some(_))
}

/// The reserves of token a and of token b: the pair of reserves after `at` as it
/// stands where token a is the first token of the pair, which is the reply at
/// `at`, and turned round where it is not.
pub open spec fn reserves_at(replies: Seq<Reply<StrategyConfig>>, at: int) -> (i128, i128) {
    let first_token = replies[at]->Account_0;
    let (first, second) = replies[at + 1]->Pair_0;
    if first_token == config_in(replies).token_a {
        (first, second)
    } else {
        (second, first)
    }
}

/// Whether the reserves were answered in kind at `at`, as far as that has come.
pub open spec fn reserves_in_kind(replies: Seq<Reply<StrategyConfig>>, at: int) -> bool {
    &&& replies.len() > at ==> replies[at] is Account
    &&& replies.len() > at + 1 ==> replies[at + 1] is Pair
}

/// Whether a call asks for the reserves, at `at`.
pub open spec fn asked_in_reserves(
    call: Call,
    replies: Seq<Reply<StrategyConfig>>,
    at: int,
) -> bool {
    let pair = config_in(replies).pair;
    ||| replies.len() == at && call == (Call::PairToken0 { pair })
    ||| replies.len() == at + 1 && call == (Call::PairReserves { pair })
}

/// Whether the valuation of `lp` LP tokens at `at`, as far as it has come, was
/// answered in kind.
pub open spec fn valued_in_kind(replies: Seq<Reply<StrategyConfig>>, at: int, lp: i128) -> bool {
    &&& lp != 0 && replies.len() > at ==> replies[at] is Amount
    &&& lp != 0 && replies.len() > at && replies[at]->Amount_0 != 0 ==> reserves_in_kind(
        replies,
        at + 1,
    )
}

/// Whether a call is part of the valuation of `lp` LP tokens at `at`: the total
/// of LP tokens unless there are none to value, and then the reserves unless it
/// is zero.
pub open spec fn asked_in_valuation(
    call: Call,
    replies: Seq<Reply<StrategyConfig>>,
    at: int,
    lp: i128,
) -> bool {
    &&& lp != 0
    &&& {
        ||| replies.len() == at && call == (Call::PairTotalSupply {
            pair: config_in(replies).pair,
        })
        ||| replies.len() > at && replies[at]->Amount_0 != 0 && asked_in_reserves(
            call,
            replies,
            at + 1,
        )
    }
}

/// The position after the valuation of `lp` LP tokens at `at`.
pub open spec fn past_valuation(replies: Seq<Reply<StrategyConfig>>, at: int, lp: i128) -> int {
    if lp == 0 {
        at
    } else if replies[at]->Amount_0 == 0 {
        at + 1
    } else {
        at + 3
    }
}

/// What `lp` LP tokens are worth by the total and the reserves in the replies
/// from `at` on: nothing without LP tokens or without token b, otherwise the
/// value of that position.
pub open spec fn worth_in(replies: Seq<Reply<StrategyConfig>>, at: int, lp: i128) -> i128 {
    let total = replies[at]->Amount_0;
    let (of_a, of_b) = reserves_at(replies, at + 1);
    if lp == 0 || total == 0 || of_b == 0 {
        0
    } else {
        position_value(lp, total, of_a, of_b)->Some_0
    }
}

/// Whether `value` is what `lp` LP tokens are worth by the replies from `at` on:
/// their part of the reserve of token a and, at the spot price, of token b.
pub open spec fn is_value(
    replies: Seq<Reply<StrategyConfig>>,
    at: int,
    lp: i128,
    value: i128,
) -> bool {
    let total = replies[at]->Amount_0;
    let (of_a, of_b) = reserves_at(replies, at + 1);
    let worth = pool_value(lp as int, total as int, of_a as int, of_b as int);
    &&& value == worth_in(replies, at, lp)
    &&& lp > 0 && total > 0 && of_a >= 0 && of_b > 0 && fits(worth) ==> value == worth
}

/// Whether what `lp` LP tokens are worth by the replies from `at` on is out of
/// range.
pub open spec fn value_overflows(replies: Seq<Reply<StrategyConfig>>, at: int, lp: i128) -> bool {
    let total = replies[at]->Amount_0;
    let (of_a, of_b) = reserves_at(replies, at + 1);
    &&& lp != 0
    &&& replies.len() > at + 2
    &&& total != 0
    &&& of_b != 0
    &&& position_value(lp, total, of_a, of_b) is None
    &&& lp > 0 && total > 0 && of_a >= 0 && of_b > 0 ==> pool_value(
        lp as int,
        total as int,
        of_a as int,
        of_b as int,
    ) > i128::MAX
}

/// Whether `lp` LP tokens are stored for `vault`, from `at` on.
pub open spec fn asked_in_storing(call: Call, len: int, at: int, vault: Address, lp: int) -> bool {
    let key = StorageKey::LpTokens(vault);
    ||| len == at && fits(lp) && call == (Call::PersistentSet { key, value: lp as i128 })
    ||| len == at + 1 && call == (Call::PersistentExtendTtl {
        key,
        threshold: YEAR_IN_LEDGERS,
        extend_to: YEAR_AND_DAY_IN_LEDGERS,
    })
}

/// Whether the LP tokens of `vault` are read, from `at` on.
pub open spec fn asked_in_reading(
    call: Call,
    replies: Seq<Reply<StrategyConfig>>,
    at: int,
    vault: Address,
) -> bool {
    let key = StorageKey::LpTokens(vault);
    ||| replies.len() == at && call == (Call::PersistentGet { key })
    ||| replies.len() == at + 1 && stored_at(replies, at) > 0 && call
        == (Call::PersistentExtendTtl {
        key,
        threshold: YEAR_IN_LEDGERS,
        extend_to: YEAR_AND_DAY_IN_LEDGERS,
    })
}

/// The last of a list of amounts, and zero of an empty one.
pub open spec fn last_of(amounts: Seq<i128>) -> i128 {
    if amounts.len() > 0 {
        amounts[amounts.len() - 1]
    } else {
        0
    }
}

/// A position of a positive number of LP tokens is valued at its part of both
/// reserves, where that fits; there is no value only where it does not.
proof fn lemma_position_is_pool_value(lp: i128, total: i128, reserves: (i128, i128))
    ensures
        lp > 0 && total > 0 && reserves.0 >= 0 && reserves.1 > 0 ==> {
            let worth = pool_value(
                lp as int,
                total as int,
                reserves.0 as int,
                reserves.1 as int,
            );
            let value = position_value(lp, total, reserves.0, reserves.1);
            &&& fits(worth) ==> value == Some(worth as i128)
            &&& value is None ==> worth > i128::MAX
        },
{
    if lp > 0 && total > 0 && reserves.0 >= 0 && reserves.1 > 0 {
        lemma_parts_are_nonnegative(
            lp as int,
            total as int,
            reserves.0 as int,
            reserves.1 as int,
        );
    }
}

/// A valuation gives what the replies say, and traps only on a reply of another
/// kind or a value that does not fit.
proof fn lemma_valuing_stops(env: &Env, at: usize, lp: i128)
    ensures
        ({
            let replies = env.replies@;
            match soroswap_pool::lp_value_in_a(env, at, lp, &config_in(replies)) {
                Ok((value, next)) => {
                    &&& is_value(replies, at as int, lp, value)
                    &&& next == past_valuation(replies, at as int, lp)
                    &&& lp != 0 ==> replies.len() > at
                    &&& lp != 0 ==> replies.len() >= next
                    &&& valued_in_kind(replies, at as int, lp)
                },
                Err(Halt::Ask(call)) => {
                    &&& asked_in_valuation(call, replies, at as int, lp) || replies.len() < at
                    &&& valued_in_kind(replies, at as int, lp)
                },
                Err(Halt::Trap) => !valued_in_kind(replies, at as int, lp) || value_overflows(
                    replies,
                    at as int,
                    lp,
                ),
                Err(_) => false,
            }
        }),
{
    let replies = env.replies@;
    assert(replies.len() == env.replies.len());
    lemma_position_is_pool_value(
        lp,
        replies[at as int]->Amount_0,
        reserves_at(replies, at + 1),
    );
}

/// Where a deposit stores the LP tokens of its vault.
pub open spec fn deposit_stores_at(replies: Seq<Reply<StrategyConfig>>) -> int {
    past_read(replies, 10)
}

/// Whether the replies to a deposit were of the kinds asked for.
pub open spec fn deposit_in_kind(replies: Seq<Reply<StrategyConfig>>) -> bool {
    let set = deposit_stores_at(replies);
    let last = set + 3;
    &&& replies.len() > 0 ==> replies[0] is Config
    &&& replies.len() > 1 ==> replies[1] is Time
    &&& replies.len() > 2 ==> replies[2] is Done
    &&& replies.len() > 3 ==> replies[3] is Amounts
    &&& reserves_in_kind(replies, 4)
    &&& replies.len() > 6 ==> replies[6] is Amount
    &&& replies.len() > 7 ==> replies[7] is Done
    &&& replies.len() > 8 ==> replies[8] is Done
    &&& replies.len() > 9 ==> replies[9] is Amount
    &&& read_in_kind(replies, 10)
    &&& replies.len() > 10 ==> {
        &&& replies.len() > set ==> replies[set] is Done
        &&& replies.len() > set + 1 ==> replies[set + 1] is Done
        &&& replies.len() > set + 2 ==> replies[set + 2] is Done
        &&& read_in_kind(replies, last)
        &&& replies.len() > last ==> valued_in_kind(
            replies,
            past_read(replies, last),
            stored_at(replies, last),
        )
    }
}

/// Whether `added` is the amount of token b that goes into the pair beside
/// `remaining` of token a: as much as the ratio of the reserves asks for, and no
/// more than the swap brought.
pub open spec fn is_b_added(
    replies: Seq<Reply<StrategyConfig>>,
    remaining: int,
    added: int,
) -> bool {
    let brought = last_of(replies[3]->Amounts_0@) as int;
    let (of_a, of_b) = reserves_at(replies, 4);
    if of_a == 0 || !fits(remaining * of_b) || !fits(trunc_div(remaining * of_b, of_a as int)) {
        added == least(0, brought)
    } else {
        added == least(trunc_div(remaining * of_b, of_a as int), brought)
    }
}

/// Whether a call is the one that a deposit of `amount` for the vault `from`
/// makes after these replies.
pub open spec fn asked_in_deposit(
    call: Call,
    replies: Seq<Reply<StrategyConfig>>,
    contract: Address,
    amount: i128,
    from: Address,
) -> bool {
    let config = config_in(replies);
    let len = replies.len();
    let set = deposit_stores_at(replies);
    let last = set + 3;
    match call {
        Call::InstanceGet { key } => len == 0 && key == StorageKey::Config,
        Call::LedgerTimestamp => len == 1,
        Call::Authorize { entry } => {
            &&& len == 2
            &&& entry matches Authorization::Transfer { token, from: payer, to, amount: swapped }
            &&& token == config.token_a
            &&& payer == contract
            &&& to == config.pair
            &&& 2 * swapped <= amount < 2 * swapped + 2
        },
        Call::RouterSwap { router, amount_in, amount_out_min, path, to, deadline } => {
            &&& len == 3
            &&& router == config.router
            &&& 2 * amount_in <= amount < 2 * amount_in + 2
            &&& amount_out_min == 0
            &&& path == (config.token_a, config.token_b)
            &&& to == contract
            &&& deadline == replies[1]->Time_0 + 3600
        },
        Call::PairBalance { pair, holder } => {
            &&& len == 6 || len == 9
            &&& pair == config.pair
            &&& holder == contract
        },
        Call::AuthorizeBoth { first, second } => {
            &&& len == 7
            &&& first matches Authorization::Transfer {
                token: token1,
                from: payer1,
                to: to1,
                amount: remaining,
            }
            &&& second matches Authorization::Transfer {
                token: token2,
                from: payer2,
                to: to2,
                amount: added,
            }
            &&& token1 == config.token_a && token2 == config.token_b
            &&& payer1 == contract && payer2 == contract
            &&& to1 == config.pair && to2 == config.pair
            &&& amount <= 2 * remaining <= amount + 1
            &&& is_b_added(replies, remaining as int, added as int)
        },
        Call::RouterAddLiquidity {
            router,
            token_a,
            token_b,
            amount_a_desired,
            amount_b_desired,
            amount_a_min,
            amount_b_min,
            to,
            deadline,
        } => {
            &&& len == 8
            &&& router == config.router
            &&& token_a == config.token_a
            &&& token_b == config.token_b
            &&& amount <= 2 * amount_a_desired <= amount + 1
            &&& is_b_added(replies, amount_a_desired as int, amount_b_desired as int)
            &&& amount_a_min == 0 && amount_b_min == 0
            &&& to == contract
            &&& deadline == replies[1]->Time_0 + 3600
        },
        Call::EmitDeposit { strategy, amount: reported, from: vault } => {
            &&& len == set + 2
            &&& strategy == STRATEGY_NAME
            &&& reported == amount
            &&& vault == from
        },
        _ => {
            ||| asked_in_reserves(call, replies, 4)
            ||| asked_in_reading(call, replies, 10, from)
            ||| len > 10 && asked_in_storing(
                call,
                len as int,
                set,
                from,
                stored_at(replies, 10) + (replies[9]->Amount_0 - replies[6]->Amount_0),
            )
            ||| len > 10 && asked_in_reading(call, replies, last, from)
            ||| len > last && asked_in_valuation(
                call,
                replies,
                past_read(replies, last),
                stored_at(replies, last),
            )
        },
    }
}

/// What a deposit asks for: half of the amount is swapped for token b; the rest
/// goes into the pair with as much of token b as the ratio of its reserves asks
/// for; and the LP tokens that came in are added to those of the vault.
#[verifier::rlimit(100)]
#[verifier::spinoff_prover]
pub proof fn law_deposit_asks(env: &Env, amount: i128, from: Address, call: Call)
    requires
        SoroswapStrategy::spec_deposit(env, amount, from) == Err::<i128, Halt<Call>>(
            Halt::Ask(call),
        ),
    ensures
        amount > 0,
        is_configured(env.replies@),
        deposit_in_kind(env.replies@),
        asked_in_deposit(call, env.replies@, env.contract, amount, from),
{
}

/// On what grounds a deposit stops: an amount that is not positive is an error,
/// a missing configuration aborts; it traps only on a reply of another kind and
/// on a number that does not fit.
#[verifier::rlimit(100)]
#[verifier::spinoff_prover]
pub proof fn law_deposit_stops(env: &Env, amount: i128, from: Address, halt: Halt<Call>)
    requires
        SoroswapStrategy::spec_deposit(env, amount, from) == Err::<i128, Halt<Call>>(halt),
    ensures
        ({
            let replies = env.replies@;
            let last = deposit_stores_at(replies) + 3;
            let minted = replies[9]->Amount_0 - replies[6]->Amount_0;
            match halt {
                Halt::Ask(_) => true,
                Halt::Error(error) => amount <= 0 && error
                    == StrategyError::OnlyPositiveAmountAllowed,
                Halt::Abort(error) => replies[0] matches Reply::Config(None) && error
                    == StrategyError::NotInitialized,
                Halt::Trap => {
                    ||| !deposit_in_kind(replies)
                    ||| replies.len() > 1 && replies[1]->Time_0 + 3600 > u64::MAX
                    ||| replies.len() > 9 && !fits(minted)
                    ||| replies.len() > 10 && !fits(stored_at(replies, 10) + minted)
                    ||| replies.len() > last && value_overflows(
                        replies,
                        past_read(replies, last),
                        stored_at(replies, last),
                    )
                },
            }
        }),
{
    let replies = env.replies@;
    let last = deposit_stores_at(replies) + 3;
    let at = past_read(replies, last);
    lemma_position_is_pool_value(
        stored_at(replies, last),
        replies[at]->Amount_0,
        reserves_at(replies, at + 1),
    );
}

/// What a deposit returns: the value of the LP tokens that are stored for the
/// vault at its end.
#[verifier::rlimit(100)]
#[verifier::spinoff_prover]
pub proof fn law_deposit_returns(env: &Env, amount: i128, from: Address, value: i128)
    requires
        SoroswapStrategy::spec_deposit(env, amount, from) == Ok::<i128, Halt<Call>>(value),
    ensures
        ({
            let replies = env.replies@;
            let last = deposit_stores_at(replies) + 3;
            let at = past_read(replies, last);
            let lp = stored_at(replies, last);
            &&& amount > 0
            &&& replies.len() > 0 && is_configured(replies)
            &&& deposit_in_kind(replies)
            &&& replies.len() > 10 && replies.len() > last
            &&& replies.len() >= past_valuation(replies, at, lp)
            &&& is_value(replies, at, lp, value)
        }),
{
    let replies = env.replies@;
    let last = deposit_stores_at(replies) + 3;
    let at = past_read(replies, last);
    lemma_position_is_pool_value(
        stored_at(replies, last),
        replies[at]->Amount_0,
        reserves_at(replies, at + 1),
    );
}

/// Where a withdrawal values the LP tokens of its vault.
pub open spec fn withdraw_values_at(replies: Seq<Reply<StrategyConfig>>) -> int {
    past_read(replies, 1)
}

/// Where a withdrawal turns to the router.
pub open spec fn withdraw_burns_at(replies: Seq<Reply<StrategyConfig>>) -> int {
    past_valuation(replies, withdraw_values_at(replies), stored_at(replies, 1))
}

/// How many LP tokens a withdrawal of `amount` burns, or why it does not.
pub open spec fn burnt_in_withdraw(
    replies: Seq<Reply<StrategyConfig>>,
    amount: i128,
) -> Result<i128, StrategyError> {
    let held = stored_at(replies, 1);
    shares_to_burn(held, amount, worth_in(replies, withdraw_values_at(replies), held))
}

/// What came out of the pair in a withdrawal, of token a and of token b.
pub open spec fn taken_out(replies: Seq<Reply<StrategyConfig>>) -> (i128, i128) {
    replies[withdraw_burns_at(replies) + 2]->Pair_0
}

/// Where a withdrawal pays its receiver: at once where no token b came out,
/// otherwise after its swap.
pub open spec fn withdraw_pays_at(replies: Seq<Reply<StrategyConfig>>) -> int {
    withdraw_burns_at(replies) + if taken_out(replies).1 > 0 {
        5int
    } else {
        3
    }
}

/// What a withdrawal pays: the token a that came out of the pair, and what token
/// b brought of it.
pub open spec fn paid_in_withdraw(replies: Seq<Reply<StrategyConfig>>) -> int {
    let (of_a, of_b) = taken_out(replies);
    if of_b > 0 {
        of_a + last_of(replies[withdraw_burns_at(replies) + 4]->Amounts_0@)
    } else {
        of_a as int
    }
}

/// Where a withdrawal stores the LP tokens that remain.
pub open spec fn withdraw_stores_at(replies: Seq<Reply<StrategyConfig>>) -> int {
    withdraw_pays_at(replies) + if paid_in_withdraw(replies) > 0 {
        1int
    } else {
        0
    }
}

/// Whether the replies to a withdrawal were of the kinds asked for.
pub open spec fn withdraw_in_kind(replies: Seq<Reply<StrategyConfig>>) -> bool {
    let len = replies.len();
    let burn = withdraw_burns_at(replies);
    let pay = withdraw_pays_at(replies);
    let set = withdraw_stores_at(replies);
    let last = set + 3;
    &&& len > 0 ==> replies[0] is Config
    &&& read_in_kind(replies, 1)
    &&& len > 1 ==> valued_in_kind(replies, withdraw_values_at(replies), stored_at(replies, 1))
    &&& len > 1 && len > withdraw_values_at(replies) ==> {
        &&& len > burn ==> replies[burn] is Time
        &&& len > burn + 1 ==> replies[burn + 1] is Done
        &&& len > burn + 2 ==> replies[burn + 2] is Pair
        &&& len > burn + 2 ==> {
            &&& taken_out(replies).1 > 0 ==> {
                &&& len > burn + 3 ==> replies[burn + 3] is Done
                &&& len > burn + 4 ==> replies[burn + 4] is Amounts
            }
            &&& len > pay ==> replies[pay] is Done
            &&& len >= pay ==> {
                &&& len > set ==> replies[set] is Done
                &&& len > set + 1 ==> replies[set + 1] is Done
                &&& len > set + 2 ==> replies[set + 2] is Done
                &&& read_in_kind(replies, last)
                &&& len > last ==> valued_in_kind(
                    replies,
                    past_read(replies, last),
                    stored_at(replies, last),
                )
            }
        }
    }
}

/// Whether a call is the one that a withdrawal of `amount` for the vault `from`
/// to the receiver `to` makes after these replies.
pub open spec fn asked_in_withdraw(
    call: Call,
    replies: Seq<Reply<StrategyConfig>>,
    contract: Address,
    amount: i128,
    from: Address,
    to: Address,
) -> bool {
    let config = config_in(replies);
    let len = replies.len();
    let held = stored_at(replies, 1);
    let value = withdraw_values_at(replies);
    let burn = withdraw_burns_at(replies);
    let burnt = burnt_in_withdraw(replies, amount)->Ok_0;
    let of_b = taken_out(replies).1;
    let pay = withdraw_pays_at(replies);
    let set = withdraw_stores_at(replies);
    let last = set + 3;
    match call {
        Call::InstanceGet { key } => len == 0 && key == StorageKey::Config,
        Call::LedgerTimestamp => len > value && len == burn,
        Call::Authorize { entry } => {
            ||| len == burn + 1 && entry == (Authorization::Transfer {
                token: config.pair,
                from: contract,
                to: config.pair,
                amount: burnt,
            })
            ||| len == burn + 3 && of_b > 0 && entry == (Authorization::Transfer {
                token: config.token_b,
                from: contract,
                to: config.pair,
                amount: of_b,
            })
        },
        Call::RouterRemoveLiquidity {
            router,
            token_a,
            token_b,
            liquidity,
            amount_a_min,
            amount_b_min,
            to: receiver,
            deadline,
        } => {
            &&& len == burn + 2
            &&& router == config.router
            &&& token_a == config.token_a
            &&& token_b == config.token_b
            &&& liquidity == burnt
            &&& amount_a_min == 0 && amount_b_min == 0
            &&& receiver == contract
            &&& deadline == replies[burn]->Time_0 + 3600
        },
        Call::RouterSwap { router, amount_in, amount_out_min, path, to: receiver, deadline } => {
            &&& len == burn + 4
            &&& router == config.router
            &&& amount_in == of_b > 0
            &&& amount_out_min == 0
            &&& path == (config.token_b, config.token_a)
            &&& receiver == contract
            &&& deadline == replies[burn]->Time_0 + 3600
        },
        Call::TokenTransfer { token, from: payer, to: receiver, amount: paid } => {
            &&& len == pay
            &&& token == config.token_a
            &&& payer == contract
            &&& receiver == to
            &&& paid == paid_in_withdraw(replies) > 0
        },
        Call::EmitWithdraw { strategy, amount: reported, from: vault } => {
            &&& len == set + 2
            &&& strategy == STRATEGY_NAME
            &&& reported == paid_in_withdraw(replies)
            &&& vault == from
        },
        _ => {
            ||| asked_in_reading(call, replies, 1, from)
            ||| len > 1 && asked_in_valuation(call, replies, value, held)
            ||| len > burn + 2 && len >= pay && asked_in_storing(
                call,
                len as int,
                set,
                from,
                held - burnt,
            )
            ||| len > burn + 2 && len > pay && asked_in_reading(call, replies, last, from)
            ||| len > burn + 2 && len > last && asked_in_valuation(
                call,
                replies,
                past_read(replies, last),
                stored_at(replies, last),
            )
        },
    }
}

/// Whether a withdrawal of `amount` that has come to the router had grounds to:
/// the vault has LP tokens, they are worth something, and some are to be burnt.
pub open spec fn may_burn(replies: Seq<Reply<StrategyConfig>>, amount: i128) -> bool {
    let value = withdraw_values_at(replies);
    let held = stored_at(replies, 1);
    replies.len() > 1 && replies.len() > value && replies.len() >= withdraw_burns_at(replies) ==> {
        &&& held != 0
        &&& worth_in(replies, value, held) != 0
        &&& burnt_in_withdraw(replies, amount) is Ok
    }
}

/// What a withdrawal asks for: it burns a part of the LP tokens of the vault,
/// swaps the token b that came out of the pair, and pays the receiver the token a
/// that came out and what the swap brought.
#[verifier::rlimit(100)]
#[verifier::spinoff_prover]
pub proof fn law_withdraw_asks(
    env: &Env,
    amount: i128,
    from: Address,
    to: Address,
    call: Call,
)
    requires
        SoroswapStrategy::spec_withdraw(env, amount, from, to) == Err::<i128, Halt<Call>>(
            Halt::Ask(call),
        ),
    ensures
        amount > 0,
        is_configured(env.replies@),
        withdraw_in_kind(env.replies@),
        may_burn(env.replies@, amount),
        env.replies@.len() > 1 ==> stored_at(env.replies@, 1) != 0
            || env.replies@.len() < withdraw_values_at(env.replies@),
        asked_in_withdraw(call, env.replies@, env.contract, amount, from, to),
{
}

/// What the router part of a withdrawal comes to, and on what grounds it traps.
#[verifier::rlimit(60)]
#[verifier::spinoff_prover]
proof fn lemma_pool_withdrawal_stops(env: &Env, burnt: i128, to: Address)
    ensures
        ({
            let replies = env.replies@;
            let burn = withdraw_burns_at(replies);
            let pay = withdraw_pays_at(replies);
            0 <= burn <= replies.len() && is_configured(replies) ==> match soroswap_pool::withdraw(
                env,
                burn as usize,
                burnt,
                to,
                &config_in(replies),
            ) {
                Ok((paid, next)) => {
                    &&& replies.len() > burn + 2
                    &&& replies.len() >= next
                    &&& replies.len() >= pay
                    &&& paid == paid_in_withdraw(replies)
                    &&& next == withdraw_stores_at(replies)
                },
                Err(Halt::Ask(_)) => true,
                Err(Halt::Trap) => {
                    ||| replies.len() > burn && !(replies[burn] is Time)
                    ||| replies.len() > burn && replies[burn]->Time_0 + 3600 > u64::MAX
                    ||| replies.len() > burn + 1 && !(replies[burn + 1] is Done)
                    ||| replies.len() > burn + 2 && !(replies[burn + 2] is Pair)
                    ||| replies.len() > burn + 2 && taken_out(replies).1 > 0 && {
                        ||| replies.len() > burn + 3 && !(replies[burn + 3] is Done)
                        ||| replies.len() > burn + 4 && !(replies[burn + 4] is Amounts)
                    }
                    ||| replies.len() > burn + 2 && replies.len() > pay && !(replies[pay] is Done)
                    ||| replies.len() > burn + 2 && replies.len() >= pay && !fits(
                        paid_in_withdraw(replies),
                    )
                },
                Err(_) => false,
            }
        }),
{
    assert(env.replies@.len() == env.replies.len());
}

/// On what grounds a withdrawal stops: an amount that is not positive, a vault
/// without LP tokens or with LP tokens worth nothing, and a burn that fails are
/// errors; a missing configuration aborts; it traps only on a reply of another
/// kind and on a number that does not fit.
#[verifier::rlimit(100)]
#[verifier::spinoff_prover]
pub proof fn law_withdraw_stops(
    env: &Env,
    amount: i128,
    from: Address,
    to: Address,
    halt: Halt<Call>,
)
    requires
        SoroswapStrategy::spec_withdraw(env, amount, from, to) == Err::<i128, Halt<Call>>(halt),
    ensures
        ({
            let replies = env.replies@;
            let held = stored_at(replies, 1);
            let value = withdraw_values_at(replies);
            let burn = withdraw_burns_at(replies);
            let pay = withdraw_pays_at(replies);
            let last = withdraw_stores_at(replies) + 3;
            match halt {
                Halt::Ask(_) => true,
                Halt::Error(error) => {
                    ||| amount <= 0 && error == StrategyError::OnlyPositiveAmountAllowed
                    ||| amount > 0 && replies.len() > 1 && held == 0 && error
                        == StrategyError::InsufficientBalance
                    ||| amount > 0 && replies.len() > value && replies.len() >= burn && worth_in(
                        replies,
                        value,
                        held,
                    ) == 0 && error == StrategyError::InsufficientBalance
                    ||| amount > 0 && replies.len() > value && replies.len() >= burn
                        && burnt_in_withdraw(replies, amount) == Err::<i128, StrategyError>(error)
                },
                Halt::Abort(error) => replies[0] matches Reply::Config(None) && error
                    == StrategyError::NotInitialized,
                Halt::Trap => {
                    ||| !withdraw_in_kind(replies)
                    ||| replies.len() > burn && replies[burn]->Time_0 + 3600 > u64::MAX
                    ||| replies.len() > 1 && value_overflows(replies, value, held)
                    ||| replies.len() > burn + 2 && replies.len() >= pay && !fits(
                        paid_in_withdraw(replies),
                    )
                    ||| replies.len() > burn + 2 && !fits(
                        held - burnt_in_withdraw(replies, amount)->Ok_0,
                    )
                    ||| replies.len() > burn + 2 && replies.len() > last && value_overflows(
                        replies,
                        past_read(replies, last),
                        stored_at(replies, last),
                    )
                },
            }
        }),
{
    let replies = env.replies@;
    let held = stored_at(replies, 1);
    let value = withdraw_values_at(replies);
    let burn = withdraw_burns_at(replies);
    if amount > 0 && is_configured(replies) && replies.len() > 0 && withdraw_in_kind(replies) {
        let config = config_in(replies);
        assert(replies.len() == env.replies.len());
        assert(load_config(env, 0) == Ok::<(StrategyConfig, usize), Halt<Call>>((config, 1)));
        if get_lp_tokens(env, 1, from) is Ok && held != 0 {
            assert(get_lp_tokens(env, 1, from)->Ok_0 == (held, value as usize));
            lemma_valuing_stops(env, value as usize, held);
            let valued = soroswap_pool::lp_value_in_a(env, value as usize, held, &config);
            if valued is Ok && shares_to_burn(held, amount, valued->Ok_0.0) is Ok {
                let burnt = shares_to_burn(held, amount, valued->Ok_0.0)->Ok_0;
                assert(burnt_in_withdraw(replies, amount) == Ok::<i128, StrategyError>(burnt));
                let paid = soroswap_pool::withdraw(env, burn as usize, burnt, to, &config);
                lemma_pool_withdrawal_stops(env, burnt, to);
                if paid is Ok && fits(held - burnt) {
                    let set = withdraw_stores_at(replies);
                    assert(paid->Ok_0.1 == set);
                    let stored = set_lp_tokens(env, set as usize, from, (held - burnt) as i128);
                    let last = set + 3;
                    if stored is Ok {
                        assert(stored->Ok_0 == set + 2);
                        let read = get_lp_tokens(env, last as usize, from);
                        if read is Ok {
                            assert(read->Ok_0 == (
                                stored_at(replies, last),
                                past_read(replies, last) as usize,
                            ));
                            lemma_valuing_stops(
                                env,
                                past_read(replies, last) as usize,
                                stored_at(replies, last),
                            );
                        }
                    }
                }
            }
        }
    }
}

/// What a withdrawal returns: the value of the LP tokens that are stored for the
/// vault at its end.
#[verifier::rlimit(100)]
#[verifier::spinoff_prover]
pub proof fn law_withdraw_returns(
    env: &Env,
    amount: i128,
    from: Address,
    to: Address,
    value: i128,
)
    requires
        SoroswapStrategy::spec_withdraw(env, amount, from, to) == Ok::<i128, Halt<Call>>(value),
    ensures
        ({
            let replies = env.replies@;
            let last = withdraw_stores_at(replies) + 3;
            let at = past_read(replies, last);
            let lp = stored_at(replies, last);
            &&& amount > 0
            &&& replies.len() > 0 && is_configured(replies)
            &&& withdraw_in_kind(replies)
            &&& may_burn(replies, amount)
            &&& replies.len() > withdraw_burns_at(replies) + 2
            &&& replies.len() > last
            &&& replies.len() >= past_valuation(replies, at, lp)
            &&& is_value(replies, at, lp, value)
        }),
{
    let replies = env.replies@;
    let last = withdraw_stores_at(replies) + 3;
    let at = past_read(replies, last);
    lemma_position_is_pool_value(
        stored_at(replies, last),
        replies[at]->Amount_0,
        reserves_at(replies, at + 1),
    );
}

/// What a request for a balance asks for.
pub proof fn law_balance_asks(env: &Env, from: Address, call: Call)
    requires
        SoroswapStrategy::spec_balance(env, from) == Err::<i128, Halt<Call>>(Halt::Ask(call)),
    ensures
        ({
            let replies = env.replies@;
            &&& is_configured(replies)
            &&& read_in_kind(replies, 1)
            &&& replies.len() > 1 ==> valued_in_kind(
                replies,
                past_read(replies, 1),
                stored_at(replies, 1),
            )
            &&& {
                ||| replies.len() == 0 && call == (Call::InstanceGet { key: StorageKey::Config })
                ||| asked_in_reading(call, replies, 1, from)
                ||| replies.len() > 1 && asked_in_valuation(
                    call,
                    replies,
                    past_read(replies, 1),
                    stored_at(replies, 1),
                )
            }
        }),
{
}

/// On what grounds a request for a balance stops.
pub proof fn law_balance_stops(env: &Env, from: Address, halt: Halt<Call>)
    requires
        SoroswapStrategy::spec_balance(env, from) == Err::<i128, Halt<Call>>(halt),
    ensures
        ({
            let replies = env.replies@;
            let at = past_read(replies, 1);
            let lp = stored_at(replies, 1);
            match halt {
                Halt::Ask(_) => true,
                Halt::Error(_) => false,
                Halt::Abort(error) => replies[0] matches Reply::Config(None) && error
                    == StrategyError::NotInitialized,
                Halt::Trap => {
                    ||| !(replies[0] is Config)
                    ||| !read_in_kind(replies, 1)
                    ||| replies.len() > 1 && !valued_in_kind(replies, at, lp)
                    ||| replies.len() > 1 && value_overflows(replies, at, lp)
                },
            }
        }),
{
    let replies = env.replies@;
    let at = past_read(replies, 1);
    lemma_position_is_pool_value(
        stored_at(replies, 1),
        replies[at]->Amount_0,
        reserves_at(replies, at + 1),
    );
}

/// A balance is the value of the LP tokens that are stored for the vault: their
/// part of the reserve of token a, and their part of the reserve of token b at
/// the spot price, in whichever order the pair has its tokens.
pub proof fn law_balance_returns(env: &Env, from: Address, value: i128)
    requires
        SoroswapStrategy::spec_balance(env, from) == Ok::<i128, Halt<Call>>(value),
    ensures
        ({
            let replies = env.replies@;
            let at = past_read(replies, 1);
            let lp = stored_at(replies, 1);
            &&& replies.len() > 1
            &&& is_configured(replies)
            &&& read_in_kind(replies, 1)
            &&& valued_in_kind(replies, at, lp)
            &&& replies.len() >= past_valuation(replies, at, lp)
            &&& is_value(replies, at, lp, value)
        }),
{
    let replies = env.replies@;
    let at = past_read(replies, 1);
    lemma_position_is_pool_value(
        stored_at(replies, 1),
        replies[at]->Amount_0,
        reserves_at(replies, at + 1),
    );
}

/// Where a harvest reports: after the valuation of the LP tokens, if the vault
/// has any.
pub open spec fn harvest_reports_at(replies: Seq<Reply<StrategyConfig>>) -> int {
    let lp = stored_at(replies, 1);
    if lp > 0 {
        past_valuation(replies, past_read(replies, 1), lp)
    } else {
        past_read(replies, 1)
    }
}

/// Whether the replies to a harvest were of the kinds asked for.
pub open spec fn harvest_in_kind(replies: Seq<Reply<StrategyConfig>>) -> bool {
    let len = replies.len();
    let lp = stored_at(replies, 1);
    let report = harvest_reports_at(replies);
    &&& len > 0 ==> replies[0] is Config
    &&& read_in_kind(replies, 1)
    &&& len > 1 && lp > 0 ==> valued_in_kind(replies, past_read(replies, 1), lp)
    &&& len > 1 && len > past_read(replies, 1) && len > report ==> replies[report] is Done
}

/// A harvest: the value of one LP token of the vault is reported in seven
/// decimals, with no claimed amount.
#[verifier::rlimit(60)]
#[verifier::spinoff_prover]
pub proof fn law_harvest(env: &Env, from: Address)
    ensures
        ({
            let replies = env.replies@;
            let len = replies.len();
            let lp = stored_at(replies, 1);
            let value = past_read(replies, 1);
            match SoroswapStrategy::spec_harvest(env, from) {
                Err(Halt::Ask(call)) => is_configured(replies) && harvest_in_kind(replies) && {
                    ||| len == 0 && call == (Call::InstanceGet { key: StorageKey::Config })
                    ||| asked_in_reading(call, replies, 1, from)
                    ||| len > 1 && lp > 0 && asked_in_valuation(call, replies, value, lp)
                    ||| len > 1 && len == harvest_reports_at(replies) && call
                        == (Call::EmitHarvest {
                        strategy: STRATEGY_NAME,
                        amount: 0,
                        from,
                        price_per_share: if lp > 0 {
                            price_per_share(worth_in(replies, value, lp), lp)
                        } else {
                            0
                        },
                    })
                },
                Err(Halt::Error(_)) => false,
                Err(Halt::Abort(error)) => replies[0] matches Reply::Config(None) && error
                    == StrategyError::NotInitialized,
                Err(Halt::Trap) => !harvest_in_kind(replies) || len > 1 && value_overflows(
                    replies,
                    value,
                    lp,
                ),
                Ok(_) => {
                    &&& len > 1 && is_configured(replies)
                    &&& harvest_in_kind(replies)
                    &&& len > harvest_reports_at(replies)
                },
            }
        }),
{
    let replies = env.replies@;
    let at = past_read(replies, 1);
    lemma_position_is_pool_value(
        stored_at(replies, 1),
        replies[at]->Amount_0,
        reserves_at(replies, at + 1),
    );
}

/// The reserves of the pair are had with that of token a first: as they were
/// answered where token a is the first token of the pair, and turned round where
/// it is not.
pub proof fn law_reserves_in_order(
    env: &Env,
    at: usize,
    config: &StrategyConfig,
    of_a: i128,
    of_b: i128,
    next: usize,
)
    requires
        soroswap_pool::reserves(env, at, config) == Ok::<(i128, i128, usize), Halt<Call>>(
            (of_a, of_b, next),
        ),
    ensures
        ({
            let first_token = env.replies@[at as int]->Account_0;
            let answered = env.replies@[at + 1]->Pair_0;
            &&& next == at + 2
            &&& first_token == config.token_a ==> answered == (of_a, of_b)
            &&& first_token != config.token_a ==> answered == (of_b, of_a)
        }),
{
    assert(env.replies@.len() == env.replies.len());
}

/// The asset is token a of the configuration.
pub proof fn law_asset(env: &Env)
    ensures
        match SoroswapStrategy::spec_asset(env) {
            Ok(asset) => env.replies@.len() > 0 && is_configured(env.replies@) && asset
                == config_in(env.replies@).token_a,
            Err(Halt::Ask(call)) => env.replies@.len() == 0 && call == (Call::InstanceGet {
                key: StorageKey::Config,
            }),
            Err(Halt::Abort(error)) => env.replies@[0] matches Reply::Config(None) && error
                == StrategyError::NotInitialized,
            Err(Halt::Trap) => env.replies@.len() > 0 && !(env.replies@[0] is Config),
            Err(Halt::Error(_)) => false,
        },
{
}

/// A construction: the strategy must not be set up yet, and the arguments must be
/// two addresses; then the configuration is stored, with the pair that the router
/// has for the two tokens.
pub proof fn law_constructor(env: &Env, asset: Address, init_args: &Vec<Val>)
    ensures
        ({
            let replies = env.replies@;
            let args = init_args@;
            let router = args[0]->Address_0;
            let token_b = args[1]->Address_0;
            let well_called = args.len() > 1 && args[0] is Address && args[1] is Address;
            let new = replies.len() > 0 && replies[0] == Reply::<StrategyConfig>::Flag(false);
            let in_kind = {
                &&& replies.len() > 0 ==> replies[0] is Flag
                &&& replies.len() > 1 ==> replies[1] is Account
                &&& replies.len() > 2 ==> replies[2] is Done
                &&& replies.len() > 3 ==> replies[3] is Done
            };
            let may = in_kind && new && well_called;
            match SoroswapStrategy::spec_constructor(env, asset, init_args) {
                Ok(_) => may && replies.len() > 3,
                Err(Halt::Ask(call)) => {
                    ||| replies.len() == 0 && call == (Call::InstanceHas {
                        key: StorageKey::Config,
                    })
                    ||| replies.len() == 1 && may && call == (Call::RouterPairFor {
                        router,
                        token_a: asset,
                        token_b,
                    })
                    ||| replies.len() == 2 && may && call == (Call::InstanceSet {
                        key: StorageKey::Config,
                        config: StrategyConfig {
                            token_a: asset,
                            token_b,
                            router,
                            pair: replies[1]->Account_0,
                        },
                    })
                    ||| replies.len() == 3 && may && call == (Call::InstanceExtendTtl {
                        threshold: MONTH_IN_LEDGERS,
                        extend_to: MONTH_AND_DAY_IN_LEDGERS,
                    })
                },
                Err(Halt::Abort(error)) => error == StrategyError::InvalidArgument && {
                    ||| replies.len() > 0 && replies[0] == Reply::<StrategyConfig>::Flag(true)
                    ||| new && !well_called
                },
                Err(Halt::Trap) => !in_kind,
                Err(Halt::Error(_)) => false,
            }
        }),
{
}

} // verus!
