//! What is exchanged with the host, told by the replies alone.
//!
//! For each entry point there are three laws: what it asks for next, on what
//! grounds it stops, and what it returns. Together they leave open nothing that
//! the arguments and the replies decide.

use crate::address::{Address, Authorization, Val};
use crate::aquarius::aquarius_pool;
use crate::aquarius::aquarius_pool::{min_with_slippage, position_value};
use crate::aquarius::calls::{Call, Env};
use crate::aquarius::contract::{last_index, AquariusStrategy, STRATEGY_NAME};
use crate::aquarius::laws::law_last_index;
use crate::aquarius::storage::{
    get_shares, load_config, set_shares, StorageKey, StrategyConfig,
};
use crate::arith::{scale_u128, to_signed, to_unsigned, trunc_div};
use crate::error::StrategyError;
use crate::exchange::{
    fits, least, listed, past_read, read_in_kind, stored_at, MONTH_AND_DAY_IN_LEDGERS,
    MONTH_IN_LEDGERS, YEAR_AND_DAY_IN_LEDGERS, YEAR_IN_LEDGERS,
};
use crate::position::{
    lemma_parts_are_nonnegative, pool_value, price_per_share, shares_to_burn,
};
use crate::rounding::{lemma_floor, lemma_floor_largest};
use crate::session::{Halt, Reply};
use vstd::prelude::*;

verus! {

/// The configuration in the first reply.
pub open spec fn config_in(replies: Seq<Reply<StrategyConfig>>) -> StrategyConfig {
    replies[0]->Config_0->Some_0
}

/// Whether the first reply has a configuration.
pub open spec fn is_configured(replies: Seq<Reply<StrategyConfig>>) -> bool {
    replies.len() > 0 ==> replies[0] matches Reply::Config(Some(_))
}

/// Whether the valuation of `shares` at `at`, as far as it has come, was
/// answered in kind.
pub open spec fn valued_in_kind(
    replies: Seq<Reply<StrategyConfig>>,
    at: int,
    shares: i128,
) -> bool {
    &&& shares != 0 && replies.len() > at ==> replies[at] is Unsigned
    &&& shares != 0 && replies.len() > at + 1 && replies[at]->Unsigned_0 != 0
        ==> replies[at + 1] is Unsigneds
}

/// Whether a call is part of the valuation of `shares` at `at`: the total of
/// shares unless there are none to value, and then the reserves unless it is
/// zero.
pub open spec fn asked_in_valuation(
    call: Call,
    replies: Seq<Reply<StrategyConfig>>,
    at: int,
    shares: i128,
) -> bool {
    let pool = config_in(replies).pool;
    &&& shares != 0
    &&& {
        ||| replies.len() == at && call == (Call::PoolTotalShares { pool })
        ||| replies.len() == at + 1 && replies[at]->Unsigned_0 != 0 && call
            == (Call::PoolReserves { pool })
    }
}

/// The position after the valuation of `shares` at `at`.
pub open spec fn past_valuation(
    replies: Seq<Reply<StrategyConfig>>,
    at: int,
    shares: i128,
) -> int {
    if shares == 0 {
        at
    } else if replies[at]->Unsigned_0 == 0 {
        at + 1
    } else {
        at + 2
    }
}

/// The deposit reserve and the pair reserve in the list at `at`, each found at
/// the index of its token.
pub open spec fn reserves_at(replies: Seq<Reply<StrategyConfig>>, at: int) -> (u128, u128) {
    let reserves = replies[at]->Unsigneds_0@;
    let config = config_in(replies);
    (listed(reserves, config.deposit_token_idx), listed(reserves, config.pair_token_idx))
}

/// What `shares` are worth by the total and the reserves in the replies from
/// `at` on: nothing without shares or without pair tokens, otherwise the value
/// of that position.
pub open spec fn worth_in(
    replies: Seq<Reply<StrategyConfig>>,
    at: int,
    shares: i128,
) -> i128 {
    let total = replies[at]->Unsigned_0;
    let (of_deposit, of_pair) = reserves_at(replies, at + 1);
    if shares == 0 || total == 0 || of_pair == 0 {
        0
    } else {
        position_value(to_unsigned(shares), total, of_deposit, of_pair)->Some_0
    }
}

/// Whether `value` is what `shares` are worth by the replies from `at` on: their
/// part of the deposit reserve and, at the spot price, of the pair reserve.
pub open spec fn is_value(
    replies: Seq<Reply<StrategyConfig>>,
    at: int,
    shares: i128,
    value: i128,
) -> bool {
    let total = replies[at]->Unsigned_0;
    let (of_deposit, of_pair) = reserves_at(replies, at + 1);
    let worth = pool_value(shares as int, total as int, of_deposit as int, of_pair as int);
    &&& value == worth_in(replies, at, shares)
    &&& shares > 0 && total > 0 && of_pair > 0 && fits(worth) ==> value == worth
}

/// Whether what `shares` are worth by the replies from `at` on is out of range.
pub open spec fn value_overflows(
    replies: Seq<Reply<StrategyConfig>>,
    at: int,
    shares: i128,
) -> bool {
    let total = replies[at]->Unsigned_0;
    let (of_deposit, of_pair) = reserves_at(replies, at + 1);
    &&& shares != 0
    &&& replies.len() > at + 1
    &&& total != 0
    &&& of_pair != 0
    &&& position_value(to_unsigned(shares), total, of_deposit, of_pair) is None
    &&& shares < 0 || pool_value(
        shares as int,
        total as int,
        of_deposit as int,
        of_pair as int,
    ) > u128::MAX
}

/// Whether `shares` were stored for `vault`, from `at` on.
pub open spec fn asked_in_storing(
    call: Call,
    len: int,
    at: int,
    vault: Address,
    shares: int,
) -> bool {
    let key = StorageKey::ShareTokens(vault);
    ||| len == at && fits(shares) && call == (Call::PersistentSet { key, value: shares as i128 })
    ||| len == at + 1 && call == (Call::PersistentExtendTtl {
        key,
        threshold: YEAR_IN_LEDGERS,
        extend_to: YEAR_AND_DAY_IN_LEDGERS,
    })
}

/// Whether the shares of `vault` are read, from `at` on.
pub open spec fn asked_in_reading(
    call: Call,
    replies: Seq<Reply<StrategyConfig>>,
    at: int,
    vault: Address,
) -> bool {
    let key = StorageKey::ShareTokens(vault);
    ||| replies.len() == at && call == (Call::PersistentGet { key })
    ||| replies.len() == at + 1 && stored_at(replies, at) > 0 && call
        == (Call::PersistentExtendTtl {
        key,
        threshold: YEAR_IN_LEDGERS,
        extend_to: YEAR_AND_DAY_IN_LEDGERS,
    })
}

/// Where a deposit stores the shares of its vault, and where it reads them last.
pub open spec fn deposit_stores_at(replies: Seq<Reply<StrategyConfig>>) -> int {
    past_read(replies, 10)
}

/// Whether the replies to a deposit were of the kinds asked for.
pub open spec fn deposit_in_kind(replies: Seq<Reply<StrategyConfig>>) -> bool {
    let set = deposit_stores_at(replies);
    let last = set + 3;
    &&& replies.len() > 0 ==> replies[0] is Config
    &&& replies.len() > 1 ==> replies[1] is Unsigned
    &&& replies.len() > 2 ==> replies[2] is Done
    &&& replies.len() > 3 ==> replies[3] is Unsigned
    &&& replies.len() > 4 ==> replies[4] is Unsigneds
    &&& replies.len() > 5 ==> replies[5] is Unsigned
    &&& replies.len() > 6 ==> replies[6] is Amount
    &&& replies.len() > 7 ==> replies[7] is Done
    &&& replies.len() > 8 ==> replies[8] is Done
    &&& replies.len() > 9 ==> replies[9] is Amount
    &&& read_in_kind(replies, 10)
    &&& replies.len() > 10 ==> {
        &&& replies.len() > set ==> replies[set] is Done
        &&& replies.len() > set + 1 ==> replies[set + 1] is Done
        &&& replies.len() > set + 2 ==> replies[set + 2] is Done
        &&& read_in_kind(replies, last)
        &&& replies.len() > last ==> valued_in_kind(
            replies,
            past_read(replies, last),
            stored_at(replies, last),
        )
    }
}

/// Whether `added` is the pair tokens that go into the pool beside `remaining`
/// deposit tokens: as many as the ratio of the reserves asks for, found in their
/// list each at its own index, and no more than the swap brought.
pub open spec fn is_pair_added(
    replies: Seq<Reply<StrategyConfig>>,
    remaining: int,
    added: int,
) -> bool {
    let brought = to_signed(replies[3]->Unsigned_0);
    let of_deposit = to_signed(reserves_at(replies, 4).0);
    let of_pair = to_signed(reserves_at(replies, 4).1);
    if of_deposit <= 0 {
        added == brought
    } else if !fits(remaining * of_pair) {
        added == least(0, brought as int)
    } else {
        added == least(trunc_div(remaining * of_pair, of_deposit as int), brought as int)
    }
}

/// Whether a call is the one that a deposit of `amount` for the vault `from`
/// makes after these replies.
pub open spec fn asked_in_deposit(
    call: Call,
    replies: Seq<Reply<StrategyConfig>>,
    contract: Address,
    amount: i128,
    from: Address,
) -> bool {
    let config = config_in(replies);
    let len = replies.len();
    let set = deposit_stores_at(replies);
    let last = set + 3;
    match call {
        Call::InstanceGet { key } => len == 0 && key == StorageKey::Config,
        Call::PoolEstimateSwap { pool, in_idx, out_idx, in_amount } => {
            &&& len == 1
            &&& pool == config.pool
            &&& in_idx == config.deposit_token_idx
            &&& out_idx == config.pair_token_idx
            &&& 2 * in_amount <= amount < 2 * in_amount + 2
        },
        Call::Authorize { entry } => {
            &&& len == 2
            &&& entry matches Authorization::Transfer { token, from: payer, to, amount: swapped }
            &&& token == config.deposit_token
            &&& payer == contract
            &&& to == config.pool
            &&& 2 * swapped <= amount < 2 * swapped + 2
        },
        Call::PoolSwap { pool, user, in_idx, out_idx, in_amount, out_min } => {
            &&& len == 3
            &&& pool == config.pool
            &&& user == contract
            &&& in_idx == config.deposit_token_idx
            &&& out_idx == config.pair_token_idx
            &&& 2 * in_amount <= amount < 2 * in_amount + 2
            &&& out_min == min_with_slippage(replies[1]->Unsigned_0, config.max_slippage_bps)
        },
        Call::PoolEstimateDeposit { pool, amounts } => {
            &&& len == 5
            &&& pool == config.pool
            &&& is_deposited(replies, amount, amounts)
        },
        Call::TokenBalance { token, holder } => {
            &&& len == 6 || len == 9
            &&& token == config.share_token
            &&& holder == contract
        },
        Call::AuthorizeBoth { first, second } => {
            &&& len == 7
            &&& first matches Authorization::Transfer {
                token: token1,
                from: payer1,
                to: to1,
                amount: remaining,
            }
            &&& second matches Authorization::Transfer {
                token: token2,
                from: payer2,
                to: to2,
                amount: added,
            }
            &&& token1 == config.deposit_token && token2 == config.pair_token
            &&& payer1 == contract && payer2 == contract
            &&& to1 == config.pool && to2 == config.pool
            &&& amount <= 2 * remaining <= amount + 1
            &&& is_pair_added(replies, remaining as int, added as int)
        },
        Call::PoolDeposit { pool, user, amounts, min_shares } => {
            &&& len == 8
            &&& pool == config.pool
            &&& user == contract
            &&& is_deposited(replies, amount, amounts)
            &&& min_shares == min_with_slippage(replies[5]->Unsigned_0, config.max_slippage_bps)
        },
        Call::EmitDeposit { strategy, amount: reported, from: vault } => {
            &&& len == set + 2
            &&& strategy == STRATEGY_NAME
            &&& reported == amount
            &&& vault == from
        },
        _ => {
            ||| len == 4 && call == (Call::PoolReserves { pool: config.pool })
            ||| asked_in_reading(call, replies, 10, from)
            ||| len > 10 && asked_in_storing(
                call,
                len as int,
                set,
                from,
                stored_at(replies, 10) + (replies[9]->Amount_0 - replies[6]->Amount_0),
            )
            ||| len > 10 && asked_in_reading(call, replies, last, from)
            ||| len > last && asked_in_valuation(
                call,
                replies,
                past_read(replies, last),
                stored_at(replies, last),
            )
        },
    }
}

/// Whether these are the two amounts that a deposit of `amount` adds to the
/// pool: what was not swapped of it, and the pair tokens that go with that.
pub open spec fn is_deposited(
    replies: Seq<Reply<StrategyConfig>>,
    amount: i128,
    amounts: (u128, u128),
) -> bool {
    let config = config_in(replies);
    let (remaining, added) = if config.deposit_token_idx == 0 {
        amounts
    } else {
        (amounts.1, amounts.0)
    };
    &&& amount <= 2 * remaining <= amount + 1
    &&& is_pair_added(replies, remaining as int, to_signed(added) as int)
}

/// What a deposit asks for: half of the amount is swapped for the pair token;
/// the rest goes into the pool with as many pair tokens as the ratio of its
/// reserves asks for, both in the order in which the pool lists them; and the
/// share tokens that came in are added to those of the vault.
#[verifier::rlimit(100)]
#[verifier::spinoff_prover]
pub proof fn law_deposit_asks(env: &Env, amount: i128, from: Address, call: Call)
    requires
        AquariusStrategy::spec_deposit(env, amount, from) == Err::<i128, Halt<Call>>(
            Halt::Ask(call),
        ),
    ensures
        amount > 0,
        is_configured(env.replies@),
        deposit_in_kind(env.replies@),
        asked_in_deposit(call, env.replies@, env.contract, amount, from),
{
}

/// On what grounds a deposit stops: an amount that is not positive is an error,
/// a missing configuration aborts; it traps only on a reply of another kind, on
/// a tolerance above everything, and on a number that does not fit.
#[verifier::rlimit(100)]
#[verifier::spinoff_prover]
pub proof fn law_deposit_stops(env: &Env, amount: i128, from: Address, halt: Halt<Call>)
    requires
        AquariusStrategy::spec_deposit(env, amount, from) == Err::<i128, Halt<Call>>(halt),
    ensures
        ({
            let replies = env.replies@;
            let last = deposit_stores_at(replies) + 3;
            let minted = replies[9]->Amount_0 - replies[6]->Amount_0;
            match halt {
                Halt::Ask(_) => true,
                Halt::Error(error) => amount <= 0 && error
                    == StrategyError::OnlyPositiveAmountAllowed,
                Halt::Abort(error) => replies[0] matches Reply::Config(None) && error
                    == StrategyError::NotInitialized,
                Halt::Trap => {
                    ||| !deposit_in_kind(replies)
                    ||| replies.len() > 1 && config_in(replies).max_slippage_bps > 10_000
                    ||| replies.len() > 9 && !fits(minted)
                    ||| replies.len() > 10 && !fits(stored_at(replies, 10) + minted)
                    ||| replies.len() > last && value_overflows(
                        replies,
                        past_read(replies, last),
                        stored_at(replies, last),
                    )
                },
            }
        }),
{
}

/// A position of a positive number of shares is valued at its part of both
/// reserves, where that fits; there is no value only where it does not.
proof fn lemma_position_is_pool_value(shares: i128, total: u128, reserves: (u128, u128))
    ensures
        shares > 0 && total > 0 && reserves.1 > 0 ==> {
            let worth = pool_value(
                shares as int,
                total as int,
                reserves.0 as int,
                reserves.1 as int,
            );
            let value = position_value(to_unsigned(shares), total, reserves.0, reserves.1);
            &&& fits(worth) ==> value == Some(worth as i128)
            &&& value is None ==> worth > u128::MAX
        },
{
    if shares > 0 && total > 0 && reserves.1 > 0 {
        lemma_parts_are_nonnegative(
            shares as int,
            total as int,
            reserves.0 as int,
            reserves.1 as int,
        );
    }
}

/// What a deposit returns: the value of the shares that are stored for the vault
/// at its end.
#[verifier::rlimit(100)]
#[verifier::spinoff_prover]
pub proof fn law_deposit_returns(env: &Env, amount: i128, from: Address, value: i128)
    requires
        AquariusStrategy::spec_deposit(env, amount, from) == Ok::<i128, Halt<Call>>(value),
    ensures
        ({
            let replies = env.replies@;
            let last = deposit_stores_at(replies) + 3;
            let at = past_read(replies, last);
            let shares = stored_at(replies, last);
            &&& amount > 0
            &&& replies.len() > 0 && is_configured(replies)
            &&& deposit_in_kind(replies)
            &&& replies.len() > 10 && replies.len() > last
            &&& replies.len() >= past_valuation(replies, at, shares)
            &&& is_value(replies, at, shares, value)
        }),
{
}

/// Where a withdrawal values the shares of its vault.
pub open spec fn withdraw_values_at(replies: Seq<Reply<StrategyConfig>>) -> int {
    past_read(replies, 1)
}

/// Where a withdrawal turns to the pool.
pub open spec fn withdraw_burns_at(replies: Seq<Reply<StrategyConfig>>) -> int {
    past_valuation(replies, withdraw_values_at(replies), stored_at(replies, 1))
}

/// How many shares a withdrawal of `amount` burns, or why it does not.
pub open spec fn burnt_in_withdraw(
    replies: Seq<Reply<StrategyConfig>>,
    amount: i128,
) -> Result<i128, StrategyError> {
    let held = stored_at(replies, 1);
    shares_to_burn(held, amount, worth_in(replies, withdraw_values_at(replies), held))
}

/// What the pool paid out in a withdrawal of the deposit token and of the pair
/// token, each found in its list at the index of the token.
pub open spec fn taken_out(replies: Seq<Reply<StrategyConfig>>) -> (i128, i128) {
    let out = reserves_at(replies, withdraw_burns_at(replies) + 3);
    (to_signed(out.0), to_signed(out.1))
}

/// Where a withdrawal pays its receiver: at once where no pair tokens came out,
/// otherwise after their swap.
pub open spec fn withdraw_pays_at(replies: Seq<Reply<StrategyConfig>>) -> int {
    withdraw_burns_at(replies) + if taken_out(replies).1 > 0 {
        7int
    } else {
        4
    }
}

/// What a withdrawal pays: the deposit tokens that came out of the pool, and
/// those that the pair tokens brought.
pub open spec fn paid_in_withdraw(replies: Seq<Reply<StrategyConfig>>) -> int {
    let (of_deposit, of_pair) = taken_out(replies);
    if of_pair > 0 {
        of_deposit + to_signed(replies[withdraw_burns_at(replies) + 6]->Unsigned_0)
    } else {
        of_deposit as int
    }
}

/// Where a withdrawal stores the shares that remain.
pub open spec fn withdraw_stores_at(replies: Seq<Reply<StrategyConfig>>) -> int {
    withdraw_pays_at(replies) + if paid_in_withdraw(replies) > 0 {
        1int
    } else {
        0
    }
}

/// Whether the replies to a withdrawal were of the kinds asked for.
pub open spec fn withdraw_in_kind(replies: Seq<Reply<StrategyConfig>>) -> bool {
    let len = replies.len();
    let burn = withdraw_burns_at(replies);
    let pay = withdraw_pays_at(replies);
    let set = withdraw_stores_at(replies);
    let last = set + 3;
    &&& len > 0 ==> replies[0] is Config
    &&& read_in_kind(replies, 1)
    &&& len > 1 ==> valued_in_kind(replies, withdraw_values_at(replies), stored_at(replies, 1))
    &&& len > 1 && len > withdraw_values_at(replies) ==> {
        &&& len > burn ==> replies[burn] is Unsigneds
        &&& len > burn + 1 ==> replies[burn + 1] is Unsigned
        &&& len > burn + 2 ==> replies[burn + 2] is Done
        &&& len > burn + 3 ==> replies[burn + 3] is Unsigneds
        &&& len > burn + 3 ==> {
            &&& taken_out(replies).1 > 0 ==> {
                &&& len > burn + 4 ==> replies[burn + 4] is Unsigned
                &&& len > burn + 5 ==> replies[burn + 5] is Done
                &&& len > burn + 6 ==> replies[burn + 6] is Unsigned
            }
            &&& len > pay ==> replies[pay] is Done
            &&& len >= pay ==> {
                &&& len > set ==> replies[set] is Done
                &&& len > set + 1 ==> replies[set + 1] is Done
                &&& len > set + 2 ==> replies[set + 2] is Done
                &&& read_in_kind(replies, last)
                &&& len > last ==> valued_in_kind(
                    replies,
                    past_read(replies, last),
                    stored_at(replies, last),
                )
            }
        }
    }
}

/// Whether `amounts` are what a withdrawal accepts at the least for `shares`
/// shares: their part of either reserve, less the slippage, in the order in
/// which the pool lists its tokens.
pub open spec fn is_least_accepted(
    replies: Seq<Reply<StrategyConfig>>,
    shares: u128,
    amounts: (u128, u128),
) -> bool {
    let config = config_in(replies);
    let burn = withdraw_burns_at(replies);
    let total = replies[burn + 1]->Unsigned_0;
    let (of_deposit, of_pair) = reserves_at(replies, burn);
    let least_of_deposit = min_with_slippage(
        scale_u128(of_deposit, shares, total),
        config.max_slippage_bps,
    );
    let least_of_pair = min_with_slippage(
        scale_u128(of_pair, shares, total),
        config.max_slippage_bps,
    );
    if config.deposit_token_idx == 0 {
        amounts.0 == least_of_deposit && amounts.1 == least_of_pair
    } else {
        amounts.1 == least_of_deposit && amounts.0 == least_of_pair
    }
}

/// Whether a call is the one that a withdrawal of `amount` for the vault `from`
/// to the receiver `to` makes after these replies.
pub open spec fn asked_in_withdraw(
    call: Call,
    replies: Seq<Reply<StrategyConfig>>,
    contract: Address,
    amount: i128,
    from: Address,
    to: Address,
) -> bool {
    let config = config_in(replies);
    let len = replies.len();
    let held = stored_at(replies, 1);
    let value = withdraw_values_at(replies);
    let burn = withdraw_burns_at(replies);
    let burnt = burnt_in_withdraw(replies, amount)->Ok_0;
    let of_pair = taken_out(replies).1;
    let pay = withdraw_pays_at(replies);
    let set = withdraw_stores_at(replies);
    let last = set + 3;
    match call {
        Call::InstanceGet { key } => len == 0 && key == StorageKey::Config,
        Call::Authorize { entry } => {
            ||| len == burn + 2 && entry == (Authorization::Burn {
                token: config.share_token,
                from: contract,
                amount: burnt,
            })
            ||| len == burn + 5 && of_pair > 0 && entry == (Authorization::Transfer {
                token: config.pair_token,
                from: contract,
                to: config.pool,
                amount: of_pair,
            })
        },
        Call::PoolWithdraw { pool, user, shares, min_amounts } => {
            &&& len == burn + 3
            &&& pool == config.pool
            &&& user == contract
            &&& to_signed(shares) == burnt
            &&& is_least_accepted(replies, shares, min_amounts)
        },
        Call::PoolEstimateSwap { pool, in_idx, out_idx, in_amount } => {
            &&& len == burn + 4
            &&& pool == config.pool
            &&& in_idx == config.pair_token_idx
            &&& out_idx == config.deposit_token_idx
            &&& in_amount == of_pair > 0
        },
        Call::PoolSwap { pool, user, in_idx, out_idx, in_amount, out_min } => {
            &&& len == burn + 6
            &&& pool == config.pool
            &&& user == contract
            &&& in_idx == config.pair_token_idx
            &&& out_idx == config.deposit_token_idx
            &&& in_amount == of_pair > 0
            &&& out_min == min_with_slippage(
                replies[burn + 4]->Unsigned_0,
                config.max_slippage_bps,
            )
        },
        Call::TokenTransfer { token, from: payer, to: receiver, amount: paid } => {
            &&& len == pay
            &&& token == config.deposit_token
            &&& payer == contract
            &&& receiver == to
            &&& paid == paid_in_withdraw(replies) > 0
        },
        Call::EmitWithdraw { strategy, amount: reported, from: vault } => {
            &&& len == set + 2
            &&& strategy == STRATEGY_NAME
            &&& reported == paid_in_withdraw(replies)
            &&& vault == from
        },
        _ => {
            ||| asked_in_reading(call, replies, 1, from)
            ||| len > 1 && asked_in_valuation(call, replies, value, held)
            ||| len > value && len == burn && call == (Call::PoolReserves { pool: config.pool })
            ||| len > value && len == burn + 1 && call == (Call::PoolTotalShares {
                pool: config.pool,
            })
            ||| len > burn + 3 && len >= pay && asked_in_storing(
                call,
                len as int,
                set,
                from,
                held - burnt,
            )
            ||| len > burn + 3 && len > pay && asked_in_reading(call, replies, last, from)
            ||| len > burn + 3 && len > last && asked_in_valuation(
                call,
                replies,
                past_read(replies, last),
                stored_at(replies, last),
            )
        },
    }
}

/// Whether a withdrawal of `amount` that has come to the pool had grounds to:
/// the vault has shares, they are worth something, and some are to be burnt.
pub open spec fn may_burn(replies: Seq<Reply<StrategyConfig>>, amount: i128) -> bool {
    let value = withdraw_values_at(replies);
    let held = stored_at(replies, 1);
    replies.len() > 1 && replies.len() > value && replies.len() >= withdraw_burns_at(replies) ==> {
        &&& held != 0
        &&& worth_in(replies, value, held) != 0
        &&& burnt_in_withdraw(replies, amount) is Ok
    }
}

/// What a withdrawal asks for: it burns a part of the shares of the vault, swaps
/// the pair tokens that came out of the pool, and pays the receiver what came
/// out in deposit tokens and what the swap brought.
#[verifier::rlimit(100)]
#[verifier::spinoff_prover]
pub proof fn law_withdraw_asks(
    env: &Env,
    amount: i128,
    from: Address,
    to: Address,
    call: Call,
)
    requires
        AquariusStrategy::spec_withdraw(env, amount, from, to) == Err::<i128, Halt<Call>>(
            Halt::Ask(call),
        ),
    ensures
        amount > 0,
        is_configured(env.replies@),
        withdraw_in_kind(env.replies@),
        may_burn(env.replies@, amount),
        env.replies@.len() > 1 ==> stored_at(env.replies@, 1) != 0
            || env.replies@.len() < withdraw_values_at(env.replies@),
        asked_in_withdraw(call, env.replies@, env.contract, amount, from, to),
{
}

/// A valuation gives what the replies say, and traps only on a reply of another
/// kind or a value that does not fit.
proof fn lemma_valuing_stops(env: &Env, at: usize, shares: i128)
    ensures
        ({
            let replies = env.replies@;
            match aquarius_pool::shares_value_in_deposit(env, at, shares, &config_in(replies)) {
                Ok((value, next)) => {
                    &&& value == worth_in(replies, at as int, shares)
                    &&& next == past_valuation(replies, at as int, shares)
                    &&& shares != 0 ==> replies.len() > at
                    &&& shares != 0 ==> replies.len() >= next
                    &&& valued_in_kind(replies, at as int, shares)
                },
                Err(Halt::Ask(_)) => true,
                Err(Halt::Trap) => !valued_in_kind(replies, at as int, shares) || value_overflows(
                    replies,
                    at as int,
                    shares,
                ),
                Err(_) => false,
            }
        }),
{
    let replies = env.replies@;
    assert(replies.len() == env.replies.len());
    lemma_position_is_pool_value(
        shares,
        replies[at as int]->Unsigned_0,
        reserves_at(replies, at + 1),
    );
}

/// What the pool part of a withdrawal comes to, and on what grounds it traps.
#[verifier::rlimit(60)]
#[verifier::spinoff_prover]
proof fn lemma_pool_withdrawal_stops(env: &Env, burnt: i128, to: Address)
    ensures
        ({
            let replies = env.replies@;
            let burn = withdraw_burns_at(replies);
            let pay = withdraw_pays_at(replies);
            0 <= burn <= replies.len() && is_configured(replies) ==> match aquarius_pool::withdraw(
                env,
                burn as usize,
                burnt,
                to,
                &config_in(replies),
            ) {
                Ok((paid, next)) => {
                    &&& replies.len() > burn + 3
                    &&& replies.len() >= next
                    &&& replies.len() >= pay
                    &&& paid == paid_in_withdraw(replies)
                    &&& next == withdraw_stores_at(replies)
                },
                Err(Halt::Ask(_)) => true,
                Err(Halt::Trap) => {
                    ||| replies.len() > burn && !(replies[burn] is Unsigneds)
                    ||| replies.len() > burn + 1 && !(replies[burn + 1] is Unsigned)
                    ||| replies.len() > burn + 2 && !(replies[burn + 2] is Done)
                    ||| replies.len() > burn + 3 && !(replies[burn + 3] is Unsigneds)
                    ||| replies.len() > burn + 3 && taken_out(replies).1 > 0 && {
                        ||| replies.len() > burn + 4 && !(replies[burn + 4] is Unsigned)
                        ||| replies.len() > burn + 5 && !(replies[burn + 5] is Done)
                        ||| replies.len() > burn + 6 && !(replies[burn + 6] is Unsigned)
                    }
                    ||| replies.len() > burn + 3 && replies.len() > pay && !(replies[pay] is Done)
                    ||| config_in(replies).max_slippage_bps > 10_000
                    ||| replies.len() > burn + 3 && replies.len() >= pay && !fits(
                        paid_in_withdraw(replies),
                    )
                },
                Err(_) => false,
            }
        }),
{
    assert(env.replies@.len() == env.replies.len());
}

/// On what grounds a withdrawal stops: an amount that is not positive, a vault
/// without shares or with shares worth nothing, and a burn that fails are errors;
/// a missing configuration aborts; it traps only on a reply of another kind, on a
/// tolerance above everything, and on a number that does not fit.
#[verifier::rlimit(100)]
#[verifier::spinoff_prover]
pub proof fn law_withdraw_stops(
    env: &Env,
    amount: i128,
    from: Address,
    to: Address,
    halt: Halt<Call>,
)
    requires
        AquariusStrategy::spec_withdraw(env, amount, from, to) == Err::<i128, Halt<Call>>(halt),
    ensures
        ({
            let replies = env.replies@;
            let held = stored_at(replies, 1);
            let value = withdraw_values_at(replies);
            let burn = withdraw_burns_at(replies);
            let pay = withdraw_pays_at(replies);
            let last = withdraw_stores_at(replies) + 3;
            match halt {
                Halt::Ask(_) => true,
                Halt::Error(error) => {
                    ||| amount <= 0 && error == StrategyError::OnlyPositiveAmountAllowed
                    ||| amount > 0 && replies.len() > 1 && held == 0 && error
                        == StrategyError::InsufficientBalance
                    ||| amount > 0 && replies.len() > value && replies.len() >= burn && worth_in(
                        replies,
                        value,
                        held,
                    ) == 0 && error == StrategyError::InsufficientBalance
                    ||| amount > 0 && replies.len() > value && replies.len() >= burn
                        && burnt_in_withdraw(replies, amount) == Err::<i128, StrategyError>(error)
                },
                Halt::Abort(error) => replies[0] matches Reply::Config(None) && error
                    == StrategyError::NotInitialized,
                Halt::Trap => {
                    ||| !withdraw_in_kind(replies)
                    ||| replies.len() > 1 && config_in(replies).max_slippage_bps > 10_000
                    ||| replies.len() > 1 && value_overflows(replies, value, held)
                    ||| replies.len() > burn + 3 && replies.len() >= pay && !fits(
                        paid_in_withdraw(replies),
                    )
                    ||| replies.len() > burn + 3 && !fits(
                        held - burnt_in_withdraw(replies, amount)->Ok_0,
                    )
                    ||| replies.len() > burn + 3 && replies.len() > last && value_overflows(
                        replies,
                        past_read(replies, last),
                        stored_at(replies, last),
                    )
                },
            }
        }),
{
    let replies = env.replies@;
    let held = stored_at(replies, 1);
    let value = withdraw_values_at(replies);
    let burn = withdraw_burns_at(replies);
    if amount > 0 && is_configured(replies) && replies.len() > 0 && withdraw_in_kind(replies) {
        let config = config_in(replies);
        assert(replies.len() == env.replies.len());
        assert(load_config(env, 0) == Ok::<(StrategyConfig, usize), Halt<Call>>((config, 1)));
        if get_shares(env, 1, from) is Ok && held != 0 {
            assert(get_shares(env, 1, from)->Ok_0 == (held, value as usize));
            lemma_valuing_stops(env, value as usize, held);
            let valued = aquarius_pool::shares_value_in_deposit(env, value as usize, held, &config);
            if valued is Ok && shares_to_burn(held, amount, valued->Ok_0.0) is Ok {
                let burnt = shares_to_burn(held, amount, valued->Ok_0.0)->Ok_0;
                assert(burnt_in_withdraw(replies, amount) == Ok::<i128, StrategyError>(burnt));
                let paid = aquarius_pool::withdraw(env, burn as usize, burnt, to, &config);
                lemma_pool_withdrawal_stops(env, burnt, to);
                if paid is Ok && fits(held - burnt) {
                    let set = withdraw_stores_at(replies);
                    assert(paid->Ok_0.1 == set);
                    let stored = set_shares(env, set as usize, from, (held - burnt) as i128);
                    let last = set + 3;
                    if stored is Ok {
                        assert(stored->Ok_0 == set + 2);
                        let read = get_shares(env, last as usize, from);
                        if read is Ok {
                            assert(read->Ok_0 == (
                                stored_at(replies, last),
                                past_read(replies, last) as usize,
                            ));
                            lemma_valuing_stops(
                                env,
                                past_read(replies, last) as usize,
                                stored_at(replies, last),
                            );
                        }
                    }
                }
            }
        }
    }
}

/// What a withdrawal returns: the value of the shares that are stored for the
/// vault at its end.
#[verifier::rlimit(100)]
#[verifier::spinoff_prover]
pub proof fn law_withdraw_returns(
    env: &Env,
    amount: i128,
    from: Address,
    to: Address,
    value: i128,
)
    requires
        AquariusStrategy::spec_withdraw(env, amount, from, to) == Ok::<i128, Halt<Call>>(value),
    ensures
        ({
            let replies = env.replies@;
            let last = withdraw_stores_at(replies) + 3;
            let at = past_read(replies, last);
            let shares = stored_at(replies, last);
            &&& amount > 0
            &&& replies.len() > 0 && is_configured(replies)
            &&& withdraw_in_kind(replies)
            &&& may_burn(replies, amount)
            &&& replies.len() > withdraw_burns_at(replies) + 3
            &&& replies.len() > last
            &&& replies.len() >= past_valuation(replies, at, shares)
            &&& is_value(replies, at, shares, value)
        }),
{
    let replies = env.replies@;
    let last = withdraw_stores_at(replies) + 3;
    let at = past_read(replies, last);
    lemma_position_is_pool_value(
        stored_at(replies, last),
        replies[at]->Unsigned_0,
        reserves_at(replies, at + 1),
    );
}

/// The value of the shares of the vault `from` in the deposit token: what a
/// request for its balance asks for.
pub proof fn law_balance_asks(env: &Env, from: Address, call: Call)
    requires
        AquariusStrategy::spec_balance(env, from) == Err::<i128, Halt<Call>>(Halt::Ask(call)),
    ensures
        ({
            let replies = env.replies@;
            &&& is_configured(replies)
            &&& read_in_kind(replies, 1)
            &&& replies.len() > 1 ==> valued_in_kind(
                replies,
                past_read(replies, 1),
                stored_at(replies, 1),
            )
            &&& {
                ||| replies.len() == 0 && call == (Call::InstanceGet { key: StorageKey::Config })
                ||| asked_in_reading(call, replies, 1, from)
                ||| replies.len() > 1 && asked_in_valuation(
                    call,
                    replies,
                    past_read(replies, 1),
                    stored_at(replies, 1),
                )
            }
        }),
{
}

/// On what grounds a request for a balance stops.
pub proof fn law_balance_stops(env: &Env, from: Address, halt: Halt<Call>)
    requires
        AquariusStrategy::spec_balance(env, from) == Err::<i128, Halt<Call>>(halt),
    ensures
        ({
            let replies = env.replies@;
            let at = past_read(replies, 1);
            let shares = stored_at(replies, 1);
            match halt {
                Halt::Ask(_) => true,
                Halt::Error(_) => false,
                Halt::Abort(error) => replies[0] matches Reply::Config(None) && error
                    == StrategyError::NotInitialized,
                Halt::Trap => {
                    ||| !(replies[0] is Config)
                    ||| !read_in_kind(replies, 1)
                    ||| replies.len() > 1 && !valued_in_kind(replies, at, shares)
                    ||| replies.len() > 1 && value_overflows(replies, at, shares)
                },
            }
        }),
{
}

/// A balance is the value of the shares that are stored for the vault: their
/// part of the deposit reserve, and their part of the pair reserve at the spot
/// price, in whichever order the pool lists its tokens.
pub proof fn law_balance_returns(env: &Env, from: Address, value: i128)
    requires
        AquariusStrategy::spec_balance(env, from) == Ok::<i128, Halt<Call>>(value),
    ensures
        ({
            let replies = env.replies@;
            let at = past_read(replies, 1);
            let shares = stored_at(replies, 1);
            &&& replies.len() > 1
            &&& is_configured(replies)
            &&& read_in_kind(replies, 1)
            &&& valued_in_kind(replies, at, shares)
            &&& replies.len() >= past_valuation(replies, at, shares)
            &&& is_value(replies, at, shares, value)
        }),
{
    let replies = env.replies@;
    let at = past_read(replies, 1);
    lemma_position_is_pool_value(
        stored_at(replies, 1),
        replies[at]->Unsigned_0,
        reserves_at(replies, at + 1),
    );
}

/// The AQUA that a harvest has claimed.
pub open spec fn claimed_in(replies: Seq<Reply<StrategyConfig>>) -> i128 {
    to_signed(replies[1]->Unsigned_0)
}

/// Where a harvest reads the shares of the vault: after the rewards were
/// forwarded, if there were any.
pub open spec fn harvest_reads_at(replies: Seq<Reply<StrategyConfig>>) -> int {
    if claimed_in(replies) > 0 {
        3
    } else {
        2
    }
}

/// Where a harvest reports: after the valuation of the shares, if the vault has
/// any.
pub open spec fn harvest_reports_at(replies: Seq<Reply<StrategyConfig>>) -> int {
    let read = harvest_reads_at(replies);
    let shares = stored_at(replies, read);
    if shares > 0 {
        past_valuation(replies, past_read(replies, read), shares)
    } else {
        past_read(replies, read)
    }
}

/// Whether the replies to a harvest were of the kinds asked for.
pub open spec fn harvest_in_kind(replies: Seq<Reply<StrategyConfig>>) -> bool {
    let len = replies.len();
    let read = harvest_reads_at(replies);
    let shares = stored_at(replies, read);
    let report = harvest_reports_at(replies);
    &&& len > 0 ==> replies[0] is Config
    &&& len > 1 ==> replies[1] is Unsigned
    &&& len > 1 ==> {
        &&& len > 2 && claimed_in(replies) > 0 ==> replies[2] is Done
        &&& read_in_kind(replies, read)
        &&& len > read && shares > 0 ==> valued_in_kind(replies, past_read(replies, read), shares)
        &&& len > read && len > past_read(replies, read) && len > report
            ==> replies[report] is Done
    }
}

/// What a harvest asks for: the rewards of the strategy are claimed and
/// forwarded whole to the vault, and reported with the value of one of its
/// shares, in seven decimals.
#[verifier::rlimit(60)]
#[verifier::spinoff_prover]
pub proof fn law_harvest_asks(env: &Env, from: Address, call: Call)
    requires
        AquariusStrategy::spec_harvest(env, from) == Err::<(), Halt<Call>>(Halt::Ask(call)),
    ensures
        ({
            let replies = env.replies@;
            let len = replies.len();
            let config = config_in(replies);
            let claimed = claimed_in(replies);
            let read = harvest_reads_at(replies);
            let shares = stored_at(replies, read);
            let value = past_read(replies, read);
            &&& is_configured(replies)
            &&& harvest_in_kind(replies)
            &&& {
                ||| len == 0 && call == (Call::InstanceGet { key: StorageKey::Config })
                ||| len == 1 && call == (Call::PoolClaim {
                    pool: config.pool,
                    user: env.contract,
                })
                ||| len == 2 && claimed > 0 && call == (Call::TokenTransfer {
                    token: config.aqua_token,
                    from: env.contract,
                    to: from,
                    amount: claimed,
                })
                ||| len > 1 && asked_in_reading(call, replies, read, from)
                ||| len > 1 && len > read && shares > 0 && asked_in_valuation(
                    call,
                    replies,
                    value,
                    shares,
                )
                ||| len > 1 && len > read && len == harvest_reports_at(replies) && call
                    == (Call::EmitHarvest {
                    strategy: STRATEGY_NAME,
                    amount: claimed,
                    from,
                    price_per_share: if shares > 0 {
                        price_per_share(worth_in(replies, value, shares), shares)
                    } else {
                        0
                    },
                })
            }
        }),
{
}

/// On what grounds a harvest stops, and where it ends.
#[verifier::rlimit(60)]
#[verifier::spinoff_prover]
pub proof fn law_harvest_stops(env: &Env, from: Address)
    ensures
        ({
            let replies = env.replies@;
            let read = harvest_reads_at(replies);
            match AquariusStrategy::spec_harvest(env, from) {
                Err(Halt::Ask(_)) => true,
                Err(Halt::Error(_)) => false,
                Err(Halt::Abort(error)) => replies[0] matches Reply::Config(None) && error
                    == StrategyError::NotInitialized,
                Err(Halt::Trap) => {
                    ||| !harvest_in_kind(replies)
                    ||| replies.len() > 1 && replies.len() > read && value_overflows(
                        replies,
                        past_read(replies, read),
                        stored_at(replies, read),
                    )
                },
                Ok(_) => {
                    &&& replies.len() > 1 && is_configured(replies)
                    &&& harvest_in_kind(replies)
                    &&& replies.len() > read
                    &&& replies.len() > harvest_reports_at(replies)
                },
            }
        }),
{
}

/// Shares are valued by the reserves found in the list of the pool each at the
/// index of its token, wherever in a script that is and whichever order the pool
/// has.
pub proof fn law_values_by_own_index(
    env: &Env,
    at: usize,
    shares: i128,
    config: &StrategyConfig,
    value: i128,
    next: usize,
)
    requires
        aquarius_pool::shares_value_in_deposit(env, at, shares, config) == Ok::<
            (i128, usize),
            Halt<Call>,
        >((value, next)),
        shares > 0,
        env.replies@[at as int]->Unsigned_0 > 0,
    ensures
        ({
            let total = env.replies@[at as int]->Unsigned_0;
            let reserves = env.replies@[at + 1]->Unsigneds_0@;
            let of_deposit = listed(reserves, config.deposit_token_idx);
            let of_pair = listed(reserves, config.pair_token_idx);
            let worth = pool_value(shares as int, total as int, of_deposit as int, of_pair as int);
            &&& next == at + 2
            &&& of_pair == 0 ==> value == 0
            &&& of_pair > 0 && fits(worth) ==> value == worth
        }),
{
    assert(env.replies@.len() == env.replies.len());
    let reserves = env.replies@[at + 1]->Unsigneds_0@;
    lemma_position_is_pool_value(
        shares,
        env.replies@[at as int]->Unsigned_0,
        (
            listed(reserves, config.deposit_token_idx),
            listed(reserves, config.pair_token_idx),
        ),
    );
}

/// What comes out of the pool is found in its list each at the index of its
/// token.
pub proof fn law_takes_out_by_own_index(
    env: &Env,
    at: usize,
    burnt: i128,
    config: &StrategyConfig,
    of_deposit: i128,
    of_pair: i128,
    next: usize,
)
    requires
        aquarius_pool::remove_liquidity(env, at, burnt, config) == Ok::<
            (i128, i128, usize),
            Halt<Call>,
        >((of_deposit, of_pair, next)),
    ensures
        ({
            let out = env.replies@[at + 3]->Unsigneds_0@;
            &&& next == at + 4
            &&& to_unsigned(of_deposit) == listed(out, config.deposit_token_idx)
            &&& to_unsigned(of_pair) == listed(out, config.pair_token_idx)
        }),
{
    assert(env.replies@.len() == env.replies.len());
}

/// What goes into the pool beside `remaining` deposit tokens stands to them as
/// the reserves, each found at the index of its token, stand to each other; it is
/// less only where less was received.
pub proof fn law_adds_by_own_index(
    env: &Env,
    at: usize,
    remaining: i128,
    received: i128,
    config: &StrategyConfig,
    first: Authorization,
    second: Authorization,
)
    requires
        aquarius_pool::add_liquidity(env, at, remaining, received, config) == Err::<
            (i128, usize),
            Halt<Call>,
        >(Halt::Ask(Call::AuthorizeBoth { first, second })),
        remaining >= 0,
        received >= 0,
    ensures
        ({
            let reserves = env.replies@[at as int]->Unsigneds_0@;
            let of_deposit = to_signed(listed(reserves, config.deposit_token_idx)) as int;
            let of_pair = to_signed(listed(reserves, config.pair_token_idx)) as int;
            &&& first == (Authorization::Transfer {
                token: config.deposit_token,
                from: env.contract,
                to: config.pool,
                amount: remaining,
            })
            &&& second matches Authorization::Transfer { token, from, to, amount: added }
            &&& token == config.pair_token && from == env.contract && to == config.pool
            &&& added <= received
            &&& of_deposit > 0 && of_pair >= 0 && fits(remaining * of_pair) ==> {
                &&& added * of_deposit <= remaining * of_pair
                &&& added < received ==> remaining * of_pair < (added + 1) * of_deposit
            }
        }),
{
    let reserves = env.replies@[at as int]->Unsigneds_0@;
    let of_deposit = to_signed(listed(reserves, config.deposit_token_idx)) as int;
    let of_pair = to_signed(listed(reserves, config.pair_token_idx)) as int;
    if of_deposit > 0 && of_pair >= 0 && fits(remaining * of_pair) {
        let product = remaining * of_pair;
        assert(product >= 0) by (nonlinear_arith)
            requires
                remaining >= 0,
                of_pair >= 0,
                product == remaining * of_pair,
        ;
        lemma_floor(product, of_deposit);
        let q = product / of_deposit;
        lemma_floor_largest(product, of_deposit, 0);
        assert(q <= product) by (nonlinear_arith)
            requires
                q * of_deposit <= product,
                of_deposit >= 1,
                q >= 0,
        ;
        assert(received <= q ==> received * of_deposit <= product) by (nonlinear_arith)
            requires
                q * of_deposit <= product,
                of_deposit >= 1,
        ;
    }
}

/// The asset is the deposit token of the configuration.
pub proof fn law_asset(env: &Env)
    ensures
        match AquariusStrategy::spec_asset(env) {
            Ok(asset) => env.replies@.len() > 0 && is_configured(env.replies@) && asset
                == config_in(env.replies@).deposit_token,
            Err(Halt::Ask(call)) => env.replies@.len() == 0 && call == (Call::InstanceGet {
                key: StorageKey::Config,
            }),
            Err(Halt::Abort(error)) => env.replies@[0] matches Reply::Config(None) && error
                == StrategyError::NotInitialized,
            Err(Halt::Trap) => env.replies@.len() > 0 && !(env.replies@[0] is Config),
            Err(Halt::Error(_)) => false,
        },
{
}

/// A change of the slippage tolerance: the one who asks for it must have
/// authorized it and be the admin, and the new tolerance be at most ten percent;
/// then the configuration is stored with that tolerance and otherwise as it was.
pub proof fn law_update_slippage(env: &Env, admin: Address, new_slippage_bps: u32)
    ensures
        ({
            let replies = env.replies@;
            let config = replies[1]->Config_0->Some_0;
            let in_kind = {
                &&& replies.len() > 0 ==> replies[0] is Done
                &&& replies.len() > 1 ==> replies[1] is Config
                &&& replies.len() > 2 ==> replies[2] is Done
                &&& replies.len() > 3 ==> replies[3] is Done
            };
            let may = {
                &&& in_kind
                &&& replies[1] matches Reply::Config(Some(_))
                &&& config.admin == admin
                &&& new_slippage_bps <= 1_000
            };
            match AquariusStrategy::spec_update_slippage(env, admin, new_slippage_bps) {
                Ok(_) => may && replies.len() > 3,
                Err(Halt::Ask(call)) => {
                    ||| replies.len() == 0 && call == (Call::RequireAuth { address: admin })
                    ||| replies.len() == 1 && in_kind && call == (Call::InstanceGet {
                        key: StorageKey::Config,
                    })
                    ||| replies.len() == 2 && may && call == (Call::InstanceSet {
                        key: StorageKey::Config,
                        config: StrategyConfig { max_slippage_bps: new_slippage_bps, ..config },
                    })
                    ||| replies.len() == 3 && may && call == (Call::InstanceExtendTtl {
                        threshold: MONTH_IN_LEDGERS,
                        extend_to: MONTH_AND_DAY_IN_LEDGERS,
                    })
                },
                Err(Halt::Abort(error)) => replies.len() > 1 && replies[0] is Done && {
                    ||| replies[1] matches Reply::Config(None) && error
                        == StrategyError::NotInitialized
                    ||| (replies[1] matches Reply::Config(Some(_))) && config.admin != admin
                        && error == StrategyError::NotAuthorized
                    ||| (replies[1] matches Reply::Config(Some(_))) && config.admin == admin
                        && new_slippage_bps > 1_000 && error == StrategyError::InvalidArgument
                },
                Err(Halt::Trap) => !in_kind,
                Err(Halt::Error(_)) => false,
            }
        }),
{
}

/// A sweep: the one who asks for it must have authorized it and be the admin;
/// then just what was asked for is transferred.
pub proof fn law_sweep(env: &Env, admin: Address, token: Address, to: Address, amount: i128)
    ensures
        ({
            let replies = env.replies@;
            let config = replies[1]->Config_0->Some_0;
            let in_kind = {
                &&& replies.len() > 0 ==> replies[0] is Done
                &&& replies.len() > 1 ==> replies[1] is Config
                &&& replies.len() > 2 ==> replies[2] is Done
            };
            let may = in_kind && (replies[1] matches Reply::Config(Some(_))) && config.admin
                == admin;
            match AquariusStrategy::spec_sweep(env, admin, token, to, amount) {
                Ok(_) => may && replies.len() > 2,
                Err(Halt::Ask(call)) => {
                    ||| replies.len() == 0 && call == (Call::RequireAuth { address: admin })
                    ||| replies.len() == 1 && in_kind && call == (Call::InstanceGet {
                        key: StorageKey::Config,
                    })
                    ||| replies.len() == 2 && may && call == (Call::TokenTransfer {
                        token,
                        from: env.contract,
                        to,
                        amount,
                    })
                },
                Err(Halt::Abort(error)) => replies.len() > 1 && replies[0] is Done && {
                    ||| replies[1] matches Reply::Config(None) && error
                        == StrategyError::NotInitialized
                    ||| (replies[1] matches Reply::Config(Some(_))) && config.admin != admin
                        && error == StrategyError::NotAuthorized
                },
                Err(Halt::Trap) => !in_kind,
                Err(Halt::Error(_)) => false,
            }
        }),
{
}

/// Whether `idx` is where `token` stands last in `tokens`.
pub open spec fn stands_last_at(tokens: Seq<Address>, token: Address, idx: int) -> bool {
    &&& 0 <= idx < tokens.len()
    &&& tokens[idx] == token
    &&& forall|i: int| idx < i < tokens.len() ==> tokens[i] != token
}

/// A construction: the strategy must not be set up yet, the arguments must be
/// three addresses and a tolerance of at most ten percent, and the pool must list
/// both tokens, each at 0 or 1; then the configuration is stored.
#[verifier::rlimit(60)]
#[verifier::spinoff_prover]
pub proof fn law_constructor(env: &Env, asset: Address, init_args: &Vec<Val>)
    ensures
        ({
            let replies = env.replies@;
            let args = init_args@;
            let tokens = replies[1]->Accounts_0@;
            let pool = args[0]->Address_0;
            let pair_token = args[1]->Address_0;
            let in_kind = {
                &&& replies.len() > 0 ==> replies[0] is Flag
                &&& replies.len() > 1 ==> replies[1] is Accounts
                &&& replies.len() > 2 ==> replies[2] is Account
                &&& replies.len() > 3 ==> replies[3] is Done
                &&& replies.len() > 4 ==> replies[4] is Done
            };
            let well_called = {
                &&& args.len() > 3
                &&& args[0] is Address && args[1] is Address && args[2] is Address
                &&& args[3] is U32
                &&& args[3]->U32_0 <= 1_000
            };
            let new = replies.len() > 0 && replies[0] == Reply::<StrategyConfig>::Flag(false);
            let resolved = {
                &&& new && well_called
                &&& replies.len() > 2
                &&& replies[1] is Accounts
                &&& replies[2] is Account
            };
            let may = in_kind && new && well_called;
            match AquariusStrategy::spec_constructor(env, asset, init_args) {
                Ok(_) => may && replies.len() > 4,
                Err(Halt::Ask(call)) => {
                    ||| replies.len() == 0 && call == (Call::InstanceHas {
                        key: StorageKey::Config,
                    })
                    ||| replies.len() == 1 && may && call == (Call::PoolTokens { pool })
                    ||| replies.len() == 2 && may && call == (Call::PoolShareId { pool })
                    ||| replies.len() == 3 && may && (call matches Call::InstanceSet {
                        key,
                        config,
                    } && {
                        &&& key == StorageKey::Config
                        &&& config.deposit_token == asset
                        &&& config.pair_token == pair_token
                        &&& config.pool == pool
                        &&& config.aqua_token == args[2]->Address_0
                        &&& config.max_slippage_bps == args[3]->U32_0
                        &&& config.share_token == replies[2]->Account_0
                        &&& config.admin == env.contract
                        &&& stands_last_at(tokens, asset, config.deposit_token_idx as int)
                        &&& stands_last_at(tokens, pair_token, config.pair_token_idx as int)
                        &&& config.deposit_token_idx <= 1 && config.pair_token_idx <= 1
                    })
                    ||| replies.len() == 4 && may && call == (Call::InstanceExtendTtl {
                        threshold: MONTH_IN_LEDGERS,
                        extend_to: MONTH_AND_DAY_IN_LEDGERS,
                    })
                },
                Err(Halt::Abort(error)) => {
                    ||| replies.len() > 0 && replies[0] == Reply::<StrategyConfig>::Flag(true)
                        && error == StrategyError::InvalidArgument
                    ||| new && !well_called && error == StrategyError::InvalidArgument
                    ||| resolved && error == StrategyError::ProtocolAddressNotFound && !(
                    tokens.contains(asset) && tokens.contains(pair_token))
                    ||| resolved && error == StrategyError::InvalidArgument && {
                        ||| exists|i: int| i > 1 && #[trigger] stands_last_at(tokens, asset, i)
                        ||| exists|i: int|
                            i > 1 && #[trigger] stands_last_at(tokens, pair_token, i)
                    }
                },
                Err(Halt::Trap) => !in_kind || replies.len() > 2 && tokens.len() > u32::MAX,
                Err(Halt::Error(_)) => false,
            }
        }),
{
    let tokens = env.replies@[1]->Accounts_0@;
    let pair_token = init_args@[1]->Address_0;
    law_last_index(tokens, asset);
    law_last_index(tokens, pair_token);
    if last_index(tokens, asset) is Some {
        assert(stands_last_at(tokens, asset, last_index(tokens, asset)->Some_0));
    }
    if last_index(tokens, pair_token) is Some {
        assert(stands_last_at(tokens, pair_token, last_index(tokens, pair_token)->Some_0));
    }
}

} // verus!
