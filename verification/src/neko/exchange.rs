//! What is exchanged with the host, told by the replies alone.
//!
//! For each entry point there is what it asks for next, on what grounds it stops,
//! and what it returns. Together these leave open nothing that the arguments and
//! the replies decide.

use crate::address::{Address, Authorization, Val};
use crate::arith::trunc_div;
use crate::error::StrategyError;
use crate::exchange::{
    fits, least, past_read, read_in_kind, stored_at, MONTH_AND_DAY_IN_LEDGERS, MONTH_IN_LEDGERS,
    YEAR_AND_DAY_IN_LEDGERS, YEAR_IN_LEDGERS,
};
use crate::neko::contract::{b_tokens_for, underlying_for, NekoStrategy, STRATEGY_NAME};
use crate::rwa_lending::calls::{Call, Env};
use crate::rwa_lending::storage::{StorageKey, StrategyConfig};
use crate::session::{Halt, Reply};
use vstd::prelude::*;

verus! {

/// The configuration in the first reply.
pub open spec fn config_in(replies: Seq<Reply<StrategyConfig>>) -> StrategyConfig {
    replies[0]->Config_0->Some_0
}

/// Whether the first reply has a configuration.
pub open spec fn is_configured(replies: Seq<Reply<StrategyConfig>>) -> bool {
    replies.len() > 0 ==> (replies[0] matches Reply::Config(Some(_)))
}

/// Whether the configuration, and the extension of its life, were answered in
/// kind.
pub open spec fn loaded_in_kind(replies: Seq<Reply<StrategyConfig>>) -> bool {
    &&& replies.len() > 0 ==> replies[0] is Config
    &&& replies.len() > 1 ==> replies[1] is Done
}

/// Whether a call loads the configuration and extends its life.
pub open spec fn asked_in_loading(call: Call, len: int) -> bool {
    ||| len == 0 && call == (Call::InstanceGet { key: StorageKey::Config })
    ||| len == 1 && call == (Call::InstanceExtendTtl {
        threshold: MONTH_IN_LEDGERS,
        extend_to: MONTH_AND_DAY_IN_LEDGERS,
    })
}

/// Whether a call asks for the rate of b_tokens.
pub open spec fn asks_for_rate(call: Call, config: StrategyConfig) -> bool {
    call == (Call::LendingBTokenRate { lending: config.lending_pool, asset: config.rwa_asset })
}

/// Whether the b_tokens of `vault` are read, from `at` on.
pub open spec fn asked_in_reading(
    call: Call,
    replies: Seq<Reply<StrategyConfig>>,
    at: int,
    vault: Address,
) -> bool {
    let key = StorageKey::BTokens(vault);
    ||| replies.len() == at && call == (Call::PersistentGet { key })
    ||| replies.len() == at + 1 && stored_at(replies, at) > 0 && call
        == (Call::PersistentExtendTtl {
        key,
        threshold: YEAR_IN_LEDGERS,
        extend_to: YEAR_AND_DAY_IN_LEDGERS,
    })
}

/// Whether `b_tokens` are stored for `vault`, from `at` on.
pub open spec fn asked_in_storing(
    call: Call,
    len: int,
    at: int,
    vault: Address,
    b_tokens: int,
) -> bool {
    let key = StorageKey::BTokens(vault);
    ||| len == at && fits(b_tokens) && call == (Call::PersistentSet {
        key,
        value: b_tokens as i128,
    })
    ||| len == at + 1 && call == (Call::PersistentExtendTtl {
        key,
        threshold: YEAR_IN_LEDGERS,
        extend_to: YEAR_AND_DAY_IN_LEDGERS,
    })
}

/// Whether the b_tokens of `vault` are read and valued, from `at` on: the rate is
/// asked for unless there are none.
pub open spec fn asked_in_valuation(
    call: Call,
    replies: Seq<Reply<StrategyConfig>>,
    at: int,
    vault: Address,
) -> bool {
    ||| asked_in_reading(call, replies, at, vault)
    ||| replies.len() > at && replies.len() == past_read(replies, at) && stored_at(replies, at) != 0
        && asks_for_rate(call, config_in(replies))
}

/// Whether reading and valuing b_tokens from `at` on was answered in kind, as far
/// as it has come.
pub open spec fn valued_in_kind(replies: Seq<Reply<StrategyConfig>>, at: int) -> bool {
    let rate = past_read(replies, at);
    &&& read_in_kind(replies, at)
    &&& replies.len() > at && replies.len() > rate && stored_at(replies, at) != 0
        ==> replies[rate] is Amount
}

/// Whether `value` is what the b_tokens read at `at` are worth by the rate after
/// it, rounded toward zero: nothing without b_tokens or where it does not fit.
pub open spec fn is_value(replies: Seq<Reply<StrategyConfig>>, at: int, value: i128) -> bool {
    let b_tokens = stored_at(replies, at);
    let rate = replies[past_read(replies, at)]->Amount_0;
    let worth = trunc_div(b_tokens * rate, 1_000_000_000_000);
    &&& replies.len() > at
    &&& replies.len() >= past_read(replies, at)
    &&& if b_tokens == 0 {
        value == 0
    } else {
        &&& replies.len() > past_read(replies, at)
        &&& value == if fits(worth) {
            worth
        } else {
            0
        }
    }
}

/// Whether the replies to a deposit were of the kinds asked for.
pub open spec fn deposit_in_kind(replies: Seq<Reply<StrategyConfig>>) -> bool {
    let len = replies.len();
    let set = past_read(replies, 4);
    &&& loaded_in_kind(replies)
    &&& len > 2 ==> replies[2] is Done
    &&& len > 3 ==> replies[3] is Amount
    &&& read_in_kind(replies, 4)
    &&& len > 4 ==> {
        &&& len > set ==> replies[set] is Done
        &&& len > set + 1 ==> replies[set + 1] is Done
        &&& len > set + 2 ==> replies[set + 2] is Done
        &&& valued_in_kind(replies, set + 3)
    }
}

/// A deposit: the pool takes the whole amount, and the b_tokens that it minted
/// are added to those of the vault. It returns the value of the b_tokens that are
/// stored for the vault at its end.
#[verifier::rlimit(60)]
#[verifier::spinoff_prover]
pub proof fn law_deposit(env: &Env, amount: i128, from: Address)
    ensures
        ({
            let replies = env.replies@;
            let len = replies.len();
            let config = config_in(replies);
            let set = past_read(replies, 4);
            let held = stored_at(replies, 4) + replies[3]->Amount_0;
            match NekoStrategy::spec_deposit(env, amount, from) {
                Err(Halt::Ask(call)) => amount > 0 && is_configured(replies) && deposit_in_kind(
                    replies,
                ) && (len > 4 && len >= set ==> fits(held)) && {
                    ||| asked_in_loading(call, len as int)
                    ||| len == 2 && call == (Call::Authorize {
                        entry: Authorization::Transfer {
                            token: config.asset,
                            from: env.contract,
                            to: config.lending_pool,
                            amount,
                        },
                    })
                    ||| len == 3 && call == (Call::LendingDeposit {
                        lending: config.lending_pool,
                        lender: env.contract,
                        asset: config.rwa_asset,
                        amount,
                    })
                    ||| asked_in_reading(call, replies, 4, from)
                    ||| len > 4 && asked_in_storing(call, len as int, set, from, held)
                    ||| len > 4 && len == set + 2 && call == (Call::EmitDeposit {
                        strategy: STRATEGY_NAME,
                        amount,
                        from,
                    })
                    ||| len > 4 && asked_in_valuation(call, replies, set + 3, from)
                },
                Err(Halt::Error(error)) => amount <= 0 && error
                    == StrategyError::OnlyPositiveAmountAllowed,
                Err(Halt::Abort(error)) => amount > 0 && len > 0 && replies[0] == Reply::Config(
                    None::<StrategyConfig>,
                ) && error == StrategyError::NotInitialized,
                Err(Halt::Trap) => amount > 0 && {
                    ||| !deposit_in_kind(replies)
                    ||| len > 4 && !fits(held)
                },
                Ok(value) => {
                    &&& amount > 0
                    &&& len > 4 && len > set + 3
                    &&& is_configured(replies)
                    &&& deposit_in_kind(replies)
                    &&& fits(held)
                    &&& is_value(replies, set + 3, value)
                },
            }
        }),
{
}

/// Whether the replies to a withdrawal were of the kinds asked for.
pub open spec fn withdraw_in_kind(replies: Seq<Reply<StrategyConfig>>) -> bool {
    let len = replies.len();
    let pay = past_read(replies, 3);
    &&& loaded_in_kind(replies)
    &&& len > 2 ==> replies[2] is Amount
    &&& read_in_kind(replies, 3)
    &&& len > 3 ==> {
        &&& len > pay ==> replies[pay] is Done
        &&& len > pay + 1 ==> replies[pay + 1] is Amount
        &&& len > pay + 2 ==> replies[pay + 2] is Done
        &&& len > pay + 3 ==> replies[pay + 3] is Done
        &&& len > pay + 4 ==> replies[pay + 4] is Done
        &&& len > pay + 5 ==> replies[pay + 5] is Done
        &&& valued_in_kind(replies, pay + 6)
    }
}

/// How many b_tokens a withdrawal of `amount` burns: those that the amount takes,
/// and no more than the vault has.
pub open spec fn burnt_in_withdraw(replies: Seq<Reply<StrategyConfig>>, amount: i128) -> i128 {
    least(
        b_tokens_for(amount, replies[2]->Amount_0)->Ok_0 as int,
        stored_at(replies, 3) as int,
    ) as i128
}

/// Whether a withdrawal of `amount` that has come this far had grounds to.
pub open spec fn may_withdraw(replies: Seq<Reply<StrategyConfig>>, amount: i128) -> bool {
    let len = replies.len();
    let pay = past_read(replies, 3);
    let rate = replies[2]->Amount_0;
    let burnt = burnt_in_withdraw(replies, amount);
    &&& amount > 0
    &&& is_configured(replies)
    &&& len > 2 ==> b_tokens_for(amount, rate) is Ok
    &&& len > 3 && len >= pay ==> stored_at(replies, 3) != 0 && underlying_for(burnt, rate) is Ok
    &&& len > 3 && len > pay + 2 ==> fits(stored_at(replies, 3) - burnt)
}

/// A withdrawal: the pool burns b_tokens of the vault, what it pays for them goes
/// to the receiver, and the b_tokens burnt are taken from those of the vault. It
/// returns the value of the b_tokens that are stored for the vault at its end.
#[verifier::rlimit(100)]
#[verifier::spinoff_prover]
pub proof fn law_withdraw(env: &Env, amount: i128, from: Address, to: Address)
    ensures
        ({
            let replies = env.replies@;
            let len = replies.len();
            let config = config_in(replies);
            let pay = past_read(replies, 3);
            let rate = replies[2]->Amount_0;
            let held = stored_at(replies, 3);
            let burnt = burnt_in_withdraw(replies, amount);
            let paid = replies[pay + 1]->Amount_0;
            match NekoStrategy::spec_withdraw(env, amount, from, to) {
                Err(Halt::Ask(call)) => may_withdraw(replies, amount) && withdraw_in_kind(replies)
                    && {
                    ||| asked_in_loading(call, len as int)
                    ||| len == 2 && asks_for_rate(call, config)
                    ||| asked_in_reading(call, replies, 3, from)
                    ||| len > 3 && len == pay && call == (Call::Authorize {
                        entry: Authorization::Transfer {
                            token: config.asset,
                            from: config.lending_pool,
                            to: env.contract,
                            amount: underlying_for(burnt, rate)->Ok_0,
                        },
                    })
                    ||| len > 3 && len == pay + 1 && call == (Call::LendingWithdraw {
                        lending: config.lending_pool,
                        lender: env.contract,
                        asset: config.rwa_asset,
                        b_tokens: burnt,
                    })
                    ||| len > 3 && len == pay + 2 && call == (Call::TokenTransfer {
                        token: config.asset,
                        from: env.contract,
                        to,
                        amount: paid,
                    })
                    ||| len > 3 && asked_in_storing(call, len as int, pay + 3, from, held - burnt)
                    ||| len > 3 && len == pay + 5 && call == (Call::EmitWithdraw {
                        strategy: STRATEGY_NAME,
                        amount: paid,
                        from,
                    })
                    ||| len > 3 && asked_in_valuation(call, replies, pay + 6, from)
                },
                Err(Halt::Error(error)) => {
                    ||| amount <= 0 && error == StrategyError::OnlyPositiveAmountAllowed
                    ||| amount > 0 && len > 2 && b_tokens_for(amount, rate) == Err::<
                        i128,
                        Halt<Call>,
                    >(Halt::Error(error))
                    ||| amount > 0 && len > 3 && held == 0 && error
                        == StrategyError::InsufficientBalance
                    ||| amount > 0 && len > 3 && held != 0 && len >= pay && underlying_for(
                        burnt,
                        rate,
                    ) == Err::<i128, Halt<Call>>(Halt::Error(error))
                },
                Err(Halt::Abort(error)) => amount > 0 && len > 0 && replies[0] == Reply::Config(
                    None::<StrategyConfig>,
                ) && error == StrategyError::NotInitialized,
                Err(Halt::Trap) => amount > 0 && {
                    ||| !withdraw_in_kind(replies)
                    ||| len > 2 && b_tokens_for(amount, rate) == Err::<i128, Halt<Call>>(Halt::Trap)
                    ||| len > 3 && len > pay + 2 && !fits(held - burnt)
                },
                Ok(value) => {
                    &&& may_withdraw(replies, amount)
                    &&& withdraw_in_kind(replies)
                    &&& len > 3 && len > pay + 6
                    &&& is_value(replies, pay + 6, value)
                },
            }
        }),
{
}

/// A balance is what the b_tokens that are stored for the vault are worth.
pub proof fn law_balance(env: &Env, from: Address)
    ensures
        ({
            let replies = env.replies@;
            match NekoStrategy::spec_balance(env, from) {
                Err(Halt::Ask(call)) => is_configured(replies) && loaded_in_kind(replies)
                    && valued_in_kind(replies, 2) && {
                    ||| asked_in_loading(call, replies.len() as int)
                    ||| asked_in_valuation(call, replies, 2, from)
                },
                Err(Halt::Error(_)) => false,
                Err(Halt::Abort(error)) => replies.len() > 0 && replies[0] == Reply::Config(
                    None::<StrategyConfig>,
                ) && error == StrategyError::NotInitialized,
                Err(Halt::Trap) => !loaded_in_kind(replies) || !valued_in_kind(replies, 2),
                Ok(value) => {
                    &&& is_configured(replies)
                    &&& loaded_in_kind(replies)
                    &&& valued_in_kind(replies, 2)
                    &&& is_value(replies, 2, value)
                },
            }
        }),
{
}

/// A harvest reports the rate of b_tokens as it is, with no claimed amount.
pub proof fn law_harvest(env: &Env, from: Address)
    ensures
        ({
            let replies = env.replies@;
            let len = replies.len();
            let in_kind = {
                &&& loaded_in_kind(replies)
                &&& len > 2 ==> replies[2] is Amount
                &&& len > 3 ==> replies[3] is Done
            };
            match NekoStrategy::spec_harvest(env, from) {
                Err(Halt::Ask(call)) => is_configured(replies) && in_kind && {
                    ||| asked_in_loading(call, len as int)
                    ||| len == 2 && asks_for_rate(call, config_in(replies))
                    ||| len == 3 && call == (Call::EmitHarvest {
                        strategy: STRATEGY_NAME,
                        amount: 0,
                        from,
                        price_per_share: replies[2]->Amount_0,
                    })
                },
                Err(Halt::Error(_)) => false,
                Err(Halt::Abort(error)) => len > 0 && replies[0] == Reply::Config(
                    None::<StrategyConfig>,
                ) && error == StrategyError::NotInitialized,
                Err(Halt::Trap) => !in_kind,
                Ok(_) => is_configured(replies) && in_kind && len > 3,
            }
        }),
{
}

/// The asset is that of the configuration.
pub proof fn law_asset(env: &Env)
    ensures
        ({
            let replies = env.replies@;
            match NekoStrategy::spec_asset(env) {
                Err(Halt::Ask(call)) => is_configured(replies) && loaded_in_kind(replies)
                    && asked_in_loading(call, replies.len() as int),
                Err(Halt::Error(_)) => false,
                Err(Halt::Abort(error)) => replies.len() > 0 && replies[0] == Reply::Config(
                    None::<StrategyConfig>,
                ) && error == StrategyError::NotInitialized,
                Err(Halt::Trap) => !loaded_in_kind(replies),
                Ok(asset) => replies.len() > 1 && is_configured(replies) && loaded_in_kind(replies)
                    && asset == config_in(replies).asset,
            }
        }),
{
}

/// A construction: the strategy must not be set up yet, and the arguments must be
/// the lending pool and the name of the asset there; then the configuration is
/// stored.
pub proof fn law_constructor(env: &Env, asset: Address, init_args: &Vec<Val>)
    ensures
        ({
            let replies = env.replies@;
            let len = replies.len();
            let args = init_args@;
            let well_called = args.len() > 1 && args[0] is Address && args[1] is Symbol;
            let new = len > 0 && replies[0] == Reply::<StrategyConfig>::Flag(false);
            let in_kind = {
                &&& len > 0 ==> replies[0] is Flag
                &&& len > 1 ==> replies[1] is Done
                &&& len > 2 ==> replies[2] is Done
            };
            let may = in_kind && new && well_called;
            match NekoStrategy::spec_constructor(env, asset, init_args) {
                Ok(_) => may && len > 2,
                Err(Halt::Ask(call)) => {
                    ||| len == 0 && call == (Call::InstanceHas { key: StorageKey::Config })
                    ||| len == 1 && may && call == (Call::InstanceSet {
                        key: StorageKey::Config,
                        config: StrategyConfig {
                            asset,
                            lending_pool: args[0]->Address_0,
                            rwa_asset: args[1]->Symbol_0,
                        },
                    })
                    ||| len == 2 && may && call == (Call::InstanceExtendTtl {
                        threshold: MONTH_IN_LEDGERS,
                        extend_to: MONTH_AND_DAY_IN_LEDGERS,
                    })
                },
                Err(Halt::Abort(error)) => error == StrategyError::InvalidArgument && {
                    ||| len > 0 && replies[0] == Reply::<StrategyConfig>::Flag(true)
                    ||| new && !well_called
                },
                Err(Halt::Trap) => !in_kind,
                Err(Halt::Error(_)) => false,
            }
        }),
{
}

} // verus!
