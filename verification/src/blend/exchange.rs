//! What is exchanged with the host, told by the replies alone.
//!
//! For each entry point there is what it asks for next, on what grounds it stops,
//! and what it returns. Together these leave open nothing that the arguments and
//! the replies decide.

use crate::address::{Address, Authorization, Val};
use crate::blend::calls::{Call, Env, Request};
use crate::blend::contract::{min_out, share_price, BlendStrategy, STRATEGY_NAME};
use crate::blend::reserves::{credit, debit, StrategyReserves};
use crate::blend::storage::Config;
use crate::blend::utils::{
    calculate_optimal_deposit_amount, calculate_optimal_withdraw_amount, shares_to_underlying,
};
use crate::error::StrategyError;
use crate::exchange::fits;
use crate::session::{Halt, Reply};
use vstd::prelude::*;

verus! {

/// The configuration in the reply at `at`.
pub open spec fn config_at(replies: Seq<Reply<Config>>, at: int) -> Config {
    replies[at]->Configured_0->Ok_0
}

/// Whether the reply at `at` has a configuration.
pub open spec fn configured_at(replies: Seq<Reply<Config>>, at: int) -> bool {
    replies.len() > at ==> (replies[at] matches Reply::Configured(Ok(_)))
}

/// The reserve record in the reply at `at`, at the b_rate in the reply after it.
pub open spec fn reserves_at(replies: Seq<Reply<Config>>, at: int) -> StrategyReserves {
    let stored = replies[at]->Reserves_0;
    StrategyReserves {
        total_shares: stored.total_shares,
        total_b_tokens: stored.total_b_tokens,
        b_rate: replies[at + 1]->Amount_0,
    }
}

/// Whether a reserve record and a b_rate were answered in kind from `at` on, as
/// far as that has come.
pub open spec fn reserves_in_kind(replies: Seq<Reply<Config>>, at: int) -> bool {
    &&& replies.len() > at ==> replies[at] is Reserves
    &&& replies.len() > at + 1 ==> replies[at + 1] is Amount
}

/// Whether a call asks for the reserve record or the b_rate, from `at` on.
pub open spec fn asked_in_reserves(call: Call, len: int, at: int, config: Config) -> bool {
    ||| len == at && call == Call::GetStrategyReserves
    ||| len == at + 1 && call == (Call::PoolBRate { pool: config.pool, asset: config.asset })
}

/// Whether a call has the pool take a supply of `amount` or pay a withdrawal of
/// it, and `to` as the one it acts for.
pub open spec fn is_submission(
    call: Call,
    contract: Address,
    config: Config,
    to: Address,
    amount: i128,
    request_type: u32,
) -> bool {
    call == (Call::PoolSubmit {
        pool: config.pool,
        from: contract,
        spender: contract,
        to,
        request: Request { address: config.asset, amount, request_type },
        reserve_id: config.reserve_id,
    })
}

/// The b_tokens that a reply states as a supply; none where it states nothing or
/// could not be read.
pub open spec fn supply_in(reply: Reply<Config>) -> i128 {
    match reply {
        Reply::Position(Some(Some(b_tokens))) => b_tokens,
        _ => 0,
    }
}

/// What of a deposit of `amount` is supplied, and the b_tokens that it brings; or
/// why it is refused.
pub open spec fn supplied_in_deposit(replies: Seq<Reply<Config>>, amount: i128) -> Result<
    (i128, i128),
    StrategyError,
> {
    calculate_optimal_deposit_amount(amount, &reserves_at(replies, 3))
}

/// Where a deposit supplies the pool: after a refund, if there is one.
pub open spec fn deposit_supplies_at(replies: Seq<Reply<Config>>, amount: i128) -> int {
    if supplied_in_deposit(replies, amount)->Ok_0.0 == amount {
        6
    } else {
        7
    }
}

/// The shares of the vault and the reserve record after a deposit.
pub open spec fn booked_in_deposit(replies: Seq<Reply<Config>>, amount: i128) -> Result<
    (i128, StrategyReserves),
    Halt<Call>,
> {
    credit(
        replies[deposit_supplies_at(replies, amount) + 2]->Amount_0,
        supplied_in_deposit(replies, amount)->Ok_0.1,
        &reserves_at(replies, 3),
    )
}

/// Whether the replies to a deposit were of the kinds asked for.
pub open spec fn deposit_in_kind(replies: Seq<Reply<Config>>, amount: i128) -> bool {
    let len = replies.len();
    let supply = deposit_supplies_at(replies, amount);
    &&& len > 0 ==> replies[0] is Done
    &&& len > 1 ==> replies[1] is Done
    &&& len > 2 ==> replies[2] is Configured
    &&& reserves_in_kind(replies, 3)
    &&& len > 5 ==> replies[5] is Done
    &&& len > 6 && supply == 7 ==> replies[6] is Done
    &&& len > supply ==> replies[supply] is Done
    &&& len > supply + 1 ==> replies[supply + 1] is Position
    &&& len > supply + 2 ==> replies[supply + 2] is Amount
    &&& len > supply + 3 ==> replies[supply + 3] is Done
    &&& len > supply + 4 ==> replies[supply + 4] is Done
    &&& len > supply + 5 ==> replies[supply + 5] is Done
}

/// Whether a deposit of `amount` that has come this far had grounds to.
pub open spec fn may_deposit(replies: Seq<Reply<Config>>, amount: i128) -> bool {
    let len = replies.len();
    let supply = deposit_supplies_at(replies, amount);
    let booked = booked_in_deposit(replies, amount);
    &&& len > 0 ==> amount > 0
    &&& configured_at(replies, 2)
    &&& len > 4 ==> supplied_in_deposit(replies, amount) is Ok
    &&& len > 5 ==> fits(amount - supplied_in_deposit(replies, amount)->Ok_0.0)
    &&& len > supply + 2 ==> booked is Ok
    &&& len > supply + 3 ==> booked->Ok_0.0 >= 0
    &&& len > supply + 4 ==> shares_to_underlying(booked->Ok_0.0, booked->Ok_0.1) is Ok
}

/// Whether a call is the one that a deposit of `amount` for the vault `from`
/// makes after these replies.
pub open spec fn asked_in_deposit(
    call: Call,
    replies: Seq<Reply<Config>>,
    contract: Address,
    amount: i128,
    from: Address,
) -> bool {
    let len = replies.len() as int;
    let config = config_at(replies, 2);
    let supplied = supplied_in_deposit(replies, amount)->Ok_0.0;
    let supply = deposit_supplies_at(replies, amount);
    let (shares, after) = booked_in_deposit(replies, amount)->Ok_0;
    ||| len == 0 && call == Call::ExtendInstanceTtl
    ||| len == 1 && call == (Call::RequireAuth { address: from })
    ||| len == 2 && call == Call::GetConfig
    ||| asked_in_reserves(call, len, 3, config)
    ||| len == 5 && call == (Call::TokenTransfer {
        token: config.asset,
        from,
        to: contract,
        amount,
    })
    ||| len == 6 && supplied != amount && call == (Call::TokenTransfer {
        token: config.asset,
        from: contract,
        to: from,
        amount: (amount - supplied) as i128,
    })
    ||| len > 5 && len == supply && call == (Call::Authorize {
        entry: Authorization::Transfer {
            token: config.asset,
            from: contract,
            to: config.pool,
            amount: supplied,
        },
    })
    ||| len == supply + 1 && is_submission(call, contract, config, from, supplied, 0)
    ||| len == supply + 2 && call == (Call::GetVaultShares { vault: from })
    ||| len == supply + 3 && call == (Call::SetStrategyReserves { reserves: after })
    ||| len == supply + 4 && call == (Call::SetVaultShares { vault: from, shares })
    ||| len == supply + 5 && call == (Call::EmitDeposit {
        strategy: STRATEGY_NAME,
        amount: supplied,
        from,
    })
}

/// A deposit: the vault authorizes it; the asset is pulled from the vault and
/// what is not supplied goes back; the pool takes the rest; and the shares of the
/// vault and the reserve record are stored as they are booked. It returns what
/// the shares stored are worth by the record stored.
#[verifier::rlimit(100)]
#[verifier::spinoff_prover]
pub proof fn law_deposit(env: &Env, amount: i128, from: Address)
    ensures
        ({
            let replies = env.replies@;
            let len = replies.len();
            let supply = deposit_supplies_at(replies, amount);
            let booked = booked_in_deposit(replies, amount);
            match BlendStrategy::spec_deposit(env, amount, from) {
                Err(Halt::Ask(call)) => {
                    &&& deposit_in_kind(replies, amount)
                    &&& may_deposit(replies, amount)
                    &&& asked_in_deposit(call, replies, env.contract, amount, from)
                },
                Err(Halt::Error(error)) => {
                    ||| len > 0 && amount <= 0 && error == StrategyError::OnlyPositiveAmountAllowed
                    ||| len > 2 && replies[2] == Reply::<Config>::Configured(Err(error))
                    ||| len > 4 && supplied_in_deposit(replies, amount) == Err::<
                        (i128, i128),
                        StrategyError,
                    >(error)
                    ||| len > supply + 2 && booked == Err::<
                        (i128, StrategyReserves),
                        Halt<Call>,
                    >(Halt::Error(error))
                    ||| len > supply + 3 && booked->Ok_0.0 < 0 && error
                        == StrategyError::OnlyPositiveAmountAllowed
                    ||| len > supply + 4 && shares_to_underlying(booked->Ok_0.0, booked->Ok_0.1)
                        == Err::<i128, StrategyError>(error)
                },
                Err(Halt::Abort(error)) => len > supply + 2 && booked == Err::<
                    (i128, StrategyReserves),
                    Halt<Call>,
                >(Halt::Abort(error)),
                Err(Halt::Trap) => {
                    ||| !deposit_in_kind(replies, amount)
                    ||| len > 5 && !fits(amount - supplied_in_deposit(replies, amount)->Ok_0.0)
                },
                Ok(value) => {
                    &&& len > supply + 5
                    &&& deposit_in_kind(replies, amount)
                    &&& may_deposit(replies, amount)
                    &&& shares_to_underlying(booked->Ok_0.0, booked->Ok_0.1) == Ok::<
                        i128,
                        StrategyError,
                    >(value)
                },
            }
        }),
{
}

/// What a withdrawal of `amount` pays, and the b_tokens that it takes; or why it
/// is refused.
pub open spec fn paid_in_withdraw(replies: Seq<Reply<Config>>, amount: i128) -> Result<
    (i128, i128),
    StrategyError,
> {
    calculate_optimal_withdraw_amount(amount, &reserves_at(replies, 3))
}

/// The shares of the vault and the reserve record after a withdrawal.
pub open spec fn booked_in_withdraw(replies: Seq<Reply<Config>>, amount: i128) -> Result<
    (i128, StrategyReserves),
    Halt<Call>,
> {
    debit(
        replies[6]->Amount_0,
        paid_in_withdraw(replies, amount)->Ok_0.1,
        &reserves_at(replies, 3),
    )
}

/// Whether the replies to a withdrawal were of the kinds asked for.
pub open spec fn withdraw_in_kind(replies: Seq<Reply<Config>>) -> bool {
    let len = replies.len();
    &&& len > 0 ==> replies[0] is Done
    &&& len > 1 ==> replies[1] is Done
    &&& len > 2 ==> replies[2] is Configured
    &&& reserves_in_kind(replies, 3)
    &&& len > 5 ==> replies[5] is Position
    &&& len > 6 ==> replies[6] is Amount
    &&& len > 7 ==> replies[7] is Done
    &&& len > 8 ==> replies[8] is Done
    &&& len > 9 ==> replies[9] is Done
}

/// Whether a withdrawal of `amount` that has come this far had grounds to.
pub open spec fn may_withdraw(replies: Seq<Reply<Config>>, amount: i128) -> bool {
    let len = replies.len();
    let booked = booked_in_withdraw(replies, amount);
    &&& len > 0 ==> amount > 0
    &&& configured_at(replies, 2)
    &&& len > 4 ==> paid_in_withdraw(replies, amount) is Ok
    &&& len > 5 ==> paid_in_withdraw(replies, amount)->Ok_0.1 > 0
    &&& len > 6 ==> booked is Ok
    &&& len > 7 ==> booked->Ok_0.0 >= 0
    &&& len > 8 ==> shares_to_underlying(booked->Ok_0.0, booked->Ok_0.1) is Ok
}

/// Whether a call is the one that a withdrawal of `amount` for the vault `from`
/// to the receiver `to` makes after these replies.
pub open spec fn asked_in_withdraw(
    call: Call,
    replies: Seq<Reply<Config>>,
    contract: Address,
    amount: i128,
    from: Address,
    to: Address,
) -> bool {
    let len = replies.len() as int;
    let config = config_at(replies, 2);
    let paid = paid_in_withdraw(replies, amount)->Ok_0.0;
    let (shares, after) = booked_in_withdraw(replies, amount)->Ok_0;
    ||| len == 0 && call == Call::ExtendInstanceTtl
    ||| len == 1 && call == (Call::RequireAuth { address: from })
    ||| len == 2 && call == Call::GetConfig
    ||| asked_in_reserves(call, len, 3, config)
    ||| len == 5 && is_submission(call, contract, config, to, paid, 1)
    ||| len == 6 && call == (Call::GetVaultShares { vault: from })
    ||| len == 7 && call == (Call::SetStrategyReserves { reserves: after })
    ||| len == 8 && call == (Call::SetVaultShares { vault: from, shares })
    ||| len == 9 && call == (Call::EmitWithdraw { strategy: STRATEGY_NAME, amount: paid, from })
}

/// A withdrawal: the vault authorizes it; the pool pays the receiver; and the
/// shares of the vault and the reserve record are stored as they are booked. It
/// returns what the shares stored are worth by the record stored.
#[verifier::rlimit(100)]
#[verifier::spinoff_prover]
pub proof fn law_withdraw(env: &Env, amount: i128, from: Address, to: Address)
    ensures
        ({
            let replies = env.replies@;
            let len = replies.len();
            let booked = booked_in_withdraw(replies, amount);
            match BlendStrategy::spec_withdraw(env, amount, from, to) {
                Err(Halt::Ask(call)) => {
                    &&& withdraw_in_kind(replies)
                    &&& may_withdraw(replies, amount)
                    &&& asked_in_withdraw(call, replies, env.contract, amount, from, to)
                },
                Err(Halt::Error(error)) => {
                    ||| len > 0 && amount <= 0 && error == StrategyError::OnlyPositiveAmountAllowed
                    ||| len > 2 && replies[2] == Reply::<Config>::Configured(Err(error))
                    ||| len > 4 && paid_in_withdraw(replies, amount) == Err::<
                        (i128, i128),
                        StrategyError,
                    >(error)
                    ||| len > 5 && paid_in_withdraw(replies, amount)->Ok_0.1 <= 0 && error
                        == StrategyError::BTokensAmountBelowMin
                    ||| len > 6 && booked == Err::<(i128, StrategyReserves), Halt<Call>>(
                        Halt::Error(error),
                    )
                    ||| len > 7 && booked->Ok_0.0 < 0 && error
                        == StrategyError::OnlyPositiveAmountAllowed
                    ||| len > 8 && shares_to_underlying(booked->Ok_0.0, booked->Ok_0.1) == Err::<
                        i128,
                        StrategyError,
                    >(error)
                },
                Err(Halt::Abort(_)) => false,
                Err(Halt::Trap) => !withdraw_in_kind(replies),
                Ok(value) => {
                    &&& len > 9
                    &&& withdraw_in_kind(replies)
                    &&& may_withdraw(replies, amount)
                    &&& shares_to_underlying(booked->Ok_0.0, booked->Ok_0.1) == Ok::<
                        i128,
                        StrategyError,
                    >(value)
                },
            }
        }),
{
}

/// The BLND that a harvest finds in its hands.
pub open spec fn blnd_in_harvest(replies: Seq<Reply<Config>>) -> i128 {
    replies[5]->Amount_0
}

/// Whether a harvest reinvests: the BLND in its hands reaches the threshold.
pub open spec fn reinvests(replies: Seq<Reply<Config>>) -> bool {
    blnd_in_harvest(replies) >= config_at(replies, 3).reward_threshold
}

/// What the swap of a harvest brought of the asset: the second of the amounts
/// along its path.
pub open spec fn bought_in_harvest(replies: Seq<Reply<Config>>) -> i128 {
    replies[7]->Swapped_0->Ok_0@[1]
}

/// By how many b_tokens the supply of the strategy grew in a harvest.
pub open spec fn grown_in_harvest(replies: Seq<Reply<Config>>) -> int {
    supply_in(replies[10]) - supply_in(replies[8])
}

/// The reserve record at the end of a harvest: with the b_tokens by which the
/// supply grew, where it reinvests.
pub open spec fn reserves_after_harvest(replies: Seq<Reply<Config>>) -> StrategyReserves {
    if reinvests(replies) {
        let found = reserves_at(replies, 11);
        StrategyReserves {
            total_shares: found.total_shares,
            total_b_tokens: (found.total_b_tokens + grown_in_harvest(replies)) as i128,
            b_rate: found.b_rate,
        }
    } else {
        reserves_at(replies, 6)
    }
}

/// Where a harvest reports.
pub open spec fn harvest_reports_at(replies: Seq<Reply<Config>>) -> int {
    if reinvests(replies) {
        14
    } else {
        8
    }
}

/// Whether the replies to a harvest were of the kinds asked for.
pub open spec fn harvest_in_kind(replies: Seq<Reply<Config>>) -> bool {
    let len = replies.len();
    &&& len > 0 ==> replies[0] is Done
    &&& len > 1 ==> replies[1] is Keeper
    &&& len > 2 ==> replies[2] is Done
    &&& len > 3 ==> replies[3] is Configured
    &&& len > 4 ==> replies[4] is Amount
    &&& len > 5 ==> replies[5] is Amount
    &&& len > 5 && !reinvests(replies) ==> {
        &&& reserves_in_kind(replies, 6)
        &&& len > 8 ==> replies[8] is Done
    }
    &&& len > 5 && reinvests(replies) ==> {
        &&& len > 6 ==> replies[6] is Time
        &&& len > 7 ==> replies[7] is Swapped
        &&& len > 8 ==> replies[8] is Position
        &&& len > 9 ==> replies[9] is Done
        &&& len > 10 ==> replies[10] is Position
        &&& reserves_in_kind(replies, 11)
        &&& len > 13 ==> replies[13] is Done
        &&& len > 14 ==> replies[14] is Done
    }
}

/// Whether a harvest by `from` that has come this far had grounds to.
pub open spec fn may_harvest(
    replies: Seq<Reply<Config>>,
    from: Address,
    data: &Option<Vec<u8>>,
) -> bool {
    let len = replies.len();
    &&& len > 1 ==> replies[1]->Keeper_0 is Ok
    &&& len > 2 ==> replies[1]->Keeper_0->Ok_0 == from
    &&& configured_at(replies, 3)
    &&& len > 4 ==> min_out(data) is Ok
    &&& len > 5 && reinvests(replies) ==> {
        &&& len > 6 ==> replies[6]->Time_0 < u64::MAX
        &&& len > 7 ==> replies[7]->Swapped_0 is Ok && replies[7]->Swapped_0->Ok_0@.len() > 1
        &&& len > 10 ==> fits(grown_in_harvest(replies))
        &&& len > 12 ==> grown_in_harvest(replies) > 0 && fits(
            reserves_at(replies, 11).total_b_tokens + grown_in_harvest(replies),
        )
    }
    &&& len > 5 && len >= harvest_reports_at(replies) ==> share_price(
        &reserves_after_harvest(replies),
    ) is Ok
}

/// Whether a call is the one that a harvest by `from` makes after these replies.
pub open spec fn asked_in_harvest(
    call: Call,
    replies: Seq<Reply<Config>>,
    contract: Address,
    from: Address,
    data: &Option<Vec<u8>>,
) -> bool {
    let len = replies.len() as int;
    let config = config_at(replies, 3);
    let bought = bought_in_harvest(replies);
    ||| len == 0 && call == Call::ExtendInstanceTtl
    ||| len == 1 && call == Call::GetKeeper
    ||| len == 2 && call == (Call::RequireAuth { address: replies[1]->Keeper_0->Ok_0 })
    ||| len == 3 && call == Call::GetConfig
    ||| len == 4 && call == (Call::PoolClaim {
        pool: config.pool,
        from: contract,
        reserve_token_ids: config.claim_ids,
        to: contract,
    })
    ||| len == 5 && call == (Call::TokenBalance { token: config.blend_token, holder: contract })
    ||| len > 5 && !reinvests(replies) && asked_in_reserves(call, len, 6, config)
    ||| len > 5 && reinvests(replies) && {
        ||| len == 6 && call == Call::LedgerTimestamp
        ||| len == 7 && call == (Call::SwapExactTokensForTokens {
            router: config.router,
            amount_in: blnd_in_harvest(replies),
            amount_out_min: min_out(data)->Ok_0,
            path: (config.blend_token, config.asset),
            to: contract,
            deadline: (replies[6]->Time_0 + 1) as u64,
        })
        ||| len == 8 && call == (Call::PoolSupplyPosition {
            pool: config.pool,
            owner: contract,
            reserve_id: config.reserve_id,
        })
        ||| len == 9 && call == (Call::Authorize {
            entry: Authorization::Transfer {
                token: config.asset,
                from: contract,
                to: config.pool,
                amount: bought,
            },
        })
        ||| len == 10 && is_submission(call, contract, config, contract, bought, 0)
        ||| asked_in_reserves(call, len, 11, config)
        ||| len == 13 && call == (Call::SetStrategyReserves {
            reserves: reserves_after_harvest(replies),
        })
    }
    ||| len > 5 && len == harvest_reports_at(replies) && call == (Call::EmitHarvest {
        strategy: STRATEGY_NAME,
        amount: replies[4]->Amount_0,
        from,
        price_per_share: share_price(&reserves_after_harvest(replies))->Ok_0,
    })
}

/// A harvest: the keeper authorizes it; the rewards are claimed; and where the
/// BLND in the hands of the strategy reaches the threshold, all of that BLND is
/// swapped, exactly what the swap brought of the asset is supplied, and the
/// b_tokens by which the supply grew are added to the reserve record.
#[verifier::rlimit(100)]
#[verifier::spinoff_prover]
pub proof fn law_harvest(env: &Env, from: Address, data: &Option<Vec<u8>>)
    ensures
        ({
            let replies = env.replies@;
            let len = replies.len();
            let grown = grown_in_harvest(replies);
            match BlendStrategy::spec_harvest(env, from, data) {
                Err(Halt::Ask(call)) => {
                    &&& harvest_in_kind(replies)
                    &&& may_harvest(replies, from, data)
                    &&& asked_in_harvest(call, replies, env.contract, from, data)
                },
                Err(Halt::Error(error)) => {
                    ||| len > 1 && replies[1] == Reply::<Config>::Keeper(Err(error))
                    ||| len > 2 && replies[1]->Keeper_0->Ok_0 != from && error
                        == StrategyError::NotAuthorized
                    ||| len > 3 && replies[3] == Reply::<Config>::Configured(Err(error))
                    ||| len > 6 && reinvests(replies) && {
                        ||| replies[6]->Time_0 == u64::MAX && error
                            == StrategyError::UnderflowOverflow
                        ||| len > 7 && replies[7]->Swapped_0 is Err && error
                            == replies[7]->Swapped_0->Err_0
                        ||| len > 7 && replies[7]->Swapped_0 is Ok
                            && replies[7]->Swapped_0->Ok_0@.len() <= 1 && error
                            == StrategyError::InternalSwapError
                        ||| len > 10 && !fits(grown) && error == StrategyError::UnderflowOverflow
                        ||| len > 12 && grown > 0 && !fits(
                            reserves_at(replies, 11).total_b_tokens + grown,
                        ) && error == StrategyError::UnderflowOverflow
                    }
                    ||| len > 5 && len >= harvest_reports_at(replies) && share_price(
                        &reserves_after_harvest(replies),
                    ) == Err::<i128, StrategyError>(error)
                },
                Err(Halt::Abort(error)) => len > 12 && reinvests(replies) && grown <= 0 && error
                    == StrategyError::BTokensAmountBelowMin,
                Err(Halt::Trap) => !harvest_in_kind(replies) || len > 4 && min_out(data) is Err,
                Ok(_) => {
                    &&& harvest_in_kind(replies)
                    &&& may_harvest(replies, from, data)
                    &&& len > 5 && len > harvest_reports_at(replies)
                },
            }
        }),
{
}

/// Whatever the data of a harvest, and whatever the threshold, what its swap puts
/// in is the whole of the BLND that the strategy held, and what is supplied and
/// authorized is what that swap brought.
#[verifier::rlimit(60)]
#[verifier::spinoff_prover]
pub proof fn law_harvest_swaps_everything(
    env: &Env,
    from: Address,
    data: &Option<Vec<u8>>,
    call: Call,
)
    requires
        BlendStrategy::spec_harvest(env, from, data) == Err::<(), Halt<Call>>(Halt::Ask(call)),
    ensures
        match call {
            Call::SwapExactTokensForTokens { amount_in, .. } => env.replies@[5] == Reply::<
                Config,
            >::Amount(amount_in),
            Call::Authorize { entry } => entry matches Authorization::Transfer { amount, .. }
                && env.replies@[7]->Swapped_0->Ok_0@[1] == amount,
            Call::PoolSubmit { request, .. } => env.replies@[7]->Swapped_0->Ok_0@[1]
                == request.amount,
            _ => true,
        },
{
}

/// A balance is nothing for a vault without shares, and otherwise what its shares
/// are worth by the reserve record at the b_rate of the pool.
#[verifier::rlimit(60)]
#[verifier::spinoff_prover]
pub proof fn law_balance(env: &Env, from: Address)
    ensures
        ({
            let replies = env.replies@;
            let len = replies.len();
            let shares = replies[1]->Amount_0;
            let worth = shares_to_underlying(shares, reserves_at(replies, 3));
            let in_kind = {
                &&& len > 0 ==> replies[0] is Done
                &&& len > 1 ==> replies[1] is Amount
                &&& len > 2 && shares > 0 ==> replies[2] is Configured
                &&& shares > 0 ==> reserves_in_kind(replies, 3)
            };
            match BlendStrategy::spec_balance(env, from) {
                Err(Halt::Ask(call)) => in_kind && {
                    ||| len == 0 && call == Call::ExtendInstanceTtl
                    ||| len == 1 && call == (Call::GetVaultShares { vault: from })
                    ||| len == 2 && shares > 0 && call == Call::GetConfig
                    ||| len > 2 && shares > 0 && configured_at(replies, 2) && asked_in_reserves(
                        call,
                        len as int,
                        3,
                        config_at(replies, 2),
                    )
                },
                Err(Halt::Error(error)) => len > 2 && shares > 0 && {
                    ||| replies[2] == Reply::<Config>::Configured(Err(error))
                    ||| len > 4 && worth == Err::<i128, StrategyError>(error)
                },
                Err(Halt::Abort(_)) => false,
                Err(Halt::Trap) => !in_kind,
                Ok(value) => in_kind && len > 1 && {
                    ||| shares <= 0 && value == 0
                    ||| shares > 0 && len > 4 && configured_at(replies, 2) && worth == Ok::<
                        i128,
                        StrategyError,
                    >(value)
                },
            }
        }),
{
}

/// The asset is that of the configuration.
pub proof fn law_asset(env: &Env)
    ensures
        ({
            let replies = env.replies@;
            let len = replies.len();
            let in_kind = {
                &&& len > 0 ==> replies[0] is Done
                &&& len > 1 ==> replies[1] is Configured
            };
            match BlendStrategy::spec_asset(env) {
                Err(Halt::Ask(call)) => in_kind && {
                    ||| len == 0 && call == Call::ExtendInstanceTtl
                    ||| len == 1 && call == Call::GetConfig
                },
                Err(Halt::Error(error)) => len > 1 && replies[1] == Reply::<Config>::Configured(
                    Err(error),
                ),
                Err(Halt::Abort(_)) => false,
                Err(Halt::Trap) => !in_kind,
                Ok(asset) => in_kind && len > 1 && configured_at(replies, 1) && asset == config_at(
                    replies,
                    1,
                ).asset,
            }
        }),
{
}

/// The keeper is the one stored, and is handed on by the one stored: who has to
/// authorize it, and then the new one is stored.
pub proof fn law_keepers(env: &Env, new_keeper: Address)
    ensures
        ({
            let replies = env.replies@;
            let len = replies.len();
            let keeper = replies[1]->Keeper_0->Ok_0;
            let in_kind = {
                &&& len > 0 ==> replies[0] is Done
                &&& len > 1 ==> replies[1] is Keeper
            };
            let known = len > 1 ==> replies[1]->Keeper_0 is Ok;
            let stored_in_kind = {
                &&& in_kind
                &&& len > 2 ==> replies[2] is Done
                &&& len > 3 ==> replies[3] is Done
            };
            &&& match BlendStrategy::spec_get_keeper(env) {
                Err(Halt::Ask(call)) => in_kind && {
                    ||| len == 0 && call == Call::ExtendInstanceTtl
                    ||| len == 1 && call == Call::GetKeeper
                },
                Err(Halt::Error(error)) => len > 1 && replies[1] == Reply::<Config>::Keeper(
                    Err(error),
                ),
                Err(Halt::Abort(_)) => false,
                Err(Halt::Trap) => !in_kind,
                Ok(found) => in_kind && known && len > 1 && found == keeper,
            }
            &&& match BlendStrategy::spec_set_keeper(env, new_keeper) {
                Err(Halt::Ask(call)) => stored_in_kind && known && {
                    ||| len == 0 && call == Call::ExtendInstanceTtl
                    ||| len == 1 && call == Call::GetKeeper
                    ||| len == 2 && call == (Call::RequireAuth { address: keeper })
                    ||| len == 3 && call == (Call::SetKeeper { keeper: new_keeper })
                },
                Err(Halt::Error(error)) => len > 1 && replies[1] == Reply::<Config>::Keeper(
                    Err(error),
                ),
                Err(Halt::Abort(_)) => false,
                Err(Halt::Trap) => !stored_in_kind,
                Ok(_) => stored_in_kind && known && len > 3,
            }
        }),
{
}

/// A construction: the strategy must not be set up yet; the arguments must be the
/// pool, the BLND token, the router, a positive threshold and the keeper; then the
/// configuration, with the index that the pool has for the asset and the claim of
/// its supply, and the keeper are stored.
#[verifier::rlimit(60)]
#[verifier::spinoff_prover]
pub proof fn law_constructor(env: &Env, asset: Address, init_args: &Vec<Val>)
    ensures
        ({
            let replies = env.replies@;
            let len = replies.len();
            let args = init_args@;
            let threshold = args[3]->I128_0;
            let reserve_id = replies[1]->Index_0;
            let well_called = {
                &&& args.len() > 4
                &&& args[0] is Address && args[1] is Address && args[2] is Address
                &&& args[3] is I128
                &&& args[4] is Address
            };
            let new = len > 0 && replies[0] == Reply::<Config>::Flag(false);
            let in_kind = {
                &&& len > 0 ==> replies[0] is Flag
                &&& len > 1 ==> replies[1] is Index
                &&& len > 2 ==> replies[2] is Done
                &&& len > 3 ==> replies[3] is Done
            };
            let countable = 2 * reserve_id + 1 <= u32::MAX;
            let may = in_kind && new && well_called && (len > 1 ==> countable && threshold > 0);
            match BlendStrategy::spec_constructor(env, asset, init_args) {
                Ok(_) => may && len > 3,
                Err(Halt::Ask(call)) => {
                    ||| len == 0 && call == Call::IsInitialized
                    ||| len == 1 && may && call == (Call::PoolReserveIndex {
                        pool: args[0]->Address_0,
                        asset,
                    })
                    ||| len == 2 && may && (call matches Call::SetConfig { config } && {
                        &&& config.asset == asset
                        &&& config.pool == args[0]->Address_0
                        &&& config.reserve_id == reserve_id
                        &&& config.blend_token == args[1]->Address_0
                        &&& config.router == args[2]->Address_0
                        &&& config.claim_ids@ == seq![(2 * reserve_id + 1) as u32]
                        &&& config.reward_threshold == threshold
                    })
                    ||| len == 3 && may && call == (Call::SetKeeper { keeper: args[4]->Address_0 })
                },
                Err(Halt::Abort(error)) => error == StrategyError::InvalidArgument && {
                    ||| len > 0 && replies[0] == Reply::<Config>::Flag(true)
                    ||| new && !well_called
                    ||| len > 1 && new && countable && threshold <= 0
                },
                Err(Halt::Trap) => !in_kind || len > 1 && !countable,
                Err(Halt::Error(_)) => false,
            }
        }),
{
}

} // verus!
