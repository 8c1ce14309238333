use crate::address::{Address, Authorization, Val};
use crate::attribution::{lemma_sum_is_nonnegative, shares_of};
use crate::blend::accounting::{
    consistent, law_credit_keeps_consistent, law_debit_keeps_consistent, law_optimal_deposit,
};
use crate::blend::blend_pool::RequestType;
use crate::blend::calls::{Call, Env, Request};
use crate::blend::constants::SCALAR_12;
use crate::blend::contract::{min_out, BlendStrategy};
use crate::blend::reserves::StrategyReserves;
use crate::blend::storage::Config;
use crate::blend::utils::{calculate_optimal_deposit_amount, calculate_optimal_withdraw_amount};
use crate::error::StrategyError;
use crate::rounding::floor_div;
use crate::session::{Halt, Reply};
use vstd::prelude::*;

verus! {

/// Whether a call leaves everything as it is, but for the life of storage.
pub open spec fn reads_only(call: Call) -> bool {
    match call {
        Call::ExtendInstanceTtl => true,
        Call::IsInitialized => true,
        Call::GetConfig => true,
        Call::GetKeeper => true,
        Call::GetVaultShares { .. } => true,
        Call::GetStrategyReserves => true,
        Call::LedgerTimestamp => true,
        Call::TokenBalance { .. } => true,
        Call::PoolReserveIndex { .. } => true,
        Call::PoolBRate { .. } => true,
        Call::PoolSupplyPosition { .. } => true,
        _ => false,
    }
}

/// Asking for the asset, a balance or the keeper changes nothing.
pub proof fn law_queries_change_nothing(env: &Env, from: Address, call: Call)
    ensures
        BlendStrategy::spec_asset(env) == Err::<Address, Halt<Call>>(Halt::Ask(call))
            ==> reads_only(call),
        BlendStrategy::spec_balance(env, from) == Err::<i128, Halt<Call>>(Halt::Ask(call))
            ==> reads_only(call),
        BlendStrategy::spec_get_keeper(env) == Err::<Address, Halt<Call>>(Halt::Ask(call))
            ==> reads_only(call),
{
}

/// An amount that is not positive is refused, in every state of the host. All
/// that is asked of it before is to extend the life of storage.
pub proof fn law_only_positive_amounts(env: &Env, amount: i128, from: Address, to: Address)
    requires
        amount <= 0,
    ensures
        ({
            let halt = if env.replies@.len() == 0 {
                Halt::Ask(Call::ExtendInstanceTtl)
            } else if env.replies@[0] is Done {
                Halt::Error(StrategyError::OnlyPositiveAmountAllowed)
            } else {
                Halt::Trap
            };
            &&& BlendStrategy::spec_deposit(env, amount, from) == Err::<i128, Halt<Call>>(halt)
            &&& BlendStrategy::spec_withdraw(env, amount, from, to) == Err::<i128, Halt<Call>>(halt)
        }),
{
}

/// The configuration that a deposit or a withdrawal works with.
pub open spec fn config_in(env: &Env) -> Config {
    env.replies@[2]->Configured_0->Ok_0
}

/// The reserve record that a deposit or a withdrawal starts from: the stored
/// one, at the b_rate of the pool.
pub open spec fn reserves_in(env: &Env) -> StrategyReserves {
    StrategyReserves { b_rate: env.replies@[4]->Amount_0, ..env.replies@[3]->Reserves_0 }
}

/// Whether a call is in place in a deposit of `amount` for the vault `from`, of
/// which `supplied` is supplied.
pub open spec fn in_place_in_deposit(
    call: Call,
    contract: Address,
    config: Config,
    amount: i128,
    supplied: i128,
    from: Address,
) -> bool {
    match call {
        Call::SetVaultShares { vault, .. } => vault == from,
        Call::TokenTransfer { token, from: payer, to: receiver, amount: moved } => {
            &&& token == config.asset
            &&& {
                ||| payer == from && receiver == contract && moved == amount
                ||| payer == contract && receiver == from && moved == amount - supplied
            }
        },
        Call::Authorize { entry } => entry == (Authorization::Transfer {
            token: config.asset,
            from: contract,
            to: config.pool,
            amount: supplied,
        }),
        Call::PoolSubmit { pool, from: supplier, spender, to, request, .. } => {
            &&& pool == config.pool
            &&& supplier == contract
            &&& spender == contract
            &&& to == from
            &&& request == (Request {
                address: config.asset,
                amount: supplied,
                request_type: RequestType::Supply.to_u32(),
            })
        },
        Call::RequireAuth { address } => address == from,
        Call::SetStrategyReserves { .. } => true,
        Call::EmitDeposit { amount: reported, from: vault, .. } => reported == supplied && vault
            == from,
        _ => reads_only(call),
    }
}

/// A deposit stores shares of no other vault than its own. It moves the asset
/// from the vault to the strategy, what is not supplied back to the vault, and
/// what is supplied to the pool; nothing else.
#[verifier::rlimit(60)]
#[verifier::spinoff_prover]
pub proof fn law_deposit_touches_own_vault(env: &Env, amount: i128, from: Address, call: Call)
    requires
        BlendStrategy::spec_deposit(env, amount, from) == Err::<i128, Halt<Call>>(Halt::Ask(call)),
    ensures
        reads_only(call) || in_place_in_deposit(
            call,
            env.contract,
            config_in(env),
            amount,
            calculate_optimal_deposit_amount(amount, &reserves_in(env))->Ok_0.0,
            from,
        ),
{
}

/// Whether a call is in place in a withdrawal for the vault `from`, of which
/// `paid` is paid to the receiver `to`.
pub open spec fn in_place_in_withdraw(
    call: Call,
    contract: Address,
    config: Config,
    paid: i128,
    from: Address,
    to: Address,
) -> bool {
    match call {
        Call::SetVaultShares { vault, .. } => vault == from,
        Call::PoolSubmit { pool, from: supplier, spender, to: receiver, request, .. } => {
            &&& pool == config.pool
            &&& supplier == contract
            &&& spender == contract
            &&& receiver == to
            &&& request == (Request {
                address: config.asset,
                amount: paid,
                request_type: RequestType::Withdraw.to_u32(),
            })
        },
        Call::RequireAuth { address } => address == from,
        Call::SetStrategyReserves { .. } => true,
        Call::EmitWithdraw { amount: reported, from: vault, .. } => reported == paid && vault
            == from,
        _ => reads_only(call),
    }
}

/// A withdrawal stores shares of no other vault than its own. It has the pool
/// pay the receiver named; nothing else is moved.
#[verifier::rlimit(60)]
#[verifier::spinoff_prover]
pub proof fn law_withdraw_touches_own_vault(
    env: &Env,
    amount: i128,
    from: Address,
    to: Address,
    call: Call,
)
    requires
        BlendStrategy::spec_withdraw(env, amount, from, to) == Err::<i128, Halt<Call>>(
            Halt::Ask(call),
        ),
    ensures
        reads_only(call) || in_place_in_withdraw(
            call,
            env.contract,
            config_in(env),
            calculate_optimal_withdraw_amount(amount, &reserves_in(env))->Ok_0.0,
            from,
            to,
        ),
{
}

/// Nothing is changed for a vault that has not authorized the deposit.
#[verifier::rlimit(60)]
#[verifier::spinoff_prover]
pub proof fn law_deposit_needs_authorization(env: &Env, amount: i128, from: Address, call: Call)
    requires
        BlendStrategy::spec_deposit(env, amount, from) == Err::<i128, Halt<Call>>(Halt::Ask(call)),
        !reads_only(call),
    ensures
        if env.replies@.len() == 1 {
            call == (Call::RequireAuth { address: from })
        } else {
            env.replies@.len() > 1 && env.replies@[1] is Done
        },
{
}

/// Nothing is changed for a vault that has not authorized the withdrawal.
#[verifier::rlimit(60)]
#[verifier::spinoff_prover]
pub proof fn law_withdraw_needs_authorization(
    env: &Env,
    amount: i128,
    from: Address,
    to: Address,
    call: Call,
)
    requires
        BlendStrategy::spec_withdraw(env, amount, from, to) == Err::<i128, Halt<Call>>(
            Halt::Ask(call),
        ),
        !reads_only(call),
    ensures
        if env.replies@.len() == 1 {
            call == (Call::RequireAuth { address: from })
        } else {
            env.replies@.len() > 1 && env.replies@[1] is Done
        },
{
}

/// What the pool takes in a deposit has been authorized just before.
#[verifier::rlimit(60)]
#[verifier::spinoff_prover]
pub proof fn law_deposit_authorized(
    env: &Env,
    before: &Env,
    amount: i128,
    from: Address,
    call: Call,
)
    requires
        env.follows(before),
        BlendStrategy::spec_deposit(env, amount, from) == Err::<i128, Halt<Call>>(Halt::Ask(call)),
        call is PoolSubmit,
    ensures
        call matches Call::PoolSubmit { pool, request, .. } && BlendStrategy::spec_deposit(
            before,
            amount,
            from,
        ) == Err::<i128, Halt<Call>>(
            Halt::Ask(Call::Authorize { entry: Authorization::Transfer {
                token: request.address,
                from: env.contract,
                to: pool,
                amount: request.amount,
            } }),
        ),
{
}

/// A deposit keeps the books: where the reserve record and the shares of the
/// vaults agree before it, those that it stores agree too.
#[verifier::rlimit(60)]
#[verifier::spinoff_prover]
pub proof fn law_deposit_keeps_books(
    env: &Env,
    before: &Env,
    vaults: Map<Address, i128>,
    amount: i128,
    from: Address,
    vault: Address,
    shares: i128,
    after: StrategyReserves,
)
    requires
        env.follows(before),
        BlendStrategy::spec_deposit(before, amount, from) == Err::<i128, Halt<Call>>(
            Halt::Ask(Call::SetStrategyReserves { reserves: after }),
        ),
        BlendStrategy::spec_deposit(env, amount, from) == Err::<i128, Halt<Call>>(
            Halt::Ask(Call::SetVaultShares { vault, shares }),
        ),
        consistent(before.replies@[3]->Reserves_0, vaults),
        before.replies@.last() == Reply::<Config>::Amount(shares_of(vaults, from)),
    ensures
        vault == from,
        consistent(after, vaults.insert(vault, shares)),
{
    let optimal = calculate_optimal_deposit_amount(amount, &reserves_in(env))->Ok_0;
    law_credit_keeps_consistent(reserves_in(env), vaults, from, optimal.1);
}

/// What a deposit hands back is a part of it: where the books agree and the
/// b_rate is positive, something of the deposit is always supplied.
#[verifier::rlimit(60)]
#[verifier::spinoff_prover]
pub proof fn law_deposit_refunds_a_part(
    env: &Env,
    vaults: Map<Address, i128>,
    amount: i128,
    from: Address,
    token: Address,
    refund: i128,
)
    requires
        from != env.contract,
        BlendStrategy::spec_deposit(env, amount, from) == Err::<i128, Halt<Call>>(
            Halt::Ask(Call::TokenTransfer { token, from: env.contract, to: from, amount: refund }),
        ),
        consistent(env.replies@[3]->Reserves_0, vaults),
        reserves_in(env).b_rate > 0,
    ensures
        0 < refund < amount,
{
    lemma_sum_is_nonnegative(vaults);
    law_optimal_deposit(amount, reserves_in(env));
}

/// A withdrawal keeps the books: where the reserve record and the shares of the
/// vaults agree before it, those that it stores agree too.
#[verifier::rlimit(60)]
#[verifier::spinoff_prover]
pub proof fn law_withdraw_keeps_books(
    env: &Env,
    before: &Env,
    vaults: Map<Address, i128>,
    amount: i128,
    from: Address,
    to: Address,
    vault: Address,
    shares: i128,
    after: StrategyReserves,
)
    requires
        env.follows(before),
        BlendStrategy::spec_withdraw(before, amount, from, to) == Err::<i128, Halt<Call>>(
            Halt::Ask(Call::SetStrategyReserves { reserves: after }),
        ),
        BlendStrategy::spec_withdraw(env, amount, from, to) == Err::<i128, Halt<Call>>(
            Halt::Ask(Call::SetVaultShares { vault, shares }),
        ),
        consistent(before.replies@[3]->Reserves_0, vaults),
        before.replies@.last() == Reply::<Config>::Amount(shares_of(vaults, from)),
    ensures
        vault == from,
        consistent(after, vaults.insert(vault, shares)),
{
    let optimal = calculate_optimal_withdraw_amount(amount, &reserves_in(env))->Ok_0;
    law_debit_keeps_consistent(reserves_in(env), vaults, from, optimal.1);
}

/// A harvest keeps the books: where the reserve record that it reads agrees
/// with the shares of the vaults, the one that it stores does too.
#[verifier::rlimit(60)]
#[verifier::spinoff_prover]
pub proof fn law_harvest_keeps_books(
    env: &Env,
    vaults: Map<Address, i128>,
    from: Address,
    data: &Option<Vec<u8>>,
    after: StrategyReserves,
)
    requires
        BlendStrategy::spec_harvest(env, from, data) == Err::<(), Halt<Call>>(
            Halt::Ask(Call::SetStrategyReserves { reserves: after }),
        ),
        consistent(env.replies@[env.replies@.len() - 2]->Reserves_0, vaults),
    ensures
        consistent(after, vaults),
        after.total_shares == env.replies@[env.replies@.len() - 2]->Reserves_0.total_shares,
        after.total_b_tokens > env.replies@[env.replies@.len() - 2]->Reserves_0.total_b_tokens,
{
}

/// Only the keeper harvests: another gets an error, and nothing is changed.
pub proof fn law_harvest_refuses_others(
    env: &Env,
    from: Address,
    data: &Option<Vec<u8>>,
    keeper: Address,
)
    requires
        env.replies@.len() >= 2,
        env.replies@[0] is Done,
        env.replies@[1] == Reply::<Config>::Keeper(Ok(keeper)),
        from != keeper,
    ensures
        BlendStrategy::spec_harvest(env, from, data) == Err::<(), Halt<Call>>(
            if env.replies@.len() == 2 {
                Halt::Ask(Call::RequireAuth { address: keeper })
            } else if env.replies@[2] is Done {
                Halt::Error(StrategyError::NotAuthorized)
            } else {
                Halt::Trap
            },
        ),
{
}

/// Whether a call is in place in a harvest with the configuration `config` that
/// accepts no less than `least` out of its swap.
pub open spec fn in_place_in_harvest(
    call: Call,
    contract: Address,
    config: Config,
    least: i128,
    keeper: Address,
) -> bool {
    match call {
        Call::PoolClaim { pool, from, reserve_token_ids, to } => {
            &&& pool == config.pool
            &&& from == contract
            &&& reserve_token_ids == config.claim_ids
            &&& to == contract
        },
        Call::SwapExactTokensForTokens { router, amount_in, amount_out_min, path, to, .. } => {
            &&& router == config.router
            &&& amount_in >= config.reward_threshold
            &&& amount_out_min == least
            &&& path == (config.blend_token, config.asset)
            &&& to == contract
        },
        Call::Authorize { entry } => entry matches Authorization::Transfer { token, from, to, .. }
            && token == config.asset && from == contract && to == config.pool,
        Call::PoolSubmit { pool, from, spender, to, request, .. } => {
            &&& pool == config.pool
            &&& from == contract
            &&& spender == contract
            &&& to == contract
            &&& request.address == config.asset
            &&& request.request_type == RequestType::Supply.to_u32()
        },
        Call::SetStrategyReserves { .. } => true,
        Call::EmitHarvest { from, .. } => from == keeper,
        _ => reads_only(call),
    }
}

/// A harvest changes nothing but for the keeper who authorized it, stores no
/// shares of a vault and pays nothing out: what it claims, swaps and supplies
/// stays with the strategy. It swaps only where the reward threshold is
/// reached, and for no less than the keeper accepts.
#[verifier::rlimit(60)]
#[verifier::spinoff_prover]
pub proof fn law_harvest_keeps_rewards(
    env: &Env,
    from: Address,
    data: &Option<Vec<u8>>,
    call: Call,
)
    requires
        BlendStrategy::spec_harvest(env, from, data) == Err::<(), Halt<Call>>(Halt::Ask(call)),
        !reads_only(call),
        call !is RequireAuth,
    ensures
        env.replies@.len() > 3,
        env.replies@[1] == Reply::<Config>::Keeper(Ok(from)),
        env.replies@[2] is Done,
        call !is PoolClaim ==> min_out(data) is Ok,
        in_place_in_harvest(
            call,
            env.contract,
            env.replies@[3]->Configured_0->Ok_0,
            min_out(data)->Ok_0,
            from,
        ),
{
}

/// The keeper is changed only by the keeper of before, who has authorized it.
pub proof fn law_keeper_hands_over(env: &Env, before: &Env, new_keeper: Address, call: Call)
    requires
        env.follows(before),
        BlendStrategy::spec_set_keeper(env, new_keeper) == Err::<(), Halt<Call>>(Halt::Ask(call)),
        call is SetKeeper,
    ensures
        call == (Call::SetKeeper { keeper: new_keeper }),
        env.replies@[1] matches Reply::Keeper(Ok(old_keeper)) && BlendStrategy::spec_set_keeper(
            before,
            new_keeper,
        ) == Err::<(), Halt<Call>>(Halt::Ask(Call::RequireAuth { address: old_keeper })),
{
}

/// The strategy is set up once: where a configuration is stored already, the
/// constructor aborts and stores nothing.
pub proof fn law_initialized_once(env: &Env, asset: Address, init_args: &Vec<Val>)
    requires
        env.replies@.len() > 0,
        env.replies@[0] == Reply::<Config>::Flag(true),
    ensures
        BlendStrategy::spec_constructor(env, asset, init_args) == Err::<(), Halt<Call>>(
            Halt::Abort(StrategyError::InvalidArgument),
        ),
{
}

/// The configuration that the constructor stores is what it was given, with the
/// index of the reserve from the pool and a positive threshold. What it claims
/// is the emissions for the supply in that reserve.
pub proof fn law_constructed_config(
    env: &Env,
    asset: Address,
    init_args: &Vec<Val>,
    config: Config,
)
    requires
        BlendStrategy::spec_constructor(env, asset, init_args) == Err::<(), Halt<Call>>(
            Halt::Ask(Call::SetConfig { config }),
        ),
    ensures
        env.replies@[0] == Reply::<Config>::Flag(false),
        config.asset == asset,
        init_args@[0] == Val::Address(config.pool),
        init_args@[1] == Val::Address(config.blend_token),
        init_args@[2] == Val::Address(config.router),
        init_args@[3] == Val::I128(config.reward_threshold),
        config.reward_threshold > 0,
        env.replies@[1] == Reply::<Config>::Index(config.reserve_id),
        config.claim_ids@.len() == 1,
        config.claim_ids@[0] == 2 * config.reserve_id + 1,
{
}

/// Whether `later` asks for a balance where `shares`, the configuration of `env`
/// and `reserves` are stored, and the b_rate has not changed.
pub open spec fn finds_stored(
    later: &Env,
    env: &Env,
    shares: i128,
    reserves: StrategyReserves,
) -> bool {
    &&& later.replies@.len() == 5
    &&& later.replies@[0] is Done
    &&& later.replies@[1] == Reply::<Config>::Amount(shares)
    &&& later.replies@[2] == env.replies@[2]
    &&& later.replies@[3] == Reply::<Config>::Reserves(reserves)
    &&& later.replies@[4] == Reply::<Config>::Amount(reserves.b_rate)
}

/// What a deposit returns is the balance of the vault: a request for it that
/// finds what the deposit stored, at the same b_rate, gives the same.
#[verifier::rlimit(60)]
#[verifier::spinoff_prover]
pub proof fn law_deposit_returns_balance(
    env: &Env,
    set_shares: &Env,
    set_reserves: &Env,
    later: &Env,
    amount: i128,
    from: Address,
    value: i128,
    shares: i128,
    reserves: StrategyReserves,
)
    requires
        BlendStrategy::spec_deposit(env, amount, from) == Ok::<i128, Halt<Call>>(value),
        env.extends(set_shares),
        set_shares.follows(set_reserves),
        BlendStrategy::spec_deposit(set_shares, amount, from) == Err::<i128, Halt<Call>>(
            Halt::Ask(Call::SetVaultShares { vault: from, shares }),
        ),
        BlendStrategy::spec_deposit(set_reserves, amount, from) == Err::<i128, Halt<Call>>(
            Halt::Ask(Call::SetStrategyReserves { reserves }),
        ),
        shares > 0,
        finds_stored(later, env, shares, reserves),
    ensures
        BlendStrategy::spec_balance(later, from) == Ok::<i128, Halt<Call>>(value),
{
}

/// What a withdrawal returns is the remaining balance of the vault: a request
/// for it that finds what the withdrawal stored, at the same b_rate, gives the
/// same.
#[verifier::rlimit(60)]
#[verifier::spinoff_prover]
pub proof fn law_withdraw_returns_balance(
    env: &Env,
    set_shares: &Env,
    set_reserves: &Env,
    later: &Env,
    amount: i128,
    from: Address,
    to: Address,
    value: i128,
    shares: i128,
    reserves: StrategyReserves,
)
    requires
        BlendStrategy::spec_withdraw(env, amount, from, to) == Ok::<i128, Halt<Call>>(value),
        env.extends(set_shares),
        set_shares.follows(set_reserves),
        BlendStrategy::spec_withdraw(set_shares, amount, from, to) == Err::<i128, Halt<Call>>(
            Halt::Ask(Call::SetVaultShares { vault: from, shares }),
        ),
        BlendStrategy::spec_withdraw(set_reserves, amount, from, to) == Err::<i128, Halt<Call>>(
            Halt::Ask(Call::SetStrategyReserves { reserves }),
        ),
        finds_stored(later, env, shares, reserves),
    ensures
        BlendStrategy::spec_balance(later, from) == Ok::<i128, Halt<Call>>(value),
{
    if shares == 0 {
        let ts = reserves.total_shares as int;
        assert(ts != 0 ==> floor_div(0, ts) == 0) by (nonlinear_arith);
        assert(floor_div(0, SCALAR_12 as int) == 0);
        assert(0 * reserves.total_b_tokens == 0 && 0 * reserves.b_rate == 0) by (nonlinear_arith);
    }
}

/// A construction that has ended stays as it is, whatever else the host says.
pub proof fn law_constructor_ends(env: &Env, before: &Env, asset: Address, init_args: &Vec<Val>)
    requires
        env.extends(before),
        !(BlendStrategy::spec_constructor(before, asset, init_args) matches Err(Halt::Ask(_))),
    ensures
        BlendStrategy::spec_constructor(env, asset, init_args) == BlendStrategy::spec_constructor(
            before,
            asset,
            init_args,
        ),
{
}

/// A construction ends after at most four calls.
pub proof fn law_constructor_bounded(env: &Env, asset: Address, init_args: &Vec<Val>)
    requires
        env.replies@.len() >= 4,
    ensures
        !(BlendStrategy::spec_constructor(env, asset, init_args) matches Err(Halt::Ask(_))),
{
}

/// A request for the asset that has ended stays as it is, whatever else the host says.
pub proof fn law_asset_ends(env: &Env, before: &Env)
    requires
        env.extends(before),
        !(BlendStrategy::spec_asset(before) matches Err(Halt::Ask(_))),
    ensures
        BlendStrategy::spec_asset(env) == BlendStrategy::spec_asset(before),
{
}

/// A request for the asset ends after at most two calls.
pub proof fn law_asset_bounded(env: &Env)
    requires
        env.replies@.len() >= 2,
    ensures
        !(BlendStrategy::spec_asset(env) matches Err(Halt::Ask(_))),
{
}

/// A deposit that has ended stays as it is, whatever else the host says.
#[verifier::rlimit(60)]
#[verifier::spinoff_prover]
pub proof fn law_deposit_ends(env: &Env, before: &Env, amount: i128, from: Address)
    requires
        env.extends(before),
        !(BlendStrategy::spec_deposit(before, amount, from) matches Err(Halt::Ask(_))),
    ensures
        BlendStrategy::spec_deposit(env, amount, from) == BlendStrategy::spec_deposit(
            before,
            amount,
            from,
        ),
{
}

/// A deposit ends after at most thirteen calls.
#[verifier::rlimit(60)]
#[verifier::spinoff_prover]
pub proof fn law_deposit_bounded(env: &Env, amount: i128, from: Address)
    requires
        env.replies@.len() >= 13,
    ensures
        !(BlendStrategy::spec_deposit(env, amount, from) matches Err(Halt::Ask(_))),
{
}

/// A withdrawal that has ended stays as it is, whatever else the host says.
#[verifier::rlimit(60)]
#[verifier::spinoff_prover]
pub proof fn law_withdraw_ends(env: &Env, before: &Env, amount: i128, from: Address, to: Address)
    requires
        env.extends(before),
        !(BlendStrategy::spec_withdraw(before, amount, from, to) matches Err(Halt::Ask(_))),
    ensures
        BlendStrategy::spec_withdraw(env, amount, from, to) == BlendStrategy::spec_withdraw(
            before,
            amount,
            from,
            to,
        ),
{
}

/// A withdrawal ends after at most ten calls.
#[verifier::rlimit(60)]
#[verifier::spinoff_prover]
pub proof fn law_withdraw_bounded(env: &Env, amount: i128, from: Address, to: Address)
    requires
        env.replies@.len() >= 10,
    ensures
        !(BlendStrategy::spec_withdraw(env, amount, from, to) matches Err(Halt::Ask(_))),
{
}

/// A request for a balance that has ended stays as it is, whatever else the host says.
pub proof fn law_balance_ends(env: &Env, before: &Env, from: Address)
    requires
        env.extends(before),
        !(BlendStrategy::spec_balance(before, from) matches Err(Halt::Ask(_))),
    ensures
        BlendStrategy::spec_balance(env, from) == BlendStrategy::spec_balance(before, from),
{
}

/// A request for a balance ends after at most five calls.
pub proof fn law_balance_bounded(env: &Env, from: Address)
    requires
        env.replies@.len() >= 5,
    ensures
        !(BlendStrategy::spec_balance(env, from) matches Err(Halt::Ask(_))),
{
}

/// A harvest that has ended stays as it is, whatever else the host says.
#[verifier::rlimit(60)]
#[verifier::spinoff_prover]
pub proof fn law_harvest_ends(env: &Env, before: &Env, from: Address, data: &Option<Vec<u8>>)
    requires
        env.extends(before),
        !(BlendStrategy::spec_harvest(before, from, data) matches Err(Halt::Ask(_))),
    ensures
        BlendStrategy::spec_harvest(env, from, data) == BlendStrategy::spec_harvest(
            before,
            from,
            data,
        ),
{
}

/// A harvest ends after at most fifteen calls.
#[verifier::rlimit(60)]
#[verifier::spinoff_prover]
pub proof fn law_harvest_bounded(env: &Env, from: Address, data: &Option<Vec<u8>>)
    requires
        env.replies@.len() >= 15,
    ensures
        !(BlendStrategy::spec_harvest(env, from, data) matches Err(Halt::Ask(_))),
{
}

/// A change of keeper that has ended stays as it is, whatever else the host says.
pub proof fn law_set_keeper_ends(env: &Env, before: &Env, new_keeper: Address)
    requires
        env.extends(before),
        !(BlendStrategy::spec_set_keeper(before, new_keeper) matches Err(Halt::Ask(_))),
    ensures
        BlendStrategy::spec_set_keeper(env, new_keeper) == BlendStrategy::spec_set_keeper(
            before,
            new_keeper,
        ),
{
}

/// A change of keeper ends after at most four calls.
pub proof fn law_set_keeper_bounded(env: &Env, new_keeper: Address)
    requires
        env.replies@.len() >= 4,
    ensures
        !(BlendStrategy::spec_set_keeper(env, new_keeper) matches Err(Halt::Ask(_))),
{
}

/// A request for the keeper that has ended stays as it is, whatever else the host says.
pub proof fn law_get_keeper_ends(env: &Env, before: &Env)
    requires
        env.extends(before),
        !(BlendStrategy::spec_get_keeper(before) matches Err(Halt::Ask(_))),
    ensures
        BlendStrategy::spec_get_keeper(env) == BlendStrategy::spec_get_keeper(before),
{
}

/// A request for the keeper ends after at most two calls.
pub proof fn law_get_keeper_bounded(env: &Env)
    requires
        env.replies@.len() >= 2,
    ensures
        !(BlendStrategy::spec_get_keeper(env) matches Err(Halt::Ask(_))),
{
}

} // verus!
