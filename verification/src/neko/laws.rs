use crate::address::{Address, Authorization, Val};
use crate::arith::smaller;
use crate::attribution::{lemma_sum_after_insert, shares_of, sum_of_shares};
use crate::error::StrategyError;
use crate::neko::contract::{
    at_rate, b_tokens_for, underlying_for, NekoStrategy, STRATEGY_NAME,
};
use crate::rounding::{lemma_floor, lemma_floor_largest};
use crate::rwa_lending::calls::{Call, Env};
use crate::rwa_lending::storage::{get_b_tokens, StorageKey, StrategyConfig, SCALAR_12};
use crate::session::{Halt, Reply};
use vstd::prelude::*;

verus! {

/// Whether a call leaves everything as it is, but for the life of storage.
pub open spec fn reads_only(call: Call) -> bool {
    match call {
        Call::InstanceHas { .. } => true,
        Call::InstanceGet { .. } => true,
        Call::InstanceExtendTtl { .. } => true,
        Call::PersistentGet { .. } => true,
        Call::PersistentExtendTtl { .. } => true,
        Call::LendingBTokenRate { .. } => true,
        _ => false,
    }
}

/// Asking for the asset or for a balance changes nothing.
pub proof fn law_queries_change_nothing(env: &Env, from: Address, call: Call)
    ensures
        NekoStrategy::spec_asset(env) == Err::<Address, Halt<Call>>(Halt::Ask(call)) ==> reads_only(
            call,
        ),
        NekoStrategy::spec_balance(env, from) == Err::<i128, Halt<Call>>(Halt::Ask(call))
            ==> reads_only(call),
{
}

/// An amount that is not positive is refused, in every state of the host and
/// before anything is asked of it.
pub proof fn law_only_positive_amounts(env: &Env, amount: i128, from: Address, to: Address)
    requires
        amount <= 0,
    ensures
        NekoStrategy::spec_deposit(env, amount, from) == Err::<i128, Halt<Call>>(
            Halt::Error(StrategyError::OnlyPositiveAmountAllowed),
        ),
        NekoStrategy::spec_withdraw(env, amount, from, to) == Err::<i128, Halt<Call>>(
            Halt::Error(StrategyError::OnlyPositiveAmountAllowed),
        ),
{
}

/// Whether a call stores nothing but, if anything, the b_tokens of `vault`.
pub open spec fn stores_only_b_tokens_of(call: Call, vault: Address) -> bool {
    match call {
        Call::InstanceSet { .. } => false,
        Call::PersistentSet { key, .. } => key == StorageKey::BTokens(vault),
        _ => true,
    }
}

/// A deposit stores nothing but the b_tokens of the vault that it is for, and
/// pays nothing out.
pub proof fn law_deposit_touches_own_vault(env: &Env, amount: i128, from: Address, call: Call)
    requires
        NekoStrategy::spec_deposit(env, amount, from) == Err::<i128, Halt<Call>>(Halt::Ask(call)),
    ensures
        stores_only_b_tokens_of(call, from),
        call !is TokenTransfer,
{
}

/// A withdrawal stores nothing but the b_tokens of the vault that it is for,
/// and pays nothing out but what the lending pool paid, to the receiver named.
pub proof fn law_withdraw_touches_own_vault(
    env: &Env,
    before: &Env,
    amount: i128,
    from: Address,
    to: Address,
    call: Call,
)
    requires
        env.follows(before),
        NekoStrategy::spec_withdraw(env, amount, from, to) == Err::<i128, Halt<Call>>(
            Halt::Ask(call),
        ),
    ensures
        stores_only_b_tokens_of(call, from),
        call matches Call::TokenTransfer { token, from: payer, to: receiver, amount: paid } ==> {
            &&& env.replies@[0] matches Reply::Config(Some(config))
            &&& token == config.asset
            &&& payer == env.contract
            &&& receiver == to
            &&& NekoStrategy::spec_withdraw(before, amount, from, to) matches Err(
                Halt::Ask(Call::LendingWithdraw { .. }),
            )
            &&& env.replies@.last() == Reply::<StrategyConfig>::Amount(paid)
        },
{
}

/// A harvest stores nothing and pays nothing out. It reports the rate of
/// b_tokens and no claimed amount.
pub proof fn law_harvest_only_reports(env: &Env, from: Address, call: Call)
    requires
        NekoStrategy::spec_harvest(env, from) == Err::<(), Halt<Call>>(Halt::Ask(call)),
    ensures
        reads_only(call) || call is EmitHarvest,
        call matches Call::EmitHarvest { strategy, amount, from: vault, price_per_share } ==> {
            &&& strategy == STRATEGY_NAME
            &&& amount == 0
            &&& vault == from
            &&& env.replies@[2] == Reply::<StrategyConfig>::Amount(price_per_share)
        },
{
}

/// A deposit stores the b_tokens that the vault had and those that the lending
/// pool minted for it, together.
pub proof fn law_deposit_adds_what_was_minted(
    env: &Env,
    amount: i128,
    from: Address,
    key: StorageKey,
    value: i128,
)
    requires
        NekoStrategy::spec_deposit(env, amount, from) == Err::<i128, Halt<Call>>(
            Halt::Ask(Call::PersistentSet { key, value }),
        ),
    ensures
        env.replies@[3] matches Reply::Amount(minted) && ({
            let (prev, _) = get_b_tokens(env, 4, from)->Ok_0;
            value == prev + minted
        }),
{
}

/// Of the b_tokens that a vault has, a withdrawal burns as many as `amount`
/// takes, or all of them if they do not suffice, and stores the rest.
pub proof fn law_withdraw_subtracts_what_is_burnt(
    env: &Env,
    amount: i128,
    from: Address,
    to: Address,
    key: StorageKey,
    value: i128,
)
    requires
        NekoStrategy::spec_withdraw(env, amount, from, to) == Err::<i128, Halt<Call>>(
            Halt::Ask(Call::PersistentSet { key, value }),
        ),
    ensures
        env.replies@[2] matches Reply::Amount(b_rate) && ({
            let (held, _) = get_b_tokens(env, 3, from)->Ok_0;
            let burnt = smaller(b_tokens_for(amount, b_rate)->Ok_0, held);
            &&& value == held - burnt
            &&& held > 0 && b_rate > 0 ==> 0 < burnt <= held
        }),
{
    let b_rate = env.replies@[2]->Amount_0;
    if b_rate > 0 {
        law_burn_covers_amount(amount, b_rate);
    }
}

/// A deposit adds as many b_tokens to those attributed to its vault as the
/// lending pool minted, and leaves the other vaults theirs: what is attributed
/// to all vaults together stays what the strategy has in the pool.
pub proof fn law_deposit_keeps_attribution(
    env: &Env,
    vaults: Map<Address, i128>,
    amount: i128,
    from: Address,
    key: StorageKey,
    value: i128,
)
    requires
        NekoStrategy::spec_deposit(env, amount, from) == Err::<i128, Halt<Call>>(
            Halt::Ask(Call::PersistentSet { key, value }),
        ),
        vaults.dom().finite(),
        get_b_tokens(env, 4, from)->Ok_0.0 == shares_of(vaults, from),
    ensures
        sum_of_shares(vaults.insert(from, value)) == sum_of_shares(vaults)
            + env.replies@[3]->Amount_0,
{
    lemma_sum_after_insert(vaults, from, value);
}

/// A withdrawal takes as many b_tokens off those attributed to its vault as it
/// has burnt, and leaves the other vaults theirs.
#[verifier::rlimit(60)]
#[verifier::spinoff_prover]
pub proof fn law_withdraw_keeps_attribution(
    env: &Env,
    burning: &Env,
    vaults: Map<Address, i128>,
    amount: i128,
    from: Address,
    to: Address,
    key: StorageKey,
    value: i128,
    call: Call,
)
    requires
        NekoStrategy::spec_withdraw(env, amount, from, to) == Err::<i128, Halt<Call>>(
            Halt::Ask(Call::PersistentSet { key, value }),
        ),
        env.extends(burning),
        NekoStrategy::spec_withdraw(burning, amount, from, to) == Err::<i128, Halt<Call>>(
            Halt::Ask(call),
        ),
        call is LendingWithdraw,
        vaults.dom().finite(),
        get_b_tokens(env, 3, from)->Ok_0.0 == shares_of(vaults, from),
    ensures
        call matches Call::LendingWithdraw { b_tokens, .. } && sum_of_shares(
            vaults.insert(from, value),
        ) == sum_of_shares(vaults) - b_tokens,
{
    lemma_sum_after_insert(vaults, from, value);
}

/// At a positive rate, a withdrawal of `amount` takes the smallest number of
/// b_tokens that is worth it: that many bring no less than `amount`, and one
/// fewer would be worth less.
pub proof fn law_burn_covers_amount(amount: i128, b_rate: i128)
    requires
        amount > 0,
        b_rate > 0,
    ensures
        match b_tokens_for(amount, b_rate) {
            Ok(b_tokens) => {
                &&& b_tokens > 0
                &&& (b_tokens - 1) * b_rate < amount * SCALAR_12 <= b_tokens * b_rate
                &&& underlying_for(b_tokens, b_rate) matches Ok(underlying) ==> underlying >= amount
            },
            Err(halt) => halt == Halt::<Call>::Error(StrategyError::ArithmeticError) && amount
                * SCALAR_12 + (b_rate - 1) > i128::MAX,
        },
{
    let scaled = amount * SCALAR_12;
    let raised = scaled + (b_rate - 1);
    let r = b_rate as int;
    let q = raised / r;
    lemma_floor(raised, r);
    assert((q - 1) * r < scaled <= q * r) by (nonlinear_arith)
        requires
            q * r <= raised < (q + 1) * r,
            raised == scaled + (r - 1),
    ;
    assert(0 < q <= raised) by (nonlinear_arith)
        requires
            scaled <= q * r <= raised,
            scaled > 0,
            r > 0,
    ;
    if q * r <= i128::MAX {
        lemma_floor_largest(q * r, SCALAR_12 as int, amount as int);
    }
}

/// Rounding down, b_tokens are never valued above what they are worth, and less
/// than one unit below it: no withdrawal takes from the other vaults. Where a
/// withdrawal computes their worth, it is the same value; there is no value
/// only where it does not fit.
pub proof fn law_underlying_rounds_down(b_tokens: i128, b_rate: i128)
    requires
        b_tokens >= 0,
        b_rate >= 0,
    ensures
        match at_rate(b_tokens, b_rate) {
            Some(underlying) => 0 <= underlying * SCALAR_12 <= b_tokens * b_rate < (underlying + 1)
                * SCALAR_12,
            None => b_tokens * b_rate >= (i128::MAX + 1) * SCALAR_12,
        },
        underlying_for(b_tokens, b_rate) matches Ok(underlying) ==> at_rate(b_tokens, b_rate)
            == Some(underlying),
        underlying_for(b_tokens, b_rate) is Err ==> b_tokens * b_rate > i128::MAX,
{
    assert(b_tokens * b_rate >= 0) by (nonlinear_arith)
        requires
            b_tokens >= 0,
            b_rate >= 0,
    ;
    lemma_floor(b_tokens * b_rate, SCALAR_12 as int);
    lemma_floor_largest(b_tokens * b_rate, SCALAR_12 as int, 0);
}

/// The strategy is set up once: where a configuration is stored already, the
/// constructor aborts and stores nothing.
pub proof fn law_initialized_once(env: &Env, asset: Address, init_args: &Vec<Val>)
    requires
        env.replies@.len() > 0,
        env.replies@[0] == Reply::<StrategyConfig>::Flag(true),
    ensures
        NekoStrategy::spec_constructor(env, asset, init_args) == Err::<(), Halt<Call>>(
            Halt::Abort(StrategyError::InvalidArgument),
        ),
{
}

/// The configuration that the constructor stores is what it was given.
pub proof fn law_constructed_config(
    env: &Env,
    asset: Address,
    init_args: &Vec<Val>,
    key: StorageKey,
    config: StrategyConfig,
)
    requires
        NekoStrategy::spec_constructor(env, asset, init_args) == Err::<(), Halt<Call>>(
            Halt::Ask(Call::InstanceSet { key, config }),
        ),
    ensures
        key == StorageKey::Config,
        env.replies@[0] == Reply::<StrategyConfig>::Flag(false),
        config.asset == asset,
        init_args@[0] == Val::Address(config.lending_pool),
        init_args@[1] == Val::Symbol(config.rwa_asset),
{
}

/// In a deposit, what the lending pool takes from the strategy has been
/// authorized just before.
pub proof fn law_deposit_authorized(
    env: &Env,
    before: &Env,
    amount: i128,
    from: Address,
    lending: Address,
    lender: Address,
    asset: crate::address::Symbol,
    lent: i128,
)
    requires
        env.follows(before),
        NekoStrategy::spec_deposit(env, amount, from) == Err::<i128, Halt<Call>>(
            Halt::Ask(Call::LendingDeposit { lending, lender, asset, amount: lent }),
        ),
    ensures
        lent == amount,
        lender == env.contract,
        env.replies@[0] matches Reply::Config(Some(config)) && NekoStrategy::spec_deposit(
            before,
            amount,
            from,
        ) == Err::<i128, Halt<Call>>(
            Halt::Ask(Call::Authorize { entry: Authorization::Transfer {
                token: config.asset,
                from: env.contract,
                to: lending,
                amount,
            } }),
        ),
{
}

/// In a withdrawal, the transfer of what the b_tokens come to has been
/// authorized just before they are burnt.
pub proof fn law_withdraw_authorized(
    env: &Env,
    before: &Env,
    amount: i128,
    from: Address,
    to: Address,
    lending: Address,
    lender: Address,
    asset: crate::address::Symbol,
    b_tokens: i128,
)
    requires
        env.follows(before),
        NekoStrategy::spec_withdraw(env, amount, from, to) == Err::<i128, Halt<Call>>(
            Halt::Ask(Call::LendingWithdraw { lending, lender, asset, b_tokens }),
        ),
    ensures
        lender == env.contract,
        env.replies@[0] matches Reply::Config(Some(config))
            && env.replies@[2] matches Reply::Amount(b_rate)
            && NekoStrategy::spec_withdraw(before, amount, from, to) == Err::<i128, Halt<Call>>(
            Halt::Ask(Call::Authorize { entry: Authorization::Transfer {
                token: config.asset,
                from: lending,
                to: env.contract,
                amount: underlying_for(b_tokens, b_rate)->Ok_0,
            } }),
        ),
{
}

/// Whether `later` asks anew for the balance of a vault, and gets the replies
/// that `env` got from `at` on.
pub open spec fn asks_again(later: &Env, env: &Env, at: int) -> bool {
    &&& 1 < env.replies@.len()
    &&& 0 <= at <= env.replies@.len()
    &&& later.replies@.len() == 2 + env.replies@.len() - at
    &&& later.replies@[0] == env.replies@[0]
    &&& later.replies@[1] == env.replies@[1]
    &&& forall|i: int|
        2 <= i < later.replies@.len() ==> #[trigger] later.replies@[i] == env.replies@[at + i - 2]
}

/// What a deposit returns is the balance of the vault: where the host answers
/// a request for it as it answered at the end of the deposit, the two agree.
pub proof fn law_deposit_returns_balance(
    env: &Env,
    later: &Env,
    amount: i128,
    from: Address,
    value: i128,
)
    requires
        NekoStrategy::spec_deposit(env, amount, from) == Ok::<i128, Halt<Call>>(value),
        asks_again(later, env, get_b_tokens(env, 4, from)->Ok_0.1 + 3),
    ensures
        NekoStrategy::spec_balance(later, from) == Ok::<i128, Halt<Call>>(value),
{
    assert(env.replies@.len() == env.replies.len());
}

/// What a withdrawal returns is the remaining balance of the vault: where the
/// host answers a request for it as it answered at the end of the withdrawal,
/// the two agree.
pub proof fn law_withdraw_returns_balance(
    env: &Env,
    later: &Env,
    amount: i128,
    from: Address,
    to: Address,
    value: i128,
)
    requires
        NekoStrategy::spec_withdraw(env, amount, from, to) == Ok::<i128, Halt<Call>>(value),
        asks_again(later, env, get_b_tokens(env, 3, from)->Ok_0.1 + 6),
    ensures
        NekoStrategy::spec_balance(later, from) == Ok::<i128, Halt<Call>>(value),
{
    assert(env.replies@.len() == env.replies.len());
}

/// What `stored` b_tokens are worth where `env` has the rate at `at`: nothing if
/// there are none.
pub open spec fn worth_at(env: &Env, at: int, stored: i128) -> i128 {
    if stored == 0 {
        0
    } else {
        at_rate(stored, env.replies@[at]->Amount_0).unwrap_or(0)
    }
}

/// A deposit returns the value of what it has stored: where the read at its end
/// finds the b_tokens that it stored, which are those that the vault had and
/// those minted, it returns what they come to at the rate then.
pub proof fn law_deposit_returns_value_of_stored(
    env: &Env,
    setting: &Env,
    reading: &Env,
    amount: i128,
    from: Address,
    value: i128,
    key: StorageKey,
    stored: i128,
)
    requires
        NekoStrategy::spec_deposit(env, amount, from) == Ok::<i128, Halt<Call>>(value),
        env.extends(setting),
        NekoStrategy::spec_deposit(setting, amount, from) == Err::<i128, Halt<Call>>(
            Halt::Ask(Call::PersistentSet { key, value: stored }),
        ),
        env.extends(reading),
        reading.replies@.len() == setting.replies@.len() + 3,
        env.replies@[reading.replies@.len() as int] == Reply::<StrategyConfig>::Stored(
            Some(stored),
        ),
    ensures
        NekoStrategy::spec_deposit(reading, amount, from) == Err::<i128, Halt<Call>>(
            Halt::Ask(Call::PersistentGet { key }),
        ),
        stored == get_b_tokens(env, 4, from)->Ok_0.0 + env.replies@[3]->Amount_0,
        value == worth_at(
            env,
            reading.replies@.len() + if stored > 0 {
                2int
            } else {
                1
            },
            stored,
        ),
{
    assert(env.replies@.len() == env.replies.len());
}

/// A withdrawal returns the value of what it has stored: where the read at its
/// end finds the b_tokens that it stored, which are those that the vault had
/// less those burnt, it returns what they come to at the rate then.
pub proof fn law_withdraw_returns_value_of_stored(
    env: &Env,
    setting: &Env,
    reading: &Env,
    amount: i128,
    from: Address,
    to: Address,
    value: i128,
    key: StorageKey,
    stored: i128,
)
    requires
        NekoStrategy::spec_withdraw(env, amount, from, to) == Ok::<i128, Halt<Call>>(value),
        env.extends(setting),
        NekoStrategy::spec_withdraw(setting, amount, from, to) == Err::<i128, Halt<Call>>(
            Halt::Ask(Call::PersistentSet { key, value: stored }),
        ),
        env.extends(reading),
        reading.replies@.len() == setting.replies@.len() + 3,
        env.replies@[reading.replies@.len() as int] == Reply::<StrategyConfig>::Stored(
            Some(stored),
        ),
    ensures
        NekoStrategy::spec_withdraw(reading, amount, from, to) == Err::<i128, Halt<Call>>(
            Halt::Ask(Call::PersistentGet { key }),
        ),
        ({
            let b_rate = env.replies@[2]->Amount_0;
            let held = get_b_tokens(env, 3, from)->Ok_0.0;
            stored == held - smaller(b_tokens_for(amount, b_rate)->Ok_0, held)
        }),
        value == worth_at(
            env,
            reading.replies@.len() + if stored > 0 {
                2int
            } else {
                1
            },
            stored,
        ),
{
    assert(env.replies@.len() == env.replies.len());
}

/// A construction that has ended stays as it is, whatever else the host says.
pub proof fn law_constructor_ends(env: &Env, before: &Env, asset: Address, init_args: &Vec<Val>)
    requires
        env.extends(before),
        !(NekoStrategy::spec_constructor(before, asset, init_args) matches Err(Halt::Ask(_))),
    ensures
        NekoStrategy::spec_constructor(env, asset, init_args) == NekoStrategy::spec_constructor(
            before,
            asset,
            init_args,
        ),
{
}

/// A construction ends after at most three calls.
pub proof fn law_constructor_bounded(env: &Env, asset: Address, init_args: &Vec<Val>)
    requires
        env.replies@.len() >= 3,
    ensures
        !(NekoStrategy::spec_constructor(env, asset, init_args) matches Err(Halt::Ask(_))),
{
}

/// A deposit that has ended stays as it is, whatever else the host says.
pub proof fn law_deposit_ends(env: &Env, before: &Env, amount: i128, from: Address)
    requires
        env.extends(before),
        !(NekoStrategy::spec_deposit(before, amount, from) matches Err(Halt::Ask(_))),
    ensures
        NekoStrategy::spec_deposit(env, amount, from) == NekoStrategy::spec_deposit(
            before,
            amount,
            from,
        ),
{
}

/// A deposit ends after at most twelve calls.
pub proof fn law_deposit_bounded(env: &Env, amount: i128, from: Address)
    requires
        env.replies@.len() >= 12,
    ensures
        !(NekoStrategy::spec_deposit(env, amount, from) matches Err(Halt::Ask(_))),
{
}

/// A withdrawal that has ended stays as it is, whatever else the host says.
pub proof fn law_withdraw_ends(env: &Env, before: &Env, amount: i128, from: Address, to: Address)
    requires
        env.extends(before),
        !(NekoStrategy::spec_withdraw(before, amount, from, to) matches Err(Halt::Ask(_))),
    ensures
        NekoStrategy::spec_withdraw(env, amount, from, to) == NekoStrategy::spec_withdraw(
            before,
            amount,
            from,
            to,
        ),
{
}

/// A withdrawal ends after at most fourteen calls.
pub proof fn law_withdraw_bounded(env: &Env, amount: i128, from: Address, to: Address)
    requires
        env.replies@.len() >= 14,
    ensures
        !(NekoStrategy::spec_withdraw(env, amount, from, to) matches Err(Halt::Ask(_))),
{
}

/// A request for a balance that has ended stays as it is, whatever else the host says.
pub proof fn law_balance_ends(env: &Env, before: &Env, from: Address)
    requires
        env.extends(before),
        !(NekoStrategy::spec_balance(before, from) matches Err(Halt::Ask(_))),
    ensures
        NekoStrategy::spec_balance(env, from) == NekoStrategy::spec_balance(before, from),
{
}

/// A request for a balance ends after at most five calls.
pub proof fn law_balance_bounded(env: &Env, from: Address)
    requires
        env.replies@.len() >= 5,
    ensures
        !(NekoStrategy::spec_balance(env, from) matches Err(Halt::Ask(_))),
{
}

/// A harvest that has ended stays as it is, whatever else the host says.
pub proof fn law_harvest_ends(env: &Env, before: &Env, from: Address)
    requires
        env.extends(before),
        !(NekoStrategy::spec_harvest(before, from) matches Err(Halt::Ask(_))),
    ensures
        NekoStrategy::spec_harvest(env, from) == NekoStrategy::spec_harvest(before, from),
{
}

/// A harvest ends after at most four calls.
pub proof fn law_harvest_bounded(env: &Env, from: Address)
    requires
        env.replies@.len() >= 4,
    ensures
        !(NekoStrategy::spec_harvest(env, from) matches Err(Halt::Ask(_))),
{
}

} // verus!
