use crate::address::{Address, Authorization, Val};
use crate::aquarius::aquarius_pool;
use crate::aquarius::aquarius_pool::{min_with_slippage, position_value, BPS};
use crate::aquarius::calls::{Call, Env};
use crate::aquarius::contract::{last_index, AquariusStrategy, STRATEGY_NAME};
use crate::aquarius::storage::{
    get_shares, load_config, set_shares, StorageKey, StrategyConfig, MAX_SLIPPAGE_BPS,
};
use crate::arith::{half, to_signed, to_unsigned};
use crate::attribution::{lemma_sum_after_insert, shares_of, sum_of_shares};
use crate::error::StrategyError;
use crate::position::{lemma_parts_are_nonnegative, pool_value, shares_to_burn};
use crate::rounding::{lemma_floor, lemma_floor_largest, lemma_floor_monotone};
use crate::session::{Halt, Reply};
use vstd::prelude::*;

verus! {

/// Whether a call leaves everything as it is, but for the life of storage.
pub open spec fn reads_only(call: Call) -> bool {
    match call {
        Call::InstanceHas { .. } => true,
        Call::InstanceGet { .. } => true,
        Call::InstanceExtendTtl { .. } => true,
        Call::PersistentGet { .. } => true,
        Call::PersistentExtendTtl { .. } => true,
        Call::TokenBalance { .. } => true,
        Call::PoolTokens { .. } => true,
        Call::PoolShareId { .. } => true,
        Call::PoolEstimateSwap { .. } => true,
        Call::PoolReserves { .. } => true,
        Call::PoolTotalShares { .. } => true,
        Call::PoolEstimateDeposit { .. } => true,
        _ => false,
    }
}

/// Asking for the asset or for a balance changes nothing.
pub proof fn law_queries_change_nothing(env: &Env, from: Address, call: Call)
    ensures
        AquariusStrategy::spec_asset(env) == Err::<Address, Halt<Call>>(Halt::Ask(call))
            ==> reads_only(call),
        AquariusStrategy::spec_balance(env, from) == Err::<i128, Halt<Call>>(Halt::Ask(call))
            ==> reads_only(call),
{
}

/// An amount that is not positive is refused, in every state of the host and
/// before anything is asked of it.
pub proof fn law_only_positive_amounts(env: &Env, amount: i128, from: Address, to: Address)
    requires
        amount <= 0,
    ensures
        AquariusStrategy::spec_deposit(env, amount, from) == Err::<i128, Halt<Call>>(
            Halt::Error(StrategyError::OnlyPositiveAmountAllowed),
        ),
        AquariusStrategy::spec_withdraw(env, amount, from, to) == Err::<i128, Halt<Call>>(
            Halt::Error(StrategyError::OnlyPositiveAmountAllowed),
        ),
{
}

/// Whether a call stores nothing but, if anything, the shares of `vault`.
pub open spec fn stores_only_shares_of(call: Call, vault: Address) -> bool {
    match call {
        Call::InstanceSet { .. } => false,
        Call::PersistentSet { key, .. } => key == StorageKey::ShareTokens(vault),
        _ => true,
    }
}

/// A deposit stores nothing but the shares of the vault that it is for, and
/// pays nothing out.
pub proof fn law_deposit_touches_own_vault(env: &Env, amount: i128, from: Address, call: Call)
    requires
        AquariusStrategy::spec_deposit(env, amount, from) == Err::<i128, Halt<Call>>(
            Halt::Ask(call),
        ),
    ensures
        stores_only_shares_of(call, from),
        call !is TokenTransfer,
{
}

/// Valuing shares only reads.
proof fn lemma_valuing_reads(
    env: &Env,
    at: usize,
    vault_shares: i128,
    config: &StrategyConfig,
    call: Call,
)
    ensures
        aquarius_pool::shares_value_in_deposit(env, at, vault_shares, config) == Err::<
            (i128, usize),
            Halt<Call>,
        >(Halt::Ask(call)) ==> reads_only(call),
{
}

/// Whether a call stores nothing, and pays nothing out but `token`, from
/// `contract` to `to`.
pub open spec fn pays_only(call: Call, contract: Address, token: Address, to: Address) -> bool {
    &&& call !is InstanceSet
    &&& call !is PersistentSet
    &&& call matches Call::TokenTransfer { token: paid_in, from, to: receiver, amount } ==> {
        &&& paid_in == token
        &&& from == contract
        &&& receiver == to
        &&& amount > 0
    }
}

/// Taking liquidity out of the pool stores nothing, and pays the deposit token
/// to the receiver named.
proof fn lemma_pool_withdrawal_pays(
    env: &Env,
    at: usize,
    burnt: i128,
    to: Address,
    config: &StrategyConfig,
    call: Call,
)
    ensures
        aquarius_pool::withdraw(env, at, burnt, to, config) == Err::<(i128, usize), Halt<Call>>(
            Halt::Ask(call),
        ) ==> pays_only(call, env.contract, config.deposit_token, to),
{
}

/// A withdrawal stores nothing but the shares of the vault that it is for, and
/// pays nothing out but the deposit token, to the receiver named.
#[verifier::rlimit(60)]
#[verifier::spinoff_prover]
pub proof fn law_withdraw_touches_own_vault(
    env: &Env,
    amount: i128,
    from: Address,
    to: Address,
    call: Call,
)
    requires
        AquariusStrategy::spec_withdraw(env, amount, from, to) == Err::<i128, Halt<Call>>(
            Halt::Ask(call),
        ),
    ensures
        stores_only_shares_of(call, from),
        call matches Call::TokenTransfer { token, from: payer, to: receiver, amount: paid } ==> {
            &&& env.replies@[0] matches Reply::Config(Some(config))
            &&& token == config.deposit_token
            &&& payer == env.contract
            &&& receiver == to
            &&& paid > 0
        },
{
    if let Ok((config, at)) = load_config(env, 0) {
        if let Ok((held, at)) = get_shares(env, at, from) {
            lemma_valuing_reads(env, at, held, &config, call);
            if let Ok((worth, at)) = aquarius_pool::shares_value_in_deposit(
                env,
                at,
                held,
                &config,
            ) {
                if let Ok(burnt) = shares_to_burn(held, amount, worth) {
                    lemma_pool_withdrawal_pays(env, at, burnt, to, &config, call);
                    if let Ok((_, at)) = aquarius_pool::withdraw(env, at, burnt, to, &config) {
                        if let Ok(set) = set_shares(env, at, from, (held - burnt) as i128) {
                            if let Ok((rest, at)) = get_shares(env, (set + 1) as usize, from) {
                                lemma_valuing_reads(env, at, rest, &config, call);
                            }
                        }
                    }
                }
            }
        }
    }
}

/// A harvest stores nothing. It pays nothing out but the AQUA that the pool
/// paid on the claim, to the vault, and that is what it reports.
pub proof fn law_harvest_forwards_rewards(env: &Env, from: Address, call: Call)
    requires
        AquariusStrategy::spec_harvest(env, from) == Err::<(), Halt<Call>>(Halt::Ask(call)),
    ensures
        call !is InstanceSet,
        call !is PersistentSet,
        call matches Call::TokenTransfer { token, from: payer, to: receiver, amount } ==> {
            &&& env.replies@[0] matches Reply::Config(Some(config))
            &&& env.replies@[1] matches Reply::Unsigned(claimed)
            &&& token == config.aqua_token
            &&& payer == env.contract
            &&& receiver == from
            &&& amount == to_signed(claimed)
        },
        call matches Call::EmitHarvest { strategy, amount, from: vault, .. } ==> {
            &&& env.replies@[1] matches Reply::Unsigned(claimed)
            &&& strategy == STRATEGY_NAME
            &&& amount == to_signed(claimed)
            &&& vault == from
        },
{
}

/// Whether `later` asks anew for the balance of a vault, and gets the replies
/// that `env` got from `at` on.
pub open spec fn asks_again(later: &Env, env: &Env, at: int) -> bool {
    &&& 0 < env.replies@.len()
    &&& 0 <= at <= env.replies@.len()
    &&& later.replies@.len() == 1 + env.replies@.len() - at
    &&& later.replies@[0] == env.replies@[0]
    &&& forall|i: int|
        1 <= i < later.replies@.len() ==> #[trigger] later.replies@[i] == env.replies@[at + i - 1]
}

/// The balance that a request gets from the replies of `env` from `at` on.
proof fn lemma_balance_of_replies(env: &Env, later: &Env, at: usize, from: Address)
    requires
        asks_again(later, env, at as int),
    ensures
        ({
            let loaded = load_config(env, 0);
            let shares = get_shares(env, at, from);
            let value = aquarius_pool::shares_value_in_deposit(
                env,
                shares->Ok_0.1,
                shares->Ok_0.0,
                &loaded->Ok_0.0,
            );
            loaded is Ok && shares is Ok && value is Ok ==> AquariusStrategy::spec_balance(
                later,
                from,
            ) == Ok::<i128, Halt<Call>>(value->Ok_0.0)
        }),
{
    assert(env.replies@.len() == env.replies.len());
}

/// What a deposit returns is the balance of the vault: where the host answers
/// a request for it as it answered at the end of the deposit, the two agree.
#[verifier::rlimit(60)]
#[verifier::spinoff_prover]
pub proof fn law_deposit_returns_balance(
    env: &Env,
    later: &Env,
    amount: i128,
    from: Address,
    value: i128,
)
    requires
        AquariusStrategy::spec_deposit(env, amount, from) == Ok::<i128, Halt<Call>>(value),
        ({
            let (config, after_config) = load_config(env, 0)->Ok_0;
            let (minted, after_pool) = aquarius_pool::deposit(
                env,
                after_config,
                amount,
                &config,
            )->Ok_0;
            let (prev, after_shares) = get_shares(env, after_pool, from)->Ok_0;
            asks_again(later, env, after_shares + 3)
        }),
    ensures
        AquariusStrategy::spec_balance(later, from) == Ok::<i128, Halt<Call>>(value),
{
    let (config, after_config) = load_config(env, 0)->Ok_0;
    let (minted, after_pool) = aquarius_pool::deposit(env, after_config, amount, &config)->Ok_0;
    let (prev, after_shares) = get_shares(env, after_pool, from)->Ok_0;
    let at = (after_shares + 3) as usize;
    let (shares, after_read) = get_shares(env, at, from)->Ok_0;
    assert(get_shares(env, at, from) is Ok);
    let valued = aquarius_pool::shares_value_in_deposit(env, after_read, shares, &config);
    assert(valued is Ok && valued->Ok_0.0 == value);
    lemma_balance_of_replies(env, later, at, from);
}

/// What a withdrawal returns is the remaining balance of the vault: where the
/// host answers a request for it as it answered at the end of the withdrawal,
/// the two agree.
#[verifier::rlimit(60)]
#[verifier::spinoff_prover]
pub proof fn law_withdraw_returns_balance(
    env: &Env,
    later: &Env,
    amount: i128,
    from: Address,
    to: Address,
    value: i128,
)
    requires
        AquariusStrategy::spec_withdraw(env, amount, from, to) == Ok::<i128, Halt<Call>>(value),
        ({
            let (config, after_config) = load_config(env, 0)->Ok_0;
            let (held, after_shares) = get_shares(env, after_config, from)->Ok_0;
            let (worth, after_value) = aquarius_pool::shares_value_in_deposit(
                env,
                after_shares,
                held,
                &config,
            )->Ok_0;
            let (_, after_pool) = aquarius_pool::withdraw(
                env,
                after_value,
                shares_to_burn(held, amount, worth)->Ok_0,
                to,
                &config,
            )->Ok_0;
            asks_again(later, env, after_pool + 3)
        }),
    ensures
        AquariusStrategy::spec_balance(later, from) == Ok::<i128, Halt<Call>>(value),
{
    let (config, after_config) = load_config(env, 0)->Ok_0;
    let (held, after_shares) = get_shares(env, after_config, from)->Ok_0;
    let (worth, after_value) = aquarius_pool::shares_value_in_deposit(
        env,
        after_shares,
        held,
        &config,
    )->Ok_0;
    let (_, after_pool) = aquarius_pool::withdraw(
        env,
        after_value,
        shares_to_burn(held, amount, worth)->Ok_0,
        to,
        &config,
    )->Ok_0;
    let at = (after_pool + 3) as usize;
    let (rest, after_rest) = get_shares(env, at, from)->Ok_0;
    assert(get_shares(env, at, from) is Ok);
    assert(aquarius_pool::shares_value_in_deposit(env, after_rest, rest, &config) matches Ok((v, _))
        && v == value);
    lemma_balance_of_replies(env, later, at, from);
}

/// Where a script goes on that reads `stored` next, and extends the life of the
/// entry if it is positive.
pub open spec fn after_stored_read(reading: &Env, stored: i128) -> usize {
    (reading.replies@.len() + if stored > 0 {
        2int
    } else {
        1
    }) as usize
}

/// A deposit returns the value of what it has stored: where the read at its end
/// finds the share tokens that it stored, which are those that the vault had and
/// those minted, it returns what they are worth then.
#[verifier::rlimit(60)]
#[verifier::spinoff_prover]
pub proof fn law_deposit_returns_value_of_stored(
    env: &Env,
    setting: &Env,
    reading: &Env,
    amount: i128,
    from: Address,
    value: i128,
    key: StorageKey,
    stored: i128,
)
    requires
        AquariusStrategy::spec_deposit(env, amount, from) == Ok::<i128, Halt<Call>>(value),
        env.extends(setting),
        AquariusStrategy::spec_deposit(setting, amount, from) == Err::<i128, Halt<Call>>(
            Halt::Ask(Call::PersistentSet { key, value: stored }),
        ),
        env.extends(reading),
        reading.replies@.len() == setting.replies@.len() + 3,
        env.replies@[reading.replies@.len() as int] == Reply::<StrategyConfig>::Stored(
            Some(stored),
        ),
    ensures
        AquariusStrategy::spec_deposit(reading, amount, from) == Err::<i128, Halt<Call>>(
            Halt::Ask(Call::PersistentGet { key }),
        ),
        ({
            let (config, after_config) = load_config(env, 0)->Ok_0;
            let (minted, after_pool) = aquarius_pool::deposit(
                env,
                after_config,
                amount,
                &config,
            )->Ok_0;
            let (prev, _) = get_shares(env, after_pool, from)->Ok_0;
            let after_read = after_stored_read(reading, stored);
            let valued = aquarius_pool::shares_value_in_deposit(env, after_read, stored, &config);
            &&& stored == prev + minted
            &&& valued is Ok
            &&& valued->Ok_0.0 == value
        }),
{
    assert(env.replies@.len() == env.replies.len());
}

/// How a withdrawal came to store the rest of the shares: the configuration, the
/// shares that the vault had with where the script went on, how many of them
/// were burnt with where it went on from their valuation, and the rest.
proof fn lemma_withdraw_before_storing(
    setting: &Env,
    amount: i128,
    from: Address,
    to: Address,
    key: StorageKey,
    stored: i128,
) -> (r: (StrategyConfig, (i128, usize), (i128, usize), (i128, usize)))
    requires
        AquariusStrategy::spec_withdraw(setting, amount, from, to) == Err::<i128, Halt<Call>>(
            Halt::Ask(Call::PersistentSet { key, value: stored }),
        ),
    ensures
        load_config(setting, 0) == Ok::<(StrategyConfig, usize), Halt<Call>>((r.0, 1)),
        get_shares(setting, 1, from) == Ok::<(i128, usize), Halt<Call>>(r.1),
        aquarius_pool::shares_value_in_deposit(setting, r.1.1, r.1.0, &r.0) == Ok::<
            (i128, usize),
            Halt<Call>,
        >(r.2),
        r.1.0 != 0,
        r.2.0 != 0,
        shares_to_burn(r.1.0, amount, r.2.0) == Ok::<i128, StrategyError>(r.3.0),
        aquarius_pool::withdraw(setting, r.2.1, r.3.0, to, &r.0) matches Ok((_, next))
            && next == r.3.1,
        r.3.1 == setting.replies@.len(),
        stored == r.1.0 - r.3.0,
        key == StorageKey::ShareTokens(from),
        amount > 0,
{
    let (config, at) = load_config(setting, 0)->Ok_0;
    let (held, at) = get_shares(setting, at, from)->Ok_0;
    let (worth, after_value) = aquarius_pool::shares_value_in_deposit(
        setting,
        at,
        held,
        &config,
    )->Ok_0;
    lemma_valuing_reads(
        setting,
        at,
        held,
        &config,
        Call::PersistentSet { key, value: stored },
    );
    let burnt = shares_to_burn(held, amount, worth)->Ok_0;
    lemma_pool_withdrawal_pays(
        setting,
        after_value,
        burnt,
        to,
        &config,
        Call::PersistentSet { key, value: stored },
    );
    let (_, after_pool) = aquarius_pool::withdraw(setting, after_value, burnt, to, &config)->Ok_0;
    assert(setting.replies@.len() == setting.replies.len());
    (config, (held, at), (worth, after_value), (burnt, after_pool))
}

/// A withdrawal returns the value of what it has stored: where the read at its
/// end finds the share tokens that it stored, which are those that the vault had
/// less those burnt, it returns what they are worth then.
#[verifier::rlimit(60)]
#[verifier::spinoff_prover]
pub proof fn law_withdraw_returns_value_of_stored(
    env: &Env,
    setting: &Env,
    reading: &Env,
    amount: i128,
    from: Address,
    to: Address,
    value: i128,
    key: StorageKey,
    stored: i128,
)
    requires
        AquariusStrategy::spec_withdraw(env, amount, from, to) == Ok::<i128, Halt<Call>>(value),
        env.extends(setting),
        AquariusStrategy::spec_withdraw(setting, amount, from, to) == Err::<i128, Halt<Call>>(
            Halt::Ask(Call::PersistentSet { key, value: stored }),
        ),
        env.extends(reading),
        reading.replies@.len() == setting.replies@.len() + 3,
        env.replies@[reading.replies@.len() as int] == Reply::<StrategyConfig>::Stored(
            Some(stored),
        ),
    ensures
        AquariusStrategy::spec_withdraw(reading, amount, from, to) == Err::<i128, Halt<Call>>(
            Halt::Ask(Call::PersistentGet { key }),
        ),
        ({
            let (config, after_config) = load_config(env, 0)->Ok_0;
            let (held, after_shares) = get_shares(env, after_config, from)->Ok_0;
            let (worth_before, _) = aquarius_pool::shares_value_in_deposit(
                env,
                after_shares,
                held,
                &config,
            )->Ok_0;
            let after_read = after_stored_read(reading, stored);
            let valued = aquarius_pool::shares_value_in_deposit(env, after_read, stored, &config);
            &&& stored == held - shares_to_burn(held, amount, worth_before)->Ok_0
            &&& valued is Ok
            &&& valued->Ok_0.0 == value
        }),
{
    assert(env.replies@.len() == env.replies.len());
    let (config, held, worth, burnt) = lemma_withdraw_before_storing(
        setting,
        amount,
        from,
        to,
        key,
        stored,
    );
    lemma_valuing_ends(env, setting, held.1, held.0, &config);
    lemma_valuing_ends(reading, setting, held.1, held.0, &config);
    lemma_pool_withdrawal_ends(env, setting, worth.1, burnt.0, to, &config);
    lemma_pool_withdrawal_ends(reading, setting, worth.1, burnt.0, to, &config);
    assert(load_config(env, 0) == load_config(setting, 0));
    assert(load_config(reading, 0) == load_config(setting, 0));
    assert(get_shares(env, 1, from) == get_shares(setting, 1, from));
    assert(get_shares(reading, 1, from) == get_shares(setting, 1, from));
}

/// A construction that has ended stays as it is, whatever else the host says.
pub proof fn law_constructor_ends(env: &Env, before: &Env, asset: Address, init_args: &Vec<Val>)
    requires
        env.extends(before),
        !(AquariusStrategy::spec_constructor(before, asset, init_args) matches Err(Halt::Ask(_))),
    ensures
        AquariusStrategy::spec_constructor(env, asset, init_args)
            == AquariusStrategy::spec_constructor(before, asset, init_args),
{
}

/// A construction ends after at most five calls.
pub proof fn law_constructor_bounded(env: &Env, asset: Address, init_args: &Vec<Val>)
    requires
        env.replies@.len() >= 5,
    ensures
        !(AquariusStrategy::spec_constructor(env, asset, init_args) matches Err(Halt::Ask(_))),
{
}

/// A change of the slippage tolerance that has ended stays as it is, whatever else the host says.
pub proof fn law_update_slippage_ends(
    env: &Env,
    before: &Env,
    admin: Address,
    new_slippage_bps: u32,
)
    requires
        env.extends(before),
        !(AquariusStrategy::spec_update_slippage(before, admin, new_slippage_bps) matches Err(
            Halt::Ask(_),
        )),
    ensures
        AquariusStrategy::spec_update_slippage(env, admin, new_slippage_bps)
            == AquariusStrategy::spec_update_slippage(before, admin, new_slippage_bps),
{
}

/// A change of the slippage tolerance ends after at most four calls.
pub proof fn law_update_slippage_bounded(env: &Env, admin: Address, new_slippage_bps: u32)
    requires
        env.replies@.len() >= 4,
    ensures
        !(AquariusStrategy::spec_update_slippage(env, admin, new_slippage_bps) matches Err(
            Halt::Ask(_),
        )),
{
}

/// A sweep that has ended stays as it is, whatever else the host says.
pub proof fn law_sweep_ends(
    env: &Env,
    before: &Env,
    admin: Address,
    token: Address,
    to: Address,
    amount: i128,
)
    requires
        env.extends(before),
        !(AquariusStrategy::spec_sweep(before, admin, token, to, amount) matches Err(Halt::Ask(_))),
    ensures
        AquariusStrategy::spec_sweep(env, admin, token, to, amount) == AquariusStrategy::spec_sweep(
            before,
            admin,
            token,
            to,
            amount,
        ),
{
}

/// A sweep ends after at most three calls.
pub proof fn law_sweep_bounded(env: &Env, admin: Address, token: Address, to: Address, amount: i128)
    requires
        env.replies@.len() >= 3,
    ensures
        !(AquariusStrategy::spec_sweep(env, admin, token, to, amount) matches Err(Halt::Ask(_))),
{
}

/// A deposit that has ended stays as it is, whatever else the host says.
#[verifier::rlimit(60)]
#[verifier::spinoff_prover]
pub proof fn law_deposit_ends(env: &Env, before: &Env, amount: i128, from: Address)
    requires
        env.extends(before),
        !(AquariusStrategy::spec_deposit(before, amount, from) matches Err(Halt::Ask(_))),
    ensures
        AquariusStrategy::spec_deposit(env, amount, from) == AquariusStrategy::spec_deposit(
            before,
            amount,
            from,
        ),
{
}

/// A deposit ends after at most nineteen calls.
#[verifier::rlimit(60)]
#[verifier::spinoff_prover]
pub proof fn law_deposit_bounded(env: &Env, amount: i128, from: Address)
    requires
        env.replies@.len() >= 19,
    ensures
        !(AquariusStrategy::spec_deposit(env, amount, from) matches Err(Halt::Ask(_))),
{
}

/// A valuation that has ended stays as it is.
proof fn lemma_valuing_ends(
    env: &Env,
    before: &Env,
    at: usize,
    vault_shares: i128,
    config: &StrategyConfig,
)
    requires
        env.extends(before),
    ensures
        ({
            let value = aquarius_pool::shares_value_in_deposit(before, at, vault_shares, config);
            value matches Err(Halt::Ask(_)) || aquarius_pool::shares_value_in_deposit(
                env,
                at,
                vault_shares,
                config,
            ) == value
        }),
{
}

/// Liquidity that has been taken out of the pool stays out.
proof fn lemma_pool_withdrawal_ends(
    env: &Env,
    before: &Env,
    at: usize,
    burnt: i128,
    to: Address,
    config: &StrategyConfig,
)
    requires
        env.extends(before),
    ensures
        ({
            let paid = aquarius_pool::withdraw(before, at, burnt, to, config);
            paid matches Err(Halt::Ask(_)) || aquarius_pool::withdraw(env, at, burnt, to, config)
                == paid
        }),
{
}

/// A withdrawal that has ended stays as it is, whatever else the host says.
#[verifier::rlimit(60)]
#[verifier::spinoff_prover]
pub proof fn law_withdraw_ends(env: &Env, before: &Env, amount: i128, from: Address, to: Address)
    requires
        env.extends(before),
        !(AquariusStrategy::spec_withdraw(before, amount, from, to) matches Err(Halt::Ask(_))),
    ensures
        AquariusStrategy::spec_withdraw(env, amount, from, to) == AquariusStrategy::spec_withdraw(
            before,
            amount,
            from,
            to,
        ),
{
    if let Ok((config, at)) = load_config(before, 0) {
        if let Ok((held, at)) = get_shares(before, at, from) {
            lemma_valuing_ends(env, before, at, held, &config);
            if let Ok((worth, at)) = aquarius_pool::shares_value_in_deposit(
                before,
                at,
                held,
                &config,
            ) {
                if let Ok(burnt) = shares_to_burn(held, amount, worth) {
                    lemma_pool_withdrawal_ends(env, before, at, burnt, to, &config);
                    if let Ok((_, at)) = aquarius_pool::withdraw(before, at, burnt, to, &config) {
                        if let Ok(set) = set_shares(before, at, from, (held - burnt) as i128) {
                            if let Ok((rest, at)) = get_shares(before, (set + 1) as usize, from) {
                                lemma_valuing_ends(env, before, at, rest, &config);
                            }
                        }
                    }
                }
            }
        }
    }
}

/// A withdrawal ends after at most twenty calls.
#[verifier::rlimit(60)]
#[verifier::spinoff_prover]
pub proof fn law_withdraw_bounded(env: &Env, amount: i128, from: Address, to: Address)
    requires
        env.replies@.len() >= 20,
    ensures
        !(AquariusStrategy::spec_withdraw(env, amount, from, to) matches Err(Halt::Ask(_))),
{
}

/// A request for a balance that has ended stays as it is, whatever else the host says.
pub proof fn law_balance_ends(env: &Env, before: &Env, from: Address)
    requires
        env.extends(before),
        !(AquariusStrategy::spec_balance(before, from) matches Err(Halt::Ask(_))),
    ensures
        AquariusStrategy::spec_balance(env, from) == AquariusStrategy::spec_balance(before, from),
{
}

/// A request for a balance ends after at most five calls.
pub proof fn law_balance_bounded(env: &Env, from: Address)
    requires
        env.replies@.len() >= 5,
    ensures
        !(AquariusStrategy::spec_balance(env, from) matches Err(Halt::Ask(_))),
{
}

/// A harvest that has ended stays as it is, whatever else the host says.
pub proof fn law_harvest_ends(env: &Env, before: &Env, from: Address)
    requires
        env.extends(before),
        !(AquariusStrategy::spec_harvest(before, from) matches Err(Halt::Ask(_))),
    ensures
        AquariusStrategy::spec_harvest(env, from) == AquariusStrategy::spec_harvest(before, from),
{
}

/// A harvest ends after at most eight calls.
pub proof fn law_harvest_bounded(env: &Env, from: Address)
    requires
        env.replies@.len() >= 8,
    ensures
        !(AquariusStrategy::spec_harvest(env, from) matches Err(Halt::Ask(_))),
{
}

/// A deposit stores the shares that the vault had and those that the pool
/// minted for it, together.
pub proof fn law_deposit_adds_what_was_minted(
    env: &Env,
    amount: i128,
    from: Address,
    key: StorageKey,
    value: i128,
)
    requires
        AquariusStrategy::spec_deposit(env, amount, from) == Err::<i128, Halt<Call>>(
            Halt::Ask(Call::PersistentSet { key, value }),
        ),
    ensures
        ({
            let (config, after_config) = load_config(env, 0)->Ok_0;
            let (minted, after_pool) = aquarius_pool::deposit(
                env,
                after_config,
                amount,
                &config,
            )->Ok_0;
            let (prev, _) = get_shares(env, after_pool, from)->Ok_0;
            value == prev + minted
        }),
{
}

/// A withdrawal burns a positive number of the shares of the vault and no more
/// than it has, and stores the rest.
#[verifier::rlimit(60)]
#[verifier::spinoff_prover]
pub proof fn law_withdraw_subtracts_what_is_burnt(
    env: &Env,
    amount: i128,
    from: Address,
    to: Address,
    key: StorageKey,
    value: i128,
)
    requires
        AquariusStrategy::spec_withdraw(env, amount, from, to) == Err::<i128, Halt<Call>>(
            Halt::Ask(Call::PersistentSet { key, value }),
        ),
    ensures
        ({
            let (config, after_config) = load_config(env, 0)->Ok_0;
            let (held, after_shares) = get_shares(env, after_config, from)->Ok_0;
            let (worth, _) = aquarius_pool::shares_value_in_deposit(
                env,
                after_shares,
                held,
                &config,
            )->Ok_0;
            let burnt = shares_to_burn(held, amount, worth)->Ok_0;
            &&& value == held - burnt
            &&& held > 0 && worth > 0 ==> 0 < burnt <= held
        }),
{
    let (config, after_config) = load_config(env, 0)->Ok_0;
    let (held, after_shares) = get_shares(env, after_config, from)->Ok_0;
    let (worth, _) = aquarius_pool::shares_value_in_deposit(
        env,
        after_shares,
        held,
        &config,
    )->Ok_0;
    if held > 0 && worth > 0 {
        crate::position::law_burn_is_proportional(held, amount, worth);
    }
}

/// Where all share tokens that the strategy holds are attributed to its vaults, that
/// stays so in a deposit: what it brings is attributed to its vault.
#[verifier::rlimit(60)]
#[verifier::spinoff_prover]
pub proof fn law_deposit_keeps_attribution(
    env: &Env,
    vaults: Map<Address, i128>,
    amount: i128,
    from: Address,
    key: StorageKey,
    value: i128,
)
    requires
        AquariusStrategy::spec_deposit(env, amount, from) == Err::<i128, Halt<Call>>(
            Halt::Ask(Call::PersistentSet { key, value }),
        ),
        vaults.dom().finite(),
        env.replies@[6]->Amount_0 == sum_of_shares(vaults),
        get_shares(env, 10, from)->Ok_0.0 == shares_of(vaults, from),
    ensures
        sum_of_shares(vaults.insert(from, value)) == env.replies@[9]->Amount_0,
{
    lemma_sum_after_insert(vaults, from, value);
}

/// A withdrawal takes as many share tokens off those attributed to its vault as it
/// has burnt, and leaves the other vaults theirs.
#[verifier::rlimit(60)]
#[verifier::spinoff_prover]
pub proof fn law_withdraw_keeps_attribution(
    env: &Env,
    burning: &Env,
    vaults: Map<Address, i128>,
    amount: i128,
    from: Address,
    to: Address,
    key: StorageKey,
    value: i128,
    call: Call,
)
    requires
        AquariusStrategy::spec_withdraw(env, amount, from, to) == Err::<i128, Halt<Call>>(
            Halt::Ask(Call::PersistentSet { key, value }),
        ),
        env.extends(burning),
        AquariusStrategy::spec_withdraw(burning, amount, from, to) == Err::<i128, Halt<Call>>(
            Halt::Ask(call),
        ),
        call is PoolWithdraw,
        vaults.dom().finite(),
        get_shares(env, 1, from)->Ok_0.0 == shares_of(vaults, from),
    ensures
        call matches Call::PoolWithdraw { shares, .. } && sum_of_shares(
            vaults.insert(from, value),
        ) == sum_of_shares(vaults) - to_signed(shares),
{
    lemma_sum_after_insert(vaults, from, value);
}

/// Only a caller that the host has authorized as the configured admin can
/// change the slippage tolerance or sweep tokens: whatever goes beyond asking
/// for that authorization and for the configuration comes after both.
pub proof fn law_admin_only(
    env: &Env,
    admin: Address,
    new_slippage_bps: u32,
    token: Address,
    to: Address,
    amount: i128,
    call: Call,
)
    requires
        AquariusStrategy::spec_update_slippage(env, admin, new_slippage_bps) == Err::<
            (),
            Halt<Call>,
        >(Halt::Ask(call)) || AquariusStrategy::spec_sweep(env, admin, token, to, amount) == Err::<
            (),
            Halt<Call>,
        >(Halt::Ask(call)),
    ensures
        env.replies@.len() == 0 ==> call == (Call::RequireAuth { address: admin }),
        env.replies@.len() == 1 ==> call == (Call::InstanceGet { key: StorageKey::Config }),
        env.replies@.len() > 1 ==> {
            &&& env.replies@[0] == Reply::<StrategyConfig>::Done
            &&& env.replies@[1] matches Reply::Config(Some(config))
            &&& config.admin == admin
        },
{
}

/// A change of the slippage tolerance keeps the rest of the configuration, and
/// the new tolerance is within the limit. So both token indices stay 0 or 1.
pub proof fn law_update_changes_slippage_only(
    env: &Env,
    admin: Address,
    new_slippage_bps: u32,
    key: StorageKey,
    config: StrategyConfig,
)
    requires
        AquariusStrategy::spec_update_slippage(env, admin, new_slippage_bps) == Err::<
            (),
            Halt<Call>,
        >(Halt::Ask(Call::InstanceSet { key, config })),
    ensures
        key == StorageKey::Config,
        config.max_slippage_bps == new_slippage_bps <= MAX_SLIPPAGE_BPS,
        env.replies@[1] matches Reply::Config(Some(before)) && config == (StrategyConfig {
            max_slippage_bps: new_slippage_bps,
            ..before
        }) && (before.well_formed() ==> config.well_formed()),
{
}

/// The strategy is set up once: where a configuration is stored already, the
/// constructor aborts and stores nothing.
pub proof fn law_initialized_once(env: &Env, asset: Address, init_args: &Vec<Val>)
    requires
        env.replies@.len() > 0,
        env.replies@[0] == Reply::<StrategyConfig>::Flag(true),
    ensures
        AquariusStrategy::spec_constructor(env, asset, init_args) == Err::<(), Halt<Call>>(
            Halt::Abort(StrategyError::InvalidArgument),
        ),
{
}

/// `last_index` gives an index at which the address stands, the last one.
pub proof fn law_last_index(tokens: Seq<Address>, address: Address)
    ensures
        match last_index(tokens, address) {
            Some(idx) => {
                &&& 0 <= idx < tokens.len()
                &&& tokens[idx] == address
                &&& forall|i: int| idx < i < tokens.len() ==> tokens[i] != address
            },
            None => !tokens.contains(address),
        },
    decreases tokens.len(),
{
    if tokens.len() > 0 && tokens.last() != address {
        law_last_index(tokens.drop_last(), address);
        assert(forall|i: int|
            0 <= i < tokens.len() - 1 ==> tokens.drop_last()[i] == #[trigger] tokens[i]);
        if last_index(tokens.drop_last(), address) is None && tokens.contains(address) {
            let i = choose|i: int| 0 <= i < tokens.len() && tokens[i] == address;
            assert(tokens.drop_last()[i] == address);
        }
    }
}

/// The configuration that the constructor stores is consistent: the indices
/// are those of the two tokens in the list of the pool, each 0 or 1, the
/// slippage tolerance is within the limit, and the contract is its own admin.
pub proof fn law_constructed_config(
    env: &Env,
    asset: Address,
    init_args: &Vec<Val>,
    key: StorageKey,
    config: StrategyConfig,
)
    requires
        AquariusStrategy::spec_constructor(env, asset, init_args) == Err::<(), Halt<Call>>(
            Halt::Ask(Call::InstanceSet { key, config }),
        ),
    ensures
        key == StorageKey::Config,
        env.replies@[0] == Reply::<StrategyConfig>::Flag(false),
        config.deposit_token == asset,
        config.deposit_token_idx <= 1,
        config.pair_token_idx <= 1,
        config.max_slippage_bps <= MAX_SLIPPAGE_BPS,
        config.well_formed(),
        config.admin == env.contract,
        init_args@[0] == Val::Address(config.pool),
        init_args@[1] == Val::Address(config.pair_token),
        init_args@[2] == Val::Address(config.aqua_token),
        init_args@[3] == Val::U32(config.max_slippage_bps),
        env.replies@[2] == Reply::<StrategyConfig>::Account(config.share_token),
        env.replies@[1] matches Reply::Accounts(tokens) && config.deposit_token_idx < tokens@.len()
            && tokens@[config.deposit_token_idx as int] == asset && config.pair_token_idx
            < tokens@.len() && tokens@[config.pair_token_idx as int] == config.pair_token,
{
    let tokens = env.replies@[1]->Accounts_0;
    law_last_index(tokens@, asset);
    law_last_index(tokens@, config.pair_token);
}

/// Whether what a call takes from the strategy is just what the strategy asked
/// to authorize with the call before: for a swap the transfer of what goes in,
/// for an addition of liquidity both transfers, for a removal the burn.
pub open spec fn authorized(
    call: Call,
    earlier: Result<(i128, usize), Halt<Call>>,
    config: &StrategyConfig,
    contract: Address,
) -> bool {
    match call {
        Call::PoolSwap { pool, in_idx, in_amount, .. } => {
            &&& earlier matches Err(Halt::Ask(Call::Authorize { entry: Authorization::Transfer {
                token,
                from,
                to,
                amount,
            } }))
            &&& token == config.deposit_token && in_idx == config.deposit_token_idx || token
                == config.pair_token && in_idx == config.pair_token_idx
            &&& from == contract
            &&& to == pool
            &&& to_unsigned(amount) == in_amount
        },
        Call::PoolDeposit { pool, amounts, .. } => {
            &&& earlier matches Err(
                Halt::Ask(
                    Call::AuthorizeBoth {
                        first: Authorization::Transfer {
                            token: token1,
                            from: from1,
                            to: to1,
                            amount: amount1,
                        },
                        second: Authorization::Transfer {
                            token: token2,
                            from: from2,
                            to: to2,
                            amount: amount2,
                        },
                    },
                ),
            )
            &&& token1 == config.deposit_token && token2 == config.pair_token
            &&& from1 == contract && from2 == contract
            &&& to1 == pool && to2 == pool
            &&& amounts == aquarius_pool::in_pool_order(
                config,
                to_unsigned(amount1),
                to_unsigned(amount2),
            )
        },
        Call::PoolWithdraw { shares, .. } => {
            &&& earlier matches Err(Halt::Ask(Call::Authorize { entry: Authorization::Burn {
                token,
                from,
                amount,
            } }))
            &&& token == config.share_token
            &&& from == contract
            &&& to_unsigned(amount) == shares
        },
        _ => true,
    }
}

/// A deposit authorizes the pool to take just what is deposited: one half for
/// the swap and the other beside what the swap brought, no more of which goes
/// in than came out. The halves differ by no more than one.
pub proof fn law_deposit_spends_amount(
    env: &Env,
    at: usize,
    amount: i128,
    config: &StrategyConfig,
    call: Call,
)
    requires
        amount > 0,
        aquarius_pool::deposit(env, at, amount, config) == Err::<(i128, usize), Halt<Call>>(
            Halt::Ask(call),
        ),
    ensures
        0 <= half(amount) <= amount - half(amount) <= half(amount) + 1,
        call matches Call::Authorize { entry } ==> entry == (Authorization::Transfer {
            token: config.deposit_token,
            from: env.contract,
            to: config.pool,
            amount: half(amount),
        }),
        call matches Call::AuthorizeBoth { first, second } ==> {
            &&& first == (Authorization::Transfer {
                token: config.deposit_token,
                from: env.contract,
                to: config.pool,
                amount: (amount - half(amount)) as i128,
            })
            &&& second matches Authorization::Transfer { token, from, to, amount: of_pair }
            &&& token == config.pair_token && from == env.contract && to == config.pool
            &&& env.replies@[at + 2] matches Reply::Unsigned(received)
            &&& of_pair <= to_signed(received)
        },
{
}

/// In a deposit, what the pool takes from the strategy has been authorized
/// just before.
pub proof fn law_deposit_authorized(
    env: &Env,
    before: &Env,
    at: usize,
    amount: i128,
    config: &StrategyConfig,
    call: Call,
)
    requires
        env.follows(before),
        aquarius_pool::deposit(env, at, amount, config) == Err::<(i128, usize), Halt<Call>>(
            Halt::Ask(call),
        ),
    ensures
        authorized(
            call,
            aquarius_pool::deposit(before, at, amount, config),
            config,
            env.contract,
        ),
{
}

/// In a withdrawal, what the pool takes from the strategy has been authorized
/// just before.
pub proof fn law_withdraw_authorized(
    env: &Env,
    before: &Env,
    at: usize,
    shares_to_burn: i128,
    to: Address,
    config: &StrategyConfig,
    call: Call,
)
    requires
        env.follows(before),
        aquarius_pool::withdraw(env, at, shares_to_burn, to, config) == Err::<
            (i128, usize),
            Halt<Call>,
        >(Halt::Ask(call)),
    ensures
        authorized(
            call,
            aquarius_pool::withdraw(before, at, shares_to_burn, to, config),
            config,
            env.contract,
        ),
{
}

/// As long as the product fits, the least that is acceptable is what is
/// expected less the tolerance, rounded down: never above what is expected,
/// and just that at no tolerance.
pub proof fn law_slippage_is_a_fraction(expected: u128, slippage_bps: u32)
    requires
        slippage_bps <= BPS,
        expected * (BPS - slippage_bps) <= u128::MAX,
    ensures
        ({
            let least = min_with_slippage(expected, slippage_bps);
            &&& least <= expected
            &&& least * BPS <= expected * (BPS - slippage_bps) < (least + 1) * BPS
            &&& slippage_bps == 0 ==> least == expected
        }),
{
    let kept = BPS - slippage_bps;
    lemma_floor(expected * kept, BPS as int);
    assert(expected * kept <= expected * BPS && expected * kept >= 0) by (nonlinear_arith)
        requires
            0 <= kept <= BPS,
    ;
    let q = (expected * kept) / (BPS as int);
    assert(q <= expected) by (nonlinear_arith)
        requires
            q * BPS <= expected * kept,
            expected * kept <= expected * BPS,
            BPS == 10_000,
    ;
    lemma_floor_largest(expected * kept, BPS as int, 0);
    if slippage_bps == 0 {
        lemma_floor_largest(expected * kept, BPS as int, expected as int);
    }
}

/// More is acceptable at least where more is expected, and at most where more
/// slippage is tolerated.
pub proof fn law_slippage_is_monotone(
    expected1: u128,
    expected2: u128,
    slippage_bps1: u32,
    slippage_bps2: u32,
)
    requires
        expected1 <= expected2,
        slippage_bps2 <= slippage_bps1 <= BPS,
        expected2 * (BPS - slippage_bps2) <= u128::MAX,
    ensures
        min_with_slippage(expected1, slippage_bps1) <= min_with_slippage(expected2, slippage_bps2),
{
    let kept1 = BPS - slippage_bps1;
    let kept2 = BPS - slippage_bps2;
    assert(0 <= expected1 * kept1 <= expected2 * kept2) by (nonlinear_arith)
        requires
            0 <= expected1 <= expected2,
            0 <= kept1 <= kept2,
    ;
    law_slippage_is_a_fraction(expected1, slippage_bps1);
    law_slippage_is_a_fraction(expected2, slippage_bps2);
    lemma_floor_monotone(expected1 * kept1, expected2 * kept2, BPS as int);
}

/// Wherever its value fits, a position is valued at its part of the deposit
/// reserve and its part of the pair reserve at the spot price.
pub proof fn law_position_value(
    shares: u128,
    total_shares: u128,
    reserve_deposit: u128,
    reserve_pair: u128,
)
    requires
        shares <= i128::MAX,
        total_shares > 0,
        reserve_pair > 0,
        pool_value(
            shares as int,
            total_shares as int,
            reserve_deposit as int,
            reserve_pair as int,
        ) <= i128::MAX,
    ensures
        position_value(shares, total_shares, reserve_deposit, reserve_pair) == Some(
            pool_value(
                shares as int,
                total_shares as int,
                reserve_deposit as int,
                reserve_pair as int,
            ) as i128,
        ),
{
    lemma_parts_are_nonnegative(
        shares as int,
        total_shares as int,
        reserve_deposit as int,
        reserve_pair as int,
    );
}

} // verus!
