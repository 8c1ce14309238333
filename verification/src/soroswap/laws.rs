use crate::address::{Address, Authorization, Val};
use crate::arith::{half, last_or_zero};
use crate::attribution::{lemma_sum_after_insert, shares_of, sum_of_shares};
use crate::error::StrategyError;
use crate::position::{lemma_parts_are_nonnegative, pool_value, shares_to_burn};
use crate::session::{Halt, Reply};
use crate::soroswap::calls::{Call, Env};
use crate::soroswap::contract::{SoroswapStrategy, STRATEGY_NAME};
use crate::soroswap::soroswap_pool;
use crate::soroswap::soroswap_pool::position_value;
use crate::soroswap::storage::{get_lp_tokens, load_config, StorageKey, StrategyConfig};
use vstd::prelude::*;

verus! {

/// Whether a call leaves everything as it is, but for the life of storage.
pub open spec fn reads_only(call: Call) -> bool {
    match call {
        Call::InstanceHas { .. } => true,
        Call::InstanceGet { .. } => true,
        Call::InstanceExtendTtl { .. } => true,
        Call::PersistentGet { .. } => true,
        Call::PersistentExtendTtl { .. } => true,
        Call::LedgerTimestamp => true,
        Call::RouterPairFor { .. } => true,
        Call::PairToken0 { .. } => true,
        Call::PairReserves { .. } => true,
        Call::PairTotalSupply { .. } => true,
        Call::PairBalance { .. } => true,
        _ => false,
    }
}

/// Asking for the asset or for a balance changes nothing.
pub proof fn law_queries_change_nothing(env: &Env, from: Address, call: Call)
    ensures
        SoroswapStrategy::spec_asset(env) == Err::<Address, Halt<Call>>(Halt::Ask(call))
            ==> reads_only(call),
        SoroswapStrategy::spec_balance(env, from) == Err::<i128, Halt<Call>>(Halt::Ask(call))
            ==> reads_only(call),
{
}

/// An amount that is not positive is refused, in every state of the host and
/// before anything is asked of it.
pub proof fn law_only_positive_amounts(env: &Env, amount: i128, from: Address, to: Address)
    requires
        amount <= 0,
    ensures
        SoroswapStrategy::spec_deposit(env, amount, from) == Err::<i128, Halt<Call>>(
            Halt::Error(StrategyError::OnlyPositiveAmountAllowed),
        ),
        SoroswapStrategy::spec_withdraw(env, amount, from, to) == Err::<i128, Halt<Call>>(
            Halt::Error(StrategyError::OnlyPositiveAmountAllowed),
        ),
{
}

/// Whether a call stores nothing but, if anything, the LP tokens of `vault`.
pub open spec fn stores_only_lp_of(call: Call, vault: Address) -> bool {
    match call {
        Call::InstanceSet { .. } => false,
        Call::PersistentSet { key, .. } => key == StorageKey::LpTokens(vault),
        _ => true,
    }
}

/// A deposit stores nothing but the LP tokens of the vault that it is for, and
/// pays nothing out.
pub proof fn law_deposit_touches_own_vault(env: &Env, amount: i128, from: Address, call: Call)
    requires
        SoroswapStrategy::spec_deposit(env, amount, from) == Err::<i128, Halt<Call>>(
            Halt::Ask(call),
        ),
    ensures
        stores_only_lp_of(call, from),
        call !is TokenTransfer,
{
}

/// A withdrawal stores nothing but the LP tokens of the vault that it is for, and
/// pays nothing out but token a, to the receiver named.
#[verifier::rlimit(60)]
#[verifier::spinoff_prover]
pub proof fn law_withdraw_touches_own_vault(
    env: &Env,
    amount: i128,
    from: Address,
    to: Address,
    call: Call,
)
    requires
        SoroswapStrategy::spec_withdraw(env, amount, from, to) == Err::<i128, Halt<Call>>(
            Halt::Ask(call),
        ),
    ensures
        stores_only_lp_of(call, from),
        call matches Call::TokenTransfer { token, from: payer, to: receiver, amount: paid } ==> {
            &&& env.replies@[0] matches Reply::Config(Some(config))
            &&& token == config.token_a
            &&& payer == env.contract
            &&& receiver == to
            &&& paid > 0
        },
{
}

/// A harvest stores nothing and pays nothing out. It reports no claimed amount.
pub proof fn law_harvest_only_reports(env: &Env, from: Address, call: Call)
    requires
        SoroswapStrategy::spec_harvest(env, from) == Err::<(), Halt<Call>>(Halt::Ask(call)),
    ensures
        reads_only(call) || call is EmitHarvest,
        call matches Call::EmitHarvest { strategy, amount, from: vault, .. } ==> strategy
            == STRATEGY_NAME && amount == 0 && vault == from,
{
}

/// Whether `later` asks anew for the balance of a vault, and gets the replies
/// that `env` got from `at` on.
pub open spec fn asks_again(later: &Env, env: &Env, at: int) -> bool {
    &&& 0 < env.replies@.len()
    &&& 0 <= at <= env.replies@.len()
    &&& later.replies@.len() == 1 + env.replies@.len() - at
    &&& later.replies@[0] == env.replies@[0]
    &&& forall|i: int|
        1 <= i < later.replies@.len() ==> #[trigger] later.replies@[i] == env.replies@[at + i - 1]
}

/// The balance that a request gets from the replies of `env` from `at` on.
proof fn lemma_balance_of_replies(env: &Env, later: &Env, at: usize, from: Address)
    requires
        asks_again(later, env, at as int),
    ensures
        ({
            let loaded = load_config(env, 0);
            let shares = get_lp_tokens(env, at, from);
            let value = soroswap_pool::lp_value_in_a(
                env,
                shares->Ok_0.1,
                shares->Ok_0.0,
                &loaded->Ok_0.0,
            );
            loaded is Ok && shares is Ok && value is Ok ==> SoroswapStrategy::spec_balance(
                later,
                from,
            ) == Ok::<i128, Halt<Call>>(value->Ok_0.0)
        }),
{
    assert(env.replies@.len() == env.replies.len());
}

/// What a deposit returns is the balance of the vault: where the host answers
/// a request for it as it answered at the end of the deposit, the two agree.
#[verifier::rlimit(60)]
#[verifier::spinoff_prover]
pub proof fn law_deposit_returns_balance(
    env: &Env,
    later: &Env,
    amount: i128,
    from: Address,
    value: i128,
)
    requires
        SoroswapStrategy::spec_deposit(env, amount, from) == Ok::<i128, Halt<Call>>(value),
        ({
            let (config, after_config) = load_config(env, 0)->Ok_0;
            let (minted, after_pool) = soroswap_pool::deposit(
                env,
                after_config,
                amount,
                &config,
            )->Ok_0;
            let (prev, after_shares) = get_lp_tokens(env, after_pool, from)->Ok_0;
            asks_again(later, env, after_shares + 3)
        }),
    ensures
        SoroswapStrategy::spec_balance(later, from) == Ok::<i128, Halt<Call>>(value),
{
    let (config, after_config) = load_config(env, 0)->Ok_0;
    let (minted, after_pool) = soroswap_pool::deposit(env, after_config, amount, &config)->Ok_0;
    let (prev, after_shares) = get_lp_tokens(env, after_pool, from)->Ok_0;
    let at = (after_shares + 3) as usize;
    let (shares, after_read) = get_lp_tokens(env, at, from)->Ok_0;
    assert(get_lp_tokens(env, at, from) is Ok);
    assert(soroswap_pool::lp_value_in_a(env, after_read, shares, &config) matches Ok((v, _))
        && v == value);
    lemma_balance_of_replies(env, later, at, from);
}

/// What a withdrawal returns is the remaining balance of the vault: where the
/// host answers a request for it as it answered at the end of the withdrawal,
/// the two agree.
#[verifier::rlimit(60)]
#[verifier::spinoff_prover]
pub proof fn law_withdraw_returns_balance(
    env: &Env,
    later: &Env,
    amount: i128,
    from: Address,
    to: Address,
    value: i128,
)
    requires
        SoroswapStrategy::spec_withdraw(env, amount, from, to) == Ok::<i128, Halt<Call>>(value),
        ({
            let (config, after_config) = load_config(env, 0)->Ok_0;
            let (held, after_shares) = get_lp_tokens(env, after_config, from)->Ok_0;
            let (worth, after_value) = soroswap_pool::lp_value_in_a(
                env,
                after_shares,
                held,
                &config,
            )->Ok_0;
            let (_, after_pool) = soroswap_pool::withdraw(
                env,
                after_value,
                shares_to_burn(held, amount, worth)->Ok_0,
                to,
                &config,
            )->Ok_0;
            asks_again(later, env, after_pool + 3)
        }),
    ensures
        SoroswapStrategy::spec_balance(later, from) == Ok::<i128, Halt<Call>>(value),
{
    let (config, after_config) = load_config(env, 0)->Ok_0;
    let (held, after_shares) = get_lp_tokens(env, after_config, from)->Ok_0;
    let (worth, after_value) = soroswap_pool::lp_value_in_a(
        env,
        after_shares,
        held,
        &config,
    )->Ok_0;
    let (_, after_pool) = soroswap_pool::withdraw(
        env,
        after_value,
        shares_to_burn(held, amount, worth)->Ok_0,
        to,
        &config,
    )->Ok_0;
    let at = (after_pool + 3) as usize;
    let (rest, after_rest) = get_lp_tokens(env, at, from)->Ok_0;
    assert(get_lp_tokens(env, at, from) is Ok);
    assert(soroswap_pool::lp_value_in_a(env, after_rest, rest, &config) matches Ok((v, _))
        && v == value);
    lemma_balance_of_replies(env, later, at, from);
}

/// Where a script goes on that reads `stored` next, and extends the life of the
/// entry if it is positive.
pub open spec fn after_stored_read(reading: &Env, stored: i128) -> usize {
    (reading.replies@.len() + if stored > 0 {
        2int
    } else {
        1
    }) as usize
}

/// A deposit returns the value of what it has stored: where the read at its end
/// finds the LP tokens that it stored, which are those that the vault had and
/// those minted, it returns what they are worth then.
#[verifier::rlimit(60)]
#[verifier::spinoff_prover]
pub proof fn law_deposit_returns_value_of_stored(
    env: &Env,
    setting: &Env,
    reading: &Env,
    amount: i128,
    from: Address,
    value: i128,
    key: StorageKey,
    stored: i128,
)
    requires
        SoroswapStrategy::spec_deposit(env, amount, from) == Ok::<i128, Halt<Call>>(value),
        env.extends(setting),
        SoroswapStrategy::spec_deposit(setting, amount, from) == Err::<i128, Halt<Call>>(
            Halt::Ask(Call::PersistentSet { key, value: stored }),
        ),
        env.extends(reading),
        reading.replies@.len() == setting.replies@.len() + 3,
        env.replies@[reading.replies@.len() as int] == Reply::<StrategyConfig>::Stored(
            Some(stored),
        ),
    ensures
        SoroswapStrategy::spec_deposit(reading, amount, from) == Err::<i128, Halt<Call>>(
            Halt::Ask(Call::PersistentGet { key }),
        ),
        ({
            let (config, after_config) = load_config(env, 0)->Ok_0;
            let (minted, after_pool) = soroswap_pool::deposit(
                env,
                after_config,
                amount,
                &config,
            )->Ok_0;
            let (prev, _) = get_lp_tokens(env, after_pool, from)->Ok_0;
            let after_read = after_stored_read(reading, stored);
            let valued = soroswap_pool::lp_value_in_a(env, after_read, stored, &config);
            &&& stored == prev + minted
            &&& valued is Ok
            &&& valued->Ok_0.0 == value
        }),
{
    assert(env.replies@.len() == env.replies.len());
}

/// A withdrawal returns the value of what it has stored: where the read at its
/// end finds the LP tokens that it stored, which are those that the vault had
/// less those burnt, it returns what they are worth then.
#[verifier::rlimit(60)]
#[verifier::spinoff_prover]
pub proof fn law_withdraw_returns_value_of_stored(
    env: &Env,
    setting: &Env,
    reading: &Env,
    amount: i128,
    from: Address,
    to: Address,
    value: i128,
    key: StorageKey,
    stored: i128,
)
    requires
        SoroswapStrategy::spec_withdraw(env, amount, from, to) == Ok::<i128, Halt<Call>>(value),
        env.extends(setting),
        SoroswapStrategy::spec_withdraw(setting, amount, from, to) == Err::<i128, Halt<Call>>(
            Halt::Ask(Call::PersistentSet { key, value: stored }),
        ),
        env.extends(reading),
        reading.replies@.len() == setting.replies@.len() + 3,
        env.replies@[reading.replies@.len() as int] == Reply::<StrategyConfig>::Stored(
            Some(stored),
        ),
    ensures
        SoroswapStrategy::spec_withdraw(reading, amount, from, to) == Err::<i128, Halt<Call>>(
            Halt::Ask(Call::PersistentGet { key }),
        ),
        ({
            let (config, after_config) = load_config(env, 0)->Ok_0;
            let (held, after_shares) = get_lp_tokens(env, after_config, from)->Ok_0;
            let (worth_before, _) = soroswap_pool::lp_value_in_a(
                env,
                after_shares,
                held,
                &config,
            )->Ok_0;
            let after_read = after_stored_read(reading, stored);
            let valued = soroswap_pool::lp_value_in_a(env, after_read, stored, &config);
            &&& stored == held - shares_to_burn(held, amount, worth_before)->Ok_0
            &&& valued is Ok
            &&& valued->Ok_0.0 == value
        }),
{
    assert(env.replies@.len() == env.replies.len());
}

/// A construction that has ended stays as it is, whatever else the host says.
pub proof fn law_constructor_ends(env: &Env, before: &Env, asset: Address, init_args: &Vec<Val>)
    requires
        env.extends(before),
        !(SoroswapStrategy::spec_constructor(before, asset, init_args) matches Err(Halt::Ask(_))),
    ensures
        SoroswapStrategy::spec_constructor(env, asset, init_args)
            == SoroswapStrategy::spec_constructor(before, asset, init_args),
{
}

/// A construction ends after at most four calls.
pub proof fn law_constructor_bounded(env: &Env, asset: Address, init_args: &Vec<Val>)
    requires
        env.replies@.len() >= 4,
    ensures
        !(SoroswapStrategy::spec_constructor(env, asset, init_args) matches Err(Halt::Ask(_))),
{
}

/// A deposit that has ended stays as it is, whatever else the host says.
#[verifier::rlimit(60)]
#[verifier::spinoff_prover]
pub proof fn law_deposit_ends(env: &Env, before: &Env, amount: i128, from: Address)
    requires
        env.extends(before),
        !(SoroswapStrategy::spec_deposit(before, amount, from) matches Err(Halt::Ask(_))),
    ensures
        SoroswapStrategy::spec_deposit(env, amount, from) == SoroswapStrategy::spec_deposit(
            before,
            amount,
            from,
        ),
{
}

/// A deposit ends after at most twenty calls.
#[verifier::rlimit(60)]
#[verifier::spinoff_prover]
pub proof fn law_deposit_bounded(env: &Env, amount: i128, from: Address)
    requires
        env.replies@.len() >= 20,
    ensures
        !(SoroswapStrategy::spec_deposit(env, amount, from) matches Err(Halt::Ask(_))),
{
}

/// A withdrawal that has ended stays as it is, whatever else the host says.
#[verifier::rlimit(60)]
#[verifier::spinoff_prover]
pub proof fn law_withdraw_ends(env: &Env, before: &Env, amount: i128, from: Address, to: Address)
    requires
        env.extends(before),
        !(SoroswapStrategy::spec_withdraw(before, amount, from, to) matches Err(Halt::Ask(_))),
    ensures
        SoroswapStrategy::spec_withdraw(env, amount, from, to) == SoroswapStrategy::spec_withdraw(
            before,
            amount,
            from,
            to,
        ),
{
}

/// A withdrawal ends after at most twenty calls.
#[verifier::rlimit(60)]
#[verifier::spinoff_prover]
pub proof fn law_withdraw_bounded(env: &Env, amount: i128, from: Address, to: Address)
    requires
        env.replies@.len() >= 20,
    ensures
        !(SoroswapStrategy::spec_withdraw(env, amount, from, to) matches Err(Halt::Ask(_))),
{
}

/// A request for a balance that has ended stays as it is, whatever else the host says.
pub proof fn law_balance_ends(env: &Env, before: &Env, from: Address)
    requires
        env.extends(before),
        !(SoroswapStrategy::spec_balance(before, from) matches Err(Halt::Ask(_))),
    ensures
        SoroswapStrategy::spec_balance(env, from) == SoroswapStrategy::spec_balance(before, from),
{
}

/// A request for a balance ends after at most six calls.
pub proof fn law_balance_bounded(env: &Env, from: Address)
    requires
        env.replies@.len() >= 6,
    ensures
        !(SoroswapStrategy::spec_balance(env, from) matches Err(Halt::Ask(_))),
{
}

/// A harvest that has ended stays as it is, whatever else the host says.
pub proof fn law_harvest_ends(env: &Env, before: &Env, from: Address)
    requires
        env.extends(before),
        !(SoroswapStrategy::spec_harvest(before, from) matches Err(Halt::Ask(_))),
    ensures
        SoroswapStrategy::spec_harvest(env, from) == SoroswapStrategy::spec_harvest(before, from),
{
}

/// A harvest ends after at most seven calls.
pub proof fn law_harvest_bounded(env: &Env, from: Address)
    requires
        env.replies@.len() >= 7,
    ensures
        !(SoroswapStrategy::spec_harvest(env, from) matches Err(Halt::Ask(_))),
{
}

/// A deposit stores the shares that the vault had and those that the pool
/// minted for it, together.
pub proof fn law_deposit_adds_what_was_minted(
    env: &Env,
    amount: i128,
    from: Address,
    key: StorageKey,
    value: i128,
)
    requires
        SoroswapStrategy::spec_deposit(env, amount, from) == Err::<i128, Halt<Call>>(
            Halt::Ask(Call::PersistentSet { key, value }),
        ),
    ensures
        ({
            let (config, after_config) = load_config(env, 0)->Ok_0;
            let (minted, after_pool) = soroswap_pool::deposit(
                env,
                after_config,
                amount,
                &config,
            )->Ok_0;
            let (prev, _) = get_lp_tokens(env, after_pool, from)->Ok_0;
            value == prev + minted
        }),
{
}

/// A withdrawal burns a positive number of the LP tokens of the vault and no more
/// than it has, and stores the rest.
#[verifier::rlimit(60)]
#[verifier::spinoff_prover]
pub proof fn law_withdraw_subtracts_what_is_burnt(
    env: &Env,
    amount: i128,
    from: Address,
    to: Address,
    key: StorageKey,
    value: i128,
)
    requires
        SoroswapStrategy::spec_withdraw(env, amount, from, to) == Err::<i128, Halt<Call>>(
            Halt::Ask(Call::PersistentSet { key, value }),
        ),
    ensures
        ({
            let (config, after_config) = load_config(env, 0)->Ok_0;
            let (held, after_shares) = get_lp_tokens(env, after_config, from)->Ok_0;
            let (worth, _) = soroswap_pool::lp_value_in_a(
                env,
                after_shares,
                held,
                &config,
            )->Ok_0;
            let burnt = shares_to_burn(held, amount, worth)->Ok_0;
            &&& value == held - burnt
            &&& held > 0 && worth > 0 ==> 0 < burnt <= held
        }),
{
    let (config, after_config) = load_config(env, 0)->Ok_0;
    let (held, after_shares) = get_lp_tokens(env, after_config, from)->Ok_0;
    let (worth, _) = soroswap_pool::lp_value_in_a(
        env,
        after_shares,
        held,
        &config,
    )->Ok_0;
    if held > 0 && worth > 0 {
        crate::position::law_burn_is_proportional(held, amount, worth);
    }
}

/// Where all LP tokens that the strategy holds are attributed to its vaults, that
/// stays so in a deposit: what it brings is attributed to its vault.
#[verifier::rlimit(60)]
#[verifier::spinoff_prover]
pub proof fn law_deposit_keeps_attribution(
    env: &Env,
    vaults: Map<Address, i128>,
    amount: i128,
    from: Address,
    key: StorageKey,
    value: i128,
)
    requires
        SoroswapStrategy::spec_deposit(env, amount, from) == Err::<i128, Halt<Call>>(
            Halt::Ask(Call::PersistentSet { key, value }),
        ),
        vaults.dom().finite(),
        env.replies@[6]->Amount_0 == sum_of_shares(vaults),
        get_lp_tokens(env, 10, from)->Ok_0.0 == shares_of(vaults, from),
    ensures
        sum_of_shares(vaults.insert(from, value)) == env.replies@[9]->Amount_0,
{
    lemma_sum_after_insert(vaults, from, value);
}

/// A withdrawal takes as many LP tokens off those attributed to its vault as it
/// has burnt, and leaves the other vaults theirs.
#[verifier::rlimit(60)]
#[verifier::spinoff_prover]
pub proof fn law_withdraw_keeps_attribution(
    env: &Env,
    burning: &Env,
    vaults: Map<Address, i128>,
    amount: i128,
    from: Address,
    to: Address,
    key: StorageKey,
    value: i128,
    call: Call,
)
    requires
        SoroswapStrategy::spec_withdraw(env, amount, from, to) == Err::<i128, Halt<Call>>(
            Halt::Ask(Call::PersistentSet { key, value }),
        ),
        env.extends(burning),
        SoroswapStrategy::spec_withdraw(burning, amount, from, to) == Err::<i128, Halt<Call>>(
            Halt::Ask(call),
        ),
        call is RouterRemoveLiquidity,
        vaults.dom().finite(),
        get_lp_tokens(env, 1, from)->Ok_0.0 == shares_of(vaults, from),
    ensures
        call matches Call::RouterRemoveLiquidity { liquidity, .. } && sum_of_shares(
            vaults.insert(from, value),
        ) == sum_of_shares(vaults) - liquidity,
{
    lemma_sum_after_insert(vaults, from, value);
}

/// The strategy is set up once: where a configuration is stored already, the
/// constructor aborts and stores nothing.
pub proof fn law_initialized_once(env: &Env, asset: Address, init_args: &Vec<Val>)
    requires
        env.replies@.len() > 0,
        env.replies@[0] == Reply::<StrategyConfig>::Flag(true),
    ensures
        SoroswapStrategy::spec_constructor(env, asset, init_args) == Err::<(), Halt<Call>>(
            Halt::Abort(StrategyError::InvalidArgument),
        ),
{
}

/// Whether what a call takes from the strategy is just what the strategy asked
/// to authorize with the call before: for a swap the transfer of what goes in,
/// for an addition of liquidity both transfers, for a removal that of the LP
/// tokens.
pub open spec fn authorized(
    call: Call,
    earlier: Result<(i128, usize), Halt<Call>>,
    config: &StrategyConfig,
    contract: Address,
) -> bool {
    match call {
        Call::RouterSwap { amount_in, path, .. } => earlier == Err::<(i128, usize), Halt<Call>>(
            Halt::Ask(Call::Authorize { entry: Authorization::Transfer {
                token: path.0,
                from: contract,
                to: config.pair,
                amount: amount_in,
            } }),
        ),
        Call::RouterAddLiquidity {
            token_a,
            token_b,
            amount_a_desired,
            amount_b_desired,
            ..
        } => earlier == Err::<(i128, usize), Halt<Call>>(
            Halt::Ask(Call::AuthorizeBoth {
                first: Authorization::Transfer {
                    token: token_a,
                    from: contract,
                    to: config.pair,
                    amount: amount_a_desired,
                },
                second: Authorization::Transfer {
                    token: token_b,
                    from: contract,
                    to: config.pair,
                    amount: amount_b_desired,
                },
            }),
        ),
        Call::RouterRemoveLiquidity { liquidity, .. } => earlier == Err::<
            (i128, usize),
            Halt<Call>,
        >(
            Halt::Ask(Call::Authorize { entry: Authorization::Transfer {
                token: config.pair,
                from: contract,
                to: config.pair,
                amount: liquidity,
            } }),
        ),
        _ => true,
    }
}

/// A deposit authorizes the pair to take just what is deposited: one half for
/// the swap and the other beside what the swap brought, no more of which goes
/// in than came out. The halves differ by no more than one.
pub proof fn law_deposit_spends_amount(
    env: &Env,
    at: usize,
    amount: i128,
    config: &StrategyConfig,
    call: Call,
)
    requires
        amount > 0,
        soroswap_pool::deposit(env, at, amount, config) == Err::<(i128, usize), Halt<Call>>(
            Halt::Ask(call),
        ),
    ensures
        0 <= half(amount) <= amount - half(amount) <= half(amount) + 1,
        call matches Call::Authorize { entry } ==> entry == (Authorization::Transfer {
            token: config.token_a,
            from: env.contract,
            to: config.pair,
            amount: half(amount),
        }),
        call matches Call::AuthorizeBoth { first, second } ==> {
            &&& first == (Authorization::Transfer {
                token: config.token_a,
                from: env.contract,
                to: config.pair,
                amount: (amount - half(amount)) as i128,
            })
            &&& second matches Authorization::Transfer { token, from, to, amount: of_b }
            &&& token == config.token_b && from == env.contract && to == config.pair
            &&& env.replies@[at + 2] matches Reply::Amounts(swap_out)
            &&& of_b <= last_or_zero(&swap_out)
        },
{
}

/// In a deposit, what the router takes from the strategy has been authorized
/// just before.
pub proof fn law_deposit_authorized(
    env: &Env,
    before: &Env,
    at: usize,
    amount: i128,
    config: &StrategyConfig,
    call: Call,
)
    requires
        env.follows(before),
        soroswap_pool::deposit(env, at, amount, config) == Err::<(i128, usize), Halt<Call>>(
            Halt::Ask(call),
        ),
    ensures
        authorized(
            call,
            soroswap_pool::deposit(before, at, amount, config),
            config,
            env.contract,
        ),
{
}

/// In a withdrawal, what the router takes from the strategy has been authorized
/// just before.
pub proof fn law_withdraw_authorized(
    env: &Env,
    before: &Env,
    at: usize,
    lp_to_burn: i128,
    to: Address,
    config: &StrategyConfig,
    call: Call,
)
    requires
        env.follows(before),
        soroswap_pool::withdraw(env, at, lp_to_burn, to, config) == Err::<
            (i128, usize),
            Halt<Call>,
        >(Halt::Ask(call)),
    ensures
        authorized(
            call,
            soroswap_pool::withdraw(before, at, lp_to_burn, to, config),
            config,
            env.contract,
        ),
{
}

/// The configuration that the constructor stores names the tokens and the
/// router that it was given, and the pair that the router has for them.
pub proof fn law_constructed_config(
    env: &Env,
    asset: Address,
    init_args: &Vec<Val>,
    key: StorageKey,
    config: StrategyConfig,
)
    requires
        SoroswapStrategy::spec_constructor(env, asset, init_args) == Err::<(), Halt<Call>>(
            Halt::Ask(Call::InstanceSet { key, config }),
        ),
    ensures
        key == StorageKey::Config,
        env.replies@[0] == Reply::<StrategyConfig>::Flag(false),
        config.token_a == asset,
        init_args@[0] == Val::Address(config.router),
        init_args@[1] == Val::Address(config.token_b),
        env.replies@[1] == Reply::<StrategyConfig>::Account(config.pair),
{
}

/// Wherever its value fits, a position is valued at its part of the reserve of
/// token a and its part of the reserve of token b at the spot price.
pub proof fn law_position_value(lp: i128, total_lp: i128, reserve_a: i128, reserve_b: i128)
    requires
        lp >= 0,
        total_lp > 0,
        reserve_a >= 0,
        reserve_b > 0,
        pool_value(lp as int, total_lp as int, reserve_a as int, reserve_b as int) <= i128::MAX,
    ensures
        position_value(lp, total_lp, reserve_a, reserve_b) == Some(
            pool_value(lp as int, total_lp as int, reserve_a as int, reserve_b as int) as i128,
        ),
{
    lemma_parts_are_nonnegative(lp as int, total_lp as int, reserve_a as int, reserve_b as int);
}

} // verus!
