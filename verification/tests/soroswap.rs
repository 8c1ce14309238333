use std::fmt::Debug;
use vault_strategies::address::{Address, Authorization, Val};
use vault_strategies::error::StrategyError;
use vault_strategies::session::{Halt, Reply};
use vault_strategies::soroswap::calls::{Call, Env};
use vault_strategies::soroswap::contract::SoroswapStrategy;
use vault_strategies::soroswap::storage::{StorageKey, StrategyConfig};

const STRATEGY: Address = Address::Contract { high: 3, low: 1 };
const VAULT: Address = Address::Contract { high: 3, low: 2 };
const RECEIVER: Address = Address::Account { high: 3, low: 3 };
const CONFIG: StrategyConfig = StrategyConfig {
    token_a: Address::Contract { high: 3, low: 4 },
    token_b: Address::Contract { high: 3, low: 5 },
    router: Address::Contract { high: 3, low: 6 },
    pair: Address::Contract { high: 3, low: 7 },
};
const KEY: StorageKey = StorageKey::LpTokens(VAULT);
const NOW: u64 = 1_700_000_000;

type Exchange = Vec<(Call, Reply<StrategyConfig>)>;

/// Runs a script against a host that expects these calls and gives these
/// replies, in order.
fn play<T: Debug>(
    script: impl Fn(&Env) -> Result<T, Halt<Call>>,
    exchange: Exchange,
) -> Result<T, Halt<Call>> {
    let mut session = Env::new(STRATEGY);
    for (expected, reply) in exchange {
        match script(&session) {
            Err(Halt::Ask(call)) => assert_eq!(call, expected),
            other => panic!("ended before {:?}: {:?}", expected, other),
        }
        session.resume(reply);
    }
    script(&session)
}

fn load() -> (Call, Reply<StrategyConfig>) {
    (Call::InstanceGet { key: StorageKey::Config }, Reply::Config(Some(CONFIG)))
}

fn extend() -> (Call, Reply<StrategyConfig>) {
    (
        Call::PersistentExtendTtl { key: KEY, threshold: 6_307_200, extend_to: 6_324_480 },
        Reply::Done,
    )
}

fn to_pair(token: Address, amount: i128) -> Authorization {
    Authorization::Transfer { token, from: STRATEGY, to: CONFIG.pair, amount }
}

fn lp_tokens(value: i128) -> Exchange {
    vec![(Call::PersistentGet { key: KEY }, Reply::Stored(Some(value))), extend()]
}

/// The pair lists the other token first.
fn pair_state(reserve_a: i128, reserve_b: i128) -> Exchange {
    vec![
        (Call::PairToken0 { pair: CONFIG.pair }, Reply::Account(CONFIG.token_b)),
        (Call::PairReserves { pair: CONFIG.pair }, Reply::Pair((reserve_b, reserve_a))),
    ]
}

fn valued(total: i128, reserve_a: i128, reserve_b: i128) -> Exchange {
    let mut exchange =
        vec![(Call::PairTotalSupply { pair: CONFIG.pair }, Reply::Amount(total))];
    exchange.extend(pair_state(reserve_a, reserve_b));
    exchange
}

fn swap(amount_in: i128, path: (Address, Address)) -> Call {
    Call::RouterSwap {
        router: CONFIG.router,
        amount_in,
        amount_out_min: 0,
        path,
        to: STRATEGY,
        deadline: NOW + 3_600,
    }
}

#[test]
fn soroswap_constructor_resolves_the_pair() {
    let args = vec![Val::Address(CONFIG.router), Val::Address(CONFIG.token_b)];
    let r = play(
        |env| SoroswapStrategy::__constructor(env, CONFIG.token_a, &args),
        vec![
            (Call::InstanceHas { key: StorageKey::Config }, Reply::Flag(false)),
            (
                Call::RouterPairFor {
                    router: CONFIG.router,
                    token_a: CONFIG.token_a,
                    token_b: CONFIG.token_b,
                },
                Reply::Account(CONFIG.pair),
            ),
            (Call::InstanceSet { key: StorageKey::Config, config: CONFIG }, Reply::Done),
            (Call::InstanceExtendTtl { threshold: 518_400, extend_to: 535_680 }, Reply::Done),
        ],
    );
    assert_eq!(r, Ok(()));
}

#[test]
fn soroswap_constructor_runs_once() {
    let args = vec![Val::Address(CONFIG.router), Val::Address(CONFIG.token_b)];
    let r = play(
        |env| SoroswapStrategy::__constructor(env, CONFIG.token_a, &args),
        vec![(Call::InstanceHas { key: StorageKey::Config }, Reply::Flag(true))],
    );
    assert_eq!(r, Err(Halt::Abort(StrategyError::InvalidArgument)));
}

#[test]
fn soroswap_constructor_needs_both_arguments() {
    let args = vec![Val::Address(CONFIG.router), Val::I128(4)];
    let r = play(
        |env| SoroswapStrategy::__constructor(env, CONFIG.token_a, &args),
        vec![(Call::InstanceHas { key: StorageKey::Config }, Reply::Flag(false))],
    );
    assert_eq!(r, Err(Halt::Abort(StrategyError::InvalidArgument)));
}

#[test]
fn soroswap_asset_is_token_a() {
    assert_eq!(play(SoroswapStrategy::asset, vec![load()]), Ok(CONFIG.token_a));
    let missing = vec![(Call::InstanceGet { key: StorageKey::Config }, Reply::Config(None))];
    assert_eq!(
        play(SoroswapStrategy::asset, missing),
        Err(Halt::Abort(StrategyError::NotInitialized)),
    );
}

fn deposit_exchange() -> Exchange {
    let balance = Call::PairBalance { pair: CONFIG.pair, holder: STRATEGY };
    let mut exchange = vec![
        load(),
        (Call::LedgerTimestamp, Reply::Time(NOW)),
        (Call::Authorize { entry: to_pair(CONFIG.token_a, 500) }, Reply::Done),
        (
            swap(500, (CONFIG.token_a, CONFIG.token_b)),
            Reply::Amounts(vec![500, 479]),
        ),
    ];
    exchange.extend(pair_state(10_000, 9_000));
    exchange.extend(vec![
        (balance, Reply::Amount(100)),
        (
            Call::AuthorizeBoth {
                first: to_pair(CONFIG.token_a, 501),
                second: to_pair(CONFIG.token_b, 450),
            },
            Reply::Done,
        ),
        (
            Call::RouterAddLiquidity {
                router: CONFIG.router,
                token_a: CONFIG.token_a,
                token_b: CONFIG.token_b,
                amount_a_desired: 501,
                amount_b_desired: 450,
                amount_a_min: 0,
                amount_b_min: 0,
                to: STRATEGY,
                deadline: NOW + 3_600,
            },
            Reply::Done,
        ),
        (balance, Reply::Amount(570)),
    ]);
    exchange.extend(lp_tokens(30));
    exchange.extend(vec![
        (Call::PersistentSet { key: KEY, value: 500 }, Reply::Done),
        extend(),
        (
            Call::EmitDeposit { strategy: "SoroswapStrategy", amount: 1_001, from: VAULT },
            Reply::Done,
        ),
    ]);
    exchange.extend(lp_tokens(500));
    exchange.extend(valued(1_000, 10_500, 9_450));
    exchange
}

#[test]
fn soroswap_deposit_swaps_half_and_adds_liquidity() {
    let r = play(|env| SoroswapStrategy::deposit(env, 1_001, VAULT), deposit_exchange());
    assert_eq!(r, Ok(10_500));
}

#[test]
fn soroswap_deposit_returns_the_balance() {
    let mut exchange = vec![load()];
    exchange.extend(lp_tokens(500));
    exchange.extend(valued(1_000, 10_500, 9_450));
    assert_eq!(play(|env| SoroswapStrategy::balance(env, VAULT), exchange), Ok(10_500));
}

#[test]
fn soroswap_deposit_that_has_ended_stays_as_it_is() {
    let mut session = Env::new(STRATEGY);
    for (_, reply) in deposit_exchange() {
        session.resume(reply);
    }
    assert_eq!(SoroswapStrategy::deposit(&session, 1_001, VAULT), Ok(10_500));
    session.resume(Reply::Done);
    assert_eq!(SoroswapStrategy::deposit(&session, 1_001, VAULT), Ok(10_500));
}

#[test]
fn soroswap_refuses_amounts_that_are_not_positive() {
    for amount in [0, -1, i128::MIN] {
        let deposit = play(|env| SoroswapStrategy::deposit(env, amount, VAULT), vec![]);
        assert_eq!(deposit, Err(Halt::Error(StrategyError::OnlyPositiveAmountAllowed)));
        let withdraw =
            play(|env| SoroswapStrategy::withdraw(env, amount, VAULT, RECEIVER), vec![]);
        assert_eq!(withdraw, Err(Halt::Error(StrategyError::OnlyPositiveAmountAllowed)));
    }
}

#[test]
fn soroswap_deposit_traps_at_the_end_of_time() {
    let r = play(
        |env| SoroswapStrategy::deposit(env, 1_001, VAULT),
        vec![load(), (Call::LedgerTimestamp, Reply::Time(u64::MAX - 3_599))],
    );
    assert_eq!(r, Err(Halt::Trap));
}

fn remove(liquidity: i128) -> Call {
    Call::RouterRemoveLiquidity {
        router: CONFIG.router,
        token_a: CONFIG.token_a,
        token_b: CONFIG.token_b,
        liquidity,
        amount_a_min: 0,
        amount_b_min: 0,
        to: STRATEGY,
        deadline: NOW + 3_600,
    }
}

#[test]
fn soroswap_withdraw_burns_in_proportion() {
    let mut exchange = vec![load()];
    exchange.extend(lp_tokens(500));
    exchange.extend(valued(1_000, 10_500, 9_450));
    exchange.extend(vec![
        (Call::LedgerTimestamp, Reply::Time(NOW)),
        (Call::Authorize { entry: to_pair(CONFIG.pair, 100) }, Reply::Done),
        (remove(100), Reply::Pair((1_050, 945))),
        (Call::Authorize { entry: to_pair(CONFIG.token_b, 945) }, Reply::Done),
        (
            swap(945, (CONFIG.token_b, CONFIG.token_a)),
            Reply::Amounts(vec![945, 999]),
        ),
        (
            Call::TokenTransfer {
                token: CONFIG.token_a,
                from: STRATEGY,
                to: RECEIVER,
                amount: 2_049,
            },
            Reply::Done,
        ),
        (Call::PersistentSet { key: KEY, value: 400 }, Reply::Done),
        extend(),
        (
            Call::EmitWithdraw { strategy: "SoroswapStrategy", amount: 2_049, from: VAULT },
            Reply::Done,
        ),
    ]);
    exchange.extend(lp_tokens(400));
    exchange.extend(valued(900, 9_000, 8_100));
    let r = play(|env| SoroswapStrategy::withdraw(env, 2_100, VAULT, RECEIVER), exchange);
    assert_eq!(r, Ok(8_000));
}

#[test]
fn soroswap_withdraw_of_everything_pays_without_a_swap() {
    let mut exchange = vec![load()];
    exchange.extend(lp_tokens(500));
    exchange.extend(valued(1_000, 10_500, 9_450));
    exchange.extend(vec![
        (Call::LedgerTimestamp, Reply::Time(NOW)),
        (Call::Authorize { entry: to_pair(CONFIG.pair, 500) }, Reply::Done),
        (remove(500), Reply::Pair((5_250, 0))),
        (
            Call::TokenTransfer {
                token: CONFIG.token_a,
                from: STRATEGY,
                to: RECEIVER,
                amount: 5_250,
            },
            Reply::Done,
        ),
        (Call::PersistentSet { key: KEY, value: 0 }, Reply::Done),
        extend(),
        (
            Call::EmitWithdraw { strategy: "SoroswapStrategy", amount: 5_250, from: VAULT },
            Reply::Done,
        ),
        (Call::PersistentGet { key: KEY }, Reply::Stored(Some(0))),
    ]);
    let r = play(|env| SoroswapStrategy::withdraw(env, 99_999, VAULT, RECEIVER), exchange);
    assert_eq!(r, Ok(0));
}

#[test]
fn soroswap_withdraw_needs_a_position_worth_something() {
    let refused = Err(Halt::Error(StrategyError::InsufficientBalance));
    let none = vec![load(), (Call::PersistentGet { key: KEY }, Reply::Stored(None))];
    assert_eq!(play(|env| SoroswapStrategy::withdraw(env, 5, VAULT, RECEIVER), none), refused);
    let mut empty_pair = vec![load()];
    empty_pair.extend(lp_tokens(500));
    empty_pair.extend(valued(1_000, 10_500, 0));
    let r = play(|env| SoroswapStrategy::withdraw(env, 5, VAULT, RECEIVER), empty_pair);
    assert_eq!(r, refused);
    let mut dust = vec![load()];
    dust.extend(lp_tokens(500));
    dust.extend(valued(1_000, 10_500, 9_450));
    let r = play(|env| SoroswapStrategy::withdraw(env, 5, VAULT, RECEIVER), dust);
    assert_eq!(r, refused);
}

#[test]
fn soroswap_withdraw_that_overflows_is_refused() {
    let mut exchange = vec![load()];
    exchange.extend(lp_tokens(i128::MAX / 2));
    exchange.extend(valued(i128::MAX / 2, 2, 2));
    let r = play(|env| SoroswapStrategy::withdraw(env, 3, VAULT, RECEIVER), exchange);
    assert_eq!(r, Err(Halt::Error(StrategyError::ArithmeticError)));
}

#[test]
fn soroswap_balance_of_nothing_is_zero() {
    let none = vec![load(), (Call::PersistentGet { key: KEY }, Reply::Stored(None))];
    assert_eq!(play(|env| SoroswapStrategy::balance(env, VAULT), none), Ok(0));
    let mut no_supply = vec![load()];
    no_supply.extend(lp_tokens(500));
    no_supply.push((Call::PairTotalSupply { pair: CONFIG.pair }, Reply::Amount(0)));
    assert_eq!(play(|env| SoroswapStrategy::balance(env, VAULT), no_supply), Ok(0));
}

#[test]
fn soroswap_balance_is_exact_where_products_are_wide() {
    let unit: i128 = 10_000_000_000_000_000_000_000_000;
    let mut exchange = vec![load()];
    exchange.extend(lp_tokens(unit));
    exchange.extend(valued(4 * unit, 8 * unit, 12 * unit));
    assert_eq!(play(|env| SoroswapStrategy::balance(env, VAULT), exchange), Ok(4 * unit));
}

#[test]
fn soroswap_harvest_reports_the_value_of_a_share() {
    let mut exchange = vec![load()];
    exchange.extend(lp_tokens(500));
    exchange.extend(valued(1_000, 10_500, 9_450));
    exchange.push((
        Call::EmitHarvest {
            strategy: "SoroswapStrategy",
            amount: 0,
            from: VAULT,
            price_per_share: 210_000_000,
        },
        Reply::Done,
    ));
    assert_eq!(play(|env| SoroswapStrategy::harvest(env, VAULT, None), exchange), Ok(()));
}

#[test]
fn soroswap_harvest_without_shares_reports_zero() {
    let exchange = vec![
        load(),
        (Call::PersistentGet { key: KEY }, Reply::Stored(None)),
        (
            Call::EmitHarvest {
                strategy: "SoroswapStrategy",
                amount: 0,
                from: VAULT,
                price_per_share: 0,
            },
            Reply::Done,
        ),
    ];
    assert_eq!(play(|env| SoroswapStrategy::harvest(env, VAULT, None), exchange), Ok(()));
}
