use std::fmt::Debug;
use vault_strategies::address::{Address, Authorization, Symbol, Val};
use vault_strategies::error::StrategyError;
use vault_strategies::neko::contract::NekoStrategy;
use vault_strategies::rwa_lending::calls::{Call, Env};
use vault_strategies::rwa_lending::storage::{StorageKey, StrategyConfig};
use vault_strategies::session::{Halt, Reply};

const STRATEGY: Address = Address::Contract { high: 1, low: 1 };
const VAULT: Address = Address::Contract { high: 1, low: 2 };
const RECEIVER: Address = Address::Account { high: 1, low: 3 };
const CONFIG: StrategyConfig = StrategyConfig {
    asset: Address::Contract { high: 1, low: 4 },
    lending_pool: Address::Contract { high: 1, low: 5 },
    rwa_asset: Symbol { high: 6, low: 0 },
};
const KEY: StorageKey = StorageKey::BTokens(VAULT);
const RATE: i128 = 1_500_000_000_000;

/// Runs a script against a host that expects these calls and gives these
/// replies, in order.
fn play<T: Debug>(
    script: impl Fn(&Env) -> Result<T, Halt<Call>>,
    exchange: Vec<(Call, Reply<StrategyConfig>)>,
) -> Result<T, Halt<Call>> {
    let mut session = Env::new(STRATEGY);
    for (expected, reply) in exchange {
        match script(&session) {
            Err(Halt::Ask(call)) => assert_eq!(call, expected),
            other => panic!("ended before {:?}: {:?}", expected, other),
        }
        session.resume(reply);
    }
    script(&session)
}

fn loaded() -> Vec<(Call, Reply<StrategyConfig>)> {
    vec![
        (Call::InstanceGet { key: StorageKey::Config }, Reply::Config(Some(CONFIG))),
        (Call::InstanceExtendTtl { threshold: 518_400, extend_to: 535_680 }, Reply::Done),
    ]
}

fn extend() -> (Call, Reply<StrategyConfig>) {
    (
        Call::PersistentExtendTtl { key: KEY, threshold: 6_307_200, extend_to: 6_324_480 },
        Reply::Done,
    )
}

fn rate(b_rate: i128) -> (Call, Reply<StrategyConfig>) {
    (
        Call::LendingBTokenRate { lending: CONFIG.lending_pool, asset: CONFIG.rwa_asset },
        Reply::Amount(b_rate),
    )
}

#[test]
fn neko_constructor_stores_its_configuration() {
    let args = vec![Val::Address(CONFIG.lending_pool), Val::Symbol(CONFIG.rwa_asset)];
    let r = play(
        |env| NekoStrategy::__constructor(env, CONFIG.asset, &args),
        vec![
            (Call::InstanceHas { key: StorageKey::Config }, Reply::Flag(false)),
            (Call::InstanceSet { key: StorageKey::Config, config: CONFIG }, Reply::Done),
            (Call::InstanceExtendTtl { threshold: 518_400, extend_to: 535_680 }, Reply::Done),
        ],
    );
    assert_eq!(r, Ok(()));
}

#[test]
fn neko_constructor_runs_once() {
    let args = vec![Val::Address(CONFIG.lending_pool), Val::Symbol(CONFIG.rwa_asset)];
    let r = play(
        |env| NekoStrategy::__constructor(env, CONFIG.asset, &args),
        vec![(Call::InstanceHas { key: StorageKey::Config }, Reply::Flag(true))],
    );
    assert_eq!(r, Err(Halt::Abort(StrategyError::InvalidArgument)));
}

#[test]
fn neko_constructor_needs_both_arguments() {
    let args = vec![Val::Address(CONFIG.lending_pool)];
    let r = play(
        |env| NekoStrategy::__constructor(env, CONFIG.asset, &args),
        vec![(Call::InstanceHas { key: StorageKey::Config }, Reply::Flag(false))],
    );
    assert_eq!(r, Err(Halt::Abort(StrategyError::InvalidArgument)));
}

#[test]
fn neko_asset_is_the_configured_one() {
    assert_eq!(play(NekoStrategy::asset, loaded()), Ok(CONFIG.asset));
}

#[test]
fn neko_without_configuration_aborts() {
    let r = play(
        NekoStrategy::asset,
        vec![(Call::InstanceGet { key: StorageKey::Config }, Reply::Config(None))],
    );
    assert_eq!(r, Err(Halt::Abort(StrategyError::NotInitialized)));
}

#[test]
fn neko_traps_on_a_reply_of_another_kind() {
    let r = play(
        NekoStrategy::asset,
        vec![(Call::InstanceGet { key: StorageKey::Config }, Reply::Done)],
    );
    assert_eq!(r, Err(Halt::Trap));
}

fn deposit_exchange() -> Vec<(Call, Reply<StrategyConfig>)> {
    let mut exchange = loaded();
    exchange.extend(vec![
        (
            Call::Authorize {
                entry: Authorization::Transfer {
                    token: CONFIG.asset,
                    from: STRATEGY,
                    to: CONFIG.lending_pool,
                    amount: 300,
                },
            },
            Reply::Done,
        ),
        (
            Call::LendingDeposit {
                lending: CONFIG.lending_pool,
                lender: STRATEGY,
                asset: CONFIG.rwa_asset,
                amount: 300,
            },
            Reply::Amount(200),
        ),
        (Call::PersistentGet { key: KEY }, Reply::Stored(Some(11))),
        extend(),
        (Call::PersistentSet { key: KEY, value: 211 }, Reply::Done),
        extend(),
        (
            Call::EmitDeposit { strategy: "NekoStrategy", amount: 300, from: VAULT },
            Reply::Done,
        ),
        (Call::PersistentGet { key: KEY }, Reply::Stored(Some(211))),
        extend(),
        rate(RATE),
    ]);
    exchange
}

#[test]
fn neko_deposit_adds_minted_b_tokens() {
    let r = play(|env| NekoStrategy::deposit(env, 300, VAULT), deposit_exchange());
    // 211 * 1.5, rounded down.
    assert_eq!(r, Ok(316));
}

#[test]
fn neko_deposit_returns_the_balance() {
    let mut exchange = loaded();
    exchange.extend(vec![
        (Call::PersistentGet { key: KEY }, Reply::Stored(Some(211))),
        extend(),
        rate(RATE),
    ]);
    assert_eq!(play(|env| NekoStrategy::balance(env, VAULT), exchange), Ok(316));
}

#[test]
fn neko_balance_is_exact_where_the_product_is_wide() {
    let many: i128 = 1_000_000_000_000_000_000_000_000_000;
    let mut exchange = loaded();
    exchange.extend(vec![
        (Call::PersistentGet { key: KEY }, Reply::Stored(Some(many))),
        extend(),
        rate(1_000_000_000_000),
    ]);
    assert_eq!(play(|env| NekoStrategy::balance(env, VAULT), exchange), Ok(many));
}

#[test]
fn neko_deposit_that_has_ended_stays_as_it_is() {
    let mut exchange = deposit_exchange();
    let script = |env: &Env| NekoStrategy::deposit(env, 300, VAULT);
    let mut session = Env::new(STRATEGY);
    for (_, reply) in exchange.drain(..) {
        session.resume(reply);
    }
    assert_eq!(script(&session), Ok(316));
    session.resume(Reply::Amount(77));
    assert_eq!(script(&session), Ok(316));
}

#[test]
fn neko_refuses_amounts_that_are_not_positive() {
    for amount in [0, -1, i128::MIN] {
        let deposit = play(|env| NekoStrategy::deposit(env, amount, VAULT), vec![]);
        assert_eq!(deposit, Err(Halt::Error(StrategyError::OnlyPositiveAmountAllowed)));
        let withdraw = play(|env| NekoStrategy::withdraw(env, amount, VAULT, RECEIVER), vec![]);
        assert_eq!(withdraw, Err(Halt::Error(StrategyError::OnlyPositiveAmountAllowed)));
    }
}

#[test]
fn neko_deposit_traps_where_b_tokens_overflow() {
    let mut exchange = deposit_exchange();
    exchange.truncate(6);
    exchange[3].1 = Reply::Amount(i128::MAX);
    let r = play(|env| NekoStrategy::deposit(env, 300, VAULT), exchange);
    assert_eq!(r, Err(Halt::Trap));
}

fn withdraw_exchange(held: i128, burnt: i128, out: i128) -> Vec<(Call, Reply<StrategyConfig>)> {
    let mut exchange = loaded();
    exchange.extend(vec![
        rate(RATE),
        (Call::PersistentGet { key: KEY }, Reply::Stored(Some(held))),
        extend(),
        (
            Call::Authorize {
                entry: Authorization::Transfer {
                    token: CONFIG.asset,
                    from: CONFIG.lending_pool,
                    to: STRATEGY,
                    amount: out,
                },
            },
            Reply::Done,
        ),
        (
            Call::LendingWithdraw {
                lending: CONFIG.lending_pool,
                lender: STRATEGY,
                asset: CONFIG.rwa_asset,
                b_tokens: burnt,
            },
            Reply::Amount(out),
        ),
        (
            Call::TokenTransfer { token: CONFIG.asset, from: STRATEGY, to: RECEIVER, amount: out },
            Reply::Done,
        ),
        (Call::PersistentSet { key: KEY, value: held - burnt }, Reply::Done),
        extend(),
        (
            Call::EmitWithdraw { strategy: "NekoStrategy", amount: out, from: VAULT },
            Reply::Done,
        ),
        (Call::PersistentGet { key: KEY }, Reply::Stored(Some(held - burnt))),
    ]);
    exchange
}

#[test]
fn neko_withdraw_burns_what_the_amount_takes() {
    // 100 / 1.5 rounded up is 67, which comes to 100.
    let mut exchange = withdraw_exchange(211, 67, 100);
    exchange.extend(vec![extend(), rate(RATE)]);
    let r = play(|env| NekoStrategy::withdraw(env, 100, VAULT, RECEIVER), exchange);
    assert_eq!(r, Ok(216));
}

#[test]
fn neko_withdraw_burns_no_more_than_the_vault_has() {
    let exchange = withdraw_exchange(50, 50, 75);
    let r = play(|env| NekoStrategy::withdraw(env, 100, VAULT, RECEIVER), exchange);
    assert_eq!(r, Ok(0));
}

#[test]
fn neko_withdraw_without_b_tokens_is_refused() {
    let mut exchange = loaded();
    exchange.extend(vec![rate(RATE), (Call::PersistentGet { key: KEY }, Reply::Stored(None))]);
    let r = play(|env| NekoStrategy::withdraw(env, 100, VAULT, RECEIVER), exchange);
    assert_eq!(r, Err(Halt::Error(StrategyError::InsufficientBalance)));
}

#[test]
fn neko_withdraw_at_a_rate_of_zero_is_refused() {
    let mut exchange = loaded();
    exchange.push(rate(0));
    let r = play(|env| NekoStrategy::withdraw(env, 100, VAULT, RECEIVER), exchange);
    assert_eq!(r, Err(Halt::Error(StrategyError::DivisionByZero)));
}

#[test]
fn neko_withdraw_that_overflows_is_refused() {
    let mut exchange = loaded();
    exchange.push(rate(RATE));
    let r = play(|env| NekoStrategy::withdraw(env, i128::MAX, VAULT, RECEIVER), exchange);
    assert_eq!(r, Err(Halt::Error(StrategyError::ArithmeticError)));
}

#[test]
fn neko_harvest_reports_the_rate() {
    let mut exchange = loaded();
    exchange.extend(vec![
        rate(RATE),
        (
            Call::EmitHarvest {
                strategy: "NekoStrategy",
                amount: 0,
                from: VAULT,
                price_per_share: RATE,
            },
            Reply::Done,
        ),
    ]);
    let r = play(|env| NekoStrategy::harvest(env, VAULT, Some(vec![1, 2, 3])), exchange);
    assert_eq!(r, Ok(()));
}
