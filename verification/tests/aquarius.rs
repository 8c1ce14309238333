use std::fmt::Debug;
use vault_strategies::address::{Address, Authorization, Val};
use vault_strategies::aquarius::calls::{Call, Env};
use vault_strategies::aquarius::contract::AquariusStrategy;
use vault_strategies::aquarius::storage::{StorageKey, StrategyConfig};
use vault_strategies::error::StrategyError;
use vault_strategies::session::{Halt, Reply};

const STRATEGY: Address = Address::Contract { high: 2, low: 1 };
const VAULT: Address = Address::Contract { high: 2, low: 2 };
const RECEIVER: Address = Address::Account { high: 2, low: 3 };
const CONFIG: StrategyConfig = StrategyConfig {
    deposit_token: Address::Contract { high: 2, low: 4 },
    deposit_token_idx: 0,
    pair_token: Address::Contract { high: 2, low: 5 },
    pair_token_idx: 1,
    pool: Address::Contract { high: 2, low: 6 },
    share_token: Address::Contract { high: 2, low: 7 },
    aqua_token: Address::Contract { high: 2, low: 8 },
    max_slippage_bps: 50,
    admin: STRATEGY,
};
const KEY: StorageKey = StorageKey::ShareTokens(VAULT);

type Exchange = Vec<(Call, Reply<StrategyConfig>)>;

/// Runs a script against a host that expects these calls and gives these
/// replies, in order.
fn play<T: Debug>(
    script: impl Fn(&Env) -> Result<T, Halt<Call>>,
    exchange: Exchange,
) -> Result<T, Halt<Call>> {
    let mut session = Env::new(STRATEGY);
    for (expected, reply) in exchange {
        match script(&session) {
            Err(Halt::Ask(call)) => assert_eq!(call, expected),
            other => panic!("ended before {:?}: {:?}", expected, other),
        }
        session.resume(reply);
    }
    script(&session)
}

fn load(config: StrategyConfig) -> (Call, Reply<StrategyConfig>) {
    (Call::InstanceGet { key: StorageKey::Config }, Reply::Config(Some(config)))
}

fn extend() -> (Call, Reply<StrategyConfig>) {
    (
        Call::PersistentExtendTtl { key: KEY, threshold: 6_307_200, extend_to: 6_324_480 },
        Reply::Done,
    )
}

fn transfer(token: Address, to: Address, amount: i128) -> Authorization {
    Authorization::Transfer { token, from: STRATEGY, to, amount }
}

fn shares(value: i128) -> Exchange {
    vec![(Call::PersistentGet { key: KEY }, Reply::Stored(Some(value))), extend()]
}

fn pool_state(total: u128, reserves: Vec<u128>) -> Exchange {
    vec![
        (Call::PoolTotalShares { pool: CONFIG.pool }, Reply::Unsigned(total)),
        (Call::PoolReserves { pool: CONFIG.pool }, Reply::Unsigneds(reserves)),
    ]
}

fn init_args() -> Vec<Val> {
    vec![
        Val::Address(CONFIG.pool),
        Val::Address(CONFIG.pair_token),
        Val::Address(CONFIG.aqua_token),
        Val::U32(50),
    ]
}

#[test]
fn aquarius_constructor_resolves_the_pool() {
    let r = play(
        |env| AquariusStrategy::__constructor(env, CONFIG.deposit_token, &init_args()),
        vec![
            (Call::InstanceHas { key: StorageKey::Config }, Reply::Flag(false)),
            (
                Call::PoolTokens { pool: CONFIG.pool },
                Reply::Accounts(vec![CONFIG.deposit_token, CONFIG.pair_token]),
            ),
            (Call::PoolShareId { pool: CONFIG.pool }, Reply::Account(CONFIG.share_token)),
            (Call::InstanceSet { key: StorageKey::Config, config: CONFIG }, Reply::Done),
            (Call::InstanceExtendTtl { threshold: 518_400, extend_to: 535_680 }, Reply::Done),
        ],
    );
    assert_eq!(r, Ok(()));
}

#[test]
fn aquarius_constructor_runs_once() {
    let r = play(
        |env| AquariusStrategy::__constructor(env, CONFIG.deposit_token, &init_args()),
        vec![(Call::InstanceHas { key: StorageKey::Config }, Reply::Flag(true))],
    );
    assert_eq!(r, Err(Halt::Abort(StrategyError::InvalidArgument)));
}

#[test]
fn aquarius_constructor_limits_slippage() {
    let mut args = init_args();
    args[3] = Val::U32(1_001);
    let r = play(
        |env| AquariusStrategy::__constructor(env, CONFIG.deposit_token, &args),
        vec![(Call::InstanceHas { key: StorageKey::Config }, Reply::Flag(false))],
    );
    assert_eq!(r, Err(Halt::Abort(StrategyError::InvalidArgument)));
}

#[test]
fn aquarius_constructor_needs_both_tokens_in_the_pool() {
    let r = play(
        |env| AquariusStrategy::__constructor(env, CONFIG.deposit_token, &init_args()),
        vec![
            (Call::InstanceHas { key: StorageKey::Config }, Reply::Flag(false)),
            (
                Call::PoolTokens { pool: CONFIG.pool },
                Reply::Accounts(vec![CONFIG.deposit_token, CONFIG.aqua_token]),
            ),
            (Call::PoolShareId { pool: CONFIG.pool }, Reply::Account(CONFIG.share_token)),
        ],
    );
    assert_eq!(r, Err(Halt::Abort(StrategyError::ProtocolAddressNotFound)));
}

#[test]
fn aquarius_constructor_needs_the_two_tokens_first() {
    let r = play(
        |env| AquariusStrategy::__constructor(env, CONFIG.deposit_token, &init_args()),
        vec![
            (Call::InstanceHas { key: StorageKey::Config }, Reply::Flag(false)),
            (
                Call::PoolTokens { pool: CONFIG.pool },
                Reply::Accounts(vec![
                    CONFIG.aqua_token,
                    CONFIG.pair_token,
                    CONFIG.deposit_token,
                ]),
            ),
            (Call::PoolShareId { pool: CONFIG.pool }, Reply::Account(CONFIG.share_token)),
        ],
    );
    assert_eq!(r, Err(Halt::Abort(StrategyError::InvalidArgument)));
}

#[test]
fn aquarius_constructor_takes_the_tokens_in_either_order() {
    let turned = StrategyConfig { deposit_token_idx: 1, pair_token_idx: 0, ..CONFIG };
    let r = play(
        |env| AquariusStrategy::__constructor(env, CONFIG.deposit_token, &init_args()),
        vec![
            (Call::InstanceHas { key: StorageKey::Config }, Reply::Flag(false)),
            (
                Call::PoolTokens { pool: CONFIG.pool },
                Reply::Accounts(vec![CONFIG.pair_token, CONFIG.deposit_token]),
            ),
            (Call::PoolShareId { pool: CONFIG.pool }, Reply::Account(CONFIG.share_token)),
            (Call::InstanceSet { key: StorageKey::Config, config: turned }, Reply::Done),
            (Call::InstanceExtendTtl { threshold: 518_400, extend_to: 535_680 }, Reply::Done),
        ],
    );
    assert_eq!(r, Ok(()));
}

#[test]
fn aquarius_balance_is_exact_where_products_are_wide() {
    let unit: u128 = 10_000_000_000_000_000_000_000_000;
    let mut exchange = vec![load(CONFIG)];
    exchange.extend(shares(unit as i128));
    exchange.extend(pool_state(4 * unit, vec![8 * unit, 12 * unit]));
    assert_eq!(
        play(|env| AquariusStrategy::balance(env, VAULT), exchange),
        Ok(4 * unit as i128),
    );
}

#[test]
fn aquarius_admin_updates_slippage_alone() {
    let updated = StrategyConfig { max_slippage_bps: 200, ..CONFIG };
    let r = play(
        |env| AquariusStrategy::update_slippage(env, STRATEGY, 200),
        vec![
            (Call::RequireAuth { address: STRATEGY }, Reply::Done),
            load(CONFIG),
            (Call::InstanceSet { key: StorageKey::Config, config: updated }, Reply::Done),
            (Call::InstanceExtendTtl { threshold: 518_400, extend_to: 535_680 }, Reply::Done),
        ],
    );
    assert_eq!(r, Ok(()));
}

#[test]
fn aquarius_update_refuses_too_much_slippage() {
    let r = play(
        |env| AquariusStrategy::update_slippage(env, STRATEGY, 1_001),
        vec![(Call::RequireAuth { address: STRATEGY }, Reply::Done), load(CONFIG)],
    );
    assert_eq!(r, Err(Halt::Abort(StrategyError::InvalidArgument)));
}

#[test]
fn aquarius_others_are_not_the_admin() {
    let update = play(
        |env| AquariusStrategy::update_slippage(env, VAULT, 200),
        vec![(Call::RequireAuth { address: VAULT }, Reply::Done), load(CONFIG)],
    );
    assert_eq!(update, Err(Halt::Abort(StrategyError::NotAuthorized)));
    let sweep = play(
        |env| AquariusStrategy::sweep(env, VAULT, CONFIG.pair_token, VAULT, 9),
        vec![(Call::RequireAuth { address: VAULT }, Reply::Done), load(CONFIG)],
    );
    assert_eq!(sweep, Err(Halt::Abort(StrategyError::NotAuthorized)));
}

#[test]
fn aquarius_admin_sweeps() {
    let r = play(
        |env| AquariusStrategy::sweep(env, STRATEGY, CONFIG.pair_token, RECEIVER, 9),
        vec![
            (Call::RequireAuth { address: STRATEGY }, Reply::Done),
            load(CONFIG),
            (
                Call::TokenTransfer {
                    token: CONFIG.pair_token,
                    from: STRATEGY,
                    to: RECEIVER,
                    amount: 9,
                },
                Reply::Done,
            ),
        ],
    );
    assert_eq!(r, Ok(()));
}

#[test]
fn aquarius_asset_is_the_deposit_token() {
    assert_eq!(play(AquariusStrategy::asset, vec![load(CONFIG)]), Ok(CONFIG.deposit_token));
    let missing = vec![(Call::InstanceGet { key: StorageKey::Config }, Reply::Config(None))];
    assert_eq!(
        play(AquariusStrategy::asset, missing),
        Err(Halt::Abort(StrategyError::NotInitialized)),
    );
}

fn deposit_exchange() -> Exchange {
    let balance = Call::TokenBalance { token: CONFIG.share_token, holder: STRATEGY };
    let mut exchange = vec![
        load(CONFIG),
        (
            Call::PoolEstimateSwap { pool: CONFIG.pool, in_idx: 0, out_idx: 1, in_amount: 500 },
            Reply::Unsigned(480),
        ),
        (
            Call::Authorize { entry: transfer(CONFIG.deposit_token, CONFIG.pool, 500) },
            Reply::Done,
        ),
        (
            Call::PoolSwap {
                pool: CONFIG.pool,
                user: STRATEGY,
                in_idx: 0,
                out_idx: 1,
                in_amount: 500,
                out_min: 477,
            },
            Reply::Unsigned(479),
        ),
        (Call::PoolReserves { pool: CONFIG.pool }, Reply::Unsigneds(vec![10_000, 9_000])),
        (
            Call::PoolEstimateDeposit { pool: CONFIG.pool, amounts: (501, 450) },
            Reply::Unsigned(470),
        ),
        (balance, Reply::Amount(100)),
        (
            Call::AuthorizeBoth {
                first: transfer(CONFIG.deposit_token, CONFIG.pool, 501),
                second: transfer(CONFIG.pair_token, CONFIG.pool, 450),
            },
            Reply::Done,
        ),
        (
            Call::PoolDeposit {
                pool: CONFIG.pool,
                user: STRATEGY,
                amounts: (501, 450),
                min_shares: 467,
            },
            Reply::Done,
        ),
        (balance, Reply::Amount(570)),
    ];
    exchange.extend(shares(30));
    exchange.extend(vec![
        (Call::PersistentSet { key: KEY, value: 500 }, Reply::Done),
        extend(),
        (
            Call::EmitDeposit { strategy: "AquariusStrategy", amount: 1_001, from: VAULT },
            Reply::Done,
        ),
    ]);
    exchange.extend(shares(500));
    exchange.extend(pool_state(1_000, vec![10_500, 9_450]));
    exchange
}

#[test]
fn aquarius_deposit_swaps_half_and_adds_liquidity() {
    let r = play(|env| AquariusStrategy::deposit(env, 1_001, VAULT), deposit_exchange());
    assert_eq!(r, Ok(10_500));
}

#[test]
fn aquarius_deposit_returns_the_balance() {
    let mut exchange = vec![load(CONFIG)];
    exchange.extend(shares(500));
    exchange.extend(pool_state(1_000, vec![10_500, 9_450]));
    assert_eq!(play(|env| AquariusStrategy::balance(env, VAULT), exchange), Ok(10_500));
}

#[test]
fn aquarius_deposit_that_has_ended_stays_as_it_is() {
    let mut session = Env::new(STRATEGY);
    for (_, reply) in deposit_exchange() {
        session.resume(reply);
    }
    assert_eq!(AquariusStrategy::deposit(&session, 1_001, VAULT), Ok(10_500));
    session.resume(Reply::Done);
    assert_eq!(AquariusStrategy::deposit(&session, 1_001, VAULT), Ok(10_500));
}

#[test]
fn aquarius_refuses_amounts_that_are_not_positive() {
    for amount in [0, -1, i128::MIN] {
        let deposit = play(|env| AquariusStrategy::deposit(env, amount, VAULT), vec![]);
        assert_eq!(deposit, Err(Halt::Error(StrategyError::OnlyPositiveAmountAllowed)));
        let withdraw =
            play(|env| AquariusStrategy::withdraw(env, amount, VAULT, RECEIVER), vec![]);
        assert_eq!(withdraw, Err(Halt::Error(StrategyError::OnlyPositiveAmountAllowed)));
    }
}

#[test]
fn aquarius_deposit_traps_on_slippage_above_everything() {
    let config = StrategyConfig { max_slippage_bps: 10_001, ..CONFIG };
    let r = play(
        |env| AquariusStrategy::deposit(env, 1_001, VAULT),
        vec![
            load(config),
            (
                Call::PoolEstimateSwap { pool: CONFIG.pool, in_idx: 0, out_idx: 1, in_amount: 500 },
                Reply::Unsigned(480),
            ),
        ],
    );
    assert_eq!(r, Err(Halt::Trap));
}

#[test]
fn aquarius_withdraw_burns_in_proportion() {
    let mut exchange = vec![load(CONFIG)];
    exchange.extend(shares(500));
    exchange.extend(pool_state(1_000, vec![10_500, 9_450]));
    // 500 * 2100 / 10500 shares are burnt.
    exchange.extend(vec![
        (Call::PoolReserves { pool: CONFIG.pool }, Reply::Unsigneds(vec![10_500, 9_450])),
        (Call::PoolTotalShares { pool: CONFIG.pool }, Reply::Unsigned(1_000)),
        (
            Call::Authorize {
                entry: Authorization::Burn {
                    token: CONFIG.share_token,
                    from: STRATEGY,
                    amount: 100,
                },
            },
            Reply::Done,
        ),
        (
            // 1050 and 945, less half a percent.
            Call::PoolWithdraw {
                pool: CONFIG.pool,
                user: STRATEGY,
                shares: 100,
                min_amounts: (1_044, 940),
            },
            Reply::Unsigneds(vec![1_050, 945]),
        ),
        (
            Call::PoolEstimateSwap { pool: CONFIG.pool, in_idx: 1, out_idx: 0, in_amount: 945 },
            Reply::Unsigned(1_000),
        ),
        (
            Call::Authorize { entry: transfer(CONFIG.pair_token, CONFIG.pool, 945) },
            Reply::Done,
        ),
        (
            Call::PoolSwap {
                pool: CONFIG.pool,
                user: STRATEGY,
                in_idx: 1,
                out_idx: 0,
                in_amount: 945,
                out_min: 995,
            },
            Reply::Unsigned(999),
        ),
        (
            Call::TokenTransfer {
                token: CONFIG.deposit_token,
                from: STRATEGY,
                to: RECEIVER,
                amount: 2_049,
            },
            Reply::Done,
        ),
        (Call::PersistentSet { key: KEY, value: 400 }, Reply::Done),
        extend(),
        (
            Call::EmitWithdraw { strategy: "AquariusStrategy", amount: 2_049, from: VAULT },
            Reply::Done,
        ),
    ]);
    exchange.extend(shares(400));
    exchange.extend(pool_state(900, vec![9_000, 8_100]));
    let r = play(|env| AquariusStrategy::withdraw(env, 2_100, VAULT, RECEIVER), exchange);
    assert_eq!(r, Ok(8_000));
}

#[test]
fn aquarius_withdraw_of_everything_pays_without_a_swap() {
    let mut exchange = vec![load(CONFIG)];
    exchange.extend(shares(500));
    exchange.extend(pool_state(1_000, vec![10_500, 9_450]));
    exchange.extend(vec![
        (Call::PoolReserves { pool: CONFIG.pool }, Reply::Unsigneds(vec![10_500, 9_450])),
        (Call::PoolTotalShares { pool: CONFIG.pool }, Reply::Unsigned(1_000)),
        (
            Call::Authorize {
                entry: Authorization::Burn {
                    token: CONFIG.share_token,
                    from: STRATEGY,
                    amount: 500,
                },
            },
            Reply::Done,
        ),
        (
            Call::PoolWithdraw {
                pool: CONFIG.pool,
                user: STRATEGY,
                shares: 500,
                min_amounts: (5_223, 4_701),
            },
            Reply::Unsigneds(vec![5_250]),
        ),
        (
            Call::TokenTransfer {
                token: CONFIG.deposit_token,
                from: STRATEGY,
                to: RECEIVER,
                amount: 5_250,
            },
            Reply::Done,
        ),
        (Call::PersistentSet { key: KEY, value: 0 }, Reply::Done),
        extend(),
        (
            Call::EmitWithdraw { strategy: "AquariusStrategy", amount: 5_250, from: VAULT },
            Reply::Done,
        ),
        (Call::PersistentGet { key: KEY }, Reply::Stored(Some(0))),
    ]);
    let r = play(|env| AquariusStrategy::withdraw(env, 99_999, VAULT, RECEIVER), exchange);
    assert_eq!(r, Ok(0));
}

#[test]
fn aquarius_withdraw_needs_a_position_worth_something() {
    let refused = Err(Halt::Error(StrategyError::InsufficientBalance));
    let none = vec![
        load(CONFIG),
        (Call::PersistentGet { key: KEY }, Reply::Stored(None)),
    ];
    assert_eq!(play(|env| AquariusStrategy::withdraw(env, 5, VAULT, RECEIVER), none), refused);
    let mut empty_pool = vec![load(CONFIG)];
    empty_pool.extend(shares(500));
    empty_pool.extend(pool_state(1_000, vec![10_500, 0]));
    let r = play(|env| AquariusStrategy::withdraw(env, 5, VAULT, RECEIVER), empty_pool);
    assert_eq!(r, refused);
    let mut dust = vec![load(CONFIG)];
    dust.extend(shares(500));
    dust.extend(pool_state(1_000, vec![10_500, 9_450]));
    let r = play(|env| AquariusStrategy::withdraw(env, 5, VAULT, RECEIVER), dust);
    assert_eq!(r, refused);
}

#[test]
fn aquarius_withdraw_that_overflows_is_refused() {
    let mut exchange = vec![load(CONFIG)];
    exchange.extend(shares(i128::MAX));
    exchange.extend(pool_state(i128::MAX as u128, vec![1, 1]));
    // The whole pool is worth twice its deposit reserve.
    let r = play(|env| AquariusStrategy::withdraw(env, 1, VAULT, RECEIVER), exchange);
    assert!(matches!(r, Err(Halt::Ask(Call::PoolReserves { .. }))));
    let mut exchange = vec![load(CONFIG)];
    exchange.extend(shares(i128::MAX / 2));
    exchange.extend(pool_state((i128::MAX / 2) as u128, vec![2, 2]));
    let r = play(|env| AquariusStrategy::withdraw(env, 3, VAULT, RECEIVER), exchange);
    assert_eq!(r, Err(Halt::Error(StrategyError::ArithmeticError)));
}

#[test]
fn aquarius_balance_of_nothing_is_zero() {
    let none = vec![
        load(CONFIG),
        (Call::PersistentGet { key: KEY }, Reply::Stored(None)),
    ];
    assert_eq!(play(|env| AquariusStrategy::balance(env, VAULT), none), Ok(0));
    let mut no_shares = vec![load(CONFIG)];
    no_shares.extend(shares(500));
    no_shares.push((Call::PoolTotalShares { pool: CONFIG.pool }, Reply::Unsigned(0)));
    assert_eq!(play(|env| AquariusStrategy::balance(env, VAULT), no_shares), Ok(0));
}

#[test]
fn aquarius_harvest_forwards_rewards() {
    let mut exchange = vec![
        load(CONFIG),
        (Call::PoolClaim { pool: CONFIG.pool, user: STRATEGY }, Reply::Unsigned(33)),
        (
            Call::TokenTransfer {
                token: CONFIG.aqua_token,
                from: STRATEGY,
                to: VAULT,
                amount: 33,
            },
            Reply::Done,
        ),
    ];
    exchange.extend(shares(500));
    exchange.extend(pool_state(1_000, vec![10_500, 9_450]));
    exchange.push((
        Call::EmitHarvest {
            strategy: "AquariusStrategy",
            amount: 33,
            from: VAULT,
            price_per_share: 210_000_000,
        },
        Reply::Done,
    ));
    assert_eq!(play(|env| AquariusStrategy::harvest(env, VAULT, None), exchange), Ok(()));
}

#[test]
fn aquarius_harvest_without_rewards_or_shares() {
    let exchange = vec![
        load(CONFIG),
        (Call::PoolClaim { pool: CONFIG.pool, user: STRATEGY }, Reply::Unsigned(0)),
        (Call::PersistentGet { key: KEY }, Reply::Stored(None)),
        (
            Call::EmitHarvest {
                strategy: "AquariusStrategy",
                amount: 0,
                from: VAULT,
                price_per_share: 0,
            },
            Reply::Done,
        ),
    ];
    assert_eq!(play(|env| AquariusStrategy::harvest(env, VAULT, None), exchange), Ok(()));
}
