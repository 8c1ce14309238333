use std::fmt::Debug;
use vault_strategies::address::{Address, Authorization, Val};
use vault_strategies::blend::blend_pool::{amount_out, supplied, RequestType};
use vault_strategies::blend::calls::{Call, Env, Request};
use vault_strategies::blend::contract::{check_positive_amount, min_out, share_price, BlendStrategy};
use vault_strategies::blend::reserves::{accrue, credit, debit, StrategyReserves};
use vault_strategies::blend::storage::Config;
use vault_strategies::blend::utils::{
    calculate_optimal_deposit_amount, calculate_optimal_withdraw_amount, shares_to_underlying,
};
use vault_strategies::error::StrategyError;
use vault_strategies::session::{Halt, Reply};

const STRATEGY: Address = Address::Contract { high: 4, low: 1 };
const VAULT: Address = Address::Contract { high: 4, low: 2 };
const RECEIVER: Address = Address::Account { high: 4, low: 3 };
const KEEPER: Address = Address::Account { high: 4, low: 4 };
const CONFIG: Config = Config {
    asset: Address::Contract { high: 4, low: 5 },
    pool: Address::Contract { high: 4, low: 6 },
    reserve_id: 3,
    blend_token: Address::Contract { high: 4, low: 7 },
    router: Address::Contract { high: 4, low: 8 },
    claim_ids: [7],
    reward_threshold: 50,
};
const ONE: i128 = 1_000_000_000_000;
const RATE: i128 = 1_500_000_000_000;
const RESERVES: StrategyReserves =
    StrategyReserves { total_shares: 10_000, total_b_tokens: 20_000, b_rate: RATE };
const EMPTY: StrategyReserves =
    StrategyReserves { total_shares: 0, total_b_tokens: 0, b_rate: ONE };

type Exchange = Vec<(Call, Reply<Config>)>;

/// Runs a script against a host that expects these calls and gives these
/// replies, in order.
fn play<T: Debug>(
    script: impl Fn(&Env) -> Result<T, Halt<Call>>,
    exchange: Exchange,
) -> Result<T, Halt<Call>> {
    let mut session = Env::new(STRATEGY);
    for (expected, reply) in exchange {
        match script(&session) {
            Err(Halt::Ask(call)) => assert_eq!(call, expected),
            other => panic!("ended before {:?}: {:?}", expected, other),
        }
        session.resume(reply);
    }
    script(&session)
}

fn extend() -> (Call, Reply<Config>) {
    (Call::ExtendInstanceTtl, Reply::Done)
}

fn configured() -> (Call, Reply<Config>) {
    (Call::GetConfig, Reply::Configured(Ok(CONFIG)))
}

/// The stored record has an outdated b_rate.
fn updated(reserves: StrategyReserves) -> Exchange {
    vec![
        (
            Call::GetStrategyReserves,
            Reply::Reserves(StrategyReserves { b_rate: 1, ..reserves }),
        ),
        (
            Call::PoolBRate { pool: CONFIG.pool, asset: CONFIG.asset },
            Reply::Amount(reserves.b_rate),
        ),
    ]
}

fn opened(reserves: StrategyReserves) -> Exchange {
    let mut exchange = vec![
        extend(),
        (Call::RequireAuth { address: VAULT }, Reply::Done),
        configured(),
    ];
    exchange.extend(updated(reserves));
    exchange
}

fn transfer(from: Address, to: Address, amount: i128) -> (Call, Reply<Config>) {
    (Call::TokenTransfer { token: CONFIG.asset, from, to, amount }, Reply::Done)
}

fn authorize(amount: i128) -> (Call, Reply<Config>) {
    (
        Call::Authorize {
            entry: Authorization::Transfer {
                token: CONFIG.asset,
                from: STRATEGY,
                to: CONFIG.pool,
                amount,
            },
        },
        Reply::Done,
    )
}

fn submit(to: Address, amount: i128, request_type: u32) -> Call {
    Call::PoolSubmit {
        pool: CONFIG.pool,
        from: STRATEGY,
        spender: STRATEGY,
        to,
        request: Request { address: CONFIG.asset, amount, request_type },
        reserve_id: 3,
    }
}

#[test]
fn shares_for_b_tokens_round_both_ways() {
    let reserves = StrategyReserves { total_shares: 3, total_b_tokens: 7, b_rate: ONE };
    assert_eq!(reserves.b_tokens_to_shares_down(10), Ok(4));
    assert_eq!(reserves.b_tokens_to_shares_up(10), Ok(5));
    assert_eq!(reserves.b_tokens_to_shares_up(14), Ok(6));
    assert_eq!(reserves.b_tokens_to_shares_down(-10), Ok(-5));
    assert_eq!(reserves.b_tokens_to_shares_up(-10), Ok(-4));
}

#[test]
fn shares_are_b_tokens_where_there_are_none() {
    assert_eq!(EMPTY.b_tokens_to_shares_down(10), Ok(10));
    assert_eq!(EMPTY.b_tokens_to_shares_up(10), Ok(10));
    let no_b_tokens = StrategyReserves { total_shares: 5, ..EMPTY };
    assert_eq!(no_b_tokens.b_tokens_to_shares_down(10), Ok(10));
}

#[test]
fn shares_that_overflow_are_an_error() {
    let reserves = StrategyReserves { total_shares: 3, total_b_tokens: 7, b_rate: ONE };
    assert_eq!(
        reserves.b_tokens_to_shares_down(i128::MAX),
        Err(StrategyError::ArithmeticError),
    );
    assert_eq!(reserves.b_tokens_to_shares_up(i128::MAX), Err(StrategyError::ArithmeticError));
    assert_eq!(
        reserves.b_tokens_to_underlying_down(i128::MAX),
        Err(StrategyError::ArithmeticError),
    );
}

#[test]
fn b_tokens_behind_shares_round_down() {
    let reserves = StrategyReserves { total_shares: 3, total_b_tokens: 7, b_rate: RATE };
    assert_eq!(reserves.shares_to_b_tokens_down(2), Ok(4));
    assert_eq!(reserves.b_tokens_to_underlying_down(3), Ok(4));
    assert_eq!(EMPTY.shares_to_b_tokens_down(2), Err(StrategyError::DivisionByZero));
}

#[test]
fn underlying_of_shares() {
    assert_eq!(shares_to_underlying(40, RESERVES), Ok(120));
    assert_eq!(shares_to_underlying(40, EMPTY), Ok(0));
    let reserves = StrategyReserves { total_shares: 3, total_b_tokens: 7, b_rate: RATE };
    // Two thirds of seven b_tokens are four, which are worth six.
    assert_eq!(shares_to_underlying(2, reserves), Ok(6));
    assert_eq!(shares_to_underlying(i128::MAX, reserves), Err(StrategyError::DivisionByZero));
}

#[test]
fn underlying_of_two_vaults_is_no_more_than_together() {
    let reserves = StrategyReserves { total_shares: 300, total_b_tokens: 701, b_rate: RATE };
    let first = shares_to_underlying(101, reserves).unwrap();
    let second = shares_to_underlying(102, reserves).unwrap();
    let both = shares_to_underlying(203, reserves).unwrap();
    assert!(first + second <= both);
}

#[test]
fn optimal_deposit_buys_the_same_shares_for_less() {
    assert_eq!(calculate_optimal_deposit_amount(100, &RESERVES), Ok((99, 66)));
    assert_eq!(RESERVES.b_tokens_to_shares_down(66), Ok(33));
    let reserves = StrategyReserves { total_shares: 3, total_b_tokens: 7, b_rate: ONE };
    // Ten b_tokens buy four shares, for which ten are needed; nine buy three,
    // for which seven are.
    assert_eq!(calculate_optimal_deposit_amount(10, &reserves), Ok((10, 10)));
    assert_eq!(calculate_optimal_deposit_amount(9, &reserves), Ok((7, 7)));
    assert_eq!(reserves.b_tokens_to_shares_down(9), reserves.b_tokens_to_shares_down(7));
}

#[test]
fn optimal_deposit_refuses_what_buys_nothing() {
    assert_eq!(
        calculate_optimal_deposit_amount(1, &RESERVES),
        Err(StrategyError::InvalidSharesMinted),
    );
    assert_eq!(
        calculate_optimal_deposit_amount(1, &StrategyReserves { b_rate: RATE, ..EMPTY }),
        Err(StrategyError::BTokensAmountBelowMin),
    );
    assert_eq!(
        calculate_optimal_deposit_amount(1, &StrategyReserves { b_rate: 0, ..RESERVES }),
        Err(StrategyError::ArithmeticError),
    );
    assert_eq!(
        calculate_optimal_deposit_amount(i128::MAX, &RESERVES),
        Err(StrategyError::ArithmeticError),
    );
}

#[test]
fn optimal_withdrawal_pays_all_that_its_shares_bring() {
    assert_eq!(calculate_optimal_withdraw_amount(100, &RESERVES), Ok((102, 68)));
    assert_eq!(RESERVES.b_tokens_to_shares_up(67), Ok(34));
    assert_eq!(RESERVES.b_tokens_to_shares_up(68), Ok(34));
    assert_eq!(shares_to_underlying(34, RESERVES), Ok(102));
}

#[test]
fn optimal_withdrawal_from_nothing_is_an_error() {
    assert_eq!(
        calculate_optimal_withdraw_amount(100, &EMPTY),
        Err(StrategyError::ArithmeticError),
    );
    assert_eq!(
        calculate_optimal_withdraw_amount(100, &StrategyReserves { b_rate: 0, ..RESERVES }),
        Err(StrategyError::ArithmeticError),
    );
}

#[test]
fn first_deposit_locks_shares() {
    assert_eq!(
        credit(0, 5_000, &EMPTY),
        Ok((
            4_000,
            StrategyReserves { total_shares: 5_000, total_b_tokens: 5_000, b_rate: ONE },
        )),
    );
    assert_eq!(
        credit(0, 1_000, &EMPTY),
        Err(Halt::Abort(StrategyError::InvalidSharesMinted)),
    );
    assert_eq!(
        credit(0, 1_001, &EMPTY),
        Ok((1, StrategyReserves { total_shares: 1_001, total_b_tokens: 1_001, b_rate: ONE })),
    );
}

#[test]
fn later_deposits_are_credited_in_full() {
    assert_eq!(
        credit(7, 66, &RESERVES),
        Ok((
            40,
            StrategyReserves { total_shares: 10_033, total_b_tokens: 20_066, b_rate: RATE },
        )),
    );
    assert_eq!(
        credit(7, 1, &RESERVES),
        Err(Halt::Abort(StrategyError::InvalidSharesMinted)),
    );
    assert_eq!(
        credit(i128::MAX, 66, &RESERVES),
        Err(Halt::Error(StrategyError::UnderflowOverflow)),
    );
}

#[test]
fn withdrawals_are_debited() {
    assert_eq!(
        debit(500, 68, &RESERVES),
        Ok((
            466,
            StrategyReserves { total_shares: 9_966, total_b_tokens: 19_932, b_rate: RATE },
        )),
    );
    assert_eq!(
        debit(33, 68, &RESERVES),
        Err(Halt::Error(StrategyError::InsufficientBalance)),
    );
    assert_eq!(
        debit(50_000, 20_001, &RESERVES),
        Err(Halt::Error(StrategyError::InsufficientBalance)),
    );
}

#[test]
fn rewards_accrue_to_all() {
    assert_eq!(
        accrue(20, &RESERVES),
        Ok(StrategyReserves { total_b_tokens: 20_020, ..RESERVES }),
    );
    assert_eq!(
        accrue(0, &RESERVES),
        Err(Halt::Abort(StrategyError::BTokensAmountBelowMin)),
    );
    assert_eq!(
        accrue(i128::MAX, &RESERVES),
        Err(Halt::Error(StrategyError::UnderflowOverflow)),
    );
}

#[test]
fn books_agree_through_deposits_rewards_and_withdrawals() {
    let (first, reserves) = credit(0, 5_000, &EMPTY).unwrap();
    let (second, reserves) = credit(0, 333, &reserves).unwrap();
    assert_eq!(first + second + 1_000, reserves.total_shares);
    let reserves = accrue(77, &reserves).unwrap();
    assert_eq!(first + second + 1_000, reserves.total_shares);
    let before = shares_to_underlying(second, reserves).unwrap();
    let (first, reserves) = debit(first, 1_234, &reserves).unwrap();
    assert_eq!(first + second + 1_000, reserves.total_shares);
    assert_eq!(reserves.total_b_tokens, 5_000 + 333 + 77 - 1_234);
    // The withdrawal of one vault takes nothing from the other.
    assert!(before <= shares_to_underlying(second, reserves).unwrap());
}

#[test]
fn a_deposit_does_not_pay_at_once() {
    let reserves = StrategyReserves { total_shares: 300, total_b_tokens: 701, b_rate: RATE };
    let (amount, b_tokens) = calculate_optimal_deposit_amount(1_000, &reserves).unwrap();
    let (shares, after) = credit(0, b_tokens, &reserves).unwrap();
    assert!(amount <= 1_000);
    assert!(shares_to_underlying(shares, after).unwrap() <= amount);
}

#[test]
fn the_optimal_deposit_is_its_own() {
    let reserves = StrategyReserves { total_shares: 3, total_b_tokens: 7, b_rate: RATE };
    for amount in [5, 9, 10, 11, 12, 100, 101] {
        let (optimal, b_tokens) = calculate_optimal_deposit_amount(amount, &reserves).unwrap();
        assert_eq!(
            calculate_optimal_deposit_amount(optimal, &reserves),
            Ok((optimal, b_tokens)),
        );
    }
}

#[test]
fn in_and_out_again_loses_at_most_one_share() {
    let reserves = StrategyReserves { total_shares: 300, total_b_tokens: 701, b_rate: RATE };
    let (shares, after) = credit(50, 10, &reserves).unwrap();
    assert_eq!(shares, 54);
    let (rest, last) = debit(shares, 10, &after).unwrap();
    assert_eq!(rest, 49);
    assert_eq!(last, StrategyReserves { total_shares: 299, ..reserves });
    // A number that the shares divide evenly loses nothing.
    let (shares, after) = credit(50, 2, &RESERVES).unwrap();
    assert_eq!(debit(shares, 2, &after), Ok((50, RESERVES)));
}

#[test]
fn b_tokens_behind_a_share_never_fall() {
    let mut reserves = StrategyReserves { total_shares: 300, total_b_tokens: 701, b_rate: RATE };
    let mut shares = 100;
    for amount in [10, 33, 7, 250, 41] {
        let before = reserves;
        (shares, reserves) = credit(shares, amount, &reserves).unwrap();
        (shares, reserves) = debit(shares, amount / 2 + 1, &reserves).unwrap();
        reserves = accrue(1, &reserves).unwrap();
        assert!(
            before.total_b_tokens * reserves.total_shares
                <= reserves.total_b_tokens * before.total_shares
        );
    }
}

#[test]
fn request_types_have_numbers() {
    assert_eq!(RequestType::Supply.to_u32(), 0);
    assert_eq!(RequestType::Withdraw.to_u32(), 1);
}

#[test]
fn positions_without_supply_count_as_nothing() {
    assert_eq!(supplied(Some(Some(9))), 9);
    assert_eq!(supplied(Some(None)), 0);
    assert_eq!(supplied(None), 0);
}

#[test]
fn swap_brings_its_second_amount() {
    assert_eq!(amount_out(&Ok(vec![60, 30])), Ok(30));
    assert_eq!(amount_out(&Ok(vec![60])), Err(Halt::Error(StrategyError::InternalSwapError)));
    assert_eq!(
        amount_out(&Err(StrategyError::SoroswapPairError)),
        Err(Halt::Error(StrategyError::SoroswapPairError)),
    );
}

#[test]
fn least_swap_amount_comes_from_sixteen_bytes() {
    assert_eq!(min_out(&None), Ok(0));
    assert_eq!(min_out(&Some(vec![])), Ok(0));
    assert_eq!(min_out(&Some(28i128.to_be_bytes().to_vec())), Ok(28));
    assert_eq!(min_out(&Some((-28i128).to_be_bytes().to_vec())), Ok(-28));
    assert_eq!(min_out(&Some(vec![1])), Err(Halt::Trap));
}

#[test]
fn share_price_has_twelve_decimals() {
    assert_eq!(share_price(&RESERVES), Ok(3_000_000_000_000));
    assert_eq!(share_price(&EMPTY), Ok(0));
}

#[test]
fn positive_amounts_alone_are_allowed() {
    assert_eq!(check_positive_amount(1), Ok(()));
    assert_eq!(check_positive_amount(0), Err(StrategyError::OnlyPositiveAmountAllowed));
}

fn init_args() -> Vec<Val> {
    vec![
        Val::Address(CONFIG.pool),
        Val::Address(CONFIG.blend_token),
        Val::Address(CONFIG.router),
        Val::I128(50),
        Val::Address(KEEPER),
    ]
}

#[test]
fn blend_constructor_stores_configuration_and_keeper() {
    let r = play(
        |env| BlendStrategy::__constructor(env, CONFIG.asset, &init_args()),
        vec![
            (Call::IsInitialized, Reply::Flag(false)),
            (
                Call::PoolReserveIndex { pool: CONFIG.pool, asset: CONFIG.asset },
                Reply::Index(3),
            ),
            (Call::SetConfig { config: CONFIG }, Reply::Done),
            (Call::SetKeeper { keeper: KEEPER }, Reply::Done),
        ],
    );
    assert_eq!(r, Ok(()));
}

#[test]
fn blend_constructor_runs_once() {
    let r = play(
        |env| BlendStrategy::__constructor(env, CONFIG.asset, &init_args()),
        vec![(Call::IsInitialized, Reply::Flag(true))],
    );
    assert_eq!(r, Err(Halt::Abort(StrategyError::InvalidArgument)));
}

#[test]
fn blend_constructor_needs_a_positive_threshold() {
    let mut args = init_args();
    args[3] = Val::I128(0);
    let r = play(
        |env| BlendStrategy::__constructor(env, CONFIG.asset, &args),
        vec![
            (Call::IsInitialized, Reply::Flag(false)),
            (
                Call::PoolReserveIndex { pool: CONFIG.pool, asset: CONFIG.asset },
                Reply::Index(3),
            ),
        ],
    );
    assert_eq!(r, Err(Halt::Abort(StrategyError::InvalidArgument)));
}

#[test]
fn blend_constructor_traps_where_the_claim_id_overflows() {
    let r = play(
        |env| BlendStrategy::__constructor(env, CONFIG.asset, &init_args()),
        vec![
            (Call::IsInitialized, Reply::Flag(false)),
            (
                Call::PoolReserveIndex { pool: CONFIG.pool, asset: CONFIG.asset },
                Reply::Index(1 << 31),
            ),
        ],
    );
    assert_eq!(r, Err(Halt::Trap));
}

#[test]
fn blend_asset_is_the_configured_one() {
    assert_eq!(play(BlendStrategy::asset, vec![extend(), configured()]), Ok(CONFIG.asset));
    let missing = vec![
        extend(),
        (Call::GetConfig, Reply::Configured(Err(StrategyError::NotInitialized))),
    ];
    assert_eq!(
        play(BlendStrategy::asset, missing),
        Err(Halt::Error(StrategyError::NotInitialized)),
    );
}

fn deposit_exchange() -> Exchange {
    let after = StrategyReserves { total_shares: 10_033, total_b_tokens: 20_066, b_rate: RATE };
    let mut exchange = opened(RESERVES);
    exchange.extend(vec![
        transfer(VAULT, STRATEGY, 100),
        transfer(STRATEGY, VAULT, 1),
        authorize(99),
        (submit(VAULT, 99, 0), Reply::Position(Some(Some(20_066)))),
        (Call::GetVaultShares { vault: VAULT }, Reply::Amount(7)),
        (Call::SetStrategyReserves { reserves: after }, Reply::Done),
        (Call::SetVaultShares { vault: VAULT, shares: 40 }, Reply::Done),
        (
            Call::EmitDeposit { strategy: "BlendStrategy", amount: 99, from: VAULT },
            Reply::Done,
        ),
    ]);
    exchange
}

#[test]
fn blend_deposit_hands_back_what_buys_no_share() {
    let r = play(|env| BlendStrategy::deposit(env, 100, VAULT), deposit_exchange());
    assert_eq!(r, Ok(120));
}

#[test]
fn blend_deposit_returns_the_balance() {
    let after = StrategyReserves { total_shares: 10_033, total_b_tokens: 20_066, b_rate: RATE };
    let mut exchange = vec![
        extend(),
        (Call::GetVaultShares { vault: VAULT }, Reply::Amount(40)),
        configured(),
    ];
    exchange.extend(updated(after));
    assert_eq!(play(|env| BlendStrategy::balance(env, VAULT), exchange), Ok(120));
}

#[test]
fn blend_deposit_that_has_ended_stays_as_it_is() {
    let mut session = Env::new(STRATEGY);
    for (_, reply) in deposit_exchange() {
        session.resume(reply);
    }
    assert_eq!(BlendStrategy::deposit(&session, 100, VAULT), Ok(120));
    session.resume(Reply::Done);
    assert_eq!(BlendStrategy::deposit(&session, 100, VAULT), Ok(120));
}

#[test]
fn blend_first_deposit_is_supplied_whole() {
    let after = StrategyReserves { total_shares: 5_000, total_b_tokens: 5_000, b_rate: ONE };
    let mut exchange = opened(EMPTY);
    exchange.extend(vec![
        transfer(VAULT, STRATEGY, 5_000),
        authorize(5_000),
        (submit(VAULT, 5_000, 0), Reply::Position(None)),
        (Call::GetVaultShares { vault: VAULT }, Reply::Amount(0)),
        (Call::SetStrategyReserves { reserves: after }, Reply::Done),
        (Call::SetVaultShares { vault: VAULT, shares: 4_000 }, Reply::Done),
        (
            Call::EmitDeposit { strategy: "BlendStrategy", amount: 5_000, from: VAULT },
            Reply::Done,
        ),
    ]);
    let r = play(|env| BlendStrategy::deposit(env, 5_000, VAULT), exchange);
    assert_eq!(r, Ok(4_000));
}

#[test]
fn blend_first_deposit_must_exceed_the_locked_shares() {
    let mut exchange = opened(EMPTY);
    exchange.extend(vec![
        transfer(VAULT, STRATEGY, 1_000),
        authorize(1_000),
        (submit(VAULT, 1_000, 0), Reply::Position(None)),
        (Call::GetVaultShares { vault: VAULT }, Reply::Amount(0)),
    ]);
    let r = play(|env| BlendStrategy::deposit(env, 1_000, VAULT), exchange);
    assert_eq!(r, Err(Halt::Abort(StrategyError::InvalidSharesMinted)));
}

#[test]
fn blend_refuses_amounts_that_are_not_positive() {
    for amount in [0, -1, i128::MIN] {
        let deposit = play(|env| BlendStrategy::deposit(env, amount, VAULT), vec![extend()]);
        assert_eq!(deposit, Err(Halt::Error(StrategyError::OnlyPositiveAmountAllowed)));
        let withdraw =
            play(|env| BlendStrategy::withdraw(env, amount, VAULT, RECEIVER), vec![extend()]);
        assert_eq!(withdraw, Err(Halt::Error(StrategyError::OnlyPositiveAmountAllowed)));
    }
}

#[test]
fn blend_withdraw_pays_all_that_its_shares_bring() {
    let after = StrategyReserves { total_shares: 9_966, total_b_tokens: 19_932, b_rate: RATE };
    let mut exchange = opened(RESERVES);
    exchange.extend(vec![
        (submit(RECEIVER, 102, 1), Reply::Position(Some(Some(19_932)))),
        (Call::GetVaultShares { vault: VAULT }, Reply::Amount(500)),
        (Call::SetStrategyReserves { reserves: after }, Reply::Done),
        (Call::SetVaultShares { vault: VAULT, shares: 466 }, Reply::Done),
        (
            Call::EmitWithdraw { strategy: "BlendStrategy", amount: 102, from: VAULT },
            Reply::Done,
        ),
    ]);
    let r = play(|env| BlendStrategy::withdraw(env, 100, VAULT, RECEIVER), exchange);
    assert_eq!(r, Ok(1_398));
}

#[test]
fn blend_withdraw_needs_the_shares() {
    let mut exchange = opened(RESERVES);
    exchange.extend(vec![
        (submit(RECEIVER, 102, 1), Reply::Position(Some(Some(19_932)))),
        (Call::GetVaultShares { vault: VAULT }, Reply::Amount(33)),
    ]);
    let r = play(|env| BlendStrategy::withdraw(env, 100, VAULT, RECEIVER), exchange);
    assert_eq!(r, Err(Halt::Error(StrategyError::InsufficientBalance)));
}

#[test]
fn blend_balance_without_shares_is_zero() {
    let exchange = vec![
        extend(),
        (Call::GetVaultShares { vault: VAULT }, Reply::Amount(0)),
    ];
    assert_eq!(play(|env| BlendStrategy::balance(env, VAULT), exchange), Ok(0));
}

fn harvest_opened() -> Exchange {
    vec![
        extend(),
        (Call::GetKeeper, Reply::Keeper(Ok(KEEPER))),
        (Call::RequireAuth { address: KEEPER }, Reply::Done),
    ]
}

fn claimed(blnd_balance: i128) -> Exchange {
    vec![
        configured(),
        (
            Call::PoolClaim {
                pool: CONFIG.pool,
                from: STRATEGY,
                reserve_token_ids: [7],
                to: STRATEGY,
            },
            Reply::Amount(55),
        ),
        (
            Call::TokenBalance { token: CONFIG.blend_token, holder: STRATEGY },
            Reply::Amount(blnd_balance),
        ),
    ]
}

fn emit_harvest(price_per_share: i128) -> (Call, Reply<Config>) {
    (
        Call::EmitHarvest { strategy: "BlendStrategy", amount: 55, from: KEEPER, price_per_share },
        Reply::Done,
    )
}

fn swap(reply: Result<Vec<i128>, StrategyError>) -> (Call, Reply<Config>) {
    (
        Call::SwapExactTokensForTokens {
            router: CONFIG.router,
            amount_in: 60,
            amount_out_min: 28,
            path: (CONFIG.blend_token, CONFIG.asset),
            to: STRATEGY,
            deadline: 1_001,
        },
        Reply::Swapped(reply),
    )
}

#[test]
fn blend_harvest_reinvests_rewards() {
    let mut exchange = harvest_opened();
    exchange.extend(claimed(60));
    exchange.extend(vec![
        (Call::LedgerTimestamp, Reply::Time(1_000)),
        swap(Ok(vec![60, 30])),
        (
            Call::PoolSupplyPosition { pool: CONFIG.pool, owner: STRATEGY, reserve_id: 3 },
            Reply::Position(Some(Some(20_000))),
        ),
        authorize(30),
        (submit(STRATEGY, 30, 0), Reply::Position(Some(Some(20_020)))),
    ]);
    exchange.extend(updated(RESERVES));
    exchange.extend(vec![
        (
            Call::SetStrategyReserves {
                reserves: StrategyReserves { total_b_tokens: 20_020, ..RESERVES },
            },
            Reply::Done,
        ),
        emit_harvest(3_003_000_000_000),
    ]);
    let data = Some(28i128.to_be_bytes().to_vec());
    assert_eq!(play(|env| BlendStrategy::harvest(env, KEEPER, &data), exchange), Ok(()));
}

#[test]
fn blend_harvest_below_the_threshold_only_claims() {
    let mut exchange = harvest_opened();
    exchange.extend(claimed(49));
    exchange.extend(updated(RESERVES));
    exchange.push(emit_harvest(3_000_000_000_000));
    assert_eq!(play(|env| BlendStrategy::harvest(env, KEEPER, &None), exchange), Ok(()));
}

#[test]
fn blend_harvest_returns_the_error_of_the_swap() {
    let mut exchange = harvest_opened();
    exchange.extend(claimed(60));
    exchange.extend(vec![
        (Call::LedgerTimestamp, Reply::Time(1_000)),
        swap(Err(StrategyError::InternalSwapError)),
    ]);
    let data = Some(28i128.to_be_bytes().to_vec());
    assert_eq!(
        play(|env| BlendStrategy::harvest(env, KEEPER, &data), exchange),
        Err(Halt::Error(StrategyError::InternalSwapError)),
    );
}

#[test]
fn blend_harvest_at_the_end_of_time_is_refused() {
    let mut exchange = harvest_opened();
    exchange.extend(claimed(60));
    exchange.push((Call::LedgerTimestamp, Reply::Time(u64::MAX)));
    assert_eq!(
        play(|env| BlendStrategy::harvest(env, KEEPER, &None), exchange),
        Err(Halt::Error(StrategyError::UnderflowOverflow)),
    );
}

#[test]
fn blend_harvest_that_mints_nothing_aborts() {
    let mut exchange = harvest_opened();
    exchange.extend(claimed(60));
    exchange.extend(vec![
        (Call::LedgerTimestamp, Reply::Time(1_000)),
        swap(Ok(vec![60, 30])),
        (
            Call::PoolSupplyPosition { pool: CONFIG.pool, owner: STRATEGY, reserve_id: 3 },
            Reply::Position(Some(Some(20_000))),
        ),
        authorize(30),
        (submit(STRATEGY, 30, 0), Reply::Position(Some(Some(20_000)))),
    ]);
    exchange.extend(updated(RESERVES));
    let data = Some(28i128.to_be_bytes().to_vec());
    assert_eq!(
        play(|env| BlendStrategy::harvest(env, KEEPER, &data), exchange),
        Err(Halt::Abort(StrategyError::BTokensAmountBelowMin)),
    );
}

#[test]
fn blend_harvest_is_for_the_keeper_alone() {
    let r = play(|env| BlendStrategy::harvest(env, VAULT, &None), harvest_opened());
    assert_eq!(r, Err(Halt::Error(StrategyError::NotAuthorized)));
}

#[test]
fn blend_keeper_hands_over() {
    let mut exchange = harvest_opened();
    exchange.push((Call::SetKeeper { keeper: RECEIVER }, Reply::Done));
    assert_eq!(play(|env| BlendStrategy::set_keeper(env, RECEIVER), exchange), Ok(()));
}

#[test]
fn blend_keeper_is_the_stored_one() {
    let mut exchange = harvest_opened();
    exchange.truncate(2);
    assert_eq!(play(BlendStrategy::get_keeper, exchange), Ok(KEEPER));
    let missing = vec![
        extend(),
        (Call::GetKeeper, Reply::Keeper(Err(StrategyError::NotInitialized))),
    ];
    assert_eq!(
        play(BlendStrategy::get_keeper, missing),
        Err(Halt::Error(StrategyError::NotInitialized)),
    );
}
