use vault_strategies::address::{Address, Symbol, Val};
use vault_strategies::aquarius::aquarius_pool;
use vault_strategies::aquarius::aquarius_pool::{in_pool_order, min_with_slippage, pair_to_add};
use vault_strategies::aquarius::contract::{resolve_indices, validate_indices};
use vault_strategies::aquarius::storage::{validate_slippage, StrategyConfig};
use vault_strategies::arguments::{address_arg, i128_arg, symbol_arg, u32_arg};
use vault_strategies::arith::{
    entry_or_zero, half, i128_from_be_bytes, last_or_zero, scale_i128, scale_u128, smaller,
    to_signed, to_unsigned,
};
use vault_strategies::error::StrategyError;
use vault_strategies::neko::contract::{at_rate, b_tokens_for, underlying_for};
use vault_strategies::position::{exact_spot_part, price_per_share, shares_to_burn};
use vault_strategies::session::Halt;
use vault_strategies::soroswap::soroswap_pool;
use vault_strategies::soroswap::soroswap_pool::{b_in_a, b_to_add};
use vault_strategies::wide::{exact_i128, exact_u128, magnitude, with_sign};

fn contract(low: u128) -> Address {
    Address::Contract { high: 0, low }
}

#[test]
fn scaling_rounds_toward_zero() {
    assert_eq!(scale_i128(7, 3, 2), 10);
    assert_eq!(scale_i128(-7, 3, 2), -10);
    assert_eq!(scale_i128(7, 3, -2), -10);
    assert_eq!(scale_u128(7, 3, 2), 10);
}

#[test]
fn scaling_is_zero_where_a_step_fails() {
    assert_eq!(scale_i128(1, 1, 0), 0);
    assert_eq!(scale_i128(i128::MAX, 2, 2), 0);
    assert_eq!(scale_i128(i128::MIN, 1, -1), 0);
    assert_eq!(scale_u128(1, 1, 0), 0);
    assert_eq!(scale_u128(u128::MAX, 2, 2), 0);
}

#[test]
fn casts_keep_the_bits() {
    assert_eq!(to_signed(5), 5);
    assert_eq!(to_signed(u128::MAX), -1);
    assert_eq!(to_unsigned(-1), u128::MAX);
    assert_eq!(to_unsigned(i128::MAX), 170141183460469231731687303715884105727);
}

#[test]
fn halves_round_toward_zero() {
    assert_eq!(half(7), 3);
    assert_eq!(half(-7), -3);
    assert_eq!(half(0), 0);
}

#[test]
fn lists_give_zero_beyond_their_end() {
    assert_eq!(entry_or_zero(&vec![4, 5], 1), 5);
    assert_eq!(entry_or_zero(&vec![4, 5], 2), 0);
    assert_eq!(last_or_zero(&vec![4, 5]), 5);
    assert_eq!(last_or_zero(&vec![]), 0);
    assert_eq!(smaller(3, -4), -4);
}

#[test]
fn big_endian_bytes_spell_a_number() {
    let mut bytes = vec![0u8; 16];
    bytes[14] = 1;
    bytes[15] = 2;
    assert_eq!(i128_from_be_bytes(&bytes), 258);
    assert_eq!(i128_from_be_bytes(&vec![255u8; 16]), -1);
    assert_eq!(i128_from_be_bytes(&vec![255u8; 16]), i128::from_be_bytes([255u8; 16]));
}

#[test]
fn slippage_takes_off_basis_points() {
    assert_eq!(min_with_slippage(480, 50), 477);
    assert_eq!(min_with_slippage(1_000_000, 1_000), 900_000);
    assert_eq!(min_with_slippage(77, 0), 77);
    assert_eq!(min_with_slippage(77, 10_000), 0);
    assert_eq!(min_with_slippage(u128::MAX, 50), 0);
}

#[test]
fn slippage_tolerance_is_limited() {
    assert_eq!(validate_slippage(1_000), Ok(()));
    assert_eq!(validate_slippage(1_001), Err(Halt::Abort(StrategyError::InvalidArgument)));
}

#[test]
fn burn_is_proportional() {
    assert_eq!(shares_to_burn(500, 100, 10_500), Ok(4));
    assert_eq!(shares_to_burn(500, 10_499, 10_500), Ok(499));
    assert_eq!(shares_to_burn(500, 10_500, 10_500), Ok(500));
    assert_eq!(shares_to_burn(500, 99_999, 10_500), Ok(500));
}

#[test]
fn burn_of_nothing_is_refused() {
    assert_eq!(shares_to_burn(500, 1, 10_500), Err(StrategyError::InsufficientBalance));
    assert_eq!(shares_to_burn(0, 5, 3), Err(StrategyError::InsufficientBalance));
}

#[test]
fn burn_that_overflows_is_refused() {
    assert_eq!(
        shares_to_burn(i128::MAX, 2, 3),
        Err(StrategyError::ArithmeticError),
    );
}

#[test]
fn price_per_share_has_seven_decimals() {
    assert_eq!(price_per_share(10_500, 500), 210_000_000);
    assert_eq!(price_per_share(1, 3), 3_333_333);
    assert_eq!(price_per_share(10_500, 0), 0);
    assert_eq!(price_per_share(i128::MAX, 500), 0);
    let many: i128 = 100_000_000_000_000_000_000_000_000_000_000;
    assert_eq!(price_per_share(many, many), 10_000_000);
}

#[test]
fn pair_is_added_in_the_ratio_of_the_reserves() {
    assert_eq!(pair_to_add(500, 479, 10_000, 9_000), 450);
    assert_eq!(pair_to_add(500, 400, 10_000, 9_000), 400);
    assert_eq!(pair_to_add(500, 479, 0, 9_000), 479);
    assert_eq!(b_to_add(500, 479, 10_000, 9_000), 450);
    assert_eq!(b_to_add(500, 400, 10_000, 9_000), 400);
    assert_eq!(b_to_add(500, 479, 0, 9_000), 0);
}

#[test]
fn position_is_worth_its_part_of_both_reserves() {
    assert_eq!(aquarius_pool::position_value(500, 1_000, 10_500, 9_450), Some(10_500));
    assert_eq!(soroswap_pool::position_value(500, 1_000, 10_500, 9_450), Some(10_500));
    // Twice a third of the reserve of ten, each rounded down.
    assert_eq!(aquarius_pool::position_value(1, 3, 10, 10), Some(6));
    assert_eq!(soroswap_pool::position_value(1, 3, 10, 10), Some(6));
}

#[test]
fn positions_of_two_vaults_are_worth_no_more_than_both_together() {
    let first = soroswap_pool::position_value(333, 1_000, 10_501, 9_449).unwrap();
    let second = soroswap_pool::position_value(334, 1_000, 10_501, 9_449).unwrap();
    let both = soroswap_pool::position_value(667, 1_000, 10_501, 9_449).unwrap();
    assert!(first + second <= both);
    assert!(first <= second);
    assert!(both <= 2 * 10_501);
}

#[test]
fn amounts_stand_in_pool_order() {
    let mut config = StrategyConfig {
        deposit_token: contract(1),
        deposit_token_idx: 0,
        pair_token: contract(2),
        pair_token_idx: 1,
        pool: contract(3),
        share_token: contract(4),
        aqua_token: contract(5),
        max_slippage_bps: 50,
        admin: contract(6),
    };
    assert_eq!(in_pool_order(&config, 10, 20), (10, 20));
    config.deposit_token_idx = 1;
    config.pair_token_idx = 0;
    assert_eq!(in_pool_order(&config, 10, 20), (20, 10));
}

#[test]
fn token_indices_are_found() {
    let tokens = vec![contract(1), contract(2), contract(1)];
    assert_eq!(resolve_indices(&tokens, contract(2), contract(1)), Ok((1, 2)));
    assert_eq!(
        resolve_indices(&tokens, contract(2), contract(9)),
        Err(Halt::Abort(StrategyError::ProtocolAddressNotFound)),
    );
    assert_eq!(
        resolve_indices(&vec![], contract(2), contract(1)),
        Err(Halt::Abort(StrategyError::ProtocolAddressNotFound)),
    );
}

#[test]
fn arguments_are_taken_by_their_type() {
    let symbol = Symbol { high: 7, low: 0 };
    let args = vec![Val::Address(contract(1)), Val::Symbol(symbol), Val::U32(3), Val::I128(-4)];
    assert_eq!(address_arg::<()>(&args, 0), Ok(contract(1)));
    assert_eq!(symbol_arg::<()>(&args, 1), Ok(symbol));
    assert_eq!(u32_arg::<()>(&args, 2), Ok(3));
    assert_eq!(i128_arg::<()>(&args, 3), Ok(-4));
}

#[test]
fn missing_or_malformed_arguments_abort() {
    let args = vec![Val::U32(3), Val::Other];
    assert_eq!(address_arg::<()>(&args, 0), Err(Halt::Abort(StrategyError::InvalidArgument)));
    assert_eq!(symbol_arg::<()>(&args, 1), Err(Halt::Abort(StrategyError::InvalidArgument)));
    assert_eq!(u32_arg::<()>(&args, 2), Err(Halt::Abort(StrategyError::InvalidArgument)));
    assert_eq!(i128_arg::<()>(&args, 0), Err(Halt::Abort(StrategyError::InvalidArgument)));
}

#[test]
fn b_tokens_are_rounded_up() {
    let one: i128 = 1_000_000_000_000;
    assert_eq!(b_tokens_for(100, one), Ok(100));
    assert_eq!(b_tokens_for(100, 3 * one), Ok(34));
    assert_eq!(underlying_for(34, 3 * one), Ok(102));
    assert_eq!(underlying_for(33, 3 * one), Ok(99));
    assert_eq!(underlying_for(3, one / 2), Ok(1));
}

#[test]
fn b_tokens_at_rates_that_do_not_work() {
    assert_eq!(b_tokens_for(100, 0), Err(Halt::Error(StrategyError::DivisionByZero)));
    assert_eq!(b_tokens_for(i128::MAX, 1), Err(Halt::Error(StrategyError::ArithmeticError)));
    assert_eq!(b_tokens_for(100, i128::MAX), Err(Halt::Error(StrategyError::ArithmeticError)));
    assert_eq!(b_tokens_for(1, i128::MIN), Err(Halt::Trap));
    assert_eq!(
        b_tokens_for(1, -3_000_000_000_000),
        Err(Halt::Error(StrategyError::InsufficientBalance)),
    );
    assert_eq!(underlying_for(i128::MAX, 2), Err(Halt::Error(StrategyError::ArithmeticError)));
}

#[test]
fn exact_quotients_go_through_wide_products() {
    assert_eq!(exact_u128(7, 3, 2), Some(10));
    assert_eq!(exact_u128(u128::MAX, u128::MAX, u128::MAX), Some(u128::MAX));
    assert_eq!(exact_u128(u128::MAX, 2, 3), Some(226854911280625642308916404954512140970));
    assert_eq!(exact_u128(u128::MAX, 2, 1), None);
    assert_eq!(exact_u128(u128::MAX, u128::MAX, u128::MAX - 1), None);
    assert_eq!(exact_u128(0, u128::MAX, 5), Some(0));
    assert_eq!(exact_u128(1, 1, 0), None);
}

#[test]
fn exact_signed_quotients_round_toward_zero() {
    assert_eq!(exact_i128(-7, 3, 2), Some(-10));
    assert_eq!(exact_i128(7, 3, -2), Some(-10));
    assert_eq!(exact_i128(-7, -3, 2), Some(10));
    assert_eq!(exact_i128(-7, -3, -2), Some(-10));
    assert_eq!(exact_i128(i128::MAX, 2, 2), Some(i128::MAX));
    assert_eq!(exact_i128(i128::MIN, i128::MIN, i128::MIN), Some(i128::MIN));
    assert_eq!(exact_i128(i128::MIN, 1, -1), None);
    assert_eq!(exact_i128(i128::MAX, 2, 1), None);
    assert_eq!(exact_i128(1, 1, 0), None);
}

#[test]
fn numbers_have_a_sign_and_a_magnitude() {
    assert_eq!(magnitude(-5), 5);
    assert_eq!(magnitude(5), 5);
    assert_eq!(magnitude(i128::MIN), 1 << 127);
    assert_eq!(with_sign(true, 1 << 127), Some(i128::MIN));
    assert_eq!(with_sign(false, 1 << 127), None);
    assert_eq!(with_sign(true, (1 << 127) + 1), None);
    assert_eq!(with_sign(true, 0), Some(0));
    assert_eq!(with_sign(false, 5), Some(5));
}

#[test]
fn b_tokens_are_valued_exactly() {
    let one: i128 = 1_000_000_000_000;
    let many: i128 = 1_000_000_000_000_000_000_000_000_000;
    assert_eq!(at_rate(many, one), Some(many));
    assert_eq!(at_rate(many, one + 1), Some(many + 1_000_000_000_000_000));
    assert_eq!(at_rate(3, one / 2), Some(1));
    assert_eq!(at_rate(-3, one / 2), Some(-1));
    assert_eq!(at_rate(i128::MAX, 2 * one), None);
    assert_eq!(underlying_for(many, one), Err(Halt::Error(StrategyError::ArithmeticError)));
}

#[test]
fn positions_are_valued_exactly() {
    let reserve: u128 = 10_000_000_000_000_000_000_000_000;
    let shares: u128 = 30_000_000_000_000_000_000_000_000;
    // A third of the pool, whose products need more than 128 bits.
    assert_eq!(
        aquarius_pool::position_value(shares, 3 * shares, 3 * reserve, 6 * reserve),
        Some(2 * reserve as i128),
    );
    assert_eq!(
        soroswap_pool::position_value(
            shares as i128,
            3 * shares as i128,
            3 * reserve as i128,
            6 * reserve as i128,
        ),
        Some(2 * reserve as i128),
    );
    assert_eq!(exact_spot_part(7, 2, 10, 3), Some(33));
    assert_eq!(exact_spot_part(u128::MAX, 1, 2, 1), None);
    assert_eq!(exact_spot_part(1, 0, 2, 1), None);
}

#[test]
fn positions_beyond_the_range_of_amounts() {
    // Each part fits, and the sum does not.
    assert_eq!(soroswap_pool::position_value(1, 1, i128::MAX, 1), None);
    // A part that does not fit counts as nothing.
    assert_eq!(soroswap_pool::position_value(3, 1, i128::MAX, 1), Some(0));
    assert_eq!(soroswap_pool::position_value(5, 0, 7, 1), Some(0));
    assert_eq!(aquarius_pool::position_value(1, 1, u128::MAX, 1), None);
    assert_eq!(aquarius_pool::position_value(3, 1, u128::MAX, 1), Some(0));
    // Minus one share.
    assert_eq!(aquarius_pool::position_value(u128::MAX, 1 << 100, 10, 10), Some(0));
}

#[test]
fn token_b_is_valued_with_its_sign() {
    assert_eq!(b_in_a(500, 1_000, 10_500, 9_450), Some(5_250));
    assert_eq!(b_in_a(-500, 1_000, 10_500, 9_450), Some(-5_250));
    assert_eq!(b_in_a(-500, -1_000, 10_500, 9_450), Some(5_250));
    assert_eq!(b_in_a(500, 1_000, -10_500, 9_450), Some(-5_250));
    assert_eq!(b_in_a(500, 1_000, 10_500, -9_450), Some(5_250));
    assert_eq!(b_in_a(500, 0, 10_500, 9_450), None);
    assert_eq!(b_in_a(500, 1_000, 10_500, 0), None);
}

#[test]
fn token_indices_are_zero_or_one() {
    assert_eq!(validate_indices((0, 1)), Ok(()));
    assert_eq!(validate_indices((1, 0)), Ok(()));
    assert_eq!(validate_indices((2, 1)), Err(Halt::Abort(StrategyError::InvalidArgument)));
    assert_eq!(validate_indices((0, 2)), Err(Halt::Abort(StrategyError::InvalidArgument)));
}
