//! What the figures that the strategies share come to, by sums and products.

use crate::address::Val;
use crate::arguments::{address_arg, i128_arg, symbol_arg, u32_arg};
use crate::arith::{
    big_endian, entry_or_zero, half, last_or_zero, scale_i128, scale_u128, smaller, to_signed,
    to_unsigned,
};
use crate::error::StrategyError;
use crate::exchange::fits;
use crate::position::{
    exact_spot_part, lemma_parts_are_nonnegative, pool_value, price_per_share, shares_to_burn,
    spot_part,
};
use crate::quotients::{is_floor, is_trunc, law_floor_div, law_trunc_div};
use crate::rounding::lemma_floor_largest;
use crate::session::Halt;
use crate::wide::{abs, exact_i128, exact_u128};
use vstd::arithmetic::power::pow;
use vstd::prelude::*;

verus! {

/// A scaled amount is the quotient, and zero where there is none or where it, or
/// the product, does not fit.
pub proof fn law_scale_i128(a: i128, b: i128, c: i128, q: int)
    requires
        c != 0 ==> is_trunc(q, a * b, c as int),
    ensures
        scale_i128(a, b, c) == if c != 0 && fits(a * b) && fits(q) {
            q
        } else {
            0
        },
{
    if c != 0 {
        law_trunc_div(a * b, c as int, q);
    }
}

/// A scaled unsigned amount is the quotient rounded down, and zero where there is
/// none or where the product does not fit.
pub proof fn law_scale_u128(a: u128, b: u128, c: u128, q: int)
    requires
        c != 0 ==> is_floor(q, a * b, c as int),
    ensures
        scale_u128(a, b, c) == if c != 0 && a * b <= u128::MAX {
            q
        } else {
            0
        },
{
    if c != 0 && a * b <= u128::MAX {
        law_floor_div(a * b, c as int, q);
        assert(a * b >= 0) by (nonlinear_arith);
        lemma_floor_largest(a * b, c as int, 0);
        assert(q <= a * b) by (nonlinear_arith)
            requires
                q * c <= a * b,
                q >= 0,
                c >= 1,
        ;
    }
}

/// A signed and an unsigned amount with the same bits are equal, or differ by two
/// to the power of 128; and each is had back from the other.
pub proof fn law_same_bits(x: u128, y: i128)
    ensures
        x - to_signed(x) == 0 || x - to_signed(x) == 0x1_0000_0000_0000_0000_0000_0000_0000_0000,
        to_unsigned(y) - y == 0 || to_unsigned(y) - y
            == 0x1_0000_0000_0000_0000_0000_0000_0000_0000,
        to_unsigned(to_signed(x)) == x,
        to_signed(to_unsigned(y)) == y,
{
}

/// Twice a half is the amount, or one nearer to zero.
pub proof fn law_half(amount: i128)
    ensures
        amount >= 0 ==> 2 * half(amount) <= amount <= 2 * half(amount) + 1,
        amount <= 0 ==> 2 * half(amount) - 1 <= amount <= 2 * half(amount),
{
    law_trunc_div(amount as int, 2, 0);
}

/// The smaller of two amounts is one of them, and above neither.
pub proof fn law_smaller(a: i128, b: i128)
    ensures
        smaller(a, b) == a || smaller(a, b) == b,
        smaller(a, b) <= a,
        smaller(a, b) <= b,
{
}

/// A list has at an index what it was made with there, and zero beyond its end.
pub proof fn law_entry(amounts: &Vec<u128>, idx: u32)
    ensures
        forall|before: Seq<u128>, entry: u128, after: Seq<u128>|
            amounts@ == #[trigger] before.push(entry).add(after) && before.len() == idx
                ==> entry_or_zero(amounts, idx) == entry,
        amounts@.len() <= idx ==> entry_or_zero(amounts, idx) == 0,
{
}

/// The last of a list is what was put at its end, and zero of an empty one.
pub proof fn law_last(amounts: &Vec<i128>)
    ensures
        forall|before: Seq<i128>, end: i128|
            amounts@ == #[trigger] before.push(end) ==> last_or_zero(amounts) == end,
        amounts@.len() == 0 ==> last_or_zero(amounts) == 0,
{
}

/// Of big-endian bytes, the first one weighs most: it counts as often as 256 goes
/// into itself for each byte after it.
pub proof fn law_big_endian(first: u8, rest: Seq<u8>)
    ensures
        big_endian(Seq::<u8>::empty()) == 0,
        big_endian(seq![first].add(rest)) == first * pow(256, rest.len()) + big_endian(rest),
    decreases rest.len(),
{
    let bytes = seq![first].add(rest);
    if rest.len() == 0 {
        vstd::arithmetic::power::lemma_pow0(256);
        assert(bytes.drop_last() =~= Seq::<u8>::empty());
        assert(big_endian(bytes.drop_last()) == 0);
        assert(bytes.last() == first);
    } else {
        let p = pow(256, (rest.len() - 1) as nat);
        law_big_endian(first, rest.drop_last());
        assert(bytes.drop_last() =~= seq![first].add(rest.drop_last()));
        assert(bytes.last() == rest.last());
        assert(pow(256, rest.len()) == 256 * p) by {
            reveal(pow);
        }
        assert(first * (256 * p) == 256 * (first * p)) by (nonlinear_arith);
    }
}

/// An absolute value is not negative, and the number or its opposite.
pub proof fn law_abs(x: int)
    ensures
        abs(x) >= 0,
        abs(x) == x || abs(x) == -x,
{
}

/// An exact unsigned quotient: there is none only by zero or where it does not
/// fit, however large the product is.
pub proof fn law_exact_u128(a: u128, b: u128, c: u128, q: int)
    requires
        c != 0 ==> is_floor(q, a * b, c as int),
    ensures
        match exact_u128(a, b, c) {
            Some(quotient) => c != 0 && quotient == q,
            None => c == 0 || q > u128::MAX,
        },
{
    if c != 0 {
        law_floor_div(a * b, c as int, q);
        assert(a * b >= 0) by (nonlinear_arith);
        lemma_floor_largest(a * b, c as int, 0);
    }
}

/// An exact signed quotient, rounded toward zero: there is none only by zero or
/// where it does not fit, however large the product is.
pub proof fn law_exact_i128(a: i128, b: i128, c: i128, q: int)
    requires
        c != 0 ==> is_trunc(q, a * b, c as int),
    ensures
        match exact_i128(a, b, c) {
            Some(quotient) => c != 0 && quotient == q,
            None => c == 0 || !fits(q),
        },
{
    if c != 0 {
        law_trunc_div(a * b, c as int, q);
    }
}

/// The value of a position: the quotient of its part of the first reserve, and
/// the quotient of its part of the second at the spot price.
pub proof fn law_pool_value(
    shares: int,
    total: int,
    reserve_a: int,
    reserve_b: int,
    of_a: int,
    of_b: int,
    b_in_a: int,
)
    requires
        total > 0,
        reserve_b > 0,
        is_floor(of_a, shares * reserve_a, total),
        is_floor(of_b, shares * reserve_b, total),
        is_floor(b_in_a, of_b * reserve_a, reserve_b),
    ensures
        spot_part(shares, total, reserve_a, reserve_b) == b_in_a,
        pool_value(shares, total, reserve_a, reserve_b) == of_a + b_in_a,
{
    assert(shares * reserve_a == reserve_a * shares && shares * reserve_b == reserve_b * shares)
        by (nonlinear_arith);
    law_floor_div(reserve_a * shares, total, of_a);
    law_floor_div(reserve_b * shares, total, of_b);
    law_floor_div(of_b * reserve_a, reserve_b, b_in_a);
}

/// What shares have in the second token at the spot price is exact: there is none
/// only without shares in all, without a second token, or where it does not fit.
pub proof fn law_exact_spot_part(
    shares: u128,
    total: u128,
    reserve_a: u128,
    reserve_b: u128,
    of_b: int,
    b_in_a: int,
)
    requires
        total > 0 ==> is_floor(of_b, shares * reserve_b, total as int),
        reserve_b > 0 ==> is_floor(b_in_a, of_b * reserve_a, reserve_b as int),
    ensures
        match exact_spot_part(shares, total, reserve_a, reserve_b) {
            Some(part) => total > 0 && reserve_b > 0 && part == b_in_a,
            None => total == 0 || reserve_b == 0 || b_in_a > u128::MAX,
        },
{
    if total > 0 && reserve_b > 0 {
        assert(shares * reserve_b == reserve_b * shares) by (nonlinear_arith);
        law_floor_div(reserve_b * shares, total as int, of_b);
        law_floor_div(of_b * reserve_a, reserve_b as int, b_in_a);
        lemma_parts_are_nonnegative(
            shares as int,
            total as int,
            reserve_a as int,
            reserve_b as int,
        );
    }
}

/// A withdrawal burns all shares where it asks for no less than they are worth,
/// and otherwise the quotient in proportion, whatever the signs. It fails only
/// where there is nothing to burn, or on a figure that does not fit.
pub proof fn law_shares_to_burn(vault_shares: i128, amount: i128, total_value: i128, part: int)
    requires
        total_value != 0 ==> is_trunc(part, vault_shares * amount, total_value as int),
    ensures
        ({
            let all = amount >= total_value;
            let in_range = total_value != 0 && fits(vault_shares * amount) && fits(part);
            match shares_to_burn(vault_shares, amount, total_value) {
                Ok(burnt) => burnt != 0 && (all && burnt == vault_shares || !all && in_range
                    && burnt == part),
                Err(StrategyError::ArithmeticError) => !all && !in_range,
                Err(StrategyError::InsufficientBalance) => all && vault_shares == 0 || !all
                    && in_range && part == 0,
                Err(_) => false,
            }
        }),
{
    if total_value != 0 {
        law_trunc_div(vault_shares * amount, total_value as int, part);
    }
}

/// The price of one share is its value in seven decimals, rounded toward zero;
/// zero without shares and where it does not fit.
pub proof fn law_price_per_share(total_value: i128, shares: i128, q: int)
    requires
        shares > 0 ==> is_trunc(q, total_value * 10_000_000, shares as int),
    ensures
        price_per_share(total_value, shares) == if shares > 0 && fits(q) {
            q
        } else {
            0
        },
{
    if shares > 0 {
        law_trunc_div(total_value * 10_000_000, shares as int, q);
    }
}

/// An argument is taken as it was given, where it was given as what is asked for;
/// the only other outcome is to abort.
pub proof fn law_arguments<Q>(args: &Vec<Val>, idx: usize)
    ensures
        ({
            let given = idx < args@.len();
            let arg = args@[idx as int];
            let abort = Halt::<Q>::Abort(StrategyError::InvalidArgument);
            &&& match address_arg::<Q>(args, idx) {
                Ok(address) => given && arg == Val::Address(address),
                Err(halt) => halt == abort && !(given && arg is Address),
            }
            &&& match symbol_arg::<Q>(args, idx) {
                Ok(symbol) => given && arg == Val::Symbol(symbol),
                Err(halt) => halt == abort && !(given && arg is Symbol),
            }
            &&& match u32_arg::<Q>(args, idx) {
                Ok(value) => given && arg == Val::U32(value),
                Err(halt) => halt == abort && !(given && arg is U32),
            }
            &&& match i128_arg::<Q>(args, idx) {
                Ok(value) => given && arg == Val::I128(value),
                Err(halt) => halt == abort && !(given && arg is I128),
            }
        }),
{
}

} // verus!
