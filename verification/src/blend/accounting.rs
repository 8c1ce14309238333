use crate::address::Address;
use crate::attribution::{
    lemma_part_of_sum, lemma_sum_after_insert, shares_of, sum_of_shares,
};
use crate::blend::constants::{LOCKED_SHARES, SCALAR_12};
use crate::blend::reserves::{accrue, credit, debit, StrategyReserves};
use crate::blend::utils::{
    calculate_optimal_deposit_amount, calculate_optimal_withdraw_amount, shares_to_underlying,
};
use crate::error::StrategyError;
use crate::rounding::{
    ceil_div, floor_div, lemma_ceil, lemma_ceil_smallest, lemma_floor, lemma_floor_below,
    lemma_floor_largest, lemma_floor_monotone, lemma_floor_of_sum,
};
use vstd::prelude::*;

verus! {

/// Whether the reserve record agrees with the shares of the vaults: no vault
/// has a negative number of shares; either nobody has any, or all of them and
/// the locked ones make up the total, and there are b_tokens behind them.
pub open spec fn consistent(reserves: StrategyReserves, vaults: Map<Address, i128>) -> bool {
    &&& vaults.dom().finite()
    &&& forall|vault: Address| vaults.dom().contains(vault) ==> #[trigger] vaults[vault] >= 0
    &&& reserves.total_b_tokens >= 0
    &&& if reserves.total_shares == 0 {
        sum_of_shares(vaults) == 0
    } else {
        &&& reserves.total_shares == sum_of_shares(vaults) + LOCKED_SHARES
        &&& reserves.total_b_tokens > 0
    }
}

/// Before the first deposit the books agree.
pub proof fn law_empty_is_consistent(b_rate: i128)
    ensures
        consistent(
            StrategyReserves { total_shares: 0, total_b_tokens: 0, b_rate },
            Map::<Address, i128>::empty(),
        ),
{
}

/// A new b_rate leaves the books in agreement.
pub proof fn law_rate_keeps_consistent(
    reserves: StrategyReserves,
    vaults: Map<Address, i128>,
    b_rate: i128,
)
    requires
        consistent(reserves, vaults),
    ensures
        consistent(StrategyReserves { b_rate, ..reserves }, vaults),
{
}

/// A deposit leaves the books in agreement: the shares minted go to the vault,
/// but for those that the first deposit locks.
pub proof fn law_credit_keeps_consistent(
    reserves: StrategyReserves,
    vaults: Map<Address, i128>,
    vault: Address,
    b_tokens_amount: i128,
)
    requires
        consistent(reserves, vaults),
        b_tokens_amount > 0,
        credit(shares_of(vaults, vault), b_tokens_amount, &reserves) is Ok,
    ensures
        ({
            let (shares, after) = credit(
                shares_of(vaults, vault),
                b_tokens_amount,
                &reserves,
            )->Ok_0;
            &&& consistent(after, vaults.insert(vault, shares))
            &&& shares > shares_of(vaults, vault)
            &&& after.total_b_tokens == reserves.total_b_tokens + b_tokens_amount
        }),
{
    let (shares, after) = credit(shares_of(vaults, vault), b_tokens_amount, &reserves)->Ok_0;
    lemma_sum_after_insert(vaults, vault, shares);
    lemma_part_of_sum(vaults, vault);
    assert(forall|v: Address|
        vaults.insert(vault, shares).dom().contains(v) ==> #[trigger] vaults.insert(
            vault,
            shares,
        )[v] >= 0);
}

/// A withdrawal leaves the books in agreement: the shares burnt come from the
/// vault, which had them. The locked shares and b_tokens behind them remain.
pub proof fn law_debit_keeps_consistent(
    reserves: StrategyReserves,
    vaults: Map<Address, i128>,
    vault: Address,
    b_tokens_amount: i128,
)
    requires
        consistent(reserves, vaults),
        b_tokens_amount > 0,
        debit(shares_of(vaults, vault), b_tokens_amount, &reserves) is Ok,
    ensures
        ({
            let (shares, after) = debit(shares_of(vaults, vault), b_tokens_amount, &reserves)->Ok_0;
            &&& consistent(after, vaults.insert(vault, shares))
            &&& 0 <= shares < shares_of(vaults, vault)
            &&& after.total_b_tokens == reserves.total_b_tokens - b_tokens_amount
            &&& after.total_shares >= LOCKED_SHARES
        }),
{
    let (shares, after) = debit(shares_of(vaults, vault), b_tokens_amount, &reserves)->Ok_0;
    lemma_sum_after_insert(vaults, vault, shares);
    lemma_part_of_sum(vaults, vault);
    let ts = reserves.total_shares as int;
    let tb = reserves.total_b_tokens as int;
    let b = b_tokens_amount as int;
    assert(ts > 0 && tb > 0);
    lemma_ceil(b * ts, tb);
    let burnt = ceil_div(b * ts, tb);
    assert(b * ts > 0) by (nonlinear_arith)
        requires
            b > 0,
            ts > 0,
    ;
    assert(burnt > 0) by (nonlinear_arith)
        requires
            b * ts <= burnt * tb,
            b * ts > 0,
            tb > 0,
    ;
    assert(b < tb) by (nonlinear_arith)
        requires
            b * ts <= burnt * tb,
            burnt < ts,
            ts > 0,
            tb > 0,
            b <= tb,
    {
        if b == tb {
            assert(b * ts == tb * ts);
            assert(burnt * tb < ts * tb);
        }
    }
    assert(forall|v: Address|
        vaults.insert(vault, shares).dom().contains(v) ==> #[trigger] vaults.insert(
            vault,
            shares,
        )[v] >= 0);
}

/// Reinvested rewards leave the books in agreement; nobody gets shares for
/// them.
pub proof fn law_accrue_keeps_consistent(
    reserves: StrategyReserves,
    vaults: Map<Address, i128>,
    b_tokens_amount: i128,
)
    requires
        consistent(reserves, vaults),
        accrue(b_tokens_amount, &reserves) is Ok,
    ensures
        ({
            let after = accrue(b_tokens_amount, &reserves)->Ok_0;
            &&& consistent(after, vaults)
            &&& after.total_shares == reserves.total_shares
            &&& after.total_b_tokens == reserves.total_b_tokens + b_tokens_amount
        }),
{
}

/// Whether a share has no fewer b_tokens behind it in `after` than in `before`.
pub open spec fn no_dilution(before: StrategyReserves, after: StrategyReserves) -> bool {
    before.total_b_tokens * after.total_shares <= after.total_b_tokens * before.total_shares
}

/// A deposit does not dilute the shares that there are: those minted for it are
/// rounded down.
pub proof fn law_credit_does_not_dilute(
    reserves: StrategyReserves,
    vault_shares: i128,
    b_tokens_amount: i128,
)
    requires
        reserves.total_shares > 0,
        reserves.total_b_tokens > 0,
        b_tokens_amount > 0,
        credit(vault_shares, b_tokens_amount, &reserves) is Ok,
    ensures
        no_dilution(reserves, credit(vault_shares, b_tokens_amount, &reserves)->Ok_0.1),
{
    let after = credit(vault_shares, b_tokens_amount, &reserves)->Ok_0.1;
    let (ts, tb, b) = (
        reserves.total_shares as int,
        reserves.total_b_tokens as int,
        b_tokens_amount as int,
    );
    let minted = (b * ts) / tb;
    lemma_floor(b * ts, tb);
    assert(tb * (ts + minted) <= (tb + b) * ts) by (nonlinear_arith)
        requires
            minted * tb <= b * ts,
    ;
    assert(after.total_shares == ts + minted);
    assert(after.total_b_tokens == tb + b);
}

/// A withdrawal does not dilute the shares that remain: those burnt for it are
/// rounded up.
pub proof fn law_debit_does_not_dilute(
    reserves: StrategyReserves,
    vault_shares: i128,
    b_tokens_amount: i128,
)
    requires
        reserves.total_shares > 0,
        reserves.total_b_tokens > 0,
        b_tokens_amount > 0,
        debit(vault_shares, b_tokens_amount, &reserves) is Ok,
    ensures
        no_dilution(reserves, debit(vault_shares, b_tokens_amount, &reserves)->Ok_0.1),
{
    let after = debit(vault_shares, b_tokens_amount, &reserves)->Ok_0.1;
    let (ts, tb, b) = (
        reserves.total_shares as int,
        reserves.total_b_tokens as int,
        b_tokens_amount as int,
    );
    let burnt = ceil_div(b * ts, tb);
    lemma_ceil(b * ts, tb);
    assert(tb * (ts - burnt) <= (tb - b) * ts) by (nonlinear_arith)
        requires
            b * ts <= burnt * tb,
    ;
    assert(after.total_shares == ts - burnt);
    assert(after.total_b_tokens == tb - b);
}

/// Reinvested rewards do not dilute the shares.
pub proof fn law_accrue_does_not_dilute(reserves: StrategyReserves, b_tokens_amount: i128)
    requires
        reserves.total_shares >= 0,
        accrue(b_tokens_amount, &reserves) is Ok,
    ensures
        no_dilution(reserves, accrue(b_tokens_amount, &reserves)->Ok_0),
{
    let (ts, tb, b) = (
        reserves.total_shares as int,
        reserves.total_b_tokens as int,
        b_tokens_amount as int,
    );
    assert(tb * ts <= (tb + b) * ts) by (nonlinear_arith)
        requires
            b > 0,
            ts >= 0,
    ;
}

/// Where shares are not diluted, what a vault has in the underlying asset does
/// not fall at the same b_rate: no operation of one vault takes from another.
pub proof fn law_others_do_not_lose(before: StrategyReserves, after: StrategyReserves, shares: i128)
    requires
        no_dilution(before, after),
        before.total_shares > 0,
        before.total_b_tokens > 0,
        after.total_shares > 0,
        after.total_b_tokens > 0,
        after.b_rate == before.b_rate >= 0,
        shares >= 0,
        shares_to_underlying(shares, before) is Ok,
        shares_to_underlying(shares, after) is Ok,
    ensures
        shares_to_underlying(shares, before)->Ok_0 <= shares_to_underlying(shares, after)->Ok_0,
{
    let (ts, tb) = (before.total_shares as int, before.total_b_tokens as int);
    let (ts2, tb2) = (after.total_shares as int, after.total_b_tokens as int);
    let x = shares as int;
    let rate = before.b_rate as int;
    let b1 = x * tb / ts;
    let b2 = x * tb2 / ts2;
    lemma_floor(x * tb, ts);
    lemma_floor(x * tb2, ts2);
    assert(b1 * ts2 <= x * tb2) by (nonlinear_arith)
        requires
            b1 * ts <= x * tb,
            tb * ts2 <= tb2 * ts,
            x >= 0,
            ts > 0,
            ts2 > 0,
    {
        assert(b1 * ts * ts2 <= x * tb * ts2);
        assert(x * (tb * ts2) <= x * (tb2 * ts));
        assert((b1 * ts2) * ts <= (x * tb2) * ts);
    }
    lemma_floor_largest(x * tb2, ts2, b1);
    assert(b1 * rate <= b2 * rate) by (nonlinear_arith)
        requires
            b1 <= b2,
            rate >= 0,
    ;
    lemma_floor_monotone(b1 * rate, b2 * rate, SCALAR_12 as int);
}

/// A deposit leaves every other vault with no less in the underlying asset than
/// it had.
pub proof fn law_credit_spares_others(
    reserves: StrategyReserves,
    vaults: Map<Address, i128>,
    vault: Address,
    b_tokens_amount: i128,
    other: Address,
)
    requires
        consistent(reserves, vaults),
        reserves.b_rate >= 0,
        b_tokens_amount > 0,
        credit(shares_of(vaults, vault), b_tokens_amount, &reserves) is Ok,
        other != vault,
    ensures
        ({
            let (shares, after) = credit(
                shares_of(vaults, vault),
                b_tokens_amount,
                &reserves,
            )->Ok_0;
            let held = shares_of(vaults, other);
            let value = shares_to_underlying(held, reserves);
            let value_after = shares_to_underlying(held, after);
            &&& value is Ok && value_after is Ok ==> value->Ok_0 <= value_after->Ok_0
            &&& shares_of(vaults.insert(vault, shares), other) == held
        }),
{
    let (shares, after) = credit(shares_of(vaults, vault), b_tokens_amount, &reserves)->Ok_0;
    let held = shares_of(vaults, other);
    law_credit_keeps_consistent(reserves, vaults, vault, b_tokens_amount);
    lemma_part_of_sum(vaults, other);
    if reserves.total_shares > 0 {
        law_credit_does_not_dilute(reserves, shares_of(vaults, vault), b_tokens_amount);
        if shares_to_underlying(held, reserves) is Ok && shares_to_underlying(held, after) is Ok {
            law_others_do_not_lose(reserves, after, held);
        }
    } else {
        assert(held == 0);
        assert(floor_div(0, after.total_shares as int) == 0) by (nonlinear_arith)
            requires
                after.total_shares > 0,
        ;
        assert(0 * after.total_b_tokens == 0 && 0 * after.b_rate == 0) by (nonlinear_arith);
    }
}

/// A withdrawal leaves every other vault with no less in the underlying asset than
/// it had.
pub proof fn law_debit_spares_others(
    reserves: StrategyReserves,
    vaults: Map<Address, i128>,
    vault: Address,
    b_tokens_amount: i128,
    other: Address,
)
    requires
        consistent(reserves, vaults),
        reserves.b_rate >= 0,
        b_tokens_amount > 0,
        debit(shares_of(vaults, vault), b_tokens_amount, &reserves) is Ok,
        other != vault,
    ensures
        ({
            let (shares, after) = debit(shares_of(vaults, vault), b_tokens_amount, &reserves)->Ok_0;
            let held = shares_of(vaults, other);
            let value = shares_to_underlying(held, reserves);
            let value_after = shares_to_underlying(held, after);
            &&& value is Ok && value_after is Ok ==> value->Ok_0 <= value_after->Ok_0
            &&& shares_of(vaults.insert(vault, shares), other) == held
        }),
{
    let (shares, after) = debit(shares_of(vaults, vault), b_tokens_amount, &reserves)->Ok_0;
    let held = shares_of(vaults, other);
    law_debit_keeps_consistent(reserves, vaults, vault, b_tokens_amount);
    lemma_part_of_sum(vaults, other);
    lemma_part_of_sum(vaults, vault);
    law_debit_does_not_dilute(reserves, shares_of(vaults, vault), b_tokens_amount);
    if shares_to_underlying(held, reserves) is Ok && shares_to_underlying(held, after) is Ok {
        law_others_do_not_lose(reserves, after, held);
    }
}

/// Two vaults have no more apart than their shares are worth together.
pub proof fn law_value_of_parts(reserves: StrategyReserves, shares1: i128, shares2: i128)
    requires
        reserves.total_shares > 0,
        reserves.total_b_tokens > 0,
        reserves.b_rate >= 0,
        shares1 >= 0,
        shares2 >= 0,
        shares1 + shares2 <= i128::MAX,
        shares_to_underlying(shares1, reserves) is Ok,
        shares_to_underlying(shares2, reserves) is Ok,
        shares_to_underlying((shares1 + shares2) as i128, reserves) is Ok,
    ensures
        shares_to_underlying(shares1, reserves)->Ok_0 + shares_to_underlying(
            shares2,
            reserves,
        )->Ok_0 <= shares_to_underlying((shares1 + shares2) as i128, reserves)->Ok_0,
{
    let (ts, tb, rate) = (
        reserves.total_shares as int,
        reserves.total_b_tokens as int,
        reserves.b_rate as int,
    );
    let (x, y) = (shares1 as int, shares2 as int);
    let z = x + y;
    assert(z * tb == x * tb + y * tb) by (nonlinear_arith)
        requires
            z == x + y,
    ;
    lemma_floor_of_sum(x * tb, y * tb, ts);
    let (bx, by_, bz) = (x * tb / ts, y * tb / ts, z * tb / ts);
    lemma_floor_of_sum(bx * rate, by_ * rate, SCALAR_12 as int);
    assert(bx * rate + by_ * rate <= bz * rate) by (nonlinear_arith)
        requires
            bx + by_ <= bz,
            rate >= 0,
    ;
    lemma_floor_monotone(bx * rate + by_ * rate, bz * rate, SCALAR_12 as int);
}

/// The part of a deposit that is supplied is positive and no more than was
/// deposited, so that what is handed back is not negative; and it buys just as
/// many shares as the whole would.
pub proof fn law_optimal_deposit(deposit_amount: i128, reserves: StrategyReserves)
    requires
        deposit_amount > 0,
        reserves.b_rate > 0,
        reserves.total_shares >= 0,
        reserves.total_shares > 0 ==> reserves.total_b_tokens > 0,
        calculate_optimal_deposit_amount(deposit_amount, &reserves) is Ok,
    ensures
        ({
            let (amount, b_tokens) = calculate_optimal_deposit_amount(
                deposit_amount,
                &reserves,
            )->Ok_0;
            let bought = floor_div(deposit_amount * SCALAR_12, reserves.b_rate as int) as i128;
            &&& 0 < amount <= deposit_amount
            &&& 0 < b_tokens <= bought
            &&& reserves.b_tokens_to_shares_down(bought) is Ok
            &&& reserves.b_tokens_to_shares_down(b_tokens) == reserves.b_tokens_to_shares_down(
                bought,
            )
        }),
{
    let (amount, b_tokens) = calculate_optimal_deposit_amount(deposit_amount, &reserves)->Ok_0;
    let (ts, tb, rate) = (
        reserves.total_shares as int,
        reserves.total_b_tokens as int,
        reserves.b_rate as int,
    );
    let scaled = deposit_amount * SCALAR_12;
    let bought = scaled / rate;
    lemma_floor(scaled, rate);
    let o = b_tokens as int;
    if ts > 0 {
        let shares = bought * ts / tb;
        lemma_floor(bought * ts, tb);
        lemma_ceil(shares * tb, ts);
        lemma_ceil_smallest(shares * tb, ts, bought);
        lemma_floor_largest(o * ts, tb, shares);
        assert(o * ts <= bought * ts && o * ts >= 0) by (nonlinear_arith)
            requires
                0 <= o <= bought,
                ts > 0,
        ;
        lemma_floor_monotone(o * ts, bought * ts, tb);
    }
    assert(0 < o <= bought);
    assert(o * rate <= scaled && o * rate > 0) by (nonlinear_arith)
        requires
            0 < o <= bought,
            bought * rate <= scaled,
            rate > 0,
    ;
    lemma_ceil_smallest(o * rate, SCALAR_12 as int, deposit_amount as int);
    lemma_ceil(o * rate, SCALAR_12 as int);
}

/// A withdrawal pays no less than was asked for: just what the shares burnt for
/// it are worth, and as many are burnt as the amount asked for costs.
pub proof fn law_optimal_withdraw(withdraw_amount: i128, reserves: StrategyReserves)
    requires
        withdraw_amount > 0,
        reserves.b_rate > 0,
        reserves.total_shares > 0,
        reserves.total_b_tokens > 0,
        calculate_optimal_withdraw_amount(withdraw_amount, &reserves) is Ok,
    ensures
        ({
            let (amount, b_tokens) = calculate_optimal_withdraw_amount(
                withdraw_amount,
                &reserves,
            )->Ok_0;
            let needed = ceil_div(withdraw_amount * SCALAR_12, reserves.b_rate as int) as i128;
            let shares = reserves.b_tokens_to_shares_up(needed);
            &&& amount >= withdraw_amount
            &&& b_tokens >= needed > 0
            &&& shares is Ok
            &&& shares_to_underlying(shares->Ok_0, reserves) == Ok::<i128, StrategyError>(amount)
            &&& reserves.b_tokens_to_shares_up(b_tokens) is Ok
                ==> reserves.b_tokens_to_shares_up(b_tokens) == shares
        }),
{
    let (amount, b_tokens) = calculate_optimal_withdraw_amount(withdraw_amount, &reserves)->Ok_0;
    let (ts, tb, rate) = (
        reserves.total_shares as int,
        reserves.total_b_tokens as int,
        reserves.b_rate as int,
    );
    let scaled = withdraw_amount * SCALAR_12;
    let needed = ceil_div(scaled, rate);
    lemma_ceil(scaled, rate);
    assert(needed > 0) by (nonlinear_arith)
        requires
            scaled <= needed * rate,
            scaled > 0,
            rate > 0,
    ;
    let shares = ceil_div(needed * ts, tb);
    lemma_ceil(needed * ts, tb);
    let o = b_tokens as int;
    lemma_floor(shares * tb, ts);
    lemma_floor_largest(shares * tb, ts, needed);
    assert(o * rate >= scaled) by (nonlinear_arith)
        requires
            o >= needed,
            scaled <= needed * rate,
            rate > 0,
    ;
    lemma_floor_largest(o * rate, SCALAR_12 as int, withdraw_amount as int);
    lemma_ceil_smallest(o * ts, tb, shares);
    assert(needed * ts <= o * ts) by (nonlinear_arith)
        requires
            needed <= o,
            ts > 0,
    ;
    lemma_ceil(o * ts, tb);
    lemma_ceil_smallest(needed * ts, tb, ceil_div(o * ts, tb));
}

/// A deposit does not pay at once: the shares that it buys are worth no more,
/// after it, than the amount supplied for them. (Where rewards were supplied
/// before there were any shares, the first deposit gains them.)
pub proof fn law_deposit_is_no_gain(
    deposit_amount: i128,
    reserves: StrategyReserves,
    vault_shares: i128,
)
    requires
        deposit_amount > 0,
        reserves.b_rate > 0,
        reserves.total_shares >= 0,
        reserves.total_shares > 0 ==> reserves.total_b_tokens > 0,
        reserves.total_shares == 0 ==> reserves.total_b_tokens == 0,
        calculate_optimal_deposit_amount(deposit_amount, &reserves) is Ok,
        credit(
            vault_shares,
            calculate_optimal_deposit_amount(deposit_amount, &reserves)->Ok_0.1,
            &reserves,
        ) is Ok,
    ensures
        ({
            let (amount, b_tokens) = calculate_optimal_deposit_amount(
                deposit_amount,
                &reserves,
            )->Ok_0;
            let (shares, after) = credit(vault_shares, b_tokens, &reserves)->Ok_0;
            shares_to_underlying((shares - vault_shares) as i128, after) matches Ok(worth) ==> worth
                <= amount
        }),
{
    let (amount, b_tokens) = calculate_optimal_deposit_amount(deposit_amount, &reserves)->Ok_0;
    let (shares, after) = credit(vault_shares, b_tokens, &reserves)->Ok_0;
    let (ts, tb, rate) = (
        reserves.total_shares as int,
        reserves.total_b_tokens as int,
        reserves.b_rate as int,
    );
    let b = b_tokens as int;
    let (ts2, tb2) = (after.total_shares as int, after.total_b_tokens as int);
    let gained = shares - vault_shares;
    if ts > 0 {
        let minted = b * ts / tb;
        lemma_floor(b * ts, tb);
        assert(gained * tb2 <= b * ts2) by (nonlinear_arith)
            requires
                minted * tb <= b * ts,
                gained == minted,
                tb2 == tb + b,
                ts2 == ts + minted,
        ;
    } else {
        assert(gained * tb2 <= b * ts2) by (nonlinear_arith)
            requires
                gained <= b,
                b > 0,
                tb2 == b,
                ts2 == b,
        ;
    }
    let behind = gained * tb2 / ts2;
    assert(gained * tb2 < (b + 1) * ts2) by (nonlinear_arith)
        requires
            gained * tb2 <= b * ts2,
            ts2 > 0,
    ;
    lemma_floor_below(gained * tb2, ts2, b + 1);
    lemma_floor(gained * tb2, ts2);
    assert(behind * rate <= b * rate) by (nonlinear_arith)
        requires
            behind <= b,
            rate > 0,
    ;
    lemma_ceil(b * rate, SCALAR_12 as int);
    lemma_floor(behind * rate, SCALAR_12 as int);
    lemma_floor_monotone(behind * rate, b * rate, SCALAR_12 as int);
    lemma_floor(b * rate, SCALAR_12 as int);
    lemma_floor_below(b * rate, SCALAR_12 as int, amount + 1);
}

/// The optimal part of a deposit is its own optimal part: supplying it would
/// hand nothing back.
pub proof fn law_optimal_deposit_is_stable(deposit_amount: i128, reserves: StrategyReserves)
    requires
        deposit_amount > 0,
        reserves.b_rate > 0,
        reserves.total_shares >= 0,
        reserves.total_shares > 0 ==> reserves.total_b_tokens > 0,
        calculate_optimal_deposit_amount(deposit_amount, &reserves) is Ok,
    ensures
        calculate_optimal_deposit_amount(
            calculate_optimal_deposit_amount(deposit_amount, &reserves)->Ok_0.0,
            &reserves,
        ) == calculate_optimal_deposit_amount(deposit_amount, &reserves),
{
    law_optimal_deposit(deposit_amount, reserves);
    let (amount, b_tokens) = calculate_optimal_deposit_amount(deposit_amount, &reserves)->Ok_0;
    let (ts, tb, rate) = (
        reserves.total_shares as int,
        reserves.total_b_tokens as int,
        reserves.b_rate as int,
    );
    let o = b_tokens as int;
    let bought = deposit_amount * SCALAR_12 / rate;
    let again = amount * SCALAR_12 / rate;
    lemma_ceil(o * rate, SCALAR_12 as int);
    lemma_floor_largest(amount * SCALAR_12, rate, o);
    lemma_floor_monotone(amount * SCALAR_12, deposit_amount * SCALAR_12, rate);
    lemma_floor(deposit_amount * SCALAR_12, rate);
    lemma_floor(amount * SCALAR_12, rate);
    assert(o <= again <= bought);
    if ts > 0 {
        assert(0 <= o * ts <= again * ts <= bought * ts) by (nonlinear_arith)
            requires
                0 < o <= again <= bought,
                ts > 0,
        ;
        lemma_floor_monotone(o * ts, again * ts, tb);
        lemma_floor_monotone(again * ts, bought * ts, tb);
        lemma_floor(o * ts, tb);
        lemma_floor(again * ts, tb);
        lemma_floor(bought * ts, tb);
    }
}

/// Putting b_tokens in and taking the same number out again loses at most one
/// share, and gains none. (The very first deposit loses the locked shares, too.)
pub proof fn law_round_trip_loses_at_most_one_share(
    reserves: StrategyReserves,
    vault_shares: i128,
    b_tokens_amount: i128,
)
    requires
        reserves.total_shares > 0,
        reserves.total_b_tokens > 0,
        b_tokens_amount > 0,
        credit(vault_shares, b_tokens_amount, &reserves) is Ok,
        ({
            let (shares, after) = credit(vault_shares, b_tokens_amount, &reserves)->Ok_0;
            debit(shares, b_tokens_amount, &after) is Ok
        }),
    ensures
        ({
            let (shares, after) = credit(vault_shares, b_tokens_amount, &reserves)->Ok_0;
            let (rest, last) = debit(shares, b_tokens_amount, &after)->Ok_0;
            &&& vault_shares - 1 <= rest <= vault_shares
            &&& last.total_b_tokens == reserves.total_b_tokens
            &&& last.total_shares - reserves.total_shares == rest - vault_shares
        }),
{
    let (shares, after) = credit(vault_shares, b_tokens_amount, &reserves)->Ok_0;
    let (ts, tb, b) = (
        reserves.total_shares as int,
        reserves.total_b_tokens as int,
        b_tokens_amount as int,
    );
    let minted = b * ts / tb;
    let (ts2, tb2) = (ts + minted, tb + b);
    lemma_floor(b * ts, tb);
    assert(minted * tb2 <= b * ts2 < (minted + 1) * tb2) by (nonlinear_arith)
        requires
            minted * tb <= b * ts < (minted + 1) * tb,
            ts2 == ts + minted,
            tb2 == tb + b,
            b > 0,
    ;
    lemma_ceil(b * ts2, tb2);
    lemma_ceil_smallest(b * ts2, tb2, minted + 1);
    let burnt = ceil_div(b * ts2, tb2);
    assert(burnt >= minted) by (nonlinear_arith)
        requires
            minted * tb2 <= b * ts2 <= burnt * tb2,
            tb2 > 0,
    ;
}

/// What changes the books.
pub enum Step {
    /// A deposit that brings b_tokens for a vault.
    Deposit { vault: Address, b_tokens_amount: i128 },
    /// A withdrawal that takes b_tokens for a vault.
    Withdrawal { vault: Address, b_tokens_amount: i128 },
    /// Rewards that bring b_tokens for all vaults.
    Harvest { b_tokens_amount: i128 },
    /// A new b_rate of the pool.
    Rate { b_rate: i128 },
}

/// The books after one step; none where the step is refused.
pub open spec fn after_step(
    books: (StrategyReserves, Map<Address, i128>),
    step: Step,
) -> Option<(StrategyReserves, Map<Address, i128>)> {
    let (reserves, vaults) = books;
    match step {
        Step::Deposit { vault, b_tokens_amount } => if b_tokens_amount <= 0 {
            None
        } else {
            match credit(shares_of(vaults, vault), b_tokens_amount, &reserves) {
                Ok((shares, after)) => Some((after, vaults.insert(vault, shares))),
                Err(_) => None,
            }
        },
        Step::Withdrawal { vault, b_tokens_amount } => if b_tokens_amount <= 0 {
            None
        } else {
            match debit(shares_of(vaults, vault), b_tokens_amount, &reserves) {
                Ok((shares, after)) => Some((after, vaults.insert(vault, shares))),
                Err(_) => None,
            }
        },
        Step::Harvest { b_tokens_amount } => match accrue(b_tokens_amount, &reserves) {
            Ok(after) => Some((after, vaults)),
            Err(_) => None,
        },
        Step::Rate { b_rate } => Some((StrategyReserves { b_rate, ..reserves }, vaults)),
    }
}

/// The books after a sequence of steps; a step that is refused changes nothing.
pub open spec fn after_steps(
    books: (StrategyReserves, Map<Address, i128>),
    steps: Seq<Step>,
) -> (StrategyReserves, Map<Address, i128>)
    decreases steps.len(),
{
    if steps.len() == 0 {
        books
    } else {
        let before = after_steps(books, steps.drop_last());
        match after_step(before, steps.last()) {
            Some(after) => after,
            None => before,
        }
    }
}

/// One step keeps the books in agreement; where there are shares, there still
/// are, and it does not dilute them.
pub proof fn law_step_does_not_dilute(
    books: (StrategyReserves, Map<Address, i128>),
    step: Step,
)
    requires
        consistent(books.0, books.1),
        after_step(books, step) is Some,
    ensures
        ({
            let after = after_step(books, step)->Some_0;
            &&& consistent(after.0, after.1)
            &&& books.0.total_shares > 0 ==> after.0.total_shares > 0 && no_dilution(
                books.0,
                after.0,
            )
        }),
{
    let (reserves, vaults) = books;
    match step {
        Step::Deposit { vault, b_tokens_amount } => {
            law_credit_keeps_consistent(reserves, vaults, vault, b_tokens_amount);
            if reserves.total_shares > 0 {
                law_credit_does_not_dilute(reserves, shares_of(vaults, vault), b_tokens_amount);
            }
        },
        Step::Withdrawal { vault, b_tokens_amount } => {
            law_debit_keeps_consistent(reserves, vaults, vault, b_tokens_amount);
            if reserves.total_shares > 0 {
                law_debit_does_not_dilute(reserves, shares_of(vaults, vault), b_tokens_amount);
            }
        },
        Step::Harvest { b_tokens_amount } => {
            law_accrue_keeps_consistent(reserves, vaults, b_tokens_amount);
            if reserves.total_shares > 0 {
                law_accrue_does_not_dilute(reserves, b_tokens_amount);
            }
        },
        Step::Rate { b_rate } => {
            law_rate_keeps_consistent(reserves, vaults, b_rate);
        },
    }
}

/// Over any sequence of deposits, withdrawals, harvests and changes of the
/// b_rate, by whatever vaults, the books stay in agreement, and once there are
/// shares, the b_tokens behind one never fall.
pub proof fn law_steps_do_not_dilute(
    books: (StrategyReserves, Map<Address, i128>),
    steps: Seq<Step>,
)
    requires
        consistent(books.0, books.1),
    ensures
        ({
            let after = after_steps(books, steps);
            &&& consistent(after.0, after.1)
            &&& books.0.total_shares > 0 ==> after.0.total_shares > 0 && no_dilution(
                books.0,
                after.0,
            )
        }),
    decreases steps.len(),
{
    if steps.len() > 0 {
        let before = after_steps(books, steps.drop_last());
        law_steps_do_not_dilute(books, steps.drop_last());
        if after_step(before, steps.last()) is Some {
            law_step_does_not_dilute(before, steps.last());
            let after = after_step(before, steps.last())->Some_0;
            if books.0.total_shares > 0 {
                lemma_no_dilution_is_transitive(books.0, before.0, after.0);
            }
        }
    }
}

/// What is not diluted by one change nor by the next is not diluted by both.
proof fn lemma_no_dilution_is_transitive(
    first: StrategyReserves,
    second: StrategyReserves,
    third: StrategyReserves,
)
    requires
        first.total_shares > 0,
        second.total_shares > 0,
        third.total_shares > 0,
        no_dilution(first, second),
        no_dilution(second, third),
    ensures
        no_dilution(first, third),
{
    let (b1, s1) = (first.total_b_tokens as int, first.total_shares as int);
    let (b2, s2) = (second.total_b_tokens as int, second.total_shares as int);
    let (b3, s3) = (third.total_b_tokens as int, third.total_shares as int);
    assert(b1 * s3 <= b3 * s1) by (nonlinear_arith)
        requires
            b1 * s2 <= b2 * s1,
            b2 * s3 <= b3 * s2,
            s1 > 0,
            s2 > 0,
            s3 > 0,
    {
        assert((b1 * s2) * s3 <= (b2 * s1) * s3);
        assert((b2 * s3) * s1 <= (b3 * s2) * s1);
        assert((b1 * s3) * s2 <= (b3 * s1) * s2);
    }
}

} // verus!
