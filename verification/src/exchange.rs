//! How the replies of a host are read in the laws on what is exchanged with it.

use crate::session::Reply;
use vstd::prelude::*;

verus! {

/// How many ledgers there are in thirty days.
pub const MONTH_IN_LEDGERS: u32 = 518_400;

/// How many ledgers there are in thirty-one days.
pub const MONTH_AND_DAY_IN_LEDGERS: u32 = 535_680;

/// How many ledgers there are in a year.
pub const YEAR_IN_LEDGERS: u32 = 6_307_200;

/// How many ledgers there are in a year and a day.
pub const YEAR_AND_DAY_IN_LEDGERS: u32 = 6_324_480;

/// The amount that the reply at `at` has from storage; zero where it has none.
pub open spec fn stored_at<C>(replies: Seq<Reply<C>>, at: int) -> i128 {
    match replies[at] {
        Reply::Stored(Some(amount)) => amount,
        _ => 0,
    }
}

/// The position after a read of storage at `at`: a positive amount has the life
/// of its entry extended before the script goes on.
pub open spec fn past_read<C>(replies: Seq<Reply<C>>, at: int) -> int {
    if stored_at(replies, at) > 0 {
        at + 2
    } else {
        at + 1
    }
}

/// Whether a read of storage at `at`, as far as it has come, was answered in
/// kind.
pub open spec fn read_in_kind<C>(replies: Seq<Reply<C>>, at: int) -> bool {
    &&& replies.len() > at ==> replies[at] is Stored
    &&& replies.len() > at + 1 && stored_at(replies, at) > 0 ==> replies[at + 1] is Done
}

/// The entry of a list at `idx`, and zero beyond its end.
pub open spec fn listed(amounts: Seq<u128>, idx: u32) -> u128 {
    if idx < amounts.len() {
        amounts[idx as int]
    } else {
        0
    }
}

/// The smaller of two numbers.
pub open spec fn least(x: int, y: int) -> int {
    if x < y {
        x
    } else {
        y
    }
}

/// Whether `x` can be held as a signed amount.
pub open spec fn fits(x: int) -> bool {
    i128::MIN <= x <= i128::MAX
}

} // verus!
