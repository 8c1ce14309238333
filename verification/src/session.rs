use crate::address::Address;
use crate::blend::reserves::StrategyReserves;
use crate::error::StrategyError;
use vstd::prelude::*;

verus! {

/// Why a script stops before its end.
#[derive(Debug, PartialEq, Eq)]
pub enum Halt<Q> {
    /// The host is to perform this call; the script goes on from the reply.
    Ask(Q),
    /// The entry point returns this error.
    Error(StrategyError),
    /// The invocation is aborted with this error.
    Abort(StrategyError),
    /// The invocation is aborted without an error of the strategy's own: an
    /// operation overflowed, or a reply was not of the kind asked for.
    Trap,
}

/// What the host answered to one call. `C` is the configuration record of the
/// strategy that runs.
#[derive(Debug, PartialEq, Eq)]
pub enum Reply<C> {
    /// The call was performed; there is nothing to report.
    Done,
    /// A truth value.
    Flag(bool),
    /// A signed amount.
    Amount(i128),
    /// An unsigned amount.
    Unsigned(u128),
    /// An index.
    Index(u32),
    /// A ledger time.
    Time(u64),
    /// An address.
    Account(Address),
    /// A pair of amounts.
    Pair((i128, i128)),
    /// An amount from storage.
    Stored(Option<i128>),
    /// A supply position.
    Position(Option<Option<i128>>),
    /// A reserve record.
    Reserves(StrategyReserves),
    /// The keeper, or why there is none.
    Keeper(Result<Address, StrategyError>),
    /// A configuration from storage.
    Config(Option<C>),
    /// A configuration, or why there is none.
    Configured(Result<C, StrategyError>),
    /// A list of addresses.
    Accounts(Vec<Address>),
    /// A list of unsigned amounts.
    Unsigneds(Vec<u128>),
    /// The amounts along a swap path, or why it failed.
    Swapped(Result<Vec<i128>, StrategyError>),
    /// A list of signed amounts.
    Amounts(Vec<i128>),
}

/// One invocation of a strategy, as far as it has come: the contract that runs
/// and the replies of the host so far, in the order of the calls.
///
/// A script is a function of its arguments and the session. As long as the
/// replies do not suffice it asks for the next call; once they do it returns.
/// Running it again on a longer session repeats what it did before, so each
/// call is asked for once.
#[derive(Debug, PartialEq, Eq)]
pub struct Session<C> {
    pub contract: Address,
    pub replies: Vec<Reply<C>>,
}

/// Goes on with `next` where `result` is a value, and stops where it is not.
pub open spec fn chain<A, B, Q>(
    result: Result<A, Halt<Q>>,
    next: spec_fn(A) -> Result<B, Halt<Q>>,
) -> Result<B, Halt<Q>> {
    match result {
        Ok(value) => next(value),
        Err(halt) => Err(halt),
    }
}

impl<C> Session<C> {
    /// Whether this is the session `before`, one reply later.
    pub open spec fn follows(&self, before: &Session<C>) -> bool {
        &&& self.contract == before.contract
        &&& self.replies@.len() == before.replies@.len() + 1
        &&& forall|i: int|
            0 <= i < before.replies@.len() ==> #[trigger] self.replies@[i] == before.replies@[i]
    }

    /// Whether this is the session `before`, any number of replies later.
    pub open spec fn extends(&self, before: &Session<C>) -> bool {
        &&& self.contract == before.contract
        &&& self.replies@.len() >= before.replies@.len()
        &&& forall|i: int|
            0 <= i < before.replies@.len() ==> #[trigger] self.replies@[i] == before.replies@[i]
    }

    /// The session of an invocation of `contract` that has made no call yet.
    pub fn new(contract: Address) -> (session: Self)
        ensures
            session.contract == contract,
            session.replies@ == Seq::<Reply<C>>::empty(),
    {
        Session { contract, replies: Vec::new() }
    }

    /// Takes note of the reply to the call that was asked for last.
    pub fn resume(&mut self, reply: Reply<C>)
        ensures
            final(self).contract == old(self).contract,
            final(self).replies@ == old(self).replies@.push(reply),
    {
        self.replies.push(reply);
    }

    /// Whether the reply at `at` is that its call was performed; asks for
    /// `call` if there is no such reply yet.
    pub open spec fn spec_done<Q>(&self, at: usize, call: Q) -> Result<(), Halt<Q>> {
        if at >= self.replies@.len() {
            Err(Halt::Ask(call))
        } else {
            match self.replies@[at as int] {
                Reply::Done => Ok(()),
                _ => Err(Halt::Trap),
            }
        }
    }

    /// Whether the reply at `at` is that its call was performed; asks for
    /// `call` if there is no such reply yet.
    #[verifier::when_used_as_spec(spec_done)]
    pub fn done<Q>(&self, at: usize, call: Q) -> (r: Result<(), Halt<Q>>)
        ensures
            r == self.spec_done(at, call),
            r is Ok ==> at < self.replies@.len() <= usize::MAX,
    {
        if at >= self.replies.len() {
            return Err(Halt::Ask(call));
        }
        match &self.replies[at] {
            Reply::Done => Ok(()),
            _ => Err(Halt::Trap),
        }
    }

    /// The reply at `at` as a truth value; asks for `call` if there is
    /// no such reply yet.
    pub open spec fn spec_flag<Q>(&self, at: usize, call: Q) -> Result<bool, Halt<Q>> {
        if at >= self.replies@.len() {
            Err(Halt::Ask(call))
        } else {
            match &self.replies@[at as int] {
                Reply::Flag(value) => Ok(*value),
                _ => Err(Halt::Trap),
            }
        }
    }

    /// The reply at `at` as a truth value; asks for `call` if there is
    /// no such reply yet.
    #[verifier::when_used_as_spec(spec_flag)]
    pub fn flag<Q>(&self, at: usize, call: Q) -> (r: Result<bool, Halt<Q>>)
        ensures
            r == self.spec_flag(at, call),
            r is Ok ==> at < self.replies@.len() <= usize::MAX,
    {
        if at >= self.replies.len() {
            return Err(Halt::Ask(call));
        }
        match &self.replies[at] {
            Reply::Flag(value) => Ok(*value),
            _ => Err(Halt::Trap),
        }
    }

    /// The reply at `at` as a signed amount; asks for `call` if there is
    /// no such reply yet.
    pub open spec fn spec_amount<Q>(&self, at: usize, call: Q) -> Result<i128, Halt<Q>> {
        if at >= self.replies@.len() {
            Err(Halt::Ask(call))
        } else {
            match &self.replies@[at as int] {
                Reply::Amount(value) => Ok(*value),
                _ => Err(Halt::Trap),
            }
        }
    }

    /// The reply at `at` as a signed amount; asks for `call` if there is
    /// no such reply yet.
    #[verifier::when_used_as_spec(spec_amount)]
    pub fn amount<Q>(&self, at: usize, call: Q) -> (r: Result<i128, Halt<Q>>)
        ensures
            r == self.spec_amount(at, call),
            r is Ok ==> at < self.replies@.len() <= usize::MAX,
    {
        if at >= self.replies.len() {
            return Err(Halt::Ask(call));
        }
        match &self.replies[at] {
            Reply::Amount(value) => Ok(*value),
            _ => Err(Halt::Trap),
        }
    }

    /// The reply at `at` as an unsigned amount; asks for `call` if there is
    /// no such reply yet.
    pub open spec fn spec_unsigned<Q>(&self, at: usize, call: Q) -> Result<u128, Halt<Q>> {
        if at >= self.replies@.len() {
            Err(Halt::Ask(call))
        } else {
            match &self.replies@[at as int] {
                Reply::Unsigned(value) => Ok(*value),
                _ => Err(Halt::Trap),
            }
        }
    }

    /// The reply at `at` as an unsigned amount; asks for `call` if there is
    /// no such reply yet.
    #[verifier::when_used_as_spec(spec_unsigned)]
    pub fn unsigned<Q>(&self, at: usize, call: Q) -> (r: Result<u128, Halt<Q>>)
        ensures
            r == self.spec_unsigned(at, call),
            r is Ok ==> at < self.replies@.len() <= usize::MAX,
    {
        if at >= self.replies.len() {
            return Err(Halt::Ask(call));
        }
        match &self.replies[at] {
            Reply::Unsigned(value) => Ok(*value),
            _ => Err(Halt::Trap),
        }
    }

    /// The reply at `at` as an index; asks for `call` if there is
    /// no such reply yet.
    pub open spec fn spec_index<Q>(&self, at: usize, call: Q) -> Result<u32, Halt<Q>> {
        if at >= self.replies@.len() {
            Err(Halt::Ask(call))
        } else {
            match &self.replies@[at as int] {
                Reply::Index(value) => Ok(*value),
                _ => Err(Halt::Trap),
            }
        }
    }

    /// The reply at `at` as an index; asks for `call` if there is
    /// no such reply yet.
    #[verifier::when_used_as_spec(spec_index)]
    pub fn index<Q>(&self, at: usize, call: Q) -> (r: Result<u32, Halt<Q>>)
        ensures
            r == self.spec_index(at, call),
            r is Ok ==> at < self.replies@.len() <= usize::MAX,
    {
        if at >= self.replies.len() {
            return Err(Halt::Ask(call));
        }
        match &self.replies[at] {
            Reply::Index(value) => Ok(*value),
            _ => Err(Halt::Trap),
        }
    }

    /// The reply at `at` as a ledger time; asks for `call` if there is
    /// no such reply yet.
    pub open spec fn spec_time<Q>(&self, at: usize, call: Q) -> Result<u64, Halt<Q>> {
        if at >= self.replies@.len() {
            Err(Halt::Ask(call))
        } else {
            match &self.replies@[at as int] {
                Reply::Time(value) => Ok(*value),
                _ => Err(Halt::Trap),
            }
        }
    }

    /// The reply at `at` as a ledger time; asks for `call` if there is
    /// no such reply yet.
    #[verifier::when_used_as_spec(spec_time)]
    pub fn time<Q>(&self, at: usize, call: Q) -> (r: Result<u64, Halt<Q>>)
        ensures
            r == self.spec_time(at, call),
            r is Ok ==> at < self.replies@.len() <= usize::MAX,
    {
        if at >= self.replies.len() {
            return Err(Halt::Ask(call));
        }
        match &self.replies[at] {
            Reply::Time(value) => Ok(*value),
            _ => Err(Halt::Trap),
        }
    }

    /// The reply at `at` as an address; asks for `call` if there is
    /// no such reply yet.
    pub open spec fn spec_account<Q>(&self, at: usize, call: Q) -> Result<Address, Halt<Q>> {
        if at >= self.replies@.len() {
            Err(Halt::Ask(call))
        } else {
            match &self.replies@[at as int] {
                Reply::Account(value) => Ok(*value),
                _ => Err(Halt::Trap),
            }
        }
    }

    /// The reply at `at` as an address; asks for `call` if there is
    /// no such reply yet.
    #[verifier::when_used_as_spec(spec_account)]
    pub fn account<Q>(&self, at: usize, call: Q) -> (r: Result<Address, Halt<Q>>)
        ensures
            r == self.spec_account(at, call),
            r is Ok ==> at < self.replies@.len() <= usize::MAX,
    {
        if at >= self.replies.len() {
            return Err(Halt::Ask(call));
        }
        match &self.replies[at] {
            Reply::Account(value) => Ok(*value),
            _ => Err(Halt::Trap),
        }
    }

    /// The reply at `at` as a pair of amounts; asks for `call` if there is
    /// no such reply yet.
    pub open spec fn spec_pair<Q>(&self, at: usize, call: Q) -> Result<(i128, i128), Halt<Q>> {
        if at >= self.replies@.len() {
            Err(Halt::Ask(call))
        } else {
            match &self.replies@[at as int] {
                Reply::Pair(value) => Ok(*value),
                _ => Err(Halt::Trap),
            }
        }
    }

    /// The reply at `at` as a pair of amounts; asks for `call` if there is
    /// no such reply yet.
    #[verifier::when_used_as_spec(spec_pair)]
    pub fn pair<Q>(&self, at: usize, call: Q) -> (r: Result<(i128, i128), Halt<Q>>)
        ensures
            r == self.spec_pair(at, call),
            r is Ok ==> at < self.replies@.len() <= usize::MAX,
    {
        if at >= self.replies.len() {
            return Err(Halt::Ask(call));
        }
        match &self.replies[at] {
            Reply::Pair(value) => Ok(*value),
            _ => Err(Halt::Trap),
        }
    }

    /// The reply at `at` as an amount from storage; asks for `call` if there is
    /// no such reply yet.
    pub open spec fn spec_stored<Q>(&self, at: usize, call: Q) -> Result<Option<i128>, Halt<Q>> {
        if at >= self.replies@.len() {
            Err(Halt::Ask(call))
        } else {
            match &self.replies@[at as int] {
                Reply::Stored(value) => Ok(*value),
                _ => Err(Halt::Trap),
            }
        }
    }

    /// The reply at `at` as an amount from storage; asks for `call` if there is
    /// no such reply yet.
    #[verifier::when_used_as_spec(spec_stored)]
    pub fn stored<Q>(&self, at: usize, call: Q) -> (r: Result<Option<i128>, Halt<Q>>)
        ensures
            r == self.spec_stored(at, call),
            r is Ok ==> at < self.replies@.len() <= usize::MAX,
    {
        if at >= self.replies.len() {
            return Err(Halt::Ask(call));
        }
        match &self.replies[at] {
            Reply::Stored(value) => Ok(*value),
            _ => Err(Halt::Trap),
        }
    }

    /// The reply at `at` as a supply position; asks for `call` if there is
    /// no such reply yet.
    pub open spec fn spec_position<Q>(&self, at: usize, call: Q) -> Result<
        Option<Option<i128>>,
        Halt<Q>,
    > {
        if at >= self.replies@.len() {
            Err(Halt::Ask(call))
        } else {
            match &self.replies@[at as int] {
                Reply::Position(value) => Ok(*value),
                _ => Err(Halt::Trap),
            }
        }
    }

    /// The reply at `at` as a supply position; asks for `call` if there is
    /// no such reply yet.
    #[verifier::when_used_as_spec(spec_position)]
    pub fn position<Q>(&self, at: usize, call: Q) -> (r: Result<Option<Option<i128>>, Halt<Q>>)
        ensures
            r == self.spec_position(at, call),
            r is Ok ==> at < self.replies@.len() <= usize::MAX,
    {
        if at >= self.replies.len() {
            return Err(Halt::Ask(call));
        }
        match &self.replies[at] {
            Reply::Position(value) => Ok(*value),
            _ => Err(Halt::Trap),
        }
    }

    /// The reply at `at` as a reserve record; asks for `call` if there is
    /// no such reply yet.
    pub open spec fn spec_reserves<Q>(&self, at: usize, call: Q) -> Result<
        StrategyReserves,
        Halt<Q>,
    > {
        if at >= self.replies@.len() {
            Err(Halt::Ask(call))
        } else {
            match &self.replies@[at as int] {
                Reply::Reserves(value) => Ok(*value),
                _ => Err(Halt::Trap),
            }
        }
    }

    /// The reply at `at` as a reserve record; asks for `call` if there is
    /// no such reply yet.
    #[verifier::when_used_as_spec(spec_reserves)]
    pub fn reserves<Q>(&self, at: usize, call: Q) -> (r: Result<StrategyReserves, Halt<Q>>)
        ensures
            r == self.spec_reserves(at, call),
            r is Ok ==> at < self.replies@.len() <= usize::MAX,
    {
        if at >= self.replies.len() {
            return Err(Halt::Ask(call));
        }
        match &self.replies[at] {
            Reply::Reserves(value) => Ok(*value),
            _ => Err(Halt::Trap),
        }
    }

    /// The reply at `at` as the keeper, or why there is none; asks for `call` if there is
    /// no such reply yet.
    pub open spec fn spec_keeper<Q>(&self, at: usize, call: Q) -> Result<
        Result<Address, StrategyError>,
        Halt<Q>,
    > {
        if at >= self.replies@.len() {
            Err(Halt::Ask(call))
        } else {
            match &self.replies@[at as int] {
                Reply::Keeper(value) => Ok(*value),
                _ => Err(Halt::Trap),
            }
        }
    }

    /// The reply at `at` as the keeper, or why there is none; asks for `call` if there is
    /// no such reply yet.
    #[verifier::when_used_as_spec(spec_keeper)]
    pub fn keeper<Q>(&self, at: usize, call: Q) -> (r: Result<
        Result<Address, StrategyError>,
        Halt<Q>,
    >)
        ensures
            r == self.spec_keeper(at, call),
            r is Ok ==> at < self.replies@.len() <= usize::MAX,
    {
        if at >= self.replies.len() {
            return Err(Halt::Ask(call));
        }
        match &self.replies[at] {
            Reply::Keeper(value) => Ok(*value),
            _ => Err(Halt::Trap),
        }
    }

    /// The reply at `at` as a configuration from storage; asks for `call` if there is
    /// no such reply yet.
    pub open spec fn spec_config<Q>(&self, at: usize, call: Q) -> Result<&Option<C>, Halt<Q>> {
        if at >= self.replies@.len() {
            Err(Halt::Ask(call))
        } else {
            match &self.replies@[at as int] {
                Reply::Config(value) => Ok(value),
                _ => Err(Halt::Trap),
            }
        }
    }

    /// The reply at `at` as a configuration from storage; asks for `call` if there is
    /// no such reply yet.
    #[verifier::when_used_as_spec(spec_config)]
    pub fn config<Q>(&self, at: usize, call: Q) -> (r: Result<&Option<C>, Halt<Q>>)
        ensures
            r == self.spec_config(at, call),
            r is Ok ==> at < self.replies@.len() <= usize::MAX,
    {
        if at >= self.replies.len() {
            return Err(Halt::Ask(call));
        }
        match &self.replies[at] {
            Reply::Config(value) => Ok(value),
            _ => Err(Halt::Trap),
        }
    }

    /// The reply at `at` as a configuration, or why there is none; asks for `call` if there is
    /// no such reply yet.
    pub open spec fn spec_configured<Q>(&self, at: usize, call: Q) -> Result<
        &Result<C, StrategyError>,
        Halt<Q>,
    > {
        if at >= self.replies@.len() {
            Err(Halt::Ask(call))
        } else {
            match &self.replies@[at as int] {
                Reply::Configured(value) => Ok(value),
                _ => Err(Halt::Trap),
            }
        }
    }

    /// The reply at `at` as a configuration, or why there is none; asks for `call` if there is
    /// no such reply yet.
    #[verifier::when_used_as_spec(spec_configured)]
    pub fn configured<Q>(&self, at: usize, call: Q) -> (r: Result<
        &Result<C, StrategyError>,
        Halt<Q>,
    >)
        ensures
            r == self.spec_configured(at, call),
            r is Ok ==> at < self.replies@.len() <= usize::MAX,
    {
        if at >= self.replies.len() {
            return Err(Halt::Ask(call));
        }
        match &self.replies[at] {
            Reply::Configured(value) => Ok(value),
            _ => Err(Halt::Trap),
        }
    }

    /// The reply at `at` as a list of addresses; asks for `call` if there is
    /// no such reply yet.
    pub open spec fn spec_accounts<Q>(&self, at: usize, call: Q) -> Result<&Vec<Address>, Halt<Q>> {
        if at >= self.replies@.len() {
            Err(Halt::Ask(call))
        } else {
            match &self.replies@[at as int] {
                Reply::Accounts(value) => Ok(value),
                _ => Err(Halt::Trap),
            }
        }
    }

    /// The reply at `at` as a list of addresses; asks for `call` if there is
    /// no such reply yet.
    #[verifier::when_used_as_spec(spec_accounts)]
    pub fn accounts<Q>(&self, at: usize, call: Q) -> (r: Result<&Vec<Address>, Halt<Q>>)
        ensures
            r == self.spec_accounts(at, call),
            r is Ok ==> at < self.replies@.len() <= usize::MAX,
    {
        if at >= self.replies.len() {
            return Err(Halt::Ask(call));
        }
        match &self.replies[at] {
            Reply::Accounts(value) => Ok(value),
            _ => Err(Halt::Trap),
        }
    }

    /// The reply at `at` as a list of unsigned amounts; asks for `call` if there is
    /// no such reply yet.
    pub open spec fn spec_unsigneds<Q>(&self, at: usize, call: Q) -> Result<&Vec<u128>, Halt<Q>> {
        if at >= self.replies@.len() {
            Err(Halt::Ask(call))
        } else {
            match &self.replies@[at as int] {
                Reply::Unsigneds(value) => Ok(value),
                _ => Err(Halt::Trap),
            }
        }
    }

    /// The reply at `at` as a list of unsigned amounts; asks for `call` if there is
    /// no such reply yet.
    #[verifier::when_used_as_spec(spec_unsigneds)]
    pub fn unsigneds<Q>(&self, at: usize, call: Q) -> (r: Result<&Vec<u128>, Halt<Q>>)
        ensures
            r == self.spec_unsigneds(at, call),
            r is Ok ==> at < self.replies@.len() <= usize::MAX,
    {
        if at >= self.replies.len() {
            return Err(Halt::Ask(call));
        }
        match &self.replies[at] {
            Reply::Unsigneds(value) => Ok(value),
            _ => Err(Halt::Trap),
        }
    }

    /// The reply at `at` as the amounts along a swap path, or why it failed;
    /// asks for `call` if there is no such reply yet.
    pub open spec fn spec_swapped<Q>(&self, at: usize, call: Q) -> Result<
        &Result<Vec<i128>, StrategyError>,
        Halt<Q>,
    > {
        if at >= self.replies@.len() {
            Err(Halt::Ask(call))
        } else {
            match &self.replies@[at as int] {
                Reply::Swapped(value) => Ok(value),
                _ => Err(Halt::Trap),
            }
        }
    }

    /// The reply at `at` as the amounts along a swap path, or why it failed;
    /// asks for `call` if there is no such reply yet.
    #[verifier::when_used_as_spec(spec_swapped)]
    pub fn swapped<Q>(&self, at: usize, call: Q) -> (r: Result<
        &Result<Vec<i128>, StrategyError>,
        Halt<Q>,
    >)
        ensures
            r == self.spec_swapped(at, call),
            r is Ok ==> at < self.replies@.len() <= usize::MAX,
    {
        if at >= self.replies.len() {
            return Err(Halt::Ask(call));
        }
        match &self.replies[at] {
            Reply::Swapped(value) => Ok(value),
            _ => Err(Halt::Trap),
        }
    }

    /// The reply at `at` as a list of signed amounts; asks for `call` if there is
    /// no such reply yet.
    pub open spec fn spec_amounts<Q>(&self, at: usize, call: Q) -> Result<&Vec<i128>, Halt<Q>> {
        if at >= self.replies@.len() {
            Err(Halt::Ask(call))
        } else {
            match &self.replies@[at as int] {
                Reply::Amounts(value) => Ok(value),
                _ => Err(Halt::Trap),
            }
        }
    }

    /// The reply at `at` as a list of signed amounts; asks for `call` if there is
    /// no such reply yet.
    #[verifier::when_used_as_spec(spec_amounts)]
    pub fn amounts<Q>(&self, at: usize, call: Q) -> (r: Result<&Vec<i128>, Halt<Q>>)
        ensures
            r == self.spec_amounts(at, call),
            r is Ok ==> at < self.replies@.len() <= usize::MAX,
    {
        if at >= self.replies.len() {
            return Err(Halt::Ask(call));
        }
        match &self.replies[at] {
            Reply::Amounts(value) => Ok(value),
            _ => Err(Halt::Trap),
        }
    }
}

} // verus!
