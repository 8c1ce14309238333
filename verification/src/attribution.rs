use crate::address::Address;
use vstd::prelude::*;

verus! {

/// The shares of all vaults together.
pub open spec fn sum_of_shares(vaults: Map<Address, i128>) -> int
    decreases vaults.dom().len(),
    when vaults.dom().finite()
{
    if vaults.dom().len() == 0 {
        0
    } else {
        let vault = vaults.dom().choose();
        vaults[vault] + sum_of_shares(vaults.remove(vault))
    }
}

/// The shares of one vault; none if it has no entry.
pub open spec fn shares_of(vaults: Map<Address, i128>, vault: Address) -> i128 {
    if vaults.dom().contains(vault) {
        vaults[vault]
    } else {
        0
    }
}

/// The sum does not depend on the order in which the vaults are taken.
pub proof fn lemma_sum_takes_any(vaults: Map<Address, i128>, vault: Address)
    requires
        vaults.dom().finite(),
        vaults.dom().contains(vault),
    ensures
        sum_of_shares(vaults) == vaults[vault] + sum_of_shares(vaults.remove(vault)),
    decreases vaults.dom().len(),
{
    let first = vaults.dom().choose();
    if first != vault {
        lemma_sum_takes_any(vaults.remove(first), vault);
        lemma_sum_takes_any(vaults.remove(vault), first);
        assert(vaults.remove(first).remove(vault) =~= vaults.remove(vault).remove(first));
    }
}

/// An entry changes the sum by as much as it changes the shares of its vault.
pub proof fn lemma_sum_after_insert(vaults: Map<Address, i128>, vault: Address, shares: i128)
    requires
        vaults.dom().finite(),
    ensures
        sum_of_shares(vaults.insert(vault, shares)) == sum_of_shares(vaults) - shares_of(
            vaults,
            vault,
        ) + shares,
{
    let changed = vaults.insert(vault, shares);
    lemma_sum_takes_any(changed, vault);
    if vaults.dom().contains(vault) {
        lemma_sum_takes_any(vaults, vault);
        assert(changed.remove(vault) =~= vaults.remove(vault));
    } else {
        assert(changed.remove(vault) =~= vaults);
    }
}

/// No vault has more shares than all together.
pub proof fn lemma_part_of_sum(vaults: Map<Address, i128>, vault: Address)
    requires
        vaults.dom().finite(),
        forall|v: Address| vaults.dom().contains(v) ==> #[trigger] vaults[v] >= 0,
    ensures
        0 <= shares_of(vaults, vault) <= sum_of_shares(vaults),
    decreases vaults.dom().len(),
{
    if vaults.dom().contains(vault) {
        lemma_sum_takes_any(vaults, vault);
        lemma_sum_is_nonnegative(vaults.remove(vault));
    } else {
        lemma_sum_is_nonnegative(vaults);
    }
}

/// The shares of all vaults together are not negative.
pub proof fn lemma_sum_is_nonnegative(vaults: Map<Address, i128>)
    requires
        vaults.dom().finite(),
        forall|v: Address| vaults.dom().contains(v) ==> #[trigger] vaults[v] >= 0,
    ensures
        sum_of_shares(vaults) >= 0,
    decreases vaults.dom().len(),
{
    if vaults.dom().len() > 0 {
        let vault = vaults.dom().choose();
        lemma_sum_is_nonnegative(vaults.remove(vault));
    }
}

} // verus!
