//! Deterministic addresses, and comparison of addresses.
use crate::ledger::{associated_account, associated_account_of, withdraw_authority, withdraw_authority_of};
use crate::model::Address;
use vstd::prelude::*;

verus! {

/// The withdraw authority of a pool, as the stake pool program derives it.
pub fn derive_withdraw_authority(pool_address: &Address) -> (r: Address)
    ensures
        r == withdraw_authority_of(*pool_address),
{
    withdraw_authority(pool_address)
}

/// The owner's associated token account for a mint.
pub fn derive_associated_account(owner: &Address, mint: &Address) -> (r: Address)
    ensures
        r == associated_account_of(*owner, *mint),
{
    associated_account(owner, mint)
}

/// Derivation is a function of its inputs: two derivations from equal inputs
/// give equal addresses.
pub proof fn derivations_are_pure(
    pool1: Address,
    pool2: Address,
    owner1: Address,
    owner2: Address,
    mint1: Address,
    mint2: Address,
)
    requires
        pool1 == pool2,
        owner1 == owner2,
        mint1 == mint2,
    ensures
        withdraw_authority_of(pool1) == withdraw_authority_of(pool2),
        associated_account_of(owner1, mint1) == associated_account_of(owner2, mint2),
{
}

/// Whether two addresses hold the same bytes.
pub fn same_address(a: &Address, b: &Address) -> (r: bool)
    ensures
        r == (a@ == b@),
{
    let mut i: usize = 0;
    while i < 32
        invariant
            i <= 32,
            a@.len() == 32,
            b@.len() == 32,
            forall|j: int| 0 <= j < i ==> a@[j] == b@[j],
        decreases 32 - i,
    {
        if a[i] != b[i] {
            return false;
        }
        i = i + 1;
    }
    assert(a@ =~= b@);
    true
}

} // verus!
