//! Plain values that the host supplies with every call.

use vstd::prelude::*;

verus! {

/// An account of the host ledger: 32 bytes, equal when all bytes are equal.
pub type AccountId = [u8; 32];

/// An amount of the host's currency.
pub type Balance = u128;

/// A point in time as the host counts it.
pub type Timestamp = u64;

/// Whether two accounts are the same account.
pub fn same_account(a: &AccountId, b: &AccountId) -> (same: bool)
    ensures
        same == (*a == *b),
{
    let mut i: usize = 0;
    while i < 32
        invariant
            i <= 32,
            forall|k: int| 0 <= k < i ==> a[k] == b[k],
        decreases 32 - i,
    {
        if a[i] != b[i] {
            return false;
        }
        i += 1;
    }
    assert(*a =~= *b);
    true
}

} // verus!
