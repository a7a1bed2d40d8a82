//! The two collections of the host's storage library that the raffle keeps
//! its accounts in, with what is taken for granted about them.
//!
//! Nothing in this file is proved. Each function states what the storage
//! library's own source shows of the method it calls; the rest of the crate is
//! verified against these statements. A collection made by `new` lives in
//! memory: it reads and writes nothing of the host's storage unless it is
//! handed to it, which this crate never does.

use vstd::prelude::*;
use crate::account::AccountId;

verus! {

/// A storage vector (`ink_storage::collections::Vec`) of accounts. Verus
/// does not look inside: `pool_items` names what the vector holds.
#[verifier::external_body]
pub struct AccountPool {
    inner: ink_storage::collections::Vec<[u8; 32]>,
}

/// A storage hash map (`ink_storage::collections::HashMap`) from accounts to
/// flags. Verus does not look inside: `flag_entries` names what the map
/// holds.
#[verifier::external_body]
pub struct AccountFlags {
    inner: ink_storage::collections::HashMap<[u8; 32], bool>,
}

/// The accounts that a pool holds, in index order.
pub uninterp spec fn pool_items(pool: AccountPool) -> Seq<AccountId>;

/// The entries that a flag map holds.
pub uninterp spec fn flag_entries(flags: AccountFlags) -> Map<AccountId, bool>;

/// `Vec::new`: a vector without elements.
#[verifier::external_body]
pub(crate) fn pool_new() -> (pool: AccountPool)
    ensures
        pool_items(pool) == Seq::<AccountId>::empty(),
{
    AccountPool { inner: ink_storage::collections::Vec::new() }
}

/// `Vec::len`: the number of elements.
#[verifier::external_body]
pub(crate) fn pool_len(pool: &AccountPool) -> (len: u32)
    ensures
        len == pool_items(*pool).len(),
{
    pool.inner.len()
}

/// `Vec::get`: the element at `index`, or `None` at and beyond the length.
#[verifier::external_body]
pub(crate) fn pool_get(pool: &AccountPool, index: u32) -> (item: Option<AccountId>)
    ensures
        index < pool_items(*pool).len() ==> item == Some(pool_items(*pool)[index as int]),
        index >= pool_items(*pool).len() ==> item is None,
{
    pool.inner.get(index).copied()
}

/// `Vec::push`: appends at the back. The vector refuses a push (it panics)
/// once it holds `u32::MAX` elements, so that is left out.
#[verifier::external_body]
pub(crate) fn pool_push(pool: &mut AccountPool, account: AccountId)
    requires
        pool_items(*old(pool)).len() < u32::MAX,
    ensures
        pool_items(*final(pool)) == pool_items(*old(pool)).push(account),
{
    pool.inner.push(account)
}

/// `Vec::swap_remove` at an index below the length: the element there comes
/// out, the last element takes its slot, and the vector is one shorter.
#[verifier::external_body]
pub(crate) fn pool_swap_remove(pool: &mut AccountPool, index: u32) -> (removed: Option<AccountId>)
    requires
        index < pool_items(*old(pool)).len(),
    ensures
        removed == Some(pool_items(*old(pool))[index as int]),
        pool_items(*final(pool)) == pool_items(*old(pool)).update(
            index as int,
            pool_items(*old(pool)).last(),
        ).drop_last(),
{
    pool.inner.swap_remove(index)
}

/// `HashMap::new`: a map without entries.
#[verifier::external_body]
pub(crate) fn flags_new() -> (flags: AccountFlags)
    ensures
        flag_entries(flags) == (Map::<AccountId, bool>::empty()),
{
    AccountFlags { inner: ink_storage::collections::HashMap::new() }
}

/// `HashMap::contains_key`: whether the map has an entry for the account.
#[verifier::external_body]
pub(crate) fn flags_contains_key(flags: &AccountFlags, account: &AccountId) -> (found: bool)
    ensures
        found == flag_entries(*flags).dom().contains(*account),
{
    flags.inner.contains_key(account)
}

/// `HashMap::insert`: sets the account's entry and returns the value it had,
/// if any. A new key needs a free slot: the map counts its slots in a `u32`,
/// so a new key with `u32::MAX` entries present is left out.
#[verifier::external_body]
pub(crate) fn flags_insert(flags: &mut AccountFlags, account: AccountId, flag: bool) -> (previous:
    Option<bool>)
    requires
        flag_entries(*old(flags)).dom().contains(account) || (flag_entries(
            *old(flags),
        ).dom().finite() && flag_entries(*old(flags)).dom().len() < u32::MAX),
    ensures
        flag_entries(*final(flags)) == flag_entries(*old(flags)).insert(account, flag),
        previous == if flag_entries(*old(flags)).dom().contains(account) {
            Some(flag_entries(*old(flags))[account])
        } else {
            None
        },
{
    flags.inner.insert(account, flag)
}

} // verus!
