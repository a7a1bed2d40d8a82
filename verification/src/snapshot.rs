//! A raffle as plain values, for a host that keeps it between calls in a
//! store of its own.

use vstd::prelude::*;
use crate::account::{AccountId, Balance, Timestamp};
use crate::model::{Config, RaffleState};
use crate::storage::{
    flag_entries, flags_contains_key, flags_insert, pool_items, pool_new, pool_push,
    AccountFlags, AccountPool,
};

verus! {

/// Everything that a raffle holds, as plain values.
#[derive(Debug, PartialEq, Eq)]
pub struct Snapshot {
    /// The rules.
    pub config: Config,
    /// Who may tear the raffle down.
    pub owner: AccountId,
    /// Who receives the balance at settlement.
    pub beneficiary: AccountId,
    /// The accounts that joined and have not been drawn, in pool order.
    pub players: Vec<AccountId>,
    /// The accounts that were drawn, in the order of the draws.
    pub winners: Vec<AccountId>,
    /// From when on winners may be drawn, once the countdown has started.
    pub deadline: Option<Timestamp>,
    /// The stake collected and not yet handed to the beneficiary.
    pub balance: Balance,
}

impl Snapshot {
    /// The state that the snapshot describes: those who joined are exactly
    /// its players and winners.
    pub open spec fn state(self) -> RaffleState {
        RaffleState {
            config: self.config,
            owner: self.owner,
            beneficiary: self.beneficiary,
            players: self.players@,
            winners: self.winners@,
            entered: (self.players@ + self.winners@).to_set(),
            deadline: match self.deadline {
                Some(deadline) => Some(deadline as nat),
                None => None,
            },
            balance: self.balance as nat,
        }
    }

    /// A raffle can be rebuilt from the snapshot: the state it describes
    /// is well formed, and its accounts can be counted in a `u32`.
    pub open spec fn restorable(self) -> bool {
        &&& self.state().wf()
        &&& self.players@.len() + self.winners@.len() <= u32::MAX
    }
}

/// An account that stands nowhere in a sequence without repetitions can be
/// appended: the longer sequence has no repetitions either, and its set is
/// the old set with the account added.
pub proof fn lemma_push_fresh(accounts: Seq<AccountId>, account: AccountId)
    requires
        accounts.no_duplicates(),
        !accounts.contains(account),
    ensures
        accounts.push(account).no_duplicates(),
        accounts.push(account).to_set() == accounts.to_set().insert(account),
{
    accounts.lemma_push_to_set_commute(account);
}

/// Appends the accounts to a fresh pool and flags each of them, as long as
/// none of them is flagged already. `before` holds the accounts that are
/// flagged when the call is made.
pub(crate) fn fill_pool(
    accounts: &Vec<AccountId>,
    flags: &mut AccountFlags,
    Ghost(before): Ghost<Seq<AccountId>>,
) -> (pool: Option<AccountPool>)
    requires
        before.no_duplicates(),
        flag_entries(*old(flags)).dom() == before.to_set(),
        before.len() + accounts@.len() <= u32::MAX,
    ensures
        pool is Some <==> (before + accounts@).no_duplicates(),
        pool matches Some(filled) ==> {
            &&& pool_items(filled) == accounts@
            &&& flag_entries(*final(flags)).dom() == (before + accounts@).to_set()
        },
{
    let mut pool = pool_new();
    let mut index: usize = 0;
    while index < accounts.len()
        invariant
            index <= accounts@.len(),
            before.len() + accounts@.len() <= u32::MAX,
            pool_items(pool) == accounts@.take(index as int),
            (before + accounts@.take(index as int)).no_duplicates(),
            flag_entries(*flags).dom() == (before + accounts@.take(index as int)).to_set(),
        decreases accounts@.len() - index,
    {
        let account = accounts[index];
        let ghost seen = before + accounts@.take(index as int);
        if flags_contains_key(flags, &account) {
            proof {
                let all = before + accounts@;
                let first = choose|k: int| 0 <= k < seen.len() && seen[k] == account;
                assert(all[first] == seen[first]);
                assert(all[before.len() + index] == account);
            }
            return None;
        }
        proof {
            vstd::seq_lib::seq_to_set_is_finite(seen);
            seen.unique_seq_to_set();
            lemma_push_fresh(seen, account);
            assert(accounts@.take(index + 1) == accounts@.take(index as int).push(account));
            assert(before + accounts@.take(index + 1) == seen.push(account));
        }
        flags_insert(flags, account, true);
        pool_push(&mut pool, account);
        index += 1;
    }
    assert(accounts@.take(index as int) == accounts@);
    Some(pool)
}

} // verus!
