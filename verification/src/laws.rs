//! What holds of every raffle, proved of the model: of single operations
//! first, then of every sequence of calls.

use vstd::prelude::*;
use crate::account::{AccountId, Balance, Timestamp};
use crate::events::Error;
use crate::model::{Config, RaffleState};

verus! {

/// A raffle that nobody has joined is well formed.
pub proof fn law_initial_is_wf(owner: AccountId, beneficiary: AccountId, config: Config)
    ensures
        RaffleState::initial(owner, beneficiary, config).wf(),
{
    let s = RaffleState::initial(owner, beneficiary, config);
    assert(s.entered =~= s.entrants().to_set());
}

/// An entry, accepted or refused, leaves a well-formed raffle well formed:
/// in particular nobody stands twice among players and winners afterwards.
pub proof fn law_play_keeps_wf(s: RaffleState, caller: AccountId, value: Balance, now: Timestamp)
    requires
        s.wf(),
    ensures
        s.play(caller, value, now).wf(),
{
    if s.play_error(caller, value) is None {
        let t = s.joined(caller, value, now);
        let e = s.entrants();
        let f = t.entrants();
        let p = s.players.len() as int;
        assert forall|k: int| 0 <= k < e.len() implies e[k] != caller by {
            assert(e.contains(e[k]));
        }
        assert forall|k: int| 0 <= k < f.len() implies f[k] == (if k < p {
            e[k]
        } else if k == p {
            caller
        } else {
            e[k - 1]
        }) by {}
        assert forall|i: int, j: int| 0 <= i < j < f.len() implies f[i] != f[j] by {}
        assert forall|a: AccountId| t.entered.contains(a) == f.to_set().contains(a) by {
            if a == caller {
                assert(f[p] == caller);
                assert(f.contains(a));
            } else if s.entered.contains(a) {
                let k = choose|k: int| 0 <= k < e.len() && e[k] == a;
                assert(f[if k < p { k } else { k + 1 }] == a);
                assert(f.contains(a));
            }
        }
        assert(t.entered =~= f.to_set());
    }
}

/// A draw, accepted or refused, leaves a well-formed raffle well formed:
/// in particular nobody stands twice among players and winners afterwards,
/// and no more winners are drawn than the rules allow.
pub proof fn law_draw_keeps_wf(s: RaffleState, caller: AccountId, now: Timestamp, random: u32)
    requires
        s.wf(),
    ensures
        s.draw(caller, now, random).wf(),
{
    if s.draw_error(caller, now) is None && s.players.len() > 0 {
        let t = s.picked(random);
        let e = s.entrants();
        let f = t.entrants();
        let n = s.players.len() as int;
        let m = s.winners.len() as int;
        let i = s.picked_index(random);
        assert(0 <= i < n);
        assert forall|k: int| 0 <= k < f.len() implies f[k] == (if k < n - 1 {
            if k == i {
                e[n - 1]
            } else {
                e[k]
            }
        } else if k < n - 1 + m {
            e[k + 1]
        } else {
            e[i]
        }) by {}
        assert forall|a: int, b: int| 0 <= a < b < f.len() implies f[a] != f[b] by {}
        assert forall|a: AccountId| e.to_set().contains(a) == f.to_set().contains(a) by {
            if e.contains(a) {
                let k = choose|k: int| 0 <= k < e.len() && e[k] == a;
                let k2 = if k == i {
                    n - 1 + m
                } else if k == n - 1 {
                    i
                } else if k < n - 1 {
                    k
                } else {
                    k - 1
                };
                assert(f[k2] == a);
                assert(f.contains(a));
            }
        }
        assert(t.entered =~= f.to_set());
    }
}

/// A draw in a pool that is not empty moves exactly one player: the one at
/// the picked index stood in the pool before, stands in it no more, stands
/// among the winners exactly once, and the pool is one player shorter.
pub proof fn law_draw_without_replacement(s: RaffleState, random: u32)
    requires
        s.wf(),
        s.players.len() > 0,
    ensures
        s.players.contains(s.players[s.picked_index(random)]),
        !s.picked(random).players.contains(s.players[s.picked_index(random)]),
        s.picked(random).winners.to_multiset().count(s.players[s.picked_index(random)]) == 1,
        s.picked(random).players.len() == s.players.len() - 1,
{
    let t = s.picked(random);
    let e = s.entrants();
    let n = s.players.len() as int;
    let i = s.picked_index(random);
    let w = s.players[i];
    assert(0 <= i < n);
    assert(e[i] == w);
    assert forall|k: int| 0 <= k < t.players.len() implies t.players[k] != w by {
        assert(t.players[k] == e[if k == i { n - 1 } else { k }]);
    }
    assert forall|k: int| 0 <= k < s.winners.len() implies s.winners[k] != w by {
        assert(s.winners[k] == e[n + k]);
    }
    assert(!s.winners.contains(w));
    s.winners.to_multiset_ensures();
}

/// A settlement that went through leaves no balance, and with no balance
/// no settlement is due: one more answer from the host, whatever it says,
/// fails nothing and changes nothing.
pub proof fn law_settlement_drains_once(s: RaffleState, again: bool)
    requires
        s.settlement_due(),
    ensures
        s.settled(true).balance == 0,
        s.settled(true).settlement() is None,
        !s.settled(true).settle_failed(again),
        s.settled(true).settled(again) == s.settled(true),
        s.settled(false) == s,
{
}

/// One call to a raffle, with everything that the host supplies for it.
pub enum Call {
    /// An account joins with its stake.
    Play { caller: AccountId, value: Balance, now: Timestamp },
    /// A player asks for a winner to be drawn.
    Draw { caller: AccountId, now: Timestamp, random: u32 },
    /// The host answers the settlement that was due.
    Settle { transferred: bool },
    /// An account asks for the raffle to be torn down.
    Terminate { caller: AccountId },
}

/// The state after one call.
pub open spec fn step(s: RaffleState, call: Call) -> RaffleState {
    match call {
        Call::Play { caller, value, now } => s.play(caller, value, now),
        Call::Draw { caller, now, random } => s.draw(caller, now, random),
        Call::Settle { transferred } => s.settled(transferred),
        Call::Terminate { caller } => s,
    }
}

/// The state after a sequence of calls, first to last.
pub open spec fn run(s: RaffleState, calls: Seq<Call>) -> RaffleState
    decreases calls.len(),
{
    if calls.len() == 0 {
        s
    } else {
        step(run(s, calls.drop_last()), calls.last())
    }
}

/// What one call pays into the raffle: the stake of an accepted entry.
pub open spec fn paid_in_by(s: RaffleState, call: Call) -> nat {
    match call {
        Call::Play { caller, value, now } => if s.play_error(caller, value) is None {
            value as nat
        } else {
            0
        },
        _ => 0,
    }
}

/// What one call pays out of the raffle: the balance, where a settlement
/// was due and went through.
pub open spec fn paid_out_by(s: RaffleState, call: Call) -> nat {
    match call {
        Call::Settle { transferred } => if s.settlement_due() && transferred {
            s.balance
        } else {
            0
        },
        _ => 0,
    }
}

/// The sum of the stakes of all entries that a sequence of calls had
/// accepted.
pub open spec fn paid_in(s: RaffleState, calls: Seq<Call>) -> nat
    decreases calls.len(),
{
    if calls.len() == 0 {
        0
    } else {
        paid_in(s, calls.drop_last()) + paid_in_by(run(s, calls.drop_last()), calls.last())
    }
}

/// The sum of all that a sequence of calls had settled to the beneficiary.
pub open spec fn paid_out(s: RaffleState, calls: Seq<Call>) -> nat
    decreases calls.len(),
{
    if calls.len() == 0 {
        0
    } else {
        paid_out(s, calls.drop_last()) + paid_out_by(run(s, calls.drop_last()), calls.last())
    }
}

/// No sequence of calls brings an account into the raffle twice: a
/// well-formed raffle stays well formed, so nobody stands twice among
/// players and winners.
pub proof fn law_no_double_entry(s: RaffleState, calls: Seq<Call>)
    requires
        s.wf(),
    ensures
        run(s, calls).wf(),
        run(s, calls).entrants().no_duplicates(),
    decreases calls.len(),
{
    if calls.len() > 0 {
        let before = run(s, calls.drop_last());
        law_no_double_entry(s, calls.drop_last());
        match calls.last() {
            Call::Play { caller, value, now } => law_play_keeps_wf(before, caller, value, now),
            Call::Draw { caller, now, random } => law_draw_keeps_wf(before, caller, now, random),
            _ => {},
        }
    }
}

/// After any sequence of calls the balance is what was there before, plus
/// the stakes of the accepted entries, minus what was settled to the
/// beneficiary. The balance is a natural number: it is never negative.
pub proof fn law_conservation(s: RaffleState, calls: Seq<Call>)
    ensures
        run(s, calls).balance == s.balance + paid_in(s, calls) - paid_out(s, calls),
        paid_out(s, calls) <= s.balance + paid_in(s, calls),
    decreases calls.len(),
{
    if calls.len() > 0 {
        law_conservation(s, calls.drop_last());
    }
}

/// A closed game stays closed: after any sequence of calls all winners
/// are still drawn, and every further draw is refused as closed, whoever
/// asks and whenever.
pub proof fn law_closed_forever(
    s: RaffleState,
    calls: Seq<Call>,
    caller: AccountId,
    now: Timestamp,
    random: u32,
)
    requires
        s.is_closed(),
    ensures
        run(s, calls).is_closed(),
        run(s, calls).winners == s.winners,
        run(s, calls).draw_error(caller, now) == Some(Error::RaffleClosed),
        run(s, calls).draw(caller, now, random) == run(s, calls),
    decreases calls.len(),
{
    if calls.len() > 0 {
        law_closed_forever(s, calls.drop_last(), caller, now, random);
    }
}

} // verus!
