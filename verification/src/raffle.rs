//! The raffle itself: its state in the host's storage collections, and the
//! operations on it.

use vstd::prelude::*;
use crate::account::{same_account, AccountId, Balance, Timestamp};
use crate::events::{
    Drawn, Error, NewPlayer, Picked, Played, PlayerInvalidIndex, RaffleStarted, Teardown, Transfer,
    TransferFailed, WinnerPicked,
};
use crate::laws::{
    law_draw_keeps_wf, law_draw_without_replacement, law_initial_is_wf, law_play_keeps_wf,
};
use crate::model::{Config, RaffleState, BET_VALUE_MAX, BET_VALUE_MIN, MAX_WINNERS};
use crate::snapshot::{fill_pool, Snapshot};
use crate::storage::{
    flag_entries, flags_contains_key, flags_insert, flags_new, pool_get, pool_items, pool_len,
    pool_new, pool_push, pool_swap_remove, AccountFlags, AccountPool,
};

verus! {

/// A raffle.
pub struct RaffleTkt {
    /// The accounts that joined and have not been drawn.
    player_pool: AccountPool,
    /// The accounts that were drawn.
    winners_pool: AccountPool,
    /// A flag for every account that ever joined.
    player_status: AccountFlags,
    /// Who receives the balance at settlement.
    fund_beneficiary: AccountId,
    /// Who may tear the raffle down.
    raffle_owner: AccountId,
    /// The rules.
    config: Config,
    /// From when on winners may be drawn, once the countdown has started.
    raffle_draw_time_stamp: Option<Timestamp>,
    /// The stake collected and not yet handed to the beneficiary.
    total_balance: Balance,
}

impl View for RaffleTkt {
    type V = RaffleState;

    closed spec fn view(&self) -> RaffleState {
        RaffleState {
            config: self.config,
            owner: self.raffle_owner,
            beneficiary: self.fund_beneficiary,
            players: pool_items(self.player_pool),
            winners: pool_items(self.winners_pool),
            entered: flag_entries(self.player_status).dom(),
            deadline: match self.raffle_draw_time_stamp {
                Some(deadline) => Some(deadline as nat),
                None => None,
            },
            balance: self.total_balance as nat,
        }
    }
}

impl RaffleTkt {
    /// The raffle is in a state that its operations can have led to: its
    /// state is well formed, and its accounts can be counted in a `u32`, as
    /// the storage collections do.
    pub open spec fn wf(&self) -> bool {
        &&& self@.wf()
        &&& self@.players.len() + self@.winners.len() <= u32::MAX
    }

    /// Sets up a raffle with rules of the caller's choosing.
    pub fn new(caller: AccountId, raffle_beneficiary: AccountId, config: Config) -> (raffle: Self)
        ensures
            raffle.wf(),
            raffle@ == RaffleState::initial(caller, raffle_beneficiary, config),
    {
        let raffle = RaffleTkt {
            player_pool: pool_new(),
            winners_pool: pool_new(),
            player_status: flags_new(),
            fund_beneficiary: raffle_beneficiary,
            raffle_owner: caller,
            config,
            raffle_draw_time_stamp: None,
            total_balance: 0,
        };
        proof {
            law_initial_is_wf(caller, raffle_beneficiary, config);
            assert(raffle@ =~= RaffleState::initial(caller, raffle_beneficiary, config));
        }
        raffle
    }

    /// Sets up a standard raffle: stakes from 0.01 to 0.1 unit, two winners.
    /// The caller becomes the owner.
    pub fn default(
        caller: AccountId,
        raffle_beneficiary: AccountId,
        minimum_players: u32,
        minimum_raffle_duration: Timestamp,
    ) -> (raffle: Self)
        ensures
            raffle.wf(),
            raffle@ == RaffleState::initial(
                caller,
                raffle_beneficiary,
                (Config {
                    min_stake: BET_VALUE_MIN,
                    max_stake: BET_VALUE_MAX,
                    min_players: minimum_players,
                    lock_duration: minimum_raffle_duration,
                    max_winners: MAX_WINNERS,
                }),
            ),
    {
        Self::new(
            caller,
            raffle_beneficiary,
            Config {
                min_stake: BET_VALUE_MIN,
                max_stake: BET_VALUE_MAX,
                min_players: minimum_players,
                lock_duration: minimum_raffle_duration,
                max_winners: MAX_WINNERS,
            },
        )
    }

    /// The raffle as plain values, for the host to keep.
    pub fn snapshot(&self) -> (snapshot: Snapshot)
        requires
            self.wf(),
        ensures
            snapshot.state() == self@,
            snapshot.restorable(),
    {
        let snapshot = Snapshot {
            config: self.config,
            owner: self.raffle_owner,
            beneficiary: self.fund_beneficiary,
            players: pool_to_vec(&self.player_pool),
            winners: pool_to_vec(&self.winners_pool),
            deadline: self.raffle_draw_time_stamp,
            balance: self.total_balance,
        };
        proof {
            let entrants = self@.entrants();
            vstd::seq_lib::seq_to_set_is_finite(entrants);
            entrants.unique_seq_to_set();
            assert(snapshot.state() =~= self@);
        }
        snapshot
    }

    /// Rebuilds the raffle that a snapshot describes. There is one exactly
    /// when the snapshot is restorable: nobody stands twice among its
    /// players and winners, it has no more winners than its rules allow,
    /// none without a deadline, and no more accounts than a `u32` counts.
    pub fn restore(snapshot: &Snapshot) -> (raffle: Option<Self>)
        ensures
            raffle is Some <==> snapshot.restorable(),
            raffle matches Some(restored) ==> restored.wf() && restored@ == snapshot.state(),
    {
        if snapshot.deadline.is_none() && snapshot.winners.len() > 0 {
            return None;
        }
        if snapshot.winners.len() > snapshot.config.max_winners as usize {
            return None;
        }
        if snapshot.players.len() > u32::MAX as usize - snapshot.winners.len() {
            return None;
        }
        let mut player_status = flags_new();
        let ghost nobody = Seq::<AccountId>::empty();
        proof {
            assert(nobody.to_set() =~= Set::<AccountId>::empty());
            assert(nobody + snapshot.players@ == snapshot.players@);
        }
        let filled = fill_pool(&snapshot.players, &mut player_status, Ghost(nobody));
        let player_pool = match filled {
            Some(pool) => pool,
            None => {
                proof {
                    let all = snapshot.players@ + snapshot.winners@;
                    if all.no_duplicates() {
                        assert forall|i: int, j: int|
                            0 <= i < j < snapshot.players@.len() implies snapshot.players@[i]
                            != snapshot.players@[j] by {
                            assert(all[i] == snapshot.players@[i]);
                            assert(all[j] == snapshot.players@[j]);
                        }
                    }
                }
                return None;
            },
        };
        let filled = fill_pool(&snapshot.winners, &mut player_status, Ghost(snapshot.players@));
        let winners_pool = match filled {
            Some(pool) => pool,
            None => {
                return None;
            },
        };
        let raffle = RaffleTkt {
            player_pool,
            winners_pool,
            player_status,
            fund_beneficiary: snapshot.beneficiary,
            raffle_owner: snapshot.owner,
            config: snapshot.config,
            raffle_draw_time_stamp: snapshot.deadline,
            total_balance: snapshot.balance,
        };
        assert(raffle@ =~= snapshot.state());
        Some(raffle)
    }

    /// Whether an entry would stay within what the machine can hold. The
    /// raffle takes an entry only where this holds.
    pub fn raffle_play_fits(&self, caller: AccountId, value: Balance, now: Timestamp) -> (fits: bool)
        requires
            self.wf(),
        ensures
            fits == self@.play_fits(caller, value, now),
    {
        if flags_contains_key(&self.player_status, &caller) {
            return true;
        }
        if value < self.config.min_stake || value > self.config.max_stake {
            return true;
        }
        let players: u32 = pool_len(&self.player_pool);
        let winners: u32 = pool_len(&self.winners_pool);
        if winners >= u32::MAX - players {
            return false;
        }
        if value > Balance::MAX - self.total_balance {
            return false;
        }
        if self.raffle_draw_time_stamp.is_none() && players + 1 >= self.config.min_players {
            return now <= Timestamp::MAX - self.config.lock_duration;
        }
        true
    }

    /// An account joins the raffle with its stake.
    ///
    /// The entry is refused when the caller has joined before, and else
    /// when the stake is out of bounds; a refusal changes nothing. An
    /// accepted entry puts the caller at the back of the pool and adds the
    /// stake to the balance. The entry that first brings the pool up to
    /// the number of players that the rules ask for starts the countdown:
    /// winners may be drawn from `now` plus the lock duration on.
    pub fn raffle_play(&mut self, caller: AccountId, value: Balance, now: Timestamp) -> (outcome:
        Result<Played, Error>)
        requires
            old(self).wf(),
            old(self)@.play_fits(caller, value, now),
        ensures
            final(self).wf(),
            final(self)@ == old(self)@.play(caller, value, now),
            outcome == old(self)@.play_outcome(caller, value, now),
            outcome is Err ==> final(self)@ == old(self)@,
            !old(self)@.stake_in_range(value) ==> outcome is Err && final(self)@.balance == old(
                self,
            )@.balance,
            !old(self)@.stake_in_range(value) && !old(self)@.entered.contains(caller) ==> outcome
                == Err::<Played, Error>(Error::IncorrectBet),
    {
        if flags_contains_key(&self.player_status, &caller) {
            return Err(Error::UserHasAlreadyPlayed);
        }
        if value < self.config.min_stake || value > self.config.max_stake {
            return Err(Error::IncorrectBet);
        }
        proof {
            // The flags are as many as the accounts, so there is room for one more.
            let entrants = self@.entrants();
            vstd::seq_lib::seq_to_set_is_finite(entrants);
            entrants.unique_seq_to_set();
        }
        flags_insert(&mut self.player_status, caller, true);
        pool_push(&mut self.player_pool, caller);
        let num_players: u32 = pool_len(&self.player_pool);
        self.total_balance = self.total_balance + value;

        let mut started: Option<RaffleStarted> = None;
        if self.raffle_draw_time_stamp.is_none() && num_players >= self.config.min_players {
            let start_date: Timestamp = now + self.config.lock_duration;
            self.raffle_draw_time_stamp = Some(start_date);
            started = Some(RaffleStarted { start_date });
        }
        proof {
            law_play_keeps_wf(old(self)@, caller, value, now);
            assert(self@ =~= old(self)@.play(caller, value, now));
        }
        Ok(Played { joined: NewPlayer { player: caller }, started })
    }

    /// A player asks for a winner to be drawn.
    ///
    /// The draw is refused when the game is closed, else when the draw is
    /// not open at `now`, else when the caller never joined; a refusal
    /// changes nothing. An accepted draw reduces `random` modulo the size
    /// of the pool, moves the player at that index to the winners and
    /// puts the last player in the free slot. Who called plays no part
    /// in who is picked. In an empty pool nobody is picked and the draw
    /// still succeeds. When the pick closes the game and there is a
    /// balance, the outcome carries the settlement for the host to carry
    /// out and to report with `raffle_transfer_fund_to_beneficiary`.
    pub fn raffle_draw(&mut self, caller: AccountId, now: Timestamp, random: u32) -> (outcome:
        Result<Drawn, Error>)
        requires
            old(self).wf(),
        ensures
            final(self).wf(),
            final(self)@ == old(self)@.draw(caller, now, random),
            outcome == old(self)@.draw_outcome(caller, now, random),
            outcome is Err ==> final(self)@ == old(self)@,
            old(self)@.is_closed() ==> outcome == Err::<Drawn, Error>(Error::RaffleClosed),
            outcome matches Ok(drawn) ==> (drawn.picked matches Picked::Winner(picked) ==> {
                &&& old(self)@.players.contains(picked.winner)
                &&& !final(self)@.players.contains(picked.winner)
                &&& final(self)@.winners.to_multiset().count(picked.winner) == 1
                &&& final(self)@.players.len() == old(self)@.players.len() - 1
            }),
    {
        if self.raffle_is_game_closed() {
            return Err(Error::RaffleClosed);
        }
        if !self.raffle_is_draw_open(now) {
            return Err(Error::RaffleNotDrawable);
        }
        if !flags_contains_key(&self.player_status, &caller) {
            return Err(Error::InvalidPlayer);
        }
        proof {
            law_draw_keeps_wf(old(self)@, caller, now, random);
        }
        let pool_size: u32 = pool_len(&self.player_pool);
        if pool_size == 0 {
            let picked = Picked::Nobody(PlayerInvalidIndex { index: random });
            return Ok(Drawn { picked, settlement: None });
        }
        proof {
            law_draw_without_replacement(old(self)@, random);
        }
        let rand_indx: u32 = random % pool_size;
        let picked = match pool_swap_remove(&mut self.player_pool, rand_indx) {
            Some(winner) => {
                pool_push(&mut self.winners_pool, winner);
                Picked::Winner(WinnerPicked { winner })
            },
            // The index lies within the pool, so this does not happen.
            None => Picked::Nobody(PlayerInvalidIndex { index: rand_indx }),
        };
        assert(self@ =~= old(self)@.draw(caller, now, random));
        let settlement = self.raffle_settlement();
        Ok(Drawn { picked, settlement })
    }

    /// The winners, in the order in which they were drawn.
    pub fn raffle_getwinnerid(&self) -> (winners: Vec<AccountId>)
        ensures
            winners@ == self@.winners,
    {
        pool_to_vec(&self.winners_pool)
    }

    /// The players that have not been drawn, in the order of the pool.
    pub fn raffle_getplayersid(&self) -> (players: Vec<AccountId>)
        ensures
            players@ == self@.players,
    {
        pool_to_vec(&self.player_pool)
    }

    /// Whether winners may be drawn at `now`: the countdown has started
    /// and has run out.
    pub fn raffle_is_draw_open(&self, now: Timestamp) -> (open: bool)
        ensures
            open == self@.is_draw_open(now),
    {
        match self.raffle_draw_time_stamp {
            Some(deadline) => now >= deadline,
            None => false,
        }
    }

    /// Whether all winners have been drawn.
    pub fn raffle_is_game_closed(&self) -> (closed: bool)
        ensures
            closed == self@.is_closed(),
    {
        pool_len(&self.winners_pool) == self.config.max_winners
    }

    /// Who receives the balance at settlement.
    pub fn raffle_get_fund_beneficiary_id(&self) -> (beneficiary: AccountId)
        ensures
            beneficiary == self@.beneficiary,
    {
        self.fund_beneficiary
    }

    /// The stake collected and not yet handed to the beneficiary.
    pub fn raffle_getdonation_balance(&self) -> (balance: Balance)
        ensures
            balance == self@.balance,
    {
        self.total_balance
    }

    /// The owner asks for the raffle to be torn down.
    ///
    /// Anyone but the owner is refused. The owner gets a teardown to
    /// carry out once the game is closed, and nothing before that. The
    /// raffle itself stays as it is: tearing it down is the host's work.
    pub fn raffle_terminate(&self, caller: AccountId) -> (outcome: Result<Option<Teardown>, Error>)
        ensures
            outcome == self@.terminate_outcome(caller),
            caller != self@.owner ==> outcome == Err::<Option<Teardown>, Error>(Error::InvalidOwner),
            caller == self@.owner && !self@.is_closed() ==> outcome == Ok::<
                Option<Teardown>,
                Error,
            >(None),
            caller == self@.owner && self@.is_closed() ==> outcome == Ok::<Option<Teardown>, Error>(
                Some(Teardown { heir: caller }),
            ),
    {
        if same_account(&caller, &self.raffle_owner) {
            if self.raffle_is_game_closed() {
                return Ok(Some(Teardown { heir: self.raffle_owner }));
            }
        } else {
            return Err(Error::InvalidOwner);
        }
        Ok(None)
    }

    /// The transfer that a settlement asks of the host at this moment:
    /// the whole balance to the beneficiary once the game is closed, and
    /// none while the game is open or when there is no balance.
    pub fn raffle_settlement(&self) -> (due: Option<Transfer>)
        ensures
            due == self@.settlement(),
            self@.balance == 0 ==> due is None,
    {
        if self.raffle_is_game_closed() && self.total_balance > 0 {
            Some(Transfer { to: self.fund_beneficiary, value: self.total_balance })
        } else {
            None
        }
    }

    /// Takes the host's answer to the settlement that was due.
    ///
    /// Where a settlement was due and `transferred` says that it went
    /// through, the balance falls to zero. Where it did not go through,
    /// the call fails, hands back the notification to emit, and leaves the
    /// balance as it was, so that the settlement can be tried again. Where
    /// none was due, the call succeeds and changes nothing.
    pub fn raffle_transfer_fund_to_beneficiary(&mut self, transferred: bool) -> (outcome: Result<
        (),
        (Error, TransferFailed),
    >)
        requires
            old(self).wf(),
        ensures
            final(self).wf(),
            final(self)@ == old(self)@.settled(transferred),
            outcome is Err <==> old(self)@.settle_failed(transferred),
            outcome matches Err(failure) ==> failure == (Error::TransferFailed, TransferFailed {  }),
            outcome is Err ==> final(self)@ == old(self)@,
            outcome is Ok && old(self)@.is_closed() ==> final(self)@.balance == 0,
            old(self)@.balance == 0 ==> outcome is Ok && final(self)@ == old(self)@,
    {
        if self.raffle_is_game_closed() && self.total_balance > 0 {
            if !transferred {
                return Err((Error::TransferFailed, TransferFailed {  }));
            }
            self.total_balance = 0;
        }
        assert(self@ =~= old(self)@.settled(transferred));
        Ok(())
    }
}

/// The accounts of a pool, front to back.
fn pool_to_vec(pool: &AccountPool) -> (items: Vec<AccountId>)
    ensures
        items@ == pool_items(*pool),
{
    let len: u32 = pool_len(pool);
    let mut items: Vec<AccountId> = Vec::new();
    let mut index: u32 = 0;
    while index < len
        invariant
            len == pool_items(*pool).len(),
            index <= len,
            items@ == pool_items(*pool).take(index as int),
        decreases len - index,
    {
        if let Some(item) = pool_get(pool, index) {
            items.push(item);
        }
        index += 1;
    }
    items
}

} // verus!
