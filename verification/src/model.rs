//! The raffle as mathematics: its state as sequences, a set and numbers, and
//! each operation as a function from state to state.

use vstd::prelude::*;
use crate::account::{AccountId, Balance, Timestamp};
use crate::events::{
    Drawn, Error, NewPlayer, Picked, Played, PlayerInvalidIndex, RaffleStarted, Teardown, Transfer,
    WinnerPicked,
};

verus! {

/// The lowest stake of a standard raffle: 0.01 unit.
pub const BET_VALUE_MIN: Balance = 10_000_000_000_000;

/// The highest stake of a standard raffle: 0.1 unit.
pub const BET_VALUE_MAX: Balance = 100_000_000_000_000;

/// The number of winners of a standard raffle.
pub const MAX_WINNERS: u32 = 2;

/// The rules of one raffle, fixed when it is set up.
#[derive(Debug, Clone, Copy, PartialEq, Eq)]
pub struct Config {
    /// The lowest stake that is accepted.
    pub min_stake: Balance,
    /// The highest stake that is accepted.
    pub max_stake: Balance,
    /// How many players the pool must hold for the countdown to start.
    pub min_players: u32,
    /// How long the countdown runs before winners may be drawn.
    pub lock_duration: Timestamp,
    /// How many winners are drawn before the game closes.
    pub max_winners: u32,
}

/// The state of a raffle.
#[verifier::ext_equal]
pub struct RaffleState {
    /// The rules.
    pub config: Config,
    /// Who may tear the raffle down.
    pub owner: AccountId,
    /// Who receives the balance at settlement.
    pub beneficiary: AccountId,
    /// The accounts that joined and have not been drawn.
    pub players: Seq<AccountId>,
    /// The accounts that were drawn, in the order of the draws.
    pub winners: Seq<AccountId>,
    /// The accounts that ever joined.
    pub entered: Set<AccountId>,
    /// From when on winners may be drawn; `None` until the countdown starts.
    pub deadline: Option<nat>,
    /// The stake collected and not yet handed to the beneficiary.
    pub balance: nat,
}

impl RaffleState {
    /// A raffle that nobody has joined yet.
    pub open spec fn initial(owner: AccountId, beneficiary: AccountId, config: Config) -> Self {
        RaffleState {
            config,
            owner,
            beneficiary,
            players: Seq::empty(),
            winners: Seq::empty(),
            entered: Set::empty(),
            deadline: None,
            balance: 0,
        }
    }

    /// Everyone who joined, those still in the pool first.
    pub open spec fn entrants(self) -> Seq<AccountId> {
        self.players + self.winners
    }

    /// What holds of every raffle: nobody stands twice among players and
    /// winners, the set of those who joined is exactly players and winners,
    /// no more winners were drawn than the rules allow, and none was drawn
    /// before the countdown started.
    pub open spec fn wf(self) -> bool {
        &&& self.entrants().no_duplicates()
        &&& self.entered == self.entrants().to_set()
        &&& self.winners.len() <= self.config.max_winners
        &&& self.deadline is None ==> self.winners.len() == 0
    }

    /// All winners have been drawn.
    pub open spec fn is_closed(self) -> bool {
        self.winners.len() == self.config.max_winners
    }

    /// The countdown has started and has run out at `now`.
    pub open spec fn is_draw_open(self, now: Timestamp) -> bool {
        self.deadline matches Some(deadline) && now >= deadline
    }

    /// The stake lies within the bounds, both included.
    pub open spec fn stake_in_range(self, value: Balance) -> bool {
        self.config.min_stake <= value <= self.config.max_stake
    }

    /// Why an entry is refused, if it is.
    pub open spec fn play_error(self, caller: AccountId, value: Balance) -> Option<Error> {
        if self.entered.contains(caller) {
            Some(Error::UserHasAlreadyPlayed)
        } else if !self.stake_in_range(value) {
            Some(Error::IncorrectBet)
        } else {
            None
        }
    }

    /// An entry that is accepted at this moment starts the countdown: it
    /// has not started before, and with this entry the pool holds enough
    /// players.
    pub open spec fn starts_countdown(self) -> bool {
        self.deadline is None && self.players.len() + 1 >= self.config.min_players
    }

    /// The state after an accepted entry.
    pub open spec fn joined(self, caller: AccountId, value: Balance, now: Timestamp) -> Self {
        RaffleState {
            players: self.players.push(caller),
            entered: self.entered.insert(caller),
            balance: (self.balance + value) as nat,
            deadline: if self.starts_countdown() {
                Some((now + self.config.lock_duration) as nat)
            } else {
                self.deadline
            },
            ..self
        }
    }

    /// The state after an entry, accepted or not.
    pub open spec fn play(self, caller: AccountId, value: Balance, now: Timestamp) -> Self {
        if self.play_error(caller, value) is None {
            self.joined(caller, value, now)
        } else {
            self
        }
    }

    /// What an entry returns: the reason for a refusal, or the account that
    /// joined and, where this entry starts the countdown, the time at which
    /// it ends.
    pub open spec fn play_outcome(self, caller: AccountId, value: Balance, now: Timestamp) -> Result<
        Played,
        Error,
    > {
        match self.play_error(caller, value) {
            Some(error) => Err(error),
            None => Ok(
                Played {
                    joined: NewPlayer { player: caller },
                    started: if self.starts_countdown() {
                        Some(
                            RaffleStarted {
                                start_date: (now + self.config.lock_duration) as Timestamp,
                            },
                        )
                    } else {
                        None
                    },
                },
            ),
        }
    }

    /// An accepted entry stays within what the machine can hold: the
    /// collections count in `u32`, the balance is a `u128`, a time a `u64`.
    pub open spec fn play_fits(self, caller: AccountId, value: Balance, now: Timestamp) -> bool {
        self.play_error(caller, value) is None ==> {
            &&& self.players.len() + self.winners.len() < u32::MAX
            &&& self.balance + value <= Balance::MAX
            &&& self.starts_countdown() ==> now + self.config.lock_duration <= Timestamp::MAX
        }
    }

    /// Why a draw is refused, if it is.
    pub open spec fn draw_error(self, caller: AccountId, now: Timestamp) -> Option<Error> {
        if self.is_closed() {
            Some(Error::RaffleClosed)
        } else if !self.is_draw_open(now) {
            Some(Error::RaffleNotDrawable)
        } else if !self.entered.contains(caller) {
            Some(Error::InvalidPlayer)
        } else {
            None
        }
    }

    /// The index that a random number picks in a pool that is not empty.
    pub open spec fn picked_index(self, random: u32) -> int {
        random as int % self.players.len() as int
    }

    /// The state after an accepted draw: the player at the picked index
    /// moves to the winners and the last player takes the free slot. An
    /// empty pool stays as it is.
    pub open spec fn picked(self, random: u32) -> Self {
        if self.players.len() == 0 {
            self
        } else {
            let index = self.picked_index(random);
            RaffleState {
                players: self.players.update(index, self.players.last()).drop_last(),
                winners: self.winners.push(self.players[index]),
                ..self
            }
        }
    }

    /// Whom an accepted draw picks: the player at the picked index, or
    /// nobody in an empty pool, where the random number is reported as it
    /// came.
    pub open spec fn pick(self, random: u32) -> Picked {
        if self.players.len() == 0 {
            Picked::Nobody(PlayerInvalidIndex { index: random })
        } else {
            Picked::Winner(WinnerPicked { winner: self.players[self.picked_index(random)] })
        }
    }

    /// What a draw returns: the reason for a refusal, or whom it picked and
    /// the settlement that falls due once the pick is made.
    pub open spec fn draw_outcome(self, caller: AccountId, now: Timestamp, random: u32) -> Result<
        Drawn,
        Error,
    > {
        match self.draw_error(caller, now) {
            Some(error) => Err(error),
            None => Ok(
                Drawn { picked: self.pick(random), settlement: self.picked(random).settlement() },
            ),
        }
    }

    /// The state after a draw, accepted or not.
    pub open spec fn draw(self, caller: AccountId, now: Timestamp, random: u32) -> Self {
        if self.draw_error(caller, now) is None {
            self.picked(random)
        } else {
            self
        }
    }

    /// A settlement is due: the game is closed and there is a balance.
    pub open spec fn settlement_due(self) -> bool {
        self.is_closed() && self.balance > 0
    }

    /// The transfer that settlement asks for: the whole balance, to the
    /// beneficiary.
    pub open spec fn settlement(self) -> Option<Transfer>
        recommends
            self.balance <= Balance::MAX,
    {
        if self.settlement_due() {
            Some(Transfer { to: self.beneficiary, value: self.balance as Balance })
        } else {
            None
        }
    }

    /// What the host's answer to a settlement gives: a failure exactly
    /// when a settlement was due and did not go through.
    pub open spec fn settle_failed(self, transferred: bool) -> bool {
        self.settlement_due() && !transferred
    }

    /// The state after the host has answered a settlement: the balance is
    /// gone when it was due and went through, and stays otherwise.
    pub open spec fn settled(self, transferred: bool) -> Self {
        if self.settlement_due() && transferred {
            RaffleState { balance: 0, ..self }
        } else {
            self
        }
    }

    /// What a call to tear the raffle down returns: a refusal for anyone
    /// but the owner, a teardown in the owner's favour once the game is
    /// closed, and nothing to do before that.
    pub open spec fn terminate_outcome(self, caller: AccountId) -> Result<Option<Teardown>, Error> {
        if caller != self.owner {
            Err(Error::InvalidOwner)
        } else if self.is_closed() {
            Ok(Some(Teardown { heir: self.owner }))
        } else {
            Ok(None)
        }
    }
}

} // verus!
