//! What the raffle tells its host: why a call was refused, what to announce,
//! and what to carry out.

use vstd::prelude::*;
use crate::account::{AccountId, Balance, Timestamp};

verus! {

/// Why the raffle refused a call.
#[derive(Debug, Clone, Copy, PartialEq, Eq)]
pub enum Error {
    /// The caller has already joined this raffle.
    UserHasAlreadyPlayed,
    /// The stake is below the minimum or above the maximum.
    IncorrectBet,
    /// The draw is not open yet.
    RaffleNotDrawable,
    /// All winners have been drawn.
    RaffleClosed,
    /// The caller never joined this raffle.
    InvalidPlayer,
    /// The host could not move the balance to the beneficiary.
    TransferFailed,
    /// The caller does not own this raffle.
    InvalidOwner,
}

/// An account joined the raffle.
#[derive(Debug, Clone, Copy, PartialEq, Eq)]
pub struct NewPlayer {
    /// The account that joined.
    pub player: AccountId,
}

/// Enough accounts have joined: the countdown to the draw runs.
#[derive(Debug, Clone, Copy, PartialEq, Eq)]
pub struct RaffleStarted {
    /// From when on winners may be drawn.
    pub start_date: Timestamp,
}

/// A winner was drawn.
#[derive(Debug, Clone, Copy, PartialEq, Eq)]
pub struct WinnerPicked {
    /// The account that won.
    pub winner: AccountId,
}

/// A draw found nobody at the index it picked.
#[derive(Debug, Clone, Copy, PartialEq, Eq)]
pub struct PlayerInvalidIndex {
    /// The index at which nobody stood.
    pub index: u32,
}

/// The host could not move the balance to the beneficiary.
#[derive(Debug, Clone, Copy, PartialEq, Eq)]
pub struct TransferFailed {}

/// A movement of funds that the host is asked to carry out.
#[derive(Debug, Clone, Copy, PartialEq, Eq)]
pub struct Transfer {
    /// The account to pay.
    pub to: AccountId,
    /// The amount to pay.
    pub value: Balance,
}

/// The teardown of the raffle that the host is asked to carry out.
#[derive(Debug, Clone, Copy, PartialEq, Eq)]
pub struct Teardown {
    /// The account that inherits what the raffle still holds.
    pub heir: AccountId,
}

/// What an accepted entry leaves for the host to announce.
#[derive(Debug, Clone, Copy, PartialEq, Eq)]
pub struct Played {
    /// The account joined.
    pub joined: NewPlayer,
    /// The countdown started with this entry.
    pub started: Option<RaffleStarted>,
}

/// Whom a draw picked.
#[derive(Debug, Clone, Copy, PartialEq, Eq)]
pub enum Picked {
    /// The account at the picked index won.
    Winner(WinnerPicked),
    /// The pool was empty, so nobody stood at any index.
    Nobody(PlayerInvalidIndex),
}

/// What an accepted draw leaves for the host to announce and carry out.
#[derive(Debug, Clone, Copy, PartialEq, Eq)]
pub struct Drawn {
    /// Whom the draw picked.
    pub picked: Picked,
    /// The settlement that falls due when this draw closes the game.
    pub settlement: Option<Transfer>,
}

} // verus!
