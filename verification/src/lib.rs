//! A pooled raffle: accounts pay a bounded stake to join a pool, winners are
//! drawn from the pool without replacement, and once the last winner is drawn
//! the collected stake goes to a beneficiary.
//!
//! The raffle never talks to its host. Each operation takes what the host
//! knows (who calls, how much was paid, what time it is, a random number,
//! whether a transfer went through) as plain values, and hands back what the
//! host has to do: notifications to emit and transfers to carry out.

pub mod account;
pub mod entropy;
pub mod events;
pub mod laws;
pub mod model;
pub mod raffle;
pub mod snapshot;
pub mod storage;

pub use crate::account::{same_account, AccountId, Balance, Timestamp};
pub use crate::entropy::{as_u32_be, RANDOM_SUBJECT};
pub use crate::events::{
    Drawn, Error, NewPlayer, Picked, Played, PlayerInvalidIndex, RaffleStarted, Teardown, Transfer,
    TransferFailed, WinnerPicked,
};
pub use crate::model::{Config, BET_VALUE_MAX, BET_VALUE_MIN, MAX_WINNERS};
pub use crate::raffle::RaffleTkt;
pub use crate::snapshot::Snapshot;
