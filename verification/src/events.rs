//! The events the engine reports, one per successful transition.
//!
//! Events are one-way notifications for off-chain observers.  The engine
//! returns the event; publishing it to the notification stream is the
//! caller's concern, and nothing here depends on a subscriber.

use vstd::prelude::*;
use crate::identity::{AccountId, GameId};

verus! {

/// A game was created and its empty vault allocated.
#[derive(Clone, Copy, Debug)]
pub struct GameCreated {
    pub game_id: GameId,
    pub creator: AccountId,
    pub stake_amount: u64,
}

/// A player joined and their stake entered the vault.
#[derive(Clone, Copy, Debug)]
pub struct PlayerJoined {
    pub game_id: GameId,
    pub player: AccountId,
    pub player_count: u8,
}

/// The game went live with its seed committed.
#[derive(Clone, Copy, Debug)]
pub struct GameStarted {
    pub game_id: GameId,
    pub seed: [u8; 32],
    pub started_at: i64,
}

/// The game settled: the vault paid the winner and the house.
#[derive(Clone, Copy, Debug)]
pub struct GameEnded {
    pub game_id: GameId,
    pub winner: AccountId,
    pub winner_payout: u64,
    pub house_fee: u64,
}

/// The game was called off before starting.
#[derive(Clone, Copy, Debug)]
pub struct GameCancelled {
    pub game_id: GameId,
}

/// A joined player reclaimed their stake from a cancelled game's vault.
#[derive(Clone, Copy, Debug)]
pub struct PlayerRefunded {
    pub game_id: GameId,
    pub player: AccountId,
    pub amount: u64,
}

} // verus!
