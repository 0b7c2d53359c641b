//! The state machine, stated as specification functions.
//!
//! For each operation there are three functions: whether the operation is
//! allowed in a given model state (`*_allowed`), which code rejects it when
//! it is not (`*_rejection`, deciding between codes in the order the checks
//! are made: status first, then indices or duplicates, then authorization),
//! and the successor state when it is (`*_next`).  The executable engine's
//! contracts are stated against these, and the crate's laws are proved over
//! them.

use vstd::prelude::*;
use crate::errors::EscrowError;
use crate::game::{GameModel, GameStatus};
use crate::identity::zero_id;
use crate::seed::{seed_bytes_spec, zero_seed};

verus! {

/// The model of a freshly created game: waiting, no players, no seed, no
/// winner, not started.
pub open spec fn create_next(
    game_id: Seq<u8>,
    creator: Seq<u8>,
    stake: u64,
    created_at: i64,
) -> GameModel {
    GameModel {
        game_id: game_id,
        creator: creator,
        stake: stake,
        players: Seq::empty(),
        status: GameStatus::Waiting,
        seed: zero_seed(),
        winner: None,
        created_at: created_at,
        started_at: None,
    }
}

/// A player may join while the game is waiting, has not joined before, and
/// a slot is free.
pub open spec fn join_allowed(m: GameModel, player: Seq<u8>) -> bool {
    &&& m.status == GameStatus::Waiting
    &&& !m.players.contains(player)
    &&& m.players.len() < 5
}

/// The code rejecting a join: wrong status first, then a duplicate caller,
/// then a full game — so a repeat caller is told `AlreadyJoined` whether or
/// not the game is also full.
pub open spec fn join_rejection(m: GameModel, player: Seq<u8>) -> EscrowError {
    if m.status != GameStatus::Waiting {
        EscrowError::GameNotWaiting
    } else if m.players.contains(player) {
        EscrowError::AlreadyJoined
    } else {
        EscrowError::GameFull
    }
}

/// After a join, the caller stands appended to the player list; nothing
/// else changes.
pub open spec fn join_next(m: GameModel, player: Seq<u8>) -> GameModel {
    GameModel { players: m.players.push(player), ..m }
}

/// The game may start while it is waiting and all five slots are filled.
pub open spec fn start_allowed(m: GameModel) -> bool {
    &&& m.status == GameStatus::Waiting
    &&& m.players.len() == 5
}

/// The code rejecting a start: wrong status first, then too few players.
pub open spec fn start_rejection(m: GameModel) -> EscrowError {
    if m.status != GameStatus::Waiting {
        EscrowError::GameNotWaiting
    } else {
        EscrowError::NotEnoughPlayers
    }
}

/// After a start, the game is live, the seed derived from the game
/// identifier, the chain position and the clock is committed, and the start
/// time is recorded; nothing else changes.
pub open spec fn start_next(m: GameModel, slot: u64, timestamp: i64) -> GameModel {
    GameModel {
        status: GameStatus::Live,
        seed: seed_bytes_spec(m.game_id, slot, timestamp),
        started_at: Some(timestamp),
        ..m
    }
}

/// The game may end while it is live, for a winner index naming one of the
/// five slots whose occupant is a real identity, not the placeholder.
pub open spec fn end_allowed(m: GameModel, winner_index: int) -> bool {
    &&& m.status == GameStatus::Live
    &&& 0 <= winner_index < 5
    &&& m.players[winner_index] != zero_id()
}

/// The code rejecting an end: wrong status first, then a bad winner.
pub open spec fn end_rejection(m: GameModel, winner_index: int) -> EscrowError {
    if m.status != GameStatus::Live {
        EscrowError::GameNotLive
    } else {
        EscrowError::InvalidWinner
    }
}

/// After an end, the game is finished and the winner recorded; nothing
/// else changes.
pub open spec fn end_next(m: GameModel, winner_index: int) -> GameModel {
    GameModel { status: GameStatus::Finished, winner: Some(m.players[winner_index]), ..m }
}

/// Only the creator may cancel, and only while the game is waiting.
pub open spec fn cancel_allowed(m: GameModel, caller: Seq<u8>) -> bool {
    &&& m.status == GameStatus::Waiting
    &&& caller == m.creator
}

/// The code rejecting a cancel: wrong status first, then a caller other
/// than the creator.
pub open spec fn cancel_rejection(m: GameModel, caller: Seq<u8>) -> EscrowError {
    if m.status != GameStatus::Waiting {
        EscrowError::GameNotWaiting
    } else {
        EscrowError::Unauthorized
    }
}

/// After a cancel, the game is cancelled; nothing else changes.  No funds
/// move: each joined player claims their own refund.
pub open spec fn cancel_next(m: GameModel) -> GameModel {
    GameModel { status: GameStatus::Cancelled, ..m }
}

/// A refund may be claimed from a cancelled game, for an index naming a
/// joined player, into a destination owned by exactly that player.
pub open spec fn refund_allowed(m: GameModel, player_index: int, owner: Seq<u8>) -> bool {
    &&& m.status == GameStatus::Cancelled
    &&& 0 <= player_index < m.players.len()
    &&& owner == m.players[player_index]
}

/// The code rejecting a refund: wrong status first, then an index naming no
/// joined player, then a destination owned by someone else.
pub open spec fn refund_rejection(m: GameModel, player_index: int, owner: Seq<u8>) -> EscrowError {
    if m.status != GameStatus::Cancelled {
        EscrowError::GameNotCancelled
    } else if !(0 <= player_index < m.players.len()) {
        EscrowError::InvalidPlayer
    } else {
        EscrowError::WrongPlayer
    }
}

} // verus!
