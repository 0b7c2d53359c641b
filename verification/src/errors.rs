//! The named rejection codes of the escrow engine.
//!
//! Every operation either succeeds and reports one event, or fails with one
//! of these codes and leaves the game record and the vault untouched.

use vstd::prelude::*;

verus! {

/// Why an escrow operation was rejected.  Each code names exactly one
/// violated rule; no failure is ever folded into another code.
#[derive(Clone, Copy, Debug, PartialEq, Eq, Structural)]
pub enum EscrowError {
    /// The game is not in the `Waiting` status.
    GameNotWaiting,
    /// The game already holds five players.
    GameFull,
    /// The caller already joined this game.
    AlreadyJoined,
    /// Fewer than five players have joined.
    NotEnoughPlayers,
    /// The game is not in the `Live` status.
    GameNotLive,
    /// The winner index is out of range, or names an unpopulated slot.
    InvalidWinner,
    /// The caller is not the game's creator.
    Unauthorized,
    /// The game is not in the `Cancelled` status.
    GameNotCancelled,
    /// The player index does not name a joined player.
    InvalidPlayer,
    /// The refund destination is not owned by the named player.
    WrongPlayer,
}

} // verus!
