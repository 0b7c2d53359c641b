//! Custodial settlement engine for a fixed-size five-player staking game.
//!
//! A game's lifecycle is a forward-only state machine
//! (`Waiting -> Live -> Finished`, with `Waiting -> Cancelled` as the only
//! other edge).  Players escrow a fixed stake into a per-game vault; when the
//! game ends the pooled stake is paid to a single winner minus a fixed house
//! fee, and a cancelled game is unwound player by player through refunds.
//!
//! This crate is the verified core: record well-formedness, the transition
//! preconditions, the fund-custody arithmetic, and the seed commitment are
//! all stated as contracts and proved.  Durable storage, signature checks and
//! the actual token movement belong to an external ledger substrate; callers
//! mirror the `Vault` balance against the real custodial account and perform
//! one transfer per action this engine reports.

pub mod engine;
pub mod errors;
pub mod events;
pub mod game;
pub mod identity;
pub mod laws;
pub mod payout;
pub mod seed;
pub mod transitions;
pub mod vault;
