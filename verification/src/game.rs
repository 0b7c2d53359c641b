//! The persistent game record and its mathematical model.
//!
//! A `Game` is the durable entity the ledger substrate stores per game.  Its
//! model, `GameModel`, abstracts the record to sequences and plain values:
//! the player list appears there as the populated prefix alone, so every
//! contract of the engine can be read without the fixed five-slot layout in
//! mind.  `Game::wf` is the record's well-formedness: `create_game`
//! establishes it and every operation preserves it.

use vstd::prelude::*;
use crate::identity::{zero_id, AccountId, GameId};
use crate::seed::is_zero_bytes;

verus! {

/// A game's lifecycle status: a forward-only state machine along
/// `Waiting -> Live -> Finished` and `Waiting -> Cancelled`.
/// `Finished` and `Cancelled` are terminal.
#[derive(Clone, Copy, Debug, PartialEq, Eq, Structural)]
pub enum GameStatus {
    /// Accepting players; funds accumulate in the vault.
    Waiting,
    /// Full, seed committed, play in progress.
    Live,
    /// Settled: winner and house paid, vault drained.
    Finished,
    /// Called off before the start; joined players claim refunds.
    Cancelled,
}

/// The mathematical model of one game record.  `players` holds only the
/// populated prefix of the five-slot list, in join order.
#[verifier::ext_equal]
pub ghost struct GameModel {
    /// The 8-byte primary key.
    pub game_id: Seq<u8>,
    /// The identity that created the game.
    pub creator: Seq<u8>,
    /// The fixed per-player stake; positive.
    pub stake: u64,
    /// The joined players, in join order; at most five, pairwise distinct.
    pub players: Seq<Seq<u8>>,
    /// The lifecycle status.
    pub status: GameStatus,
    /// The committed fairness seed; all zero until the game goes live.
    pub seed: Seq<u8>,
    /// The winning player; set exactly when the game is finished.
    pub winner: Option<Seq<u8>>,
    /// When the game was created.
    pub created_at: i64,
    /// When the game went live; set exactly from `Live` on.
    pub started_at: Option<i64>,
}

/// No two entries of the sequence are equal.
pub open spec fn pairwise_distinct(s: Seq<Seq<u8>>) -> bool {
    forall|i: int, j: int| 0 <= i < j < s.len() ==> s[i] != s[j]
}

/// The invariants of a game model, true in every reachable state:
/// bounded distinct players, a positive stake whose five-fold pool fits the
/// balance type, a seed that is nonzero exactly from `Live` on, a winner
/// exactly in `Finished`, and a start time exactly from `Live` on.
pub open spec fn model_inv(m: GameModel) -> bool {
    &&& m.game_id.len() == 8
    &&& m.creator.len() == 32
    &&& 1 <= m.stake
    &&& 5 * m.stake <= u64::MAX
    &&& m.players.len() <= 5
    &&& forall|i: int| 0 <= i < m.players.len() ==> (#[trigger] m.players[i]).len() == 32
    &&& pairwise_distinct(m.players)
    &&& m.seed.len() == 32
    &&& match m.status {
        GameStatus::Waiting => {
            &&& is_zero_bytes(m.seed)
            &&& m.winner is None
            &&& m.started_at is None
        },
        GameStatus::Live => {
            &&& m.players.len() == 5
            &&& !is_zero_bytes(m.seed)
            &&& m.winner is None
            &&& m.started_at is Some
        },
        GameStatus::Finished => {
            &&& m.players.len() == 5
            &&& !is_zero_bytes(m.seed)
            &&& m.winner matches Some(w) && m.players.contains(w)
            &&& m.started_at is Some
        },
        GameStatus::Cancelled => {
            &&& is_zero_bytes(m.seed)
            &&& m.winner is None
            &&& m.started_at is None
        },
    }
}

/// One game record, as persisted by the ledger substrate: fixed-size fields
/// only, with a five-slot player list and a separate count so the stored
/// layout never varies.  Slots at and beyond `player_count` hold the
/// all-zero placeholder identity.
#[derive(Clone, Copy, Debug)]
pub struct Game {
    /// Unique game identifier; immutable after creation.
    pub game_id: GameId,
    /// The creating account; immutable.
    pub creator: AccountId,
    /// Stake per player, in ledger units; immutable.
    pub stake_amount: u64,
    /// How many of the five slots are populated.
    pub player_count: u8,
    /// The five player slots; populated left to right, placeholder beyond
    /// `player_count`.
    pub players: [AccountId; 5],
    /// Lifecycle status.
    pub status: GameStatus,
    /// Committed fairness seed; all zero until `Live`.
    pub seed: [u8; 32],
    /// The winner, once the game is finished.
    pub winner: Option<AccountId>,
    /// Creation timestamp.
    pub created_at: i64,
    /// Start timestamp, once the game is live.
    pub started_at: Option<i64>,
    /// The addressing nonce under which the ledger derived this game's
    /// vault from `game_id`; fixed at creation.
    pub bump: u8,
}

impl View for Game {
    type V = GameModel;

    open spec fn view(&self) -> GameModel {
        GameModel {
            game_id: self.game_id@,
            creator: self.creator@,
            stake: self.stake_amount,
            players: Seq::new(self.player_count as nat, |i: int| self.players@[i]@),
            status: self.status,
            seed: self.seed@,
            winner: match self.winner {
                Some(w) => Some(w@),
                None => None,
            },
            created_at: self.created_at,
            started_at: self.started_at,
        }
    }
}

impl Game {
    /// Record well-formedness: the slot layout agrees with the count, the
    /// unpopulated slots hold the placeholder, and the model invariants
    /// hold.  Established by `create_game`, preserved by every operation.
    pub open spec fn wf(&self) -> bool {
        &&& self.player_count <= 5
        &&& forall|i: int|
            self.player_count <= i < 5 ==> (#[trigger] self.players@[i])@ == zero_id()
        &&& model_inv(self@)
    }
}

} // verus!
