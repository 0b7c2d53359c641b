//! The per-game custodial balance.
//!
//! Every game owns exactly one vault, the custodial account that pools the
//! players' stakes.  The ledger substrate holds the real balance and derives
//! the vault's address deterministically from the game identifier (see
//! [`vault_address_seed`]); this type is the engine's model of that balance,
//! and callers keep it equal to the real one by performing exactly the
//! transfers the engine's operations account for.

use vstd::prelude::*;
use crate::game::{GameModel, GameStatus};

verus! {

/// The modelled custodial balance of one game's vault, in ledger units.
#[derive(Clone, Copy, Debug)]
pub struct Vault {
    /// The pooled balance.
    pub balance: u64,
}

impl Vault {
    /// A freshly allocated, empty vault.
    pub fn new() -> (r: Vault)
        ensures
            r.balance == 0,
    {
        Vault { balance: 0 }
    }
}

/// How a game's vault balance relates to its record, in every reachable
/// state: while the game accepts players the vault holds exactly one stake
/// per joined player; while live it holds the full five-stake pool; a
/// finished game's vault is drained; a cancelled game's vault holds a whole
/// number of stakes, at most one per joined player, until each claims their
/// refund.
pub open spec fn vault_consistent(m: GameModel, balance: u64) -> bool {
    match m.status {
        GameStatus::Waiting => balance == m.stake * m.players.len(),
        GameStatus::Live => balance == 5 * m.stake,
        GameStatus::Finished => balance == 0,
        GameStatus::Cancelled => exists|k: int|
            0 <= k <= m.players.len() && balance == #[trigger] (k * m.stake),
    }
}

/// The derivation preimage of a game's vault address: a fixed tag followed
/// by the game identifier.  Every operation that must locate the vault
/// derives it from this value, so no side lookup table exists.
pub open spec fn vault_address_seed_spec(game_id: Seq<u8>) -> Seq<u8> {
    // The ASCII bytes of "vault", then the 8-byte game identifier.
    seq![118u8, 97u8, 117u8, 108u8, 116u8] + game_id
}

/// Builds the vault-address derivation preimage for a game identifier.
pub fn vault_address_seed(game_id: &[u8; 8]) -> (r: Vec<u8>)
    ensures
        r@ == vault_address_seed_spec(game_id@),
{
    let mut r: Vec<u8> = Vec::new();
    r.push(118u8);
    r.push(97u8);
    r.push(117u8);
    r.push(108u8);
    r.push(116u8);
    let mut i: usize = 0;
    while i < 8
        invariant
            i <= 8,
            r@.len() == 5 + i,
            forall|k: int| 0 <= k < 5 ==> r@[k] == vault_address_seed_spec(game_id@)[k],
            forall|k: int| 0 <= k < i ==> r@[5 + k] == game_id@[k],
        decreases 8 - i,
    {
        r.push(game_id[i]);
        i += 1;
    }
    proof {
        assert(r@ =~= vault_address_seed_spec(game_id@));
    }
    r
}

} // verus!
