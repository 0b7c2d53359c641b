//! The six escrow operations.
//!
//! Each operation validates its preconditions against the current record,
//! and either mutates the record and the modelled vault balance in one
//! indivisible step and reports one event, or changes nothing and reports
//! one rejection code — never both.  Success and failure, the successor
//! state, the exact code, and the exact amounts moved are all stated
//! against the specification functions of [`crate::transitions`].
//!
//! The caller sits between this engine and the ledger substrate: it checks
//! a game identifier is unused before `create_game` (an identifier
//! collision is an addressing failure the ledger reports), performs one
//! real token transfer per balance change accounted here, and aborts the
//! whole step if the ledger refuses a transfer, so the record and the vault
//! never part ways.

use vstd::prelude::*;
use crate::errors::EscrowError;
use crate::events::{
    GameCancelled, GameCreated, GameEnded, GameStarted, PlayerJoined, PlayerRefunded,
};
use crate::game::{Game, GameStatus};
use crate::identity::{AccountId, GameId};
use crate::payout::{compute_payouts, house_fee_spec, total_pool_spec, winner_payout_spec};
use crate::seed::{derive_seed, seed_bytes_spec, zero_seed};
use crate::transitions::{
    cancel_allowed, cancel_next, cancel_rejection, create_next, end_allowed, end_next,
    end_rejection, join_allowed, join_next, join_rejection, refund_allowed, refund_rejection,
    start_allowed, start_next, start_rejection,
};
use crate::vault::{vault_consistent, Vault};

verus! {

broadcast use crate::identity::lemma_account_id_len, crate::identity::lemma_game_id_len;

/// Creates a game record and its empty vault.
///
/// The stake must be positive and small enough that the five-stake pool
/// fits the balance type; both are fixed properties of the caller's input,
/// not runtime conditions of the engine.  The one runtime failure —
/// a `game_id` already in use — is an addressing collision that the ledger
/// substrate reports when the record is allocated, before any state exists
/// for this engine to protect.
pub fn create_game(
    game_id: GameId,
    creator: AccountId,
    stake_amount: u64,
    created_at: i64,
    bump: u8,
) -> (r: (Game, Vault, GameCreated))
    requires
        1 <= stake_amount,
        5 * stake_amount <= u64::MAX,
    ensures
        r.0.wf(),
        r.0@ == create_next(game_id@, creator@, stake_amount, created_at),
        r.0.bump == bump,
        r.1.balance == 0,
        vault_consistent(r.0@, r.1.balance),
        r.2.game_id@ == game_id@,
        r.2.creator@ == creator@,
        r.2.stake_amount == stake_amount,
{
    let empty_slot = AccountId::placeholder();
    let game = Game {
        game_id,
        creator,
        stake_amount,
        player_count: 0,
        players: [empty_slot; 5],
        status: GameStatus::Waiting,
        seed: [0u8; 32],
        winner: None,
        created_at,
        started_at: None,
        bump,
    };
    proof {
        assert(game@.players =~= Seq::<Seq<u8>>::empty());
        assert(game@.seed =~= zero_seed());
        assert(game@ =~= create_next(game_id@, creator@, stake_amount, created_at));
    }
    let vault = Vault::new();
    let ev = GameCreated { game_id, creator, stake_amount };
    (game, vault, ev)
}

/// Lets the caller join a waiting, non-full game they have not joined yet,
/// moving one stake from them into the vault.
///
/// A repeat caller is rejected as `AlreadyJoined` whether or not the game
/// is also full; only a new caller finding all five slots taken is told
/// `GameFull`.
pub fn join_game(game: &mut Game, vault: &mut Vault, player: AccountId) -> (r: Result<
    PlayerJoined,
    EscrowError,
>)
    requires
        old(game).wf(),
        vault_consistent(old(game)@, old(vault).balance),
    ensures
        final(game).wf(),
        vault_consistent(final(game)@, final(vault).balance),
        r is Ok <==> join_allowed(old(game)@, player@),
        r is Ok ==> final(game)@ == join_next(old(game)@, player@) && final(vault).balance
            == old(vault).balance + old(game).stake_amount,
        r matches Ok(ev) ==> ev.game_id@ == old(game)@.game_id && ev.player@ == player@
            && ev.player_count == old(game).player_count + 1,
        r matches Err(e) ==> *final(game) == *old(game) && *final(vault) == *old(vault) && e
            == join_rejection(old(game)@, player@),
{
    if game.status != GameStatus::Waiting {
        return Err(EscrowError::GameNotWaiting);
    }
    let count = game.player_count as usize;
    let mut i: usize = 0;
    while i < count
        invariant
            *game == *old(game),
            *vault == *old(vault),
            old(game).wf(),
            vault_consistent(old(game)@, old(vault).balance),
            old(game)@.status == GameStatus::Waiting,
            count == old(game).player_count as int,
            i <= count,
            forall|k: int| 0 <= k < i ==> old(game)@.players[k] != player@,
        decreases count - i,
    {
        if game.players[i] == player {
            proof {
                assert(old(game)@.players[i as int] == player@);
                assert(old(game)@.players.contains(player@));
            }
            return Err(EscrowError::AlreadyJoined);
        }
        i += 1;
    }
    proof {
        assert(forall|k: int|
            0 <= k < old(game)@.players.len() ==> old(game)@.players[k] != player@);
        assert(!old(game)@.players.contains(player@));
    }
    if game.player_count >= 5 {
        return Err(EscrowError::GameFull);
    }
    let idx = game.player_count as usize;
    game.players[idx] = player;
    game.player_count = game.player_count + 1;
    proof {
        let m0 = old(game)@;
        assert(game@.players =~= m0.players.push(player@));
        assert(game@ =~= join_next(m0, player@));
        let b0 = old(vault).balance;
        let n0 = m0.players.len() as int;
        assert(b0 + m0.stake <= 5 * m0.stake) by (nonlinear_arith)
            requires
                b0 == m0.stake * n0,
                n0 <= 4,
                m0.stake >= 1,
        ;
    }
    vault.balance = vault.balance + game.stake_amount;
    proof {
        let m0 = old(game)@;
        let b1 = vault.balance;
        let n0 = m0.players.len() as int;
        assert(b1 == m0.stake * (n0 + 1)) by (nonlinear_arith)
            requires
                b1 == m0.stake * n0 + m0.stake,
        ;
    }
    Ok(
        PlayerJoined {
            game_id: game.game_id,
            player,
            player_count: game.player_count,
        },
    )
}

/// Starts a waiting, full game: commits the fairness seed derived from the
/// game identifier, the given chain-position value and the given clock
/// reading, and records the start time.
///
/// The caller passes the ledger's current chain position and clock; both
/// are fixed on the record at this moment and never change again.  No
/// funds move.
///
/// Any authenticated caller may start a full game — the access rule is
/// deliberately that loose, a known gap left for an integrator to close
/// with an explicit authority field if needed.  The seed is likewise
/// committed-before-play but not unpredictable to the party that
/// triggers the start.
pub fn start_game(game: &mut Game, slot: u64, timestamp: i64) -> (r: Result<
    GameStarted,
    EscrowError,
>)
    requires
        old(game).wf(),
    ensures
        final(game).wf(),
        r is Ok <==> start_allowed(old(game)@),
        r is Ok ==> final(game)@ == start_next(old(game)@, slot, timestamp),
        r matches Ok(ev) ==> ev.game_id@ == old(game)@.game_id && ev.seed@ == seed_bytes_spec(
            old(game)@.game_id,
            slot,
            timestamp,
        ) && ev.started_at == timestamp,
        r matches Err(e) ==> *final(game) == *old(game) && e == start_rejection(old(game)@),
{
    if game.status != GameStatus::Waiting {
        return Err(EscrowError::GameNotWaiting);
    }
    if game.player_count < 5 {
        return Err(EscrowError::NotEnoughPlayers);
    }
    let gid = game.game_id.to_bytes();
    let seed = derive_seed(&gid, slot, timestamp);
    game.seed = seed;
    game.status = GameStatus::Live;
    game.started_at = Some(timestamp);
    proof {
        assert(game@ =~= start_next(old(game)@, slot, timestamp));
    }
    Ok(GameStarted { game_id: game.game_id, seed, started_at: timestamp })
}

/// Settles a live game: records the winner, drains the vault's five-stake
/// pool, and reports the exact amounts owed — the pool minus the rounded-
/// down five-percent house fee to the winner, the fee to the house.
///
/// The caller performs the two transfers the event names, winner first,
/// as parts of the same indivisible step.  As with starting, any
/// authenticated caller may settle — no designated game authority is
/// checked; the same known gap applies.
pub fn end_game(game: &mut Game, vault: &mut Vault, winner_index: u8) -> (r: Result<
    GameEnded,
    EscrowError,
>)
    requires
        old(game).wf(),
        vault_consistent(old(game)@, old(vault).balance),
    ensures
        final(game).wf(),
        vault_consistent(final(game)@, final(vault).balance),
        r is Ok <==> end_allowed(old(game)@, winner_index as int),
        r is Ok ==> final(game)@ == end_next(old(game)@, winner_index as int)
            && final(vault).balance == 0
            && old(vault).balance == total_pool_spec(old(game)@.stake),
        r matches Ok(ev) ==> ev.game_id@ == old(game)@.game_id
            && ev.winner@ == old(game)@.players[winner_index as int]
            && ev.winner_payout == winner_payout_spec(old(game)@.stake)
            && ev.house_fee == house_fee_spec(old(game)@.stake),
        r matches Err(e) ==> *final(game) == *old(game) && *final(vault) == *old(vault) && e
            == end_rejection(old(game)@, winner_index as int),
{
    if game.status != GameStatus::Live {
        return Err(EscrowError::GameNotLive);
    }
    if winner_index >= 5 {
        return Err(EscrowError::InvalidWinner);
    }
    let winner = game.players[winner_index as usize];
    if winner.is_placeholder() {
        return Err(EscrowError::InvalidWinner);
    }
    let (total, fee, payout) = compute_payouts(game.stake_amount);
    vault.balance = vault.balance - payout;
    vault.balance = vault.balance - fee;
    game.winner = Some(winner);
    game.status = GameStatus::Finished;
    proof {
        assert(game@ =~= end_next(old(game)@, winner_index as int));
        assert(game@.players.contains(game@.players[winner_index as int]));
    }
    Ok(GameEnded { game_id: game.game_id, winner, winner_payout: payout, house_fee: fee })
}

/// Cancels a waiting game, at the creator's request alone.  The record
/// becomes terminally `Cancelled`; the pooled stakes stay in the vault
/// until each joined player claims their refund.
pub fn cancel_game(game: &mut Game, authority: AccountId) -> (r: Result<
    GameCancelled,
    EscrowError,
>)
    requires
        old(game).wf(),
    ensures
        final(game).wf(),
        r is Ok <==> cancel_allowed(old(game)@, authority@),
        r is Ok ==> final(game)@ == cancel_next(old(game)@),
        r matches Ok(ev) ==> ev.game_id@ == old(game)@.game_id,
        r matches Err(e) ==> *final(game) == *old(game) && e == cancel_rejection(
            old(game)@,
            authority@,
        ),
{
    if game.status != GameStatus::Waiting {
        return Err(EscrowError::GameNotWaiting);
    }
    if !(authority == game.creator) {
        return Err(EscrowError::Unauthorized);
    }
    game.status = GameStatus::Cancelled;
    proof {
        assert(game@ =~= cancel_next(old(game)@));
    }
    Ok(GameCancelled { game_id: game.game_id })
}

/// Pays one joined player of a cancelled game their stake back, into a
/// destination owned by exactly that player.
///
/// The record is not touched, so the engine does not track which players
/// have already been refunded; a claim is bounded only by the vault's
/// remaining balance, which the caller checks against the stake before
/// calling — a vault that cannot cover the stake is the ledger's own
/// transfer failure, propagated unmodified.
pub fn refund_player(
    game: &Game,
    vault: &mut Vault,
    player_index: u8,
    destination_owner: AccountId,
) -> (r: Result<PlayerRefunded, EscrowError>)
    requires
        game.wf(),
        vault_consistent(game@, old(vault).balance),
        refund_allowed(game@, player_index as int, destination_owner@) ==> old(vault).balance
            >= game.stake_amount,
    ensures
        vault_consistent(game@, final(vault).balance),
        r is Ok <==> refund_allowed(game@, player_index as int, destination_owner@),
        r is Ok ==> final(vault).balance == old(vault).balance - game.stake_amount,
        r matches Ok(ev) ==> ev.game_id@ == game@.game_id && ev.player@ == game@.players[
            player_index as int
        ] && ev.amount == game.stake_amount,
        r matches Err(e) ==> *final(vault) == *old(vault) && e == refund_rejection(
            game@,
            player_index as int,
            destination_owner@,
        ),
{
    if game.status != GameStatus::Cancelled {
        return Err(EscrowError::GameNotCancelled);
    }
    if player_index >= game.player_count {
        return Err(EscrowError::InvalidPlayer);
    }
    let player = game.players[player_index as usize];
    if !(destination_owner == player) {
        return Err(EscrowError::WrongPlayer);
    }
    vault.balance = vault.balance - game.stake_amount;
    proof {
        let m = game@;
        let b0 = old(vault).balance;
        let k = choose|k: int| 0 <= k <= m.players.len() && b0 == #[trigger] (k * m.stake);
        assert(k >= 1) by (nonlinear_arith)
            requires
                b0 == k * m.stake,
                b0 >= m.stake,
                m.stake >= 1,
                k >= 0,
        ;
        let b1 = vault.balance;
        assert(b1 == (k - 1) * m.stake) by (nonlinear_arith)
            requires
                b1 == b0 - m.stake,
                b0 == k * m.stake,
        ;
        assert(0 <= k - 1 <= m.players.len() && vault.balance == (k - 1) * m.stake);
    }
    Ok(PlayerRefunded { game_id: game.game_id, player, amount: game.stake_amount })
}

} // verus!
