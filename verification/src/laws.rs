//! The engine's laws: properties that relate several operations, stated
//! over the model and the transition specifications and proved once for
//! all inputs.

use vstd::prelude::*;
use crate::errors::EscrowError;
use crate::game::{model_inv, pairwise_distinct, GameModel, GameStatus};
use crate::vault::vault_consistent;
use crate::seed::{is_zero_bytes, lemma_seed_nonzero, seed_bytes_spec};
use crate::transitions::{
    cancel_allowed, cancel_next, cancel_rejection, end_allowed, end_rejection, join_allowed,
    join_next, join_rejection, refund_allowed, refund_rejection, start_allowed, start_next,
    start_rejection,
};

verus! {

/// Whether a whole sequence of joins, made in the given order, is allowed:
/// the first against the given state, each next against the state the one
/// before it produced.
pub open spec fn joins_all_allowed(m: GameModel, ps: Seq<Seq<u8>>) -> bool
    decreases ps.len(),
{
    ps.len() == 0 || (join_allowed(m, ps[0]) && joins_all_allowed(
        join_next(m, ps[0]),
        ps.subrange(1, ps.len() as int),
    ))
}

/// The state after a whole sequence of joins, made in the given order.
pub open spec fn apply_joins(m: GameModel, ps: Seq<Seq<u8>>) -> GameModel
    decreases ps.len(),
{
    if ps.len() == 0 {
        m
    } else {
        apply_joins(join_next(m, ps[0]), ps.subrange(1, ps.len() as int))
    }
}

/// Distinct newcomers always fill a waiting game, in any order: as long as
/// the game stays within its five slots, every join of a sequence of
/// pairwise-distinct players none of whom has joined before is allowed,
/// and they end up appended in join order with the game still waiting and
/// its identity, creator and stake untouched.
pub proof fn lemma_distinct_joins_succeed(m: GameModel, ps: Seq<Seq<u8>>)
    requires
        model_inv(m),
        m.status == GameStatus::Waiting,
        m.players.len() + ps.len() <= 5,
        forall|i: int| 0 <= i < ps.len() ==> (#[trigger] ps[i]).len() == 32,
        pairwise_distinct(ps),
        forall|i: int| 0 <= i < ps.len() ==> !m.players.contains(#[trigger] ps[i]),
    ensures
        joins_all_allowed(m, ps),
        apply_joins(m, ps).players == m.players + ps,
        apply_joins(m, ps).status == GameStatus::Waiting,
        apply_joins(m, ps).stake == m.stake,
        apply_joins(m, ps).game_id == m.game_id,
        apply_joins(m, ps).creator == m.creator,
        model_inv(apply_joins(m, ps)),
    decreases ps.len(),
{
    if ps.len() == 0 {
        assert(apply_joins(m, ps).players =~= m.players + ps);
    } else {
        let p = ps[0];
        assert(!m.players.contains(p));
        assert(join_allowed(m, p));
        let m1 = join_next(m, p);
        assert(pairwise_distinct(m1.players)) by {
            assert forall|i: int, j: int| 0 <= i < j < m1.players.len() implies m1.players[i]
                != m1.players[j] by {
                if j < m.players.len() {
                } else {
                    assert(m1.players[j] == p);
                    assert(m1.players[i] == m.players[i]);
                }
            }
        }
        assert(model_inv(m1));
        let tail = ps.subrange(1, ps.len() as int);
        assert forall|i: int| 0 <= i < tail.len() implies !m1.players.contains(
            #[trigger] tail[i],
        ) by {
            assert(tail[i] == ps[i + 1]);
            assert(ps[i + 1] != p);
            assert(!m.players.contains(ps[i + 1]));
            assert forall|k: int| 0 <= k < m1.players.len() implies m1.players[k] != tail[i] by {
                if k < m.players.len() {
                    assert(m1.players[k] == m.players[k]);
                } else {
                    assert(m1.players[k] == p);
                }
            }
        }
        lemma_distinct_joins_succeed(m1, tail);
        assert(apply_joins(m, ps) == apply_joins(m1, tail));
        assert(m1.players + tail =~= m.players + ps);
    }
}

/// A sixth, new caller is turned away as `GameFull`: once all five slots
/// are taken, a join by anyone not already among the players is rejected,
/// and the code is `GameFull`.
pub proof fn lemma_join_rejected_when_full(m: GameModel, p: Seq<u8>)
    requires
        m.status == GameStatus::Waiting,
        m.players.len() >= 5,
        !m.players.contains(p),
    ensures
        !join_allowed(m, p),
        join_rejection(m, p) == EscrowError::GameFull,
{
}

/// Joining twice always fails as `AlreadyJoined`, regardless of how full
/// the game is: a caller already among the players is rejected with that
/// code and no other.
pub proof fn lemma_rejoin_rejected(m: GameModel, p: Seq<u8>)
    requires
        m.status == GameStatus::Waiting,
        m.players.contains(p),
    ensures
        !join_allowed(m, p),
        join_rejection(m, p) == EscrowError::AlreadyJoined,
{
}

/// A start is allowed exactly when the game is waiting with five players,
/// and the seed it commits is never the all-zero value: immediately after
/// a successful start the game is live, its players, identity, creator and
/// stake are untouched, its seed is nonzero, and the record invariant
/// still holds.
pub proof fn lemma_start_commits_nonzero_seed(m: GameModel, slot: u64, timestamp: i64)
    requires
        model_inv(m),
    ensures
        start_allowed(m) <==> (m.status == GameStatus::Waiting && m.players.len() == 5),
        start_allowed(m) ==> !is_zero_bytes(start_next(m, slot, timestamp).seed),
        start_allowed(m) ==> start_next(m, slot, timestamp).status == GameStatus::Live,
        start_allowed(m) ==> start_next(m, slot, timestamp).players == m.players,
        start_allowed(m) ==> start_next(m, slot, timestamp).stake == m.stake,
        start_allowed(m) ==> start_next(m, slot, timestamp).game_id == m.game_id,
        start_allowed(m) ==> start_next(m, slot, timestamp).creator == m.creator,
        start_allowed(m) ==> model_inv(start_next(m, slot, timestamp)),
{
    if start_allowed(m) {
        lemma_seed_nonzero(m.game_id, slot, timestamp);
    }
}

/// The committed seed is stable: after a successful start, invoking start
/// again is rejected as `GameNotWaiting` — and a rejected operation leaves
/// the record, and so the seed, exactly as it was.
pub proof fn lemma_start_is_unrepeatable(m: GameModel, slot: u64, timestamp: i64)
    requires
        start_allowed(m),
    ensures
        !start_allowed(start_next(m, slot, timestamp)),
        start_rejection(start_next(m, slot, timestamp)) == EscrowError::GameNotWaiting,
        start_next(m, slot, timestamp).seed == seed_bytes_spec(m.game_id, slot, timestamp),
{
}

/// An out-of-range winner index is always `InvalidWinner`, and ending a
/// game that is not live is always `GameNotLive`, whatever else holds.
pub proof fn lemma_end_rejections(m: GameModel, winner_index: int)
    ensures
        winner_index >= 5 ==> !end_allowed(m, winner_index),
        m.status == GameStatus::Live && winner_index >= 5 ==> end_rejection(m, winner_index)
            == EscrowError::InvalidWinner,
        m.status != GameStatus::Live ==> !end_allowed(m, winner_index) && end_rejection(
            m,
            winner_index,
        ) == EscrowError::GameNotLive,
{
}

/// A cancel is allowed exactly for the creator, on a waiting game.
pub proof fn lemma_cancel_exact(m: GameModel, caller: Seq<u8>)
    ensures
        cancel_allowed(m, caller) <==> (m.status == GameStatus::Waiting && caller == m.creator),
        m.status == GameStatus::Waiting && caller != m.creator ==> cancel_rejection(m, caller)
            == EscrowError::Unauthorized,
        cancel_allowed(m, caller) ==> cancel_next(m).status == GameStatus::Cancelled,
{
}

/// A cancelled game is terminal for the record: no join, start, end or
/// further cancel is ever allowed again, each being rejected with the code
/// for its wrong-status rule; only refunds, which do not touch the record,
/// remain possible.
pub proof fn lemma_cancelled_is_terminal(
    m: GameModel,
    p: Seq<u8>,
    winner_index: int,
    caller: Seq<u8>,
)
    requires
        m.status == GameStatus::Cancelled,
    ensures
        !join_allowed(m, p),
        join_rejection(m, p) == EscrowError::GameNotWaiting,
        !start_allowed(m),
        start_rejection(m) == EscrowError::GameNotWaiting,
        !end_allowed(m, winner_index),
        end_rejection(m, winner_index) == EscrowError::GameNotLive,
        !cancel_allowed(m, caller),
        cancel_rejection(m, caller) == EscrowError::GameNotWaiting,
{
}

/// A finished game is terminal: no operation at all is allowed on it, each
/// being rejected with the code for its wrong-status rule.
pub proof fn lemma_finished_is_terminal(
    m: GameModel,
    p: Seq<u8>,
    winner_index: int,
    caller: Seq<u8>,
    refund_index: int,
    owner: Seq<u8>,
)
    requires
        m.status == GameStatus::Finished,
    ensures
        !join_allowed(m, p),
        join_rejection(m, p) == EscrowError::GameNotWaiting,
        !start_allowed(m),
        start_rejection(m) == EscrowError::GameNotWaiting,
        !end_allowed(m, winner_index),
        end_rejection(m, winner_index) == EscrowError::GameNotLive,
        !cancel_allowed(m, caller),
        cancel_rejection(m, caller) == EscrowError::GameNotWaiting,
        !refund_allowed(m, refund_index, owner),
        refund_rejection(m, refund_index, owner) == EscrowError::GameNotCancelled,
{
}

/// Starting moves no funds: a vault consistent with a waiting, full game
/// — holding the five-stake pool — is consistent with the live game the
/// start produces, untouched.
pub proof fn lemma_vault_consistent_across_start(
    m: GameModel,
    slot: u64,
    timestamp: i64,
    balance: u64,
)
    requires
        model_inv(m),
        start_allowed(m),
        vault_consistent(m, balance),
    ensures
        vault_consistent(start_next(m, slot, timestamp), balance),
{
}

/// Cancelling moves no funds either: the pooled stakes — one per joined
/// player — stay in the vault, now as the whole number of stakes the
/// refunds will draw down.
pub proof fn lemma_vault_consistent_across_cancel(m: GameModel, balance: u64)
    requires
        model_inv(m),
        m.status == GameStatus::Waiting,
        vault_consistent(m, balance),
    ensures
        vault_consistent(cancel_next(m), balance),
{
    let n = m.players.len() as int;
    assert(balance == n * m.stake) by (nonlinear_arith)
        requires
            balance == m.stake * n,
    ;
    let c = cancel_next(m);
    assert(c.stake == m.stake && c.players == m.players);
    assert(0 <= n <= c.players.len() && balance == n * c.stake);
}

/// A refund is allowed exactly on a cancelled game, for an index naming a
/// joined player and a destination owned by that player; an index naming
/// no joined player is always `InvalidPlayer`.
pub proof fn lemma_refund_exact(m: GameModel, player_index: int, owner: Seq<u8>)
    ensures
        refund_allowed(m, player_index, owner) <==> (m.status == GameStatus::Cancelled && 0
            <= player_index < m.players.len() && owner == m.players[player_index]),
        m.status == GameStatus::Cancelled && !(0 <= player_index < m.players.len())
            ==> refund_rejection(m, player_index, owner) == EscrowError::InvalidPlayer,
        m.status != GameStatus::Cancelled ==> refund_rejection(m, player_index, owner)
            == EscrowError::GameNotCancelled,
{
}

} // verus!
