//! Settlement arithmetic: how a finished game's pooled stake is split
//! between the winner and the house.
//!
//! The pool is exactly five stakes.  The house keeps five percent of the
//! pool rounded down (integer division by twenty); the winner receives the
//! rest, so any rounding loss goes to the winner and no unit is ever lost.

use vstd::prelude::*;

verus! {

/// The pooled stake of a full game: five times the per-player stake.
pub open spec fn total_pool_spec(stake: u64) -> int {
    5 * stake
}

/// The house's cut: five percent of the pool, rounded down.
pub open spec fn house_fee_spec(stake: u64) -> int {
    total_pool_spec(stake) / 20
}

/// The winner's payout: the pool minus the house fee.
pub open spec fn winner_payout_spec(stake: u64) -> int {
    total_pool_spec(stake) - house_fee_spec(stake)
}

/// The settlement amounts for a game with the given per-player stake:
/// `(total pool, house fee, winner payout)`.
pub fn compute_payouts(stake: u64) -> (r: (u64, u64, u64))
    requires
        5 * stake <= u64::MAX,
    ensures
        r.0 == total_pool_spec(stake),
        r.1 == house_fee_spec(stake),
        r.2 == winner_payout_spec(stake),
        r.1 + r.2 == r.0,
{
    let total: u64 = stake * 5;
    let fee: u64 = total / 20;
    let payout: u64 = total - fee;
    (total, fee, payout)
}

/// No settlement loses or mints funds: for every stake, the house fee and
/// the winner payout add up to the pooled stake exactly, the fee never
/// exceeds the pool, and the winner never receives less than the house.
pub proof fn lemma_payout_conservation(stake: u64)
    ensures
        house_fee_spec(stake) + winner_payout_spec(stake) == total_pool_spec(stake),
        0 <= house_fee_spec(stake) <= total_pool_spec(stake),
        house_fee_spec(stake) <= winner_payout_spec(stake),
{
}

} // verus!
