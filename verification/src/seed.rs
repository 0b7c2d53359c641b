//! The fairness-seed commitment.
//!
//! Before play begins, a 32-byte seed is fixed on the game record.  It is a
//! deterministic function of the game identifier, a recent chain-position
//! value and the current time — all fixed at the moment the game starts —
//! so it cannot be altered after the fact, though it is deliberately not
//! unpredictable to the party that triggers the start.
//!
//! Layout: bytes 0..8 are the game identifier, bytes 8..16 the chain
//! position (little endian), bytes 16..24 the timestamp (little endian),
//! bytes 24..32 zero.  In the degenerate case where all three inputs are
//! zero, the last byte is set to one instead, so a committed seed is never
//! the all-zero value that marks an unstarted game.

use vstd::prelude::*;
use vstd::bytes::{spec_u64_to_le_bytes, spec_u64_to_le_bytes_to_open, u64_to_le_bytes};

verus! {

/// Whether every byte of the sequence is zero.  A game's seed satisfies
/// this exactly until the game goes live.
pub open spec fn is_zero_bytes(s: Seq<u8>) -> bool {
    forall|i: int| 0 <= i < s.len() ==> s[i] == 0u8
}

/// The 32 zero bytes a game record carries before its seed is committed.
pub open spec fn zero_seed() -> Seq<u8> {
    Seq::new(32, |i: int| 0u8)
}

/// The committed seed as a function of its inputs: game identifier bytes,
/// chain position, and timestamp.
pub open spec fn seed_bytes_spec(game_id: Seq<u8>, slot: u64, timestamp: i64) -> Seq<u8> {
    let base = Seq::new(
        32,
        |i: int|
            if i < 8 {
                game_id[i]
            } else if i < 16 {
                spec_u64_to_le_bytes(slot)[i - 8]
            } else if i < 24 {
                spec_u64_to_le_bytes(timestamp as u64)[i - 16]
            } else {
                0u8
            },
    );
    if is_zero_bytes(game_id) && slot == 0 && timestamp == 0 {
        base.update(31, 1u8)
    } else {
        base
    }
}

/// A nonzero word has a nonzero byte in its little-endian encoding.
proof fn lemma_u64_nonzero_has_nonzero_byte(x: u64)
    requires
        x != 0,
    ensures
        exists|k: int| 0 <= k < 8 && spec_u64_to_le_bytes(x)[k] != 0u8,
{
    spec_u64_to_le_bytes_to_open(x);
    let s = spec_u64_to_le_bytes(x);
    assert(!((x & 0xff) as u8 == 0 && ((x >> 8) & 0xff) as u8 == 0 && ((x >> 16) & 0xff) as u8
        == 0 && ((x >> 24) & 0xff) as u8 == 0 && ((x >> 32) & 0xff) as u8 == 0 && ((x >> 40)
        & 0xff) as u8 == 0 && ((x >> 48) & 0xff) as u8 == 0 && ((x >> 56) & 0xff) as u8 == 0))
        by (bit_vector)
        requires
            x != 0,
    ;
    if s[0] != 0 {
        assert(0 <= 0 < 8 && s[0] != 0u8);
    } else if s[1] != 0 {
        assert(0 <= 1 < 8 && s[1] != 0u8);
    } else if s[2] != 0 {
        assert(0 <= 2 < 8 && s[2] != 0u8);
    } else if s[3] != 0 {
        assert(0 <= 3 < 8 && s[3] != 0u8);
    } else if s[4] != 0 {
        assert(0 <= 4 < 8 && s[4] != 0u8);
    } else if s[5] != 0 {
        assert(0 <= 5 < 8 && s[5] != 0u8);
    } else if s[6] != 0 {
        assert(0 <= 6 < 8 && s[6] != 0u8);
    } else {
        assert(0 <= 7 < 8 && s[7] != 0u8);
    }
}

/// A committed seed is never all zero, whatever its inputs were.
pub proof fn lemma_seed_nonzero(game_id: Seq<u8>, slot: u64, timestamp: i64)
    requires
        game_id.len() == 8,
    ensures
        !is_zero_bytes(seed_bytes_spec(game_id, slot, timestamp)),
        seed_bytes_spec(game_id, slot, timestamp).len() == 32,
{
    let s = seed_bytes_spec(game_id, slot, timestamp);
    if is_zero_bytes(game_id) && slot == 0 && timestamp == 0 {
        assert(s[31] == 1u8);
    } else if !is_zero_bytes(game_id) {
        let i = choose|i: int| 0 <= i < game_id.len() && game_id[i] != 0u8;
        assert(s[i] != 0u8);
    } else if slot != 0 {
        lemma_u64_nonzero_has_nonzero_byte(slot);
        let k = choose|k: int| 0 <= k < 8 && spec_u64_to_le_bytes(slot)[k] != 0u8;
        assert(s[k + 8] != 0u8);
    } else {
        let t = timestamp as u64;
        assert(t != 0) by (bit_vector)
            requires
                t == timestamp as u64,
                timestamp != 0,
        ;
        lemma_u64_nonzero_has_nonzero_byte(t);
        let k = choose|k: int| 0 <= k < 8 && spec_u64_to_le_bytes(t)[k] != 0u8;
        assert(s[k + 16] != 0u8);
    }
}

/// Builds the seed to commit when a game starts.
pub fn derive_seed(game_id: &[u8; 8], slot: u64, timestamp: i64) -> (r: [u8; 32])
    ensures
        r@ == seed_bytes_spec(game_id@, slot, timestamp),
        !is_zero_bytes(r@),
{
    let slot_bytes = u64_to_le_bytes(slot);
    let time_bytes = u64_to_le_bytes(timestamp as u64);
    let mut seed: [u8; 32] = [0u8; 32];
    let mut i: usize = 0;
    while i < 8
        invariant
            i <= 8,
            forall|k: int| 0 <= k < i ==> seed@[k] == game_id@[k],
            forall|k: int| i <= k < 32 ==> seed@[k] == 0u8,
        decreases 8 - i,
    {
        seed[i] = game_id[i];
        i += 1;
    }
    let mut j: usize = 0;
    while j < 8
        invariant
            j <= 8,
            slot_bytes@.len() == 8,
            slot_bytes@ == spec_u64_to_le_bytes(slot),
            forall|k: int| 0 <= k < 8 ==> seed@[k] == game_id@[k],
            forall|k: int| 0 <= k < j ==> seed@[8 + k] == slot_bytes@[k],
            forall|k: int| 8 + j <= k < 32 ==> seed@[k] == 0u8,
        decreases 8 - j,
    {
        seed[8 + j] = slot_bytes[j];
        j += 1;
    }
    let mut l: usize = 0;
    while l < 8
        invariant
            l <= 8,
            slot_bytes@.len() == 8,
            time_bytes@.len() == 8,
            slot_bytes@ == spec_u64_to_le_bytes(slot),
            time_bytes@ == spec_u64_to_le_bytes(timestamp as u64),
            forall|k: int| 0 <= k < 8 ==> seed@[k] == game_id@[k],
            forall|k: int| 0 <= k < 8 ==> seed@[8 + k] == slot_bytes@[k],
            forall|k: int| 0 <= k < l ==> seed@[16 + k] == time_bytes@[k],
            forall|k: int| 16 + l <= k < 32 ==> seed@[k] == 0u8,
        decreases 8 - l,
    {
        seed[16 + l] = time_bytes[l];
        l += 1;
    }
    let mut id_zero = true;
    let mut m: usize = 0;
    while m < 8
        invariant
            m <= 8,
            id_zero == (forall|k: int| 0 <= k < m ==> game_id@[k] == 0u8),
            forall|k: int| 0 <= k < 8 ==> seed@[k] == game_id@[k],
            forall|k: int| 0 <= k < 8 ==> seed@[8 + k] == slot_bytes@[k],
            forall|k: int| 0 <= k < 8 ==> seed@[16 + k] == time_bytes@[k],
            forall|k: int| 24 <= k < 32 ==> seed@[k] == 0u8,
            slot_bytes@ == spec_u64_to_le_bytes(slot),
            time_bytes@ == spec_u64_to_le_bytes(timestamp as u64),
        decreases 8 - m,
    {
        if game_id[m] != 0u8 {
            id_zero = false;
        }
        m += 1;
    }
    if id_zero && slot == 0 && timestamp == 0 {
        seed[31] = 1u8;
        proof {
            assert(is_zero_bytes(game_id@));
            assert(seed@ =~= seed_bytes_spec(game_id@, slot, timestamp));
        }
    } else {
        proof {
            assert(!(is_zero_bytes(game_id@) && slot == 0 && timestamp == 0));
            assert(seed@ =~= seed_bytes_spec(game_id@, slot, timestamp));
        }
    }
    proof {
        lemma_seed_nonzero(game_id@, slot, timestamp);
    }
    seed
}

} // verus!
