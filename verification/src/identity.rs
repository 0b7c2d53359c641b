//! Plain-value identities used by the escrow engine.
//!
//! The ledger substrate knows accounts by 32-byte addresses and games by
//! 8-byte identifiers.  The engine only ever compares these values and tests
//! whether an account identity is the all-zero placeholder, so both are held
//! here as fixed-size byte arrays with equality as their whole behaviour.

use vstd::prelude::*;

verus! {

/// The view of an identity that no account holds: thirty-two zero bytes.
/// Unpopulated player slots carry this value.
pub open spec fn zero_id() -> Seq<u8> {
    Seq::new(32, |i: int| 0u8)
}

/// A 32-byte account identity.  Contracts speak of its view, a `Seq<u8>` of
/// length 32; two identities are equal exactly when their views are.
#[derive(Clone, Copy, Debug)]
pub struct AccountId {
    bytes: [u8; 32],
}

impl View for AccountId {
    type V = Seq<u8>;

    closed spec fn view(&self) -> Seq<u8> {
        self.bytes@
    }
}

impl AccountId {
    /// Wraps a raw 32-byte ledger address.
    pub fn new(bytes: [u8; 32]) -> (r: AccountId)
        ensures
            r@ == bytes@,
    {
        AccountId { bytes }
    }

    /// The all-zero placeholder identity.
    pub fn placeholder() -> (r: AccountId)
        ensures
            r@ == zero_id(),
    {
        let bytes: [u8; 32] = [0u8; 32];
        proof {
            assert(bytes@ =~= zero_id());
        }
        AccountId { bytes }
    }

    /// Whether this identity is the all-zero placeholder.
    pub fn is_placeholder(&self) -> (r: bool)
        ensures
            r == (self@ == zero_id()),
    {
        let mut i: usize = 0;
        while i < 32
            invariant
                i <= 32,
                forall|k: int| 0 <= k < i ==> self.bytes@[k] == 0u8,
            decreases 32 - i,
        {
            if self.bytes[i] != 0u8 {
                proof {
                    assert(self@[i as int] != zero_id()[i as int]);
                }
                return false;
            }
            i += 1;
        }
        proof {
            assert(self@ =~= zero_id());
        }
        true
    }

    /// Hands the raw 32-byte address back, for callers that must talk to the
    /// ledger substrate.
    pub fn to_bytes(&self) -> (r: [u8; 32])
        ensures
            r@ == self@,
    {
        self.bytes
    }
}

impl PartialEq for AccountId {
    fn eq(&self, other: &AccountId) -> (r: bool) {
        let mut i: usize = 0;
        while i < 32
            invariant
                i <= 32,
                forall|k: int| 0 <= k < i ==> self.bytes@[k] == other.bytes@[k],
            decreases 32 - i,
        {
            if self.bytes[i] != other.bytes[i] {
                proof {
                    assert(self@[i as int] != other@[i as int]);
                }
                return false;
            }
            i += 1;
        }
        proof {
            assert(self@ =~= other@);
        }
        true
    }
}

impl vstd::std_specs::cmp::PartialEqSpecImpl for AccountId {
    open spec fn obeys_eq_spec() -> bool {
        true
    }

    open spec fn eq_spec(&self, other: &AccountId) -> bool {
        self@ == other@
    }
}

/// Every account identity views as exactly thirty-two bytes.
pub broadcast proof fn lemma_account_id_len(id: AccountId)
    ensures
        (#[trigger] id@).len() == 32,
{
}

/// An 8-byte game identifier, the primary key of a game record and the
/// value the per-game vault address is derived from.
#[derive(Clone, Copy, Debug)]
pub struct GameId {
    bytes: [u8; 8],
}

impl View for GameId {
    type V = Seq<u8>;

    closed spec fn view(&self) -> Seq<u8> {
        self.bytes@
    }
}

impl GameId {
    /// Wraps a raw 8-byte game identifier.
    pub fn new(bytes: [u8; 8]) -> (r: GameId)
        ensures
            r@ == bytes@,
    {
        GameId { bytes }
    }

    /// Hands the raw 8-byte identifier back.
    pub fn to_bytes(&self) -> (r: [u8; 8])
        ensures
            r@ == self@,
    {
        self.bytes
    }
}

impl PartialEq for GameId {
    fn eq(&self, other: &GameId) -> (r: bool) {
        let mut i: usize = 0;
        while i < 8
            invariant
                i <= 8,
                forall|k: int| 0 <= k < i ==> self.bytes@[k] == other.bytes@[k],
            decreases 8 - i,
        {
            if self.bytes[i] != other.bytes[i] {
                proof {
                    assert(self@[i as int] != other@[i as int]);
                }
                return false;
            }
            i += 1;
        }
        proof {
            assert(self@ =~= other@);
        }
        true
    }
}

/// Every game identifier views as exactly eight bytes.
pub broadcast proof fn lemma_game_id_len(id: GameId)
    ensures
        (#[trigger] id@).len() == 8,
{
}

impl vstd::std_specs::cmp::PartialEqSpecImpl for GameId {
    open spec fn obeys_eq_spec() -> bool {
        true
    }

    open spec fn eq_spec(&self, other: &GameId) -> bool {
        self@ == other@
    }
}

} // verus!
