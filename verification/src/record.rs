//! The persisted result record: one per roll request, created pending and
//! finalized exactly once by the oracle callback.

use vstd::prelude::*;
use crate::tier::{spec_classify, spec_tier_code};

verus! {

/// One roll's result record.
///
/// `player` and `nonce` identify the request and are set once at creation;
/// together they key the record's storage address. `bump` is the opaque
/// address-derivation proof handed in by the host platform. `rarity` and
/// `roll_value` are meaningful only once `fulfilled` is set.
#[derive(Clone, Copy, Debug)]
pub struct RarityResult {
    /// Identity of the wallet that requested the roll (32 bytes).
    pub player: [u8; 32],
    /// Requester-chosen value disambiguating this roll.
    pub nonce: u64,
    /// Encoded rarity tier in 0..=4; 0 until fulfilled.
    pub rarity: u8,
    /// Whether the oracle callback has finalized this record.
    pub fulfilled: bool,
    /// Raw roll in 0..=99; 0 until fulfilled.
    pub roll_value: u8,
    /// Address-derivation proof, set at creation.
    pub bump: u8,
}

impl RarityResult {
    /// A record is well formed when its result fields are zeroed while
    /// pending, and hold a roll in 0..=99 with its matching tier code once
    /// fulfilled.
    pub open spec fn wf(self) -> bool {
        &&& self.rarity <= 4
        &&& self.roll_value <= 99
        &&& !self.fulfilled ==> self.rarity == 0 && self.roll_value == 0
        &&& self.fulfilled ==> self.rarity == spec_tier_code(
            spec_classify(self.roll_value as int),
        )
    }

    /// Creates the pending record for a fresh roll request: result fields
    /// zeroed, requester identity, nonce and address proof set.
    pub fn new(player: &[u8; 32], nonce: u64, bump: u8) -> (r: RarityResult)
        ensures
            r.wf(),
            r == (RarityResult {
                player: *player,
                nonce,
                rarity: 0,
                fulfilled: false,
                roll_value: 0,
                bump,
            }),
            r.player@ == player@,
            r.nonce == nonce,
            r.bump == bump,
            !r.fulfilled,
            r.rarity == 0,
            r.roll_value == 0,
    {
        RarityResult { player: *player, nonce, rarity: 0, fulfilled: false, roll_value: 0, bump }
    }
}

/// Compares two 32-byte identities.
pub fn id_eq(a: &[u8; 32], b: &[u8; 32]) -> (r: bool)
    ensures
        r == (a@ == b@),
{
    let mut i: usize = 0;
    while i < 32
        invariant
            0 <= i <= 32,
            forall|j: int| 0 <= j < i ==> a@[j] == b@[j],
        decreases 32 - i,
    {
        if a[i] != b[i] {
            assert(a@[i as int] != b@[i as int]);
            return false;
        }
        i += 1;
    }
    assert(a@ =~= b@);
    true
}

} // verus!
