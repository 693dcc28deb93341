//! Reduction of the oracle's 32 randomness bytes to a roll in 0..=99.
//!
//! The reduction scans the bytes from the last towards the first for one
//! below 200 (the largest multiple of 100 that fits in a byte) and reduces it
//! modulo 100; if every byte is 200 or more it falls back to reducing the
//! last byte. Rejecting bytes at or above the threshold keeps the result
//! uniform over the 100 outcomes, except in the vanishingly rare fallback.

use vstd::prelude::*;

verus! {

/// The roll produced by scanning `bytes` downward from index `i`: the first
/// byte below 200 reduced modulo 100, or the last byte reduced modulo 100 if
/// none qualifies.
pub open spec fn roll_scan(bytes: Seq<u8>, i: int) -> u8
    decreases i + 1,
{
    if i < 0 {
        ((bytes[31] as int) % 100) as u8
    } else if bytes[i] < 200 {
        ((bytes[i] as int) % 100) as u8
    } else {
        roll_scan(bytes, i - 1)
    }
}

/// The roll in 0..=99 that a 32-byte randomness value reduces to.
pub open spec fn roll_from_bytes(bytes: Seq<u8>) -> u8
    recommends
        bytes.len() == 32,
{
    roll_scan(bytes, 31)
}

proof fn lemma_roll_scan_in_range(bytes: Seq<u8>, i: int)
    ensures
        roll_scan(bytes, i) <= 99,
    decreases i + 1,
{
    if i < 0 {
    } else if bytes[i] < 200 {
    } else {
        lemma_roll_scan_in_range(bytes, i - 1);
    }
}

/// Every 32-byte randomness value reduces to a roll in 0..=99.
pub proof fn lemma_roll_from_bytes_in_range(bytes: Seq<u8>)
    ensures
        roll_from_bytes(bytes) <= 99,
{
    lemma_roll_scan_in_range(bytes, 31);
}

/// Relies on `ephemeral_vrf_sdk::rnd::random_u8_with_range` with bounds 0 and
/// 99: it scans the bytes from the end for the first one below the rejection
/// threshold 200 and reduces it modulo 100, falling back to the last byte.
#[verifier::external_body]
pub(crate) fn reduce_roll(randomness: &Vec<u8>) -> (roll: u8)
    requires
        randomness@.len() == 32,
    ensures
        roll == roll_from_bytes(randomness@),
{
    let bytes: [u8; 32] = randomness.as_slice().try_into().unwrap();
    ephemeral_vrf_sdk::rnd::random_u8_with_range(&bytes, 0, 99)
}

} // verus!
