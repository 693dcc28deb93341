use vrf_rarity::error::RarityError;
use vrf_rarity::record::{id_eq, RarityResult};
use vrf_rarity::store::{RarityStore, RecordAddress};
use vrf_rarity::tier::Tier;

const ORACLE: [u8; 32] = [9u8; 32];
const QUEUE: [u8; 32] = [1u8; 32];
const PROGRAM: [u8; 32] = [2u8; 32];
const PLAYER_A: [u8; 32] = [7u8; 32];
const RECORD_ACCOUNT: [u8; 32] = [3u8; 32];

fn store() -> RarityStore {
    RarityStore::new(&ORACLE, Some(QUEUE), &PROGRAM, vec![0xde, 0xad, 0xbe, 0xef])
}

fn addr(player: [u8; 32], nonce: u64) -> RecordAddress {
    RecordAddress { player, nonce }
}

/// Randomness whose last byte is below the rejection threshold, so the
/// reduction takes it modulo 100.
fn randomness_ending_in(last: u8) -> Vec<u8> {
    let mut bytes = vec![0u8; 32];
    bytes[31] = last;
    bytes
}

#[test]
fn submission_creates_pending_record() {
    let mut s = store();
    let sub = s.roll_rarity(&PLAYER_A, 7, &RECORD_ACCOUNT, 255).unwrap();
    assert_eq!(sub.address.player, PLAYER_A);
    assert_eq!(sub.address.nonce, 7);
    assert_eq!(s.record_count(), 1);
    let rec = s.record(&addr(PLAYER_A, 7)).unwrap();
    assert_eq!(rec.player, PLAYER_A);
    assert_eq!(rec.nonce, 7);
    assert!(!rec.fulfilled);
    assert_eq!(rec.rarity, 0);
    assert_eq!(rec.roll_value, 0);
    assert_eq!(rec.bump, 255);
}

#[test]
fn duplicate_rejection() {
    let mut s = store();
    assert!(s.roll_rarity(&PLAYER_A, 7, &RECORD_ACCOUNT, 255).is_ok());
    let second = s.roll_rarity(&PLAYER_A, 7, &RECORD_ACCOUNT, 255);
    assert_eq!(second.err(), Some(RarityError::DuplicateRequest));
    // the first record is untouched
    assert_eq!(s.record_count(), 1);
    let rec = s.record(&addr(PLAYER_A, 7)).unwrap();
    assert!(!rec.fulfilled);
    assert_eq!(rec.rarity, 0);
    assert_eq!(rec.roll_value, 0);
}

#[test]
fn distinct_nonces_are_independent() {
    let mut s = store();
    assert!(s.roll_rarity(&PLAYER_A, 7, &RECORD_ACCOUNT, 255).is_ok());
    assert!(s.roll_rarity(&PLAYER_A, 8, &RECORD_ACCOUNT, 254).is_ok());
    assert_eq!(s.record_count(), 2);
}

#[test]
fn oracle_unavailable_without_queue() {
    let mut s = RarityStore::new(&ORACLE, None, &PROGRAM, vec![1, 2, 3, 4]);
    let r = s.roll_rarity(&PLAYER_A, 7, &RECORD_ACCOUNT, 255);
    assert_eq!(r.err(), Some(RarityError::OracleUnavailable));
    assert_eq!(s.record_count(), 0);
}

#[test]
fn authentication_gate() {
    let mut s = store();
    s.roll_rarity(&PLAYER_A, 7, &RECORD_ACCOUNT, 255).unwrap();
    let impostor = [8u8; 32];
    // rejected while the record is pending
    let r = s.callback_roll_rarity(&addr(PLAYER_A, 7), &impostor, &randomness_ending_in(83));
    assert_eq!(r.err(), Some(RarityError::UntrustedCallback));
    let rec = s.record(&addr(PLAYER_A, 7)).unwrap();
    assert!(!rec.fulfilled);
    assert_eq!(rec.rarity, 0);
    assert_eq!(rec.roll_value, 0);
    // rejected on a fulfilled record too, and the outcome is untouched
    s.callback_roll_rarity(&addr(PLAYER_A, 7), &ORACLE, &randomness_ending_in(83)).unwrap();
    let r = s.callback_roll_rarity(&addr(PLAYER_A, 7), &impostor, &randomness_ending_in(11));
    assert_eq!(r.err(), Some(RarityError::UntrustedCallback));
    let rec = s.record(&addr(PLAYER_A, 7)).unwrap();
    assert!(rec.fulfilled);
    assert_eq!(rec.roll_value, 83);
    // rejected on a missing record as well
    let r = s.callback_roll_rarity(&addr(PLAYER_A, 99), &impostor, &randomness_ending_in(83));
    assert_eq!(r.err(), Some(RarityError::UntrustedCallback));
}

#[test]
fn single_transition() {
    let mut s = store();
    s.roll_rarity(&PLAYER_A, 7, &RECORD_ACCOUNT, 255).unwrap();
    let first = s.callback_roll_rarity(&addr(PLAYER_A, 7), &ORACLE, &randomness_ending_in(83));
    assert!(first.is_ok());
    let second = s.callback_roll_rarity(&addr(PLAYER_A, 7), &ORACLE, &randomness_ending_in(11));
    assert_eq!(second.err(), Some(RarityError::AlreadyFulfilled));
    // fields are unchanged by the rejected second callback
    let rec = s.record(&addr(PLAYER_A, 7)).unwrap();
    assert!(rec.fulfilled);
    assert_eq!(rec.roll_value, 83);
    assert_eq!(rec.rarity, Tier::Rare.code());
}

#[test]
fn record_not_found() {
    let mut s = store();
    s.roll_rarity(&PLAYER_A, 7, &RECORD_ACCOUNT, 255).unwrap();
    let r = s.callback_roll_rarity(&addr(PLAYER_A, 8), &ORACLE, &randomness_ending_in(83));
    assert_eq!(r.err(), Some(RarityError::RecordNotFound));
    let other = [5u8; 32];
    let r = s.callback_roll_rarity(&addr(other, 7), &ORACLE, &randomness_ending_in(83));
    assert_eq!(r.err(), Some(RarityError::RecordNotFound));
}

#[test]
fn malformed_randomness_is_rejected() {
    let mut s = store();
    s.roll_rarity(&PLAYER_A, 7, &RECORD_ACCOUNT, 255).unwrap();
    for len in [0usize, 31, 33] {
        let r = s.callback_roll_rarity(&addr(PLAYER_A, 7), &ORACLE, &vec![83u8; len]);
        assert_eq!(r.err(), Some(RarityError::MalformedRandomness));
    }
    let rec = s.record(&addr(PLAYER_A, 7)).unwrap();
    assert!(!rec.fulfilled);
}

#[test]
fn end_to_end_scenario() {
    let mut s = store();
    let sub = s.roll_rarity(&PLAYER_A, 7, &RECORD_ACCOUNT, 255).unwrap();
    assert!(!s.record(&addr(PLAYER_A, 7)).unwrap().fulfilled);
    let out = s
        .callback_roll_rarity(&sub.address, &ORACLE, &randomness_ending_in(83))
        .unwrap();
    assert_eq!(out.roll, 83);
    assert_eq!(out.tier, Tier::Rare);
    let rec = s.record(&addr(PLAYER_A, 7)).unwrap();
    assert!(rec.fulfilled);
    assert_eq!(rec.roll_value, 83);
    assert_eq!(rec.rarity, Tier::Rare.code());
}

#[test]
fn pending_record_builder() {
    let rec = RarityResult::new(&PLAYER_A, 42, 253);
    assert_eq!(rec.player, PLAYER_A);
    assert_eq!(rec.nonce, 42);
    assert!(!rec.fulfilled);
    assert_eq!(rec.rarity, 0);
    assert_eq!(rec.roll_value, 0);
    assert_eq!(rec.bump, 253);
}

#[test]
fn identity_comparison() {
    let mut other = PLAYER_A;
    assert!(id_eq(&PLAYER_A, &other));
    other[31] = 0;
    assert!(!id_eq(&PLAYER_A, &other));
}
