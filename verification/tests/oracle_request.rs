use vrf_rarity::request::build_caller_seed;
use vrf_rarity::store::RarityStore;
use vrf_rarity::tier::Tier;

const ORACLE: [u8; 32] = [9u8; 32];
const QUEUE: [u8; 32] = [1u8; 32];
const PROGRAM: [u8; 32] = [2u8; 32];
const PLAYER: [u8; 32] = [7u8; 32];
const RECORD_ACCOUNT: [u8; 32] = [3u8; 32];

fn store() -> RarityStore {
    RarityStore::new(&ORACLE, Some(QUEUE), &PROGRAM, vec![0xde, 0xad, 0xbe, 0xef])
}

#[test]
fn caller_seed_is_nonce_little_endian_zero_padded() {
    let seed = build_caller_seed(0x0102030405060708);
    assert_eq!(seed[..8], [0x08, 0x07, 0x06, 0x05, 0x04, 0x03, 0x02, 0x01]);
    assert_eq!(seed[8..], [0u8; 24]);
    assert_eq!(build_caller_seed(0), [0u8; 32]);
}

#[test]
fn request_names_the_record_as_writable_callback_target() {
    let mut s = store();
    let sub = s.roll_rarity(&PLAYER, 0x0102030405060708, &RECORD_ACCOUNT, 255).unwrap();
    let req = &sub.request;
    assert_eq!(req.payer, PLAYER);
    assert_eq!(req.oracle_queue, QUEUE);
    assert_eq!(req.callback_program, PROGRAM);
    assert_eq!(req.callback_discriminator, vec![0xde, 0xad, 0xbe, 0xef]);
    assert_eq!(req.caller_seed, build_caller_seed(0x0102030405060708));
    assert_eq!(req.accounts.len(), 1);
    assert_eq!(req.accounts[0].address, RECORD_ACCOUNT);
    assert!(req.accounts[0].writable);
    assert!(!req.accounts[0].signer);
}

#[test]
fn instruction_is_encoded_for_the_oracle_program() {
    let mut s = store();
    let sub = s.roll_rarity(&PLAYER, 7, &RECORD_ACCOUNT, 255).unwrap();
    let ix = &sub.instruction;
    assert_eq!(ix.program_id, ephemeral_vrf_sdk::consts::VRF_PROGRAM_ID);
    // the request-randomness variant selector
    assert_eq!(ix.data[0], 10);
    // the serialized payload starts with the caller seed after the header
    assert_eq!(ix.data[8..40], sub.request.caller_seed);
    assert_eq!(ix.accounts.len(), 5);
}

#[test]
fn reduction_takes_last_byte_below_threshold() {
    let mut s = store();
    s.roll_rarity(&PLAYER, 7, &RECORD_ACCOUNT, 255).unwrap();
    // bytes[31] is at the rejection threshold, so the scan moves on to
    // bytes[30]; 107 reduces to 7
    let mut bytes = vec![0u8; 32];
    bytes[31] = 200;
    bytes[30] = 107;
    let out = s
        .callback_roll_rarity(
            &vrf_rarity::store::RecordAddress { player: PLAYER, nonce: 7 },
            &ORACLE,
            &bytes,
        )
        .unwrap();
    assert_eq!(out.roll, 7);
    assert_eq!(out.tier, Tier::Common);
}

#[test]
fn reduction_falls_back_to_last_byte() {
    let mut s = store();
    s.roll_rarity(&PLAYER, 7, &RECORD_ACCOUNT, 255).unwrap();
    // every byte is at or above the threshold: the fallback reduces the
    // last byte, 250, to 50
    let bytes = vec![250u8; 32];
    let out = s
        .callback_roll_rarity(
            &vrf_rarity::store::RecordAddress { player: PLAYER, nonce: 7 },
            &ORACLE,
            &bytes,
        )
        .unwrap();
    assert_eq!(out.roll, 50);
    assert_eq!(out.tier, Tier::Uncommon);
}
