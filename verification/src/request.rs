//! The outbound randomness request: the message handed to the external
//! oracle, binding its answer to one result record.

use vstd::prelude::*;
use ephemeral_vrf_sdk::compat::Pubkey;
use ephemeral_vrf_sdk::instructions::{create_request_randomness_ix, RequestRandomnessParams};
use ephemeral_vrf_sdk::types::SerializableAccountMeta;

verus! {

#[verifier::external_type_specification]
#[verifier::external_body]
pub struct ExInstruction(ephemeral_vrf_sdk::compat::Instruction);

/// An account the oracle's callback will need, with its access flags.
#[derive(Clone, Copy, Debug)]
pub struct CallbackAccount {
    /// The account's 32-byte address.
    pub address: [u8; 32],
    /// Whether the callback requires this account as a signer.
    pub signer: bool,
    /// Whether the callback may write to this account.
    pub writable: bool,
}

/// The randomness request forwarded to the oracle.
///
/// It names the requester, the oracle queue to serve the request, the
/// program and entry-point selector to invoke on fulfillment, the accounts
/// that callback needs (the result record, marked writable), and a 256-bit
/// caller seed binding the oracle's answer to this request.
#[derive(Debug)]
pub struct RandomnessRequest {
    /// Identity of the requesting wallet.
    pub payer: [u8; 32],
    /// Address of the oracle queue that serves the request.
    pub oracle_queue: [u8; 32],
    /// The program the oracle invokes on fulfillment.
    pub callback_program: [u8; 32],
    /// Selector of the fulfillment entry point within that program.
    pub callback_discriminator: Vec<u8>,
    /// 32-byte seed derived from the nonce.
    pub caller_seed: [u8; 32],
    /// Accounts the fulfillment callback will need.
    pub accounts: Vec<CallbackAccount>,
}

/// Byte `i` of the caller seed for `nonce`: the nonce's little-endian bytes
/// in positions 0..=7, zero padding beyond.
pub open spec fn spec_seed_byte(nonce: u64, i: int) -> u8 {
    if 0 <= i < 8 {
        ((nonce >> ((8 * i) as u64)) & 0xff) as u8
    } else {
        0
    }
}

/// The 32 caller-seed bytes for `nonce`.
pub open spec fn spec_seed_bytes(nonce: u64) -> Seq<u8> {
    Seq::new(32, |i: int| spec_seed_byte(nonce, i))
}

/// Derives the 32-byte caller seed from a nonce: the nonce's eight
/// little-endian bytes, zero-padded to 32 bytes.
pub fn build_caller_seed(nonce: u64) -> (seed: [u8; 32])
    ensures
        seed@ == spec_seed_bytes(nonce),
{
    let mut seed = [0u8; 32];
    let mut i: usize = 0;
    while i < 8
        invariant
            0 <= i <= 8,
            seed@.len() == 32,
            forall|j: int| 0 <= j < i ==> seed@[j] == spec_seed_byte(nonce, j),
            forall|j: int| i <= j < 32 ==> seed@[j] == 0,
        decreases 8 - i,
    {
        let shift: u64 = (8 * i) as u64;
        let b: u64 = (nonce >> shift) & 0xff;
        assert(b <= 0xff) by (bit_vector)
            requires
                b == (nonce >> shift) & 0xff,
        ;
        seed[i] = b as u8;
        i += 1;
    }
    assert(seed@ =~= spec_seed_bytes(nonce));
    seed
}

/// Relies on `ephemeral_vrf_sdk::instructions::create_request_randomness_ix`:
/// it serializes the request parameters into the oracle program's
/// request-randomness instruction. The resulting instruction is opaque here;
/// every field it is built from is pinned down on the `RandomnessRequest`
/// handed in.
#[verifier::external_body]
pub(crate) fn encode_request(req: &RandomnessRequest) -> ephemeral_vrf_sdk::compat::Instruction {
    let metas = req.accounts.iter().map(|a| SerializableAccountMeta {
        pubkey: Pubkey::new_from_array(a.address), is_signer: a.signer, is_writable: a.writable,
    }).collect();
    create_request_randomness_ix(RequestRandomnessParams {
        payer: Pubkey::new_from_array(req.payer),
        oracle_queue: Pubkey::new_from_array(req.oracle_queue),
        callback_program_id: Pubkey::new_from_array(req.callback_program),
        callback_discriminator: req.callback_discriminator.clone(),
        caller_seed: req.caller_seed,
        accounts_metas: Some(metas),
        callback_args: None,
    })
}

} // verus!
