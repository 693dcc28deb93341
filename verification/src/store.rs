//! The request/fulfillment state machine over the store of result records.
//!
//! The store models the host platform's record persistence as a key-value
//! store whose primary key is the deterministic record address — the pair of
//! requester identity and nonce. Creation is insert-if-absent, so an address
//! collision is the sole duplicate guard; fulfillment is gated on the
//! caller's identity and on the record still being pending.

use vstd::prelude::*;
use crate::error::RarityError;
use crate::randomness::{lemma_roll_from_bytes_in_range, reduce_roll, roll_from_bytes};
use crate::record::{id_eq, RarityResult};
use crate::request::{
    build_caller_seed,
    encode_request,
    spec_seed_bytes,
    CallbackAccount,
    RandomnessRequest,
};
use crate::tier::{classify, spec_classify, spec_tier_code, Tier};

verus! {

/// The deterministic address of a result record: the requester identity and
/// nonce that key it. Two requests collide exactly when both components are
/// equal.
#[derive(Clone, Copy, Debug)]
pub struct RecordAddress {
    /// Identity of the requesting wallet.
    pub player: [u8; 32],
    /// The requester-chosen nonce of the roll.
    pub nonce: u64,
}

/// The audit event of a fulfillment: the reduced roll and its tier.
#[derive(Clone, Copy, Debug, PartialEq, Eq, Structural)]
pub struct RollOutcome {
    /// The roll in 0..=99 that the randomness reduced to.
    pub roll: u8,
    /// The rarity tier assigned to the roll.
    pub tier: Tier,
}

/// A successful roll request: the new record's address, the outbound oracle
/// request as plain data, and the same request encoded as the oracle
/// program's instruction, ready to dispatch.
pub struct RollSubmission {
    /// Address of the record the oracle's answer will finalize.
    pub address: RecordAddress,
    /// The randomness request, field by field.
    pub request: RandomnessRequest,
    /// The request encoded for the oracle program.
    pub instruction: ephemeral_vrf_sdk::compat::Instruction,
}

/// Whether `rec` is keyed by `player` and `nonce`.
pub open spec fn key_matches(rec: RarityResult, player: Seq<u8>, nonce: u64) -> bool {
    rec.player@ == player && rec.nonce == nonce
}

/// The store of result records, with the oracle configuration of the
/// deployment: the identity trusted to fulfill callbacks, the queue to send
/// requests to (if one is configured), and the program and entry-point
/// selector the oracle invokes on fulfillment.
pub struct RarityStore {
    /// The result records, in order of creation.
    pub records: Vec<RarityResult>,
    /// The identity whose callbacks are trusted.
    pub oracle_identity: [u8; 32],
    /// The configured oracle queue, if any.
    pub oracle_queue: Option<[u8; 32]>,
    /// The program the oracle invokes on fulfillment.
    pub callback_program: [u8; 32],
    /// The selector of the fulfillment entry point.
    pub callback_discriminator: Vec<u8>,
}

impl RarityStore {
    /// The stored records, in order of creation.
    pub open spec fn records_view(self) -> Seq<RarityResult> {
        self.records@
    }

    /// The identity whose callbacks are trusted.
    pub open spec fn spec_oracle_identity(self) -> Seq<u8> {
        self.oracle_identity@
    }

    /// The configured oracle queue, if any.
    pub open spec fn spec_oracle_queue(self) -> Option<Seq<u8>> {
        match self.oracle_queue {
            Some(q) => Some(q@),
            None => None,
        }
    }

    /// The program the oracle invokes on fulfillment.
    pub open spec fn spec_callback_program(self) -> Seq<u8> {
        self.callback_program@
    }

    /// The selector of the fulfillment entry point.
    pub open spec fn spec_callback_discriminator(self) -> Seq<u8> {
        self.callback_discriminator@
    }

    /// Whether a record keyed by `player` and `nonce` exists.
    pub open spec fn has_record(self, player: Seq<u8>, nonce: u64) -> bool {
        exists|i: int|
            0 <= i < self.records@.len() && #[trigger] key_matches(
                self.records@[i],
                player,
                nonce,
            )
    }

    /// The position of the record keyed by `player` and `nonce`.
    pub open spec fn record_index(self, player: Seq<u8>, nonce: u64) -> int
        recommends
            self.has_record(player, nonce),
    {
        choose|i: int|
            0 <= i < self.records@.len() && #[trigger] key_matches(
                self.records@[i],
                player,
                nonce,
            )
    }

    /// The record keyed by `player` and `nonce`.
    pub open spec fn record_for(self, player: Seq<u8>, nonce: u64) -> RarityResult
        recommends
            self.has_record(player, nonce),
    {
        self.records@[self.record_index(player, nonce)]
    }

    /// The store is well formed when every record is well formed and no two
    /// records share a key, so a record's address identifies it uniquely.
    pub open spec fn wf(self) -> bool {
        &&& forall|i: int|
            0 <= i < self.records@.len() ==> (#[trigger] self.records@[i]).wf()
        &&& forall|i: int, j: int|
            #![trigger self.records@[i], self.records@[j]]
            0 <= i < self.records@.len() && 0 <= j < self.records@.len() && i != j ==> !(
            self.records@[i].player@ == self.records@[j].player@ && self.records@[i].nonce
                == self.records@[j].nonce)
    }

    /// Whether the oracle configuration of `self` and `other` agree.
    pub open spec fn same_config(self, other: Self) -> bool {
        &&& self.spec_oracle_identity() == other.spec_oracle_identity()
        &&& self.spec_oracle_queue() == other.spec_oracle_queue()
        &&& self.spec_callback_program() == other.spec_callback_program()
        &&& self.spec_callback_discriminator() == other.spec_callback_discriminator()
    }

    /// An empty store for a deployment's oracle configuration.
    pub fn new(
        oracle_identity: &[u8; 32],
        oracle_queue: Option<[u8; 32]>,
        callback_program: &[u8; 32],
        callback_discriminator: Vec<u8>,
    ) -> (s: RarityStore)
        ensures
            s.wf(),
            s.records_view().len() == 0,
            s.spec_oracle_identity() == oracle_identity@,
            oracle_queue matches Some(q) ==> s.spec_oracle_queue() == Some(q@),
            oracle_queue is None ==> s.spec_oracle_queue() is None,
            s.spec_callback_program() == callback_program@,
            s.spec_callback_discriminator() == callback_discriminator@,
    {
        RarityStore {
            records: Vec::new(),
            oracle_identity: *oracle_identity,
            oracle_queue,
            callback_program: *callback_program,
            callback_discriminator,
        }
    }

    /// The number of records in the store.
    pub fn record_count(&self) -> (n: usize)
        ensures
            n == self.records_view().len(),
    {
        self.records.len()
    }

    /// Looks a record up by key; `None` exactly when no record has the key.
    fn find_record(&self, player: &[u8; 32], nonce: u64) -> (r: Option<usize>)
        ensures
            match r {
                Some(i) => 0 <= i < self.records@.len() && key_matches(
                    self.records@[i as int],
                    player@,
                    nonce,
                ),
                None => !self.has_record(player@, nonce),
            },
    {
        let mut k: usize = 0;
        while k < self.records.len()
            invariant
                0 <= k <= self.records@.len(),
                forall|j: int|
                    0 <= j < k ==> !(#[trigger] key_matches(self.records@[j], player@, nonce)),
            decreases self.records@.len() - k,
        {
            let rec = &self.records[k];
            if rec.nonce == nonce && id_eq(&rec.player, player) {
                return Some(k);
            }
            k += 1;
        }
        None
    }

    /// In a well-formed store at most one record bears a given key, so a
    /// record's address identifies it uniquely: any position whose record
    /// matches the key is the position the key selects.
    pub proof fn lemma_record_index_is(self, player: Seq<u8>, nonce: u64, i: int)
        requires
            self.wf(),
            0 <= i < self.records@.len(),
            key_matches(self.records@[i], player, nonce),
        ensures
            self.has_record(player, nonce),
            self.record_index(player, nonce) == i,
    {
        assert(self.has_record(player, nonce));
        let c = self.record_index(player, nonce);
        assert(0 <= c < self.records@.len() && key_matches(self.records@[c], player, nonce));
        if c != i {
            assert(!(self.records@[c].player@ == self.records@[i].player@ && self.records@[c].nonce
                == self.records@[i].nonce));
        }
    }

    /// Requests a roll: commits a pending record for `(payer, nonce)` unless
    /// one exists, and assembles the randomness request naming
    /// `record_account` — the platform address of the new record — as the
    /// writable callback target. `bump` is the platform's address-derivation
    /// proof, stored verbatim.
    pub fn roll_rarity(
        &mut self,
        payer: &[u8; 32],
        nonce: u64,
        record_account: &[u8; 32],
        bump: u8,
    ) -> (r: Result<RollSubmission, RarityError>)
        requires
            old(self).wf(),
        ensures
            final(self).wf(),
            final(self).same_config(*old(self)),
            r is Ok <==> (!old(self).has_record(payer@, nonce) && old(self).spec_oracle_queue()
                is Some),
            r == Err::<RollSubmission, RarityError>(RarityError::DuplicateRequest) <==> old(
                self,
            ).has_record(payer@, nonce),
            r == Err::<RollSubmission, RarityError>(RarityError::OracleUnavailable) <==> (!old(
                self,
            ).has_record(payer@, nonce) && old(self).spec_oracle_queue() is None),
            r is Err ==> *final(self) == *old(self),
            r matches Ok(sub) ==> ({
                &&& final(self).records_view() == old(self).records_view().push(
                    (RarityResult {
                        player: *payer,
                        nonce,
                        rarity: 0,
                        fulfilled: false,
                        roll_value: 0,
                        bump,
                    }),
                )
                &&& sub.address.player@ == payer@
                &&& sub.address.nonce == nonce
                &&& sub.request.payer@ == payer@
                &&& Some(sub.request.oracle_queue@) == old(self).spec_oracle_queue()
                &&& sub.request.callback_program@ == old(self).spec_callback_program()
                &&& sub.request.callback_discriminator@ == old(
                    self,
                ).spec_callback_discriminator()
                &&& sub.request.caller_seed@ == spec_seed_bytes(nonce)
                &&& sub.request.accounts@.len() == 1
                &&& sub.request.accounts@[0].address@ == record_account@
                &&& sub.request.accounts@[0].signer == false
                &&& sub.request.accounts@[0].writable == true
                &&& final(self).record_index(payer@, nonce) == old(self).records_view().len()
                &&& final(self).record_for(payer@, nonce) == (RarityResult {
                    player: *payer,
                    nonce,
                    rarity: 0,
                    fulfilled: false,
                    roll_value: 0,
                    bump,
                })
                &&& forall|p: Seq<u8>, n2: u64|
                    #![trigger final(self).has_record(p, n2)]
                    #![trigger old(self).has_record(p, n2)]
                    final(self).has_record(p, n2) <==> (old(self).has_record(p, n2) || (p == payer@
                        && n2 == nonce))
                &&& forall|p: Seq<u8>, n2: u64| #[trigger]
                    old(self).has_record(p, n2) ==> final(self).record_for(p, n2) == old(
                        self,
                    ).record_for(p, n2) && final(self).record_index(p, n2) == old(
                        self,
                    ).record_index(p, n2)
            }),
    {
        match self.find_record(payer, nonce) {
            Some(i) => {
                proof {
                    assert(old(self).has_record(payer@, nonce));
                }
                return Err(RarityError::DuplicateRequest);
            },
            None => {},
        }
        let queue = match self.oracle_queue {
            Some(q) => q,
            None => {
                return Err(RarityError::OracleUnavailable);
            },
        };
        let seed = build_caller_seed(nonce);
        let mut accounts: Vec<CallbackAccount> = Vec::new();
        accounts.push(CallbackAccount { address: *record_account, signer: false, writable: true });
        let request = RandomnessRequest {
            payer: *payer,
            oracle_queue: queue,
            callback_program: self.callback_program,
            callback_discriminator: copy_bytes(&self.callback_discriminator),
            caller_seed: seed,
            accounts,
        };
        let instruction = encode_request(&request);
        let rec = RarityResult::new(payer, nonce, bump);
        self.records.push(rec);
        proof {
            let recs = self.records@;
            let n = recs.len() - 1;
            assert forall|i: int, j: int|
                #![trigger recs[i], recs[j]]
                0 <= i < recs.len() && 0 <= j < recs.len() && i != j implies !(recs[i].player@
                == recs[j].player@ && recs[i].nonce == recs[j].nonce) by {
                if i < n && j < n {
                    assert(recs[i] == old(self).records@[i]);
                    assert(recs[j] == old(self).records@[j]);
                } else if j == n {
                    if recs[i].player@ == recs[j].player@ && recs[i].nonce == recs[j].nonce {
                        assert(key_matches(old(self).records@[i], payer@, nonce));
                        assert(old(self).has_record(payer@, nonce));
                    }
                } else {
                    if recs[i].player@ == recs[j].player@ && recs[i].nonce == recs[j].nonce {
                        assert(key_matches(old(self).records@[j], payer@, nonce));
                        assert(old(self).has_record(payer@, nonce));
                    }
                }
            }
            assert forall|i: int| 0 <= i < recs.len() implies (#[trigger] recs[i]).wf() by {
                if i < n {
                    assert(recs[i] == old(self).records@[i]);
                }
            }
            assert(self.wf());
            assert(key_matches(recs[n], payer@, nonce));
            self.lemma_record_index_is(payer@, nonce, n);
            assert forall|p: Seq<u8>, n2: u64| old(self).has_record(p, n2) implies
                self.has_record(p, n2) && self.record_for(p, n2) == old(self).record_for(p, n2)
                && self.record_index(p, n2) == old(self).record_index(p, n2) by {
                let io = old(self).record_index(p, n2);
                assert(0 <= io < n && key_matches(old(self).records@[io], p, n2));
                assert(recs[io] == old(self).records@[io]);
                self.lemma_record_index_is(p, n2, io);
            }
            assert forall|p: Seq<u8>, n2: u64|
                self.has_record(p, n2) && !(p == payer@ && n2 == nonce) implies old(
                self,
            ).has_record(p, n2) by {
                let i2 = self.record_index(p, n2);
                assert(0 <= i2 < recs.len() && key_matches(recs[i2], p, n2));
                if i2 < n {
                    assert(recs[i2] == old(self).records@[i2]);
                    assert(key_matches(old(self).records@[i2], p, n2));
                } else {
                    assert(recs[n] == rec);
                    assert(p == payer@ && n2 == nonce);
                }
            }
        }
        Ok(
            RollSubmission {
                address: RecordAddress { player: *payer, nonce },
                request,
                instruction,
            },
        )
    }

    /// The oracle's callback: authenticates the caller, reduces the 32
    /// randomness bytes to a roll, classifies it, and finalizes the pending
    /// record at `address` in a single transition. Every rejection leaves
    /// the store unchanged.
    pub fn callback_roll_rarity(
        &mut self,
        address: &RecordAddress,
        caller: &[u8; 32],
        randomness: &Vec<u8>,
    ) -> (r: Result<RollOutcome, RarityError>)
        requires
            old(self).wf(),
        ensures
            final(self).wf(),
            final(self).same_config(*old(self)),
            final(self).records_view().len() == old(self).records_view().len(),
            r is Ok <==> (caller@ == old(self).spec_oracle_identity() && old(self).has_record(
                address.player@,
                address.nonce,
            ) && !old(self).record_for(address.player@, address.nonce).fulfilled
                && randomness@.len() == 32),
            r == Err::<RollOutcome, RarityError>(RarityError::UntrustedCallback) <==> caller@ != old(
                self,
            ).spec_oracle_identity(),
            r == Err::<RollOutcome, RarityError>(RarityError::RecordNotFound) <==> (caller@ == old(
                self,
            ).spec_oracle_identity() && !old(self).has_record(address.player@, address.nonce)),
            r == Err::<RollOutcome, RarityError>(RarityError::AlreadyFulfilled) <==> (caller@
                == old(self).spec_oracle_identity() && old(self).has_record(
                address.player@,
                address.nonce,
            ) && old(self).record_for(address.player@, address.nonce).fulfilled),
            r == Err::<RollOutcome, RarityError>(RarityError::MalformedRandomness) <==> (caller@
                == old(self).spec_oracle_identity() && old(self).has_record(
                address.player@,
                address.nonce,
            ) && !old(self).record_for(address.player@, address.nonce).fulfilled
                && randomness@.len() != 32),
            r is Err ==> *final(self) == *old(self),
            r matches Ok(out) ==> ({
                let i = old(self).record_index(address.player@, address.nonce);
                &&& out.roll == roll_from_bytes(randomness@)
                &&& out.roll <= 99
                &&& out.tier == spec_classify(out.roll as int)
                &&& final(self).records_view() == old(self).records_view().update(
                    i,
                    (RarityResult {
                        rarity: spec_tier_code(out.tier),
                        fulfilled: true,
                        roll_value: out.roll,
                        ..old(self).records_view()[i]
                    }),
                )
                &&& final(self).record_index(address.player@, address.nonce) == i
                &&& final(self).record_for(address.player@, address.nonce) == (RarityResult {
                    rarity: spec_tier_code(out.tier),
                    fulfilled: true,
                    roll_value: out.roll,
                    ..old(self).records_view()[i]
                })
                &&& forall|p: Seq<u8>, n2: u64|
                    #![trigger final(self).has_record(p, n2)]
                    #![trigger old(self).has_record(p, n2)]
                    final(self).has_record(p, n2) <==> old(self).has_record(p, n2)
                &&& forall|p: Seq<u8>, n2: u64|
                    #[trigger] old(self).has_record(p, n2) && !(p == address.player@ && n2
                        == address.nonce) ==> final(self).record_for(p, n2) == old(
                        self,
                    ).record_for(p, n2)
            }),
    {
        if !id_eq(caller, &self.oracle_identity) {
            return Err(RarityError::UntrustedCallback);
        }
        let i = match self.find_record(&address.player, address.nonce) {
            Some(i) => i,
            None => {
                return Err(RarityError::RecordNotFound);
            },
        };
        proof {
            old(self).lemma_record_index_is(address.player@, address.nonce, i as int);
        }
        if self.records[i].fulfilled {
            return Err(RarityError::AlreadyFulfilled);
        }
        if randomness.len() != 32 {
            return Err(RarityError::MalformedRandomness);
        }
        let roll = reduce_roll(randomness);
        proof {
            lemma_roll_from_bytes_in_range(randomness@);
        }
        let tier = classify(roll);
        let mut rec = self.records[i];
        rec.rarity = tier.code();
        rec.roll_value = roll;
        rec.fulfilled = true;
        self.records[i] = rec;
        proof {
            let recs = self.records@;
            assert forall|a: int, b: int|
                #![trigger recs[a], recs[b]]
                0 <= a < recs.len() && 0 <= b < recs.len() && a != b implies !(recs[a].player@
                == recs[b].player@ && recs[a].nonce == recs[b].nonce) by {
                assert(recs[a].player@ == old(self).records@[a].player@ && recs[a].nonce == old(
                    self,
                ).records@[a].nonce);
                assert(recs[b].player@ == old(self).records@[b].player@ && recs[b].nonce == old(
                    self,
                ).records@[b].nonce);
            }
            assert forall|a: int| 0 <= a < recs.len() implies (#[trigger] recs[a]).wf() by {
                if a != i as int {
                    assert(recs[a] == old(self).records@[a]);
                }
            }
            assert(self.wf());
            assert(key_matches(recs[i as int], address.player@, address.nonce));
            self.lemma_record_index_is(address.player@, address.nonce, i as int);
            assert forall|p: Seq<u8>, n2: u64| old(self).has_record(p, n2) implies
                self.has_record(p, n2) by {
                let io = old(self).record_index(p, n2);
                assert(0 <= io < recs.len() && key_matches(old(self).records@[io], p, n2));
                assert(key_matches(recs[io], p, n2));
            }
            assert forall|p: Seq<u8>, n2: u64| self.has_record(p, n2) implies old(
                self,
            ).has_record(p, n2) by {
                let i2 = self.record_index(p, n2);
                assert(0 <= i2 < recs.len() && key_matches(recs[i2], p, n2));
                assert(key_matches(old(self).records@[i2], p, n2));
            }
            assert forall|p: Seq<u8>, n2: u64|
                old(self).has_record(p, n2) && !(p == address.player@ && n2 == address.nonce)
                implies self.record_for(p, n2) == old(self).record_for(p, n2) by {
                let io = old(self).record_index(p, n2);
                assert(0 <= io < recs.len() && key_matches(old(self).records@[io], p, n2));
                assert(io != i as int);
                assert(recs[io] == old(self).records@[io]);
                self.lemma_record_index_is(p, n2, io);
            }
        }
        Ok(RollOutcome { roll, tier })
    }

    /// Reads the record at `address`, if one exists.
    pub fn record(&self, address: &RecordAddress) -> (r: Option<RarityResult>)
        requires
            self.wf(),
        ensures
            match r {
                Some(rec) => self.has_record(address.player@, address.nonce) && rec
                    == self.record_for(address.player@, address.nonce),
                None => !self.has_record(address.player@, address.nonce),
            },
    {
        match self.find_record(&address.player, address.nonce) {
            Some(i) => {
                proof {
                    self.lemma_record_index_is(address.player@, address.nonce, i as int);
                }
                Some(self.records[i])
            },
            None => None,
        }
    }
}

/// Copies a byte vector.
fn copy_bytes(v: &Vec<u8>) -> (r: Vec<u8>)
    ensures
        r@ == v@,
{
    let mut r: Vec<u8> = Vec::new();
    let mut k: usize = 0;
    while k < v.len()
        invariant
            0 <= k <= v@.len(),
            r@ == v@.subrange(0, k as int),
        decreases v@.len() - k,
    {
        r.push(v[k]);
        assert(r@ =~= v@.subrange(0, k + 1));
        k += 1;
    }
    assert(r@ =~= v@);
    r
}

} // verus!
