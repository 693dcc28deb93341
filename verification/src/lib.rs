//! Provably-fair rarity rolls backed by an external verifiable-randomness
//! oracle.
//!
//! A roll runs in two phases. `RarityStore::roll_rarity` commits to a new
//! pending result record, keyed by the requesting identity and a caller-chosen
//! nonce, and assembles the outbound randomness request for the oracle.
//! `RarityStore::callback_roll_rarity` is the oracle's callback: it accepts
//! only the designated oracle identity, reduces the 32 randomness bytes to a
//! roll in 0..=99, classifies the roll into one of five rarity tiers, and
//! finalizes the record in a single transition.

pub mod error;
pub mod randomness;
pub mod record;
pub mod request;
pub mod store;
pub mod tier;
