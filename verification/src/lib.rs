//! Prover marketplace on Nostr: payment terms, marketplace handler records,
//! event drafts for the NIP-78, NIP-89 and NIP-90 flows, and the decisions
//! that drive a proving session.

pub mod events;
pub mod json;
pub mod keys;
pub mod marketplace;
pub mod payment;
pub mod request;
pub mod sessions;
