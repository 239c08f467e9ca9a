//! Verification of randomness beacon announcements.
//!
//! A drand-style beacon publishes, every round, a BLS signature over the
//! round number and the previous round's signature, together with the
//! random output itself. This crate decodes the hex-encoded fields of such
//! an announcement, reconstructs the chain's public key as a curve point,
//! and runs the pairing check that binds signature, round and previous
//! signature to that key. Only a successful check yields a
//! [`randomness::VerifiedRandomness`] value.

pub mod crypto;
pub mod errors;
pub mod hex_codec;
pub mod randomness;

pub use errors::DrandError;
pub use randomness::ChainInfo;
pub use randomness::Randomness;
pub use randomness::VerifiedRandomness;
