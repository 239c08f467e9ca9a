//! Beacon announcements and the single verification entry point.

use vstd::prelude::*;

use crate::crypto::g1_decodes;
use crate::crypto::pairing_check;
use crate::crypto::pairing_verdict;
use crate::crypto::reconstruct_public_key;
use crate::errors::DrandError;
use crate::hex_codec::all_hex_digits;
use crate::hex_codec::decode_hex_fixed;
use crate::hex_codec::hex_decoded;

verus! {

/// Unverified Randomness: one beacon round as received, hex fields
/// untouched.
#[derive(Debug, Clone, PartialEq, Eq)]
pub struct Randomness {
    /// The round's position in the chain.
    pub round: u64,
    /// The announced random output, 32 bytes once decoded.
    pub randomness: String,
    /// The BLS signature over round and previous signature, 96 bytes once
    /// decoded.
    pub signature: String,
    /// The previous round's signature, 96 bytes once decoded; part of the
    /// signed message.
    pub previous_signature: String,
}

/// The trusted description of the chain to verify against.
#[derive(Debug, Clone, PartialEq, Eq)]
pub struct ChainInfo {
    /// The chain's public key, 48 bytes once decoded.
    pub public_key: String,
}

/// This is verified Randomness. To get a verified randomness, call
/// `verify` by passing the correct ChainInfo.
#[derive(Debug, Clone, PartialEq, Eq)]
pub struct VerifiedRandomness {
    pub public_key: [u8; 48],
    pub signature: [u8; 96],
    pub randomness: [u8; 32],
    pub previous_signature: [u8; 96],
}

/// Whether a hex field has exactly the characters of `n` bytes, all of
/// them hexadecimal digits.
pub open spec fn hex_field_ok(s: Seq<char>, n: int) -> bool {
    s.len() == 2 * n && all_hex_digits(s)
}

/// Whether all four hex fields of an announcement and its chain info
/// decode to their fixed sizes.
pub open spec fn inputs_decode(a: Randomness, info: ChainInfo) -> bool {
    &&& hex_field_ok(info.public_key@, 48)
    &&& hex_field_ok(a.signature@, 96)
    &&& hex_field_ok(a.randomness@, 32)
    &&& hex_field_ok(a.previous_signature@, 96)
}

impl Randomness {
    /// Verify randomness and return verified random bytes. If the
    /// signature is well-formed but does not match, return `Ok(None)`.
    ///
    /// Any hex field of the wrong length or alphabet is a `Decoding`
    /// error; public-key bytes off the curve subgroup are an
    /// `InvalidPoint` error; a pairing check that cannot be evaluated is
    /// a `PairingComputation` error. On success the returned buffers are
    /// byte-identical to the decoded inputs.
    pub fn verify(&self, info: ChainInfo) -> (r: Result<
        Option<VerifiedRandomness>,
        DrandError,
    >)
        ensures
            !inputs_decode(*self, info) ==> r == Err::<
                Option<VerifiedRandomness>,
                DrandError,
            >(DrandError::Decoding),
            inputs_decode(*self, info) ==> {
                let pk = hex_decoded(info.public_key@);
                let sig = hex_decoded(self.signature@);
                let rnd = hex_decoded(self.randomness@);
                let prev = hex_decoded(self.previous_signature@);
                &&& !g1_decodes(pk) ==> (r matches Err(e)
                    && e matches DrandError::InvalidPoint(_))
                &&& g1_decodes(pk) ==> match pairing_verdict(pk, self.round, prev, sig) {
                    None => r matches Err(e) && e matches DrandError::PairingComputation(_),
                    Some(false) => r == Ok::<Option<VerifiedRandomness>, DrandError>(None),
                    Some(true) => r matches Ok(Some(v)) && v.public_key@ == pk
                        && v.signature@ == sig && v.randomness@ == rnd
                        && v.previous_signature@ == prev,
                }
            },
    {
        let public_key = match decode_hex_fixed::<48>(info.public_key.as_str()) {
            Ok(b) => b,
            Err(e) => {
                return Err(e);
            },
        };
        let signature = match decode_hex_fixed::<96>(self.signature.as_str()) {
            Ok(b) => b,
            Err(e) => {
                return Err(e);
            },
        };
        let randomness = match decode_hex_fixed::<32>(self.randomness.as_str()) {
            Ok(b) => b,
            Err(e) => {
                return Err(e);
            },
        };
        let previous_signature = match decode_hex_fixed::<96>(self.previous_signature.as_str()) {
            Ok(b) => b,
            Err(e) => {
                return Err(e);
            },
        };

        let pk = match reconstruct_public_key(&public_key) {
            Ok(p) => p,
            Err(e) => {
                return Err(e);
            },
        };

        let verified = match pairing_check(&pk, self.round, &previous_signature, &signature) {
            Ok(b) => b,
            Err(e) => {
                return Err(e);
            },
        };

        if verified {
            Ok(Some(VerifiedRandomness {
                public_key,
                signature,
                randomness,
                previous_signature,
            }))
        } else {
            Ok(None)
        }
    }
}

} // verus!
