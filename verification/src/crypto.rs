//! The curve primitive behind verification: public-key reconstruction and
//! the pairing check, supplied by the `drand_verify` crate.
//!
//! Both operations are deterministic functions of plain byte buffers, so
//! their outcomes are named by the two uninterpreted spec functions
//! [`g1_decodes`] and [`pairing_verdict`]; the trusted wrappers state no
//! more than that the crate computes those functions.
//!
//! A [`PublicKeyPoint`] pairs the decoded curve point with the 48 bytes it
//! was decoded from. Its fields are private and its only constructor is
//! [`reconstruct_public_key`], so the point always is the decoding of the
//! bytes, which lets the pairing wrapper speak of the bytes alone.

use vstd::prelude::*;

use crate::errors::DrandError;

verus! {

#[verifier::external_type_specification]
#[verifier::external_body]
pub struct ExG1Pubkey(drand_verify::G1Pubkey);

/// Whether 48 bytes are the compressed encoding of a point on the G1
/// subgroup of BLS12-381, as `G1Affine::from_compressed` accepts it
/// (on-curve, in the subgroup, canonical form). A function of the bytes
/// alone.
pub uninterp spec fn g1_decodes(bytes: Seq<u8>) -> bool;

/// The outcome of the chained-beacon pairing check: `None` when the
/// signature bytes do not decode to a curve point (the check cannot be
/// evaluated), otherwise `Some` of the truth value of the pairing
/// equation over the key, the message derived from round number and
/// previous signature, and the signature. A function of these four
/// arguments alone.
pub uninterp spec fn pairing_verdict(
    public_key: Seq<u8>,
    round: u64,
    previous_signature: Seq<u8>,
    signature: Seq<u8>,
) -> Option<bool>;

/// A reconstructed public key: the curve point together with the bytes it
/// was decoded from. Only [`reconstruct_public_key`] builds one.
pub struct PublicKeyPoint {
    point: drand_verify::G1Pubkey,
    bytes: [u8; 48],
}

impl View for PublicKeyPoint {
    type V = Seq<u8>;

    closed spec fn view(&self) -> Seq<u8> {
        self.bytes@
    }
}

/// Relies on `drand_verify::G1Pubkey::from_fixed` (its `Pubkey` impl): it
/// returns `Ok` exactly when `bls12_381::G1Affine::from_compressed`
/// accepts the 48 bytes, and then wraps the point those bytes encode; its
/// outcome depends on the bytes alone.
#[verifier::external_body]
fn g1_pubkey_from_fixed(bytes: &[u8; 48]) -> (r: Result<PublicKeyPoint, String>)
    ensures
        r is Ok <==> g1_decodes(bytes@),
        r matches Ok(p) ==> p@ == bytes@,
{
    match <drand_verify::G1Pubkey as drand_verify::Pubkey>::from_fixed(*bytes) {
        Ok(point) => Ok(PublicKeyPoint { point, bytes: *bytes }),
        Err(err) => Err(err.to_string()),
    }
}

/// Relies on `drand_verify::Pubkey::verify` for `G1Pubkey`: it hashes the
/// previous signature and the round number to the curve and evaluates the
/// pairing equation; it returns `Err` exactly when the signature bytes do
/// not decode to a G2 point; the outcome depends only on the key's bytes
/// (the point is their decoding), the round and the two buffers.
#[verifier::external_body]
fn g1_pubkey_verify(
    pk: &PublicKeyPoint,
    round: u64,
    previous_signature: &[u8; 96],
    signature: &[u8; 96],
) -> (r: Result<bool, String>)
    ensures
        r matches Ok(b) ==> pairing_verdict(pk@, round, previous_signature@, signature@)
            == Some(b),
        r is Err ==> pairing_verdict(pk@, round, previous_signature@, signature@) is None,
{
    match drand_verify::Pubkey::verify(
        &pk.point,
        round,
        &previous_signature[..],
        &signature[..],
    ) {
        Ok(b) => Ok(b),
        Err(err) => Err(err.to_string()),
    }
}

/// Interpret 48 bytes as a point on the designated curve subgroup.
///
/// Returns the reconstructed key exactly when the bytes encode a valid
/// point; otherwise the `InvalidPoint` error with the primitive's
/// diagnostic.
pub fn reconstruct_public_key(bytes: &[u8; 48]) -> (r: Result<PublicKeyPoint, DrandError>)
    ensures
        r is Ok <==> g1_decodes(bytes@),
        r matches Ok(p) ==> p@ == bytes@,
        r is Err ==> (r matches Err(e) && e matches DrandError::InvalidPoint(_)),
{
    match g1_pubkey_from_fixed(bytes) {
        Ok(p) => Ok(p),
        Err(msg) => Err(DrandError::InvalidPoint(msg)),
    }
}

/// Run the pairing check of the chained-beacon scheme.
///
/// `Ok(true)` and `Ok(false)` report the pairing verdict; the
/// `PairingComputation` error comes exactly when the primitive cannot
/// evaluate the check on these bytes.
pub fn pairing_check(
    pk: &PublicKeyPoint,
    round: u64,
    previous_signature: &[u8; 96],
    signature: &[u8; 96],
) -> (r: Result<bool, DrandError>)
    ensures
        r matches Ok(b) ==> pairing_verdict(pk@, round, previous_signature@, signature@)
            == Some(b),
        r is Err <==> pairing_verdict(pk@, round, previous_signature@, signature@) is None,
        r is Err ==> (r matches Err(e) && e matches DrandError::PairingComputation(_)),
{
    match g1_pubkey_verify(pk, round, previous_signature, signature) {
        Ok(b) => Ok(b),
        Err(msg) => Err(DrandError::PairingComputation(msg)),
    }
}

} // verus!
