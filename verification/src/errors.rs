//! The errors a verification attempt can end in.

use vstd::prelude::*;

verus! {

/// What went wrong while checking an announcement.
///
/// A cryptographic mismatch (a well-formed signature that does not match) is
/// not an error: `verify` reports it as `Ok(None)`. These variants cover the
/// structural failures only.
#[derive(Debug, Clone, PartialEq, Eq)]
pub enum DrandError {
    /// A hex field has the wrong length or holds a character outside the
    /// hexadecimal alphabet.
    Decoding,
    /// The decoded public-key bytes are not the compressed encoding of a
    /// point on the designated curve subgroup. Carries the curve
    /// primitive's diagnostic.
    InvalidPoint(String),
    /// The pairing primitive could not evaluate the check, e.g. because the
    /// signature bytes do not decode to a curve point. Carries the
    /// primitive's diagnostic.
    PairingComputation(String),
}

} // verus!
