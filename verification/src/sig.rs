//! Ed25519 signature verification.

use vstd::prelude::*;

verus! {

/// Whether `sig` is a valid Ed25519 signature over `msg` under the 32-byte
/// verification key `pk`.  A function of the three byte strings alone.
pub uninterp spec fn sig_valid(pk: Seq<u8>, msg: Seq<u8>, sig: Seq<u8>) -> bool;

/// Relies on `ed25519_consensus::VerificationKey::verify`: accepts exactly
/// when `sig` is a valid Ed25519 signature over `msg` under the key `pk`.
/// A key that is not 32 bytes, a signature that is not 64 bytes, and a key
/// that does not decode to a curve point are all rejected.
#[verifier::external_body]
pub fn ed25519_verify(pk: &Vec<u8>, msg: &Vec<u8>, sig: &Vec<u8>) -> (r: bool)
    ensures
        r == sig_valid(pk@, msg@, sig@),
{
    let Ok(pk_bytes) = <[u8; 32]>::try_from(pk.as_slice()) else { return false };
    let Ok(sig_bytes) = <[u8; 64]>::try_from(sig.as_slice()) else { return false };
    let Ok(key) = ed25519_consensus::VerificationKey::try_from(pk_bytes) else { return false };
    key.verify(&ed25519_consensus::Signature::from(sig_bytes), msg.as_slice()).is_ok()
}

} // verus!
