//! Error kinds reported by the verification engine.
//!
//! Every business-rule violation is a typed error returned to the caller;
//! verified functions of this crate never panic.

use vstd::prelude::*;

verus! {

/// Rejection reasons for a proposed header transition.
#[derive(Clone, Copy, Debug, PartialEq, Eq, Structural)]
pub enum VerifyError {
    /// The trust threshold is not a fraction in `(0, 1]`.
    InvalidTrustThreshold,
    /// A field of the header is structurally invalid (wrong digest or key
    /// length, a duplicated validator address, or a height or total power
    /// that exceeds the signed 64-bit range).
    MalformedHeader,
    /// The header's chain identifier differs from the environment's.
    MismatchedChainId,
    /// The proposed height is not strictly above the trusted height.
    NonMonotonicHeight,
    /// The proposed timestamp is not strictly after the trusted timestamp.
    NonMonotonicTime,
    /// The proposed timestamp is later than the verifier's current time.
    HeaderFromFuture,
    /// The trusted consensus state is older than the trusting period allows.
    ExpiredTrustedState,
    /// A claimed validator set does not hash to the expected digest.
    MismatchedValidatorHashes,
    /// Signers from the trusted validator set hold less than the trust
    /// threshold's fraction of its total power.
    InsufficientTrust,
    /// The commit's verified signatures hold no more than two thirds of the
    /// claimed validator set's total power.
    InvalidCommit,
}

impl VerifyError {
    /// A short human-readable name for the error.
    pub fn as_str(&self) -> (r: &'static str) {
        match self {
            VerifyError::InvalidTrustThreshold => "invalid trust threshold",
            VerifyError::MalformedHeader => "malformed header",
            VerifyError::MismatchedChainId => "mismatched chain id",
            VerifyError::NonMonotonicHeight => "non-monotonic height",
            VerifyError::NonMonotonicTime => "non-monotonic time",
            VerifyError::HeaderFromFuture => "header from future",
            VerifyError::ExpiredTrustedState => "expired trusted state",
            VerifyError::MismatchedValidatorHashes => "mismatched validator hashes",
            VerifyError::InsufficientTrust => "insufficient trust",
            VerifyError::InvalidCommit => "invalid commit",
        }
    }
}

/// Rejection reasons for a Merkle (non-)membership proof.
#[derive(Clone, Copy, Debug, PartialEq, Eq, Structural)]
pub enum ProofError {
    /// The proof's hash chain does not establish the claimed fact under the
    /// given root.
    Invalid,
    /// The proof's layer count does not match the key path, or a layer's
    /// internal structure is corrupt.
    MalformedProof,
    /// A batched request contained no key/value/proof triples.
    EmptyBatch,
}

impl ProofError {
    /// A short human-readable name for the error.
    pub fn as_str(&self) -> (r: &'static str) {
        match self {
            ProofError::Invalid => "invalid proof",
            ProofError::MalformedProof => "malformed proof",
            ProofError::EmptyBatch => "empty batch",
        }
    }
}

/// Rejection reasons for misbehaviour evidence.
#[derive(Clone, Copy, Debug, PartialEq, Eq, Structural)]
pub enum MisbehaviourError {
    /// One of the two evidence headers failed verification against its own
    /// trusted consensus state, for the contained reason.
    InvalidEvidenceHeader(VerifyError),
}

impl MisbehaviourError {
    /// A short human-readable name for the error.
    pub fn as_str(&self) -> (r: &'static str) {
        match self {
            MisbehaviourError::InvalidEvidenceHeader(_) => "invalid evidence header",
        }
    }
}

} // verus!
