//! Names for the proof programs a succinct-proof backend can run over the
//! engine's modes, and the proof systems it can produce.

use vstd::prelude::*;

verus! {

/// The update-client program.
#[derive(Debug)]
pub struct UpdateClientProgram;

/// The single-pair membership verification program.
#[derive(Debug)]
pub struct VerifyMembershipProgram;

/// The batched (non-)membership program.
#[derive(Debug)]
pub struct MembershipProgram;

/// The combined update and membership program.
#[derive(Debug)]
pub struct UpdateClientAndMembershipProgram;

/// The misbehaviour program.
#[derive(Debug)]
pub struct MisbehaviourProgram;

/// The proof systems the backend can produce.
#[derive(Clone, Copy, Debug, PartialEq, Eq, Structural)]
pub enum SupportedProofType {
    /// A Groth16 proof.
    Groth16,
    /// A Plonk proof.
    Plonk,
}

impl SupportedProofType {
    /// Decodes a proof-type code: zero is Groth16, one is Plonk, anything
    /// else is unsupported.
    pub fn try_from(n: u8) -> (r: Option<SupportedProofType>)
        ensures
            r == (if n == 0 {
                Some(SupportedProofType::Groth16)
            } else if n == 1 {
                Some(SupportedProofType::Plonk)
            } else {
                None::<SupportedProofType>
            }),
    {
        match n {
            0 => Some(SupportedProofType::Groth16),
            1 => Some(SupportedProofType::Plonk),
            _ => None,
        }
    }
}

} // verus!
