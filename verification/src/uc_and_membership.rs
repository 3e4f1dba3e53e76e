//! The combined mode: verify a header transition, then verify membership
//! proofs against the application hash of the header just introduced.
//!
//! The order is load-bearing: the proofs are checked against the *new*
//! header's own commitment root, never the previously trusted one.

use vstd::prelude::*;

use crate::errors::{ProofError, VerifyError};
use crate::header::{Header, HeaderView};
use crate::membership::{MembershipQuery, MembershipQueryView, membership, spec_membership};
use crate::outputs::{UcAndMembershipOutput, UcAndMembershipOutputView};
use crate::types::{ConsensusState, ConsensusStateView, Env, EnvView, clone_bytes};
use crate::update_client::{spec_update_client, update_client};

verus! {

/// Rejection reasons for the combined mode.
#[derive(Clone, Copy, Debug, PartialEq, Eq, Structural)]
pub enum UcAndMembershipError {
    /// The header transition was rejected.
    Client(VerifyError),
    /// The transition was accepted but a membership proof was rejected.
    Proof(ProofError),
}

/// The combined rule: the header transition first; on success, the whole
/// batch of proofs against the verified header's own application hash.
pub open spec fn spec_update_client_and_membership(
    trusted: ConsensusStateView,
    h: HeaderView,
    env: EnvView,
    queries: Seq<MembershipQueryView>,
) -> Result<UcAndMembershipOutputView, UcAndMembershipError> {
    match spec_update_client(trusted, h, env) {
        Err(e) => Err(UcAndMembershipError::Client(e)),
        Ok(uc) => match spec_membership(h.signed_header.app_hash, queries) {
            Err(e) => Err(UcAndMembershipError::Proof(e)),
            Ok(m) => Ok(
                UcAndMembershipOutputView { update_client_output: uc, kv_pairs: m.kv_pairs },
            ),
        },
    }
}

/// Verifies the proposed header, then verifies every query against that
/// header's own application hash, and emits the combined record.
pub fn update_client_and_membership(
    trusted_consensus_state: ConsensusState,
    proposed_header: &Header,
    env: Env,
    queries: &Vec<MembershipQuery>,
) -> (r: Result<UcAndMembershipOutput, UcAndMembershipError>)
    ensures
        match r {
            Ok(out) => spec_update_client_and_membership(
                trusted_consensus_state@,
                proposed_header@,
                env@,
                queries.deep_view(),
            ) == Ok::<UcAndMembershipOutputView, UcAndMembershipError>(out@),
            Err(e) => spec_update_client_and_membership(
                trusted_consensus_state@,
                proposed_header@,
                env@,
                queries.deep_view(),
            ) == Err::<UcAndMembershipOutputView, UcAndMembershipError>(e),
        },
{
    let app_hash = clone_bytes(&proposed_header.signed_header.app_hash);
    let uc_output = match update_client(trusted_consensus_state, proposed_header, env) {
        Ok(out) => out,
        Err(e) => {
            return Err(UcAndMembershipError::Client(e));
        },
    };
    let mem_output = match membership(app_hash, queries) {
        Ok(out) => out,
        Err(e) => {
            return Err(UcAndMembershipError::Proof(e));
        },
    };
    Ok(UcAndMembershipOutput { update_client_output: uc_output, kv_pairs: mem_output.kv_pairs })
}

} // verus!
