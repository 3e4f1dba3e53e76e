//! The misbehaviour detector: decides whether two conflicting headers
//! constitute provable equivocation.

use vstd::prelude::*;

use crate::errors::{MisbehaviourError, VerifyError};
use crate::header::{Header, HeaderView, spec_new_height};
use crate::height::height_lt;
use crate::outputs::{MisbehaviourOutput, MisbehaviourOutputView};
use crate::types::{ConsensusState, ConsensusStateView, Env, EnvView};
use crate::update_client::{spec_verify_header, verify_header};

verus! {

/// Evidence of two conflicting claims about the chain: two headers, each
/// carrying its own trusted height and validator sets.
#[derive(Debug)]
pub struct Misbehaviour {
    /// The first conflicting header.
    pub header_1: Header,
    /// The second conflicting header.
    pub header_2: Header,
}

/// Mathematical model of a [`Misbehaviour`].
pub struct MisbehaviourView {
    /// The first conflicting header.
    pub header_1: HeaderView,
    /// The second conflicting header.
    pub header_2: HeaderView,
}

impl View for Misbehaviour {
    type V = MisbehaviourView;

    open spec fn view(&self) -> MisbehaviourView {
        MisbehaviourView { header_1: self.header_1@, header_2: self.header_2@ }
    }
}

/// Whether two independently valid headers prove equivocation: they claim
/// the same height with different block hashes, or their timestamps do not
/// strictly increase with their heights.
pub open spec fn spec_equivocation(h1: HeaderView, h2: HeaderView) -> bool {
    if spec_new_height(h1) == spec_new_height(h2) {
        h1.signed_header.block_hash != h2.signed_header.block_hash
    } else if height_lt(spec_new_height(h1), spec_new_height(h2)) {
        h2.signed_header.time <= h1.signed_header.time
    } else {
        h1.signed_header.time <= h2.signed_header.time
    }
}

/// The misbehaviour rule: each header must pass the full header transition
/// verification against its own trusted consensus state; only then is the
/// equivocation question answered.  An unverifiable header is rejected, not
/// treated as evidence.
pub open spec fn spec_detect(
    h1: HeaderView,
    h2: HeaderView,
    trusted_1: ConsensusStateView,
    trusted_2: ConsensusStateView,
    env: EnvView,
) -> Result<bool, MisbehaviourError> {
    match spec_verify_header(trusted_1, h1, env) {
        Err(e) => Err(MisbehaviourError::InvalidEvidenceHeader(e)),
        Ok(_) => match spec_verify_header(trusted_2, h2, env) {
            Err(e) => Err(MisbehaviourError::InvalidEvidenceHeader(e)),
            Ok(_) => Ok(spec_equivocation(h1, h2)),
        },
    }
}

/// Verifies both evidence headers against their own trusted consensus
/// states, then decides equivocation.  Returns `Ok(false)` when both
/// headers are valid but prove no conflict: inconclusive evidence is not an
/// error.
pub fn detect(
    header_1: &Header,
    header_2: &Header,
    trusted_1: &ConsensusState,
    trusted_2: &ConsensusState,
    env: &Env,
) -> (r: Result<bool, MisbehaviourError>)
    ensures
        r == spec_detect(header_1@, header_2@, trusted_1@, trusted_2@, env@),
{
    match verify_header(trusted_1, header_1, env) {
        Err(e) => {
            return Err(MisbehaviourError::InvalidEvidenceHeader(e));
        },
        Ok(_) => {},
    }
    match verify_header(trusted_2, header_2, env) {
        Err(e) => {
            return Err(MisbehaviourError::InvalidEvidenceHeader(e));
        },
        Ok(_) => {},
    }
    let nh1 = header_1.new_height();
    let nh2 = header_2.new_height();
    let found = if nh1 == nh2 {
        !crate::bytes::bytes_eq(
            &header_1.signed_header.block_hash,
            &header_2.signed_header.block_hash,
        )
    } else if nh1.lt(&nh2) {
        header_2.signed_header.time <= header_1.signed_header.time
    } else {
        header_1.signed_header.time <= header_2.signed_header.time
    };
    Ok(found)
}

/// The misbehaviour mode: the detection rule, packaged with the record it
/// emits.  The record carries the verdict; the heights and consensus states
/// implicated are echoed for the caller's own checks.
pub open spec fn spec_check_for_misbehaviour(
    env: EnvView,
    m: MisbehaviourView,
    trusted_1: ConsensusStateView,
    trusted_2: ConsensusStateView,
) -> Result<MisbehaviourOutputView, MisbehaviourError> {
    match spec_detect(m.header_1, m.header_2, trusted_1, trusted_2, env) {
        Err(e) => Err(e),
        Ok(found) => Ok(
            MisbehaviourOutputView {
                env,
                trusted_height_1: m.header_1.trusted_height,
                trusted_height_2: m.header_2.trusted_height,
                trusted_consensus_state_1: trusted_1,
                trusted_consensus_state_2: trusted_2,
                misbehaviour_found: found,
            },
        ),
    }
}

/// Runs misbehaviour detection over the evidence and emits its record.
pub fn check_for_misbehaviour(
    env: Env,
    misbehaviour: &Misbehaviour,
    trusted_consensus_state_1: ConsensusState,
    trusted_consensus_state_2: ConsensusState,
) -> (r: Result<MisbehaviourOutput, MisbehaviourError>)
    ensures
        match r {
            Ok(out) => spec_check_for_misbehaviour(
                env@,
                misbehaviour@,
                trusted_consensus_state_1@,
                trusted_consensus_state_2@,
            ) == Ok::<MisbehaviourOutputView, MisbehaviourError>(out@),
            Err(e) => spec_check_for_misbehaviour(
                env@,
                misbehaviour@,
                trusted_consensus_state_1@,
                trusted_consensus_state_2@,
            ) == Err::<MisbehaviourOutputView, MisbehaviourError>(e),
        },
{
    let found = match detect(
        &misbehaviour.header_1,
        &misbehaviour.header_2,
        &trusted_consensus_state_1,
        &trusted_consensus_state_2,
        &env,
    ) {
        Ok(found) => found,
        Err(e) => {
            return Err(e);
        },
    };
    Ok(MisbehaviourOutput {
        env,
        trusted_height_1: misbehaviour.header_1.trusted_height,
        trusted_height_2: misbehaviour.header_2.trusted_height,
        trusted_consensus_state_1,
        trusted_consensus_state_2,
        misbehaviour_found: found,
    })
}

} // verus!
