//! The records the engine hands across its boundary: one per verification
//! mode.  All are pure data, fully determined by the call's inputs.

use vstd::prelude::*;

use crate::height::Height;
use crate::types::{ConsensusState, ConsensusStateView, Env, EnvView};

verus! {

/// Result of a successful update-client verification.
#[derive(Debug, PartialEq, Eq)]
pub struct UpdateClientOutput {
    /// The consensus state the verification trusted.
    pub trusted_consensus_state: ConsensusState,
    /// The consensus state derived from the verified header.
    pub new_consensus_state: ConsensusState,
    /// The environment the verification ran under, echoed back.
    pub env: Env,
    /// The height the verification trusted.
    pub trusted_height: Height,
    /// The height of the new consensus state.
    pub new_height: Height,
}

/// Mathematical model of an [`UpdateClientOutput`].
pub struct UpdateClientOutputView {
    /// The consensus state the verification trusted.
    pub trusted_consensus_state: ConsensusStateView,
    /// The consensus state derived from the verified header.
    pub new_consensus_state: ConsensusStateView,
    /// The environment the verification ran under.
    pub env: EnvView,
    /// The height the verification trusted.
    pub trusted_height: Height,
    /// The height of the new consensus state.
    pub new_height: Height,
}

impl View for UpdateClientOutput {
    type V = UpdateClientOutputView;

    open spec fn view(&self) -> UpdateClientOutputView {
        UpdateClientOutputView {
            trusted_consensus_state: self.trusted_consensus_state@,
            new_consensus_state: self.new_consensus_state@,
            env: self.env@,
            trusted_height: self.trusted_height,
            new_height: self.new_height,
        }
    }
}

/// One key/value pair whose membership was verified.
#[derive(Debug, PartialEq, Eq)]
pub struct KVPair {
    /// The key path, outermost store first.
    pub path: Vec<Vec<u8>>,
    /// The value proven at that path; empty for proven absence.
    pub value: Vec<u8>,
}

/// Mathematical model of a [`KVPair`].
pub struct KVPairView {
    /// The key path, outermost store first.
    pub path: Seq<Seq<u8>>,
    /// The value proven at that path; empty for proven absence.
    pub value: Seq<u8>,
}

impl View for KVPair {
    type V = KVPairView;

    open spec fn view(&self) -> KVPairView {
        KVPairView { path: self.path.deep_view(), value: self.value@ }
    }
}

impl DeepView for KVPair {
    type V = KVPairView;

    open spec fn deep_view(&self) -> KVPairView {
        self@
    }
}

/// Result of a successful batched (non-)membership verification.
#[derive(Debug, PartialEq, Eq)]
pub struct MembershipOutput {
    /// The commitment root all proofs were verified against.
    pub commitment_root: Vec<u8>,
    /// The verified key/value pairs, in request order.
    pub kv_pairs: Vec<KVPair>,
}

/// Mathematical model of a [`MembershipOutput`].
pub struct MembershipOutputView {
    /// The commitment root all proofs were verified against.
    pub commitment_root: Seq<u8>,
    /// The verified key/value pairs, in request order.
    pub kv_pairs: Seq<KVPairView>,
}

impl View for MembershipOutput {
    type V = MembershipOutputView;

    open spec fn view(&self) -> MembershipOutputView {
        MembershipOutputView {
            commitment_root: self.commitment_root@,
            kv_pairs: self.kv_pairs.deep_view(),
        }
    }
}

/// Result of a successful combined update and membership verification.
#[derive(Debug, PartialEq, Eq)]
pub struct UcAndMembershipOutput {
    /// The update-client part of the result.
    pub update_client_output: UpdateClientOutput,
    /// The key/value pairs verified against the new header's own root.
    pub kv_pairs: Vec<KVPair>,
}

/// Mathematical model of a [`UcAndMembershipOutput`].
pub struct UcAndMembershipOutputView {
    /// The update-client part of the result.
    pub update_client_output: UpdateClientOutputView,
    /// The key/value pairs verified against the new header's own root.
    pub kv_pairs: Seq<KVPairView>,
}

impl View for UcAndMembershipOutput {
    type V = UcAndMembershipOutputView;

    open spec fn view(&self) -> UcAndMembershipOutputView {
        UcAndMembershipOutputView {
            update_client_output: self.update_client_output@,
            kv_pairs: self.kv_pairs.deep_view(),
        }
    }
}

/// Result of a successful misbehaviour verification: the two trusted bases
/// implicated, and whether equivocation was proven.
#[derive(Debug, PartialEq, Eq)]
pub struct MisbehaviourOutput {
    /// The environment the verification ran under, echoed back.
    pub env: Env,
    /// The trusted height the first header built on.
    pub trusted_height_1: Height,
    /// The trusted height the second header built on.
    pub trusted_height_2: Height,
    /// The consensus state the first header was verified against.
    pub trusted_consensus_state_1: ConsensusState,
    /// The consensus state the second header was verified against.
    pub trusted_consensus_state_2: ConsensusState,
    /// Whether the two headers prove equivocation.
    pub misbehaviour_found: bool,
}

/// Mathematical model of a [`MisbehaviourOutput`].
pub struct MisbehaviourOutputView {
    /// The environment the verification ran under.
    pub env: EnvView,
    /// The trusted height the first header built on.
    pub trusted_height_1: Height,
    /// The trusted height the second header built on.
    pub trusted_height_2: Height,
    /// The consensus state the first header was verified against.
    pub trusted_consensus_state_1: ConsensusStateView,
    /// The consensus state the second header was verified against.
    pub trusted_consensus_state_2: ConsensusStateView,
    /// Whether the two headers prove equivocation.
    pub misbehaviour_found: bool,
}

impl View for MisbehaviourOutput {
    type V = MisbehaviourOutputView;

    open spec fn view(&self) -> MisbehaviourOutputView {
        MisbehaviourOutputView {
            env: self.env@,
            trusted_height_1: self.trusted_height_1,
            trusted_height_2: self.trusted_height_2,
            trusted_consensus_state_1: self.trusted_consensus_state_1@,
            trusted_consensus_state_2: self.trusted_consensus_state_2@,
            misbehaviour_found: self.misbehaviour_found,
        }
    }
}

} // verus!
