//! Core data of the light client: trust threshold, environment, client and
//! consensus states.
//!
//! Timestamps are nanoseconds since the Unix epoch; the trusting and
//! unbonding periods are seconds; digests are 32 bytes.

use vstd::prelude::*;

use crate::height::Height;

verus! {

/// Number of nanoseconds in a second.
pub const NANOS_PER_SECOND: u64 = 1_000_000_000;

/// Copies a byte string.
pub fn clone_bytes(v: &Vec<u8>) -> (r: Vec<u8>)
    ensures
        r@ == v@,
{
    let r = v.clone();
    assert(r@ =~= v@);
    r
}

/// The minimum fraction of the trusted validator set's voting power that
/// must have signed a commit for a header to be accepted by skipping
/// verification.  The ratio is kept as written, not normalized.
#[derive(Clone, Copy, Debug, PartialEq, Eq, Structural)]
pub struct TrustThreshold {
    /// Numerator of the fraction.
    pub numerator: u64,
    /// Denominator of the fraction.
    pub denominator: u64,
}

/// A trust threshold is valid when it is a fraction in `(0, 1]`.
pub open spec fn trust_threshold_valid(t: TrustThreshold) -> bool {
    0 < t.numerator <= t.denominator
}

impl TrustThreshold {
    /// Build a threshold from numerator and denominator.
    pub fn new(numerator: u64, denominator: u64) -> (r: TrustThreshold)
        ensures
            r == (TrustThreshold { numerator, denominator }),
    {
        TrustThreshold { numerator, denominator }
    }

    /// Whether the threshold is a fraction in `(0, 1]`.
    pub fn is_valid(&self) -> (r: bool)
        ensures
            r == trust_threshold_valid(*self),
    {
        0 < self.numerator && self.numerator <= self.denominator
    }
}

impl Default for TrustThreshold {
    /// The conventional default threshold of one third.
    fn default() -> (r: TrustThreshold)
        ensures
            r == (TrustThreshold { numerator: 1, denominator: 3 }),
    {
        TrustThreshold { numerator: 1, denominator: 3 }
    }
}

/// Verification parameters not intrinsic to the client, supplied per call.
#[derive(Debug, PartialEq, Eq)]
pub struct Env {
    /// Identifier of the tracked chain, as raw bytes of its name.
    pub chain_id: Vec<u8>,
    /// Trust threshold for skipping verification.
    pub trust_threshold: TrustThreshold,
    /// Maximum age, in seconds, of a usable trusted consensus state.
    pub trusting_period: u64,
    /// The verifier's current time, in nanoseconds since the Unix epoch.
    pub now: u64,
}

/// Mathematical model of an [`Env`].
pub struct EnvView {
    /// Identifier of the tracked chain.
    pub chain_id: Seq<u8>,
    /// Trust threshold for skipping verification.
    pub trust_threshold: TrustThreshold,
    /// Maximum age, in seconds, of a usable trusted consensus state.
    pub trusting_period: u64,
    /// The verifier's current time, in nanoseconds.
    pub now: u64,
}

impl View for Env {
    type V = EnvView;

    open spec fn view(&self) -> EnvView {
        EnvView {
            chain_id: self.chain_id@,
            trust_threshold: self.trust_threshold,
            trusting_period: self.trusting_period,
            now: self.now,
        }
    }
}

/// The light client's view of the tracked chain at one trusted height:
/// the header timestamp, the application-state commitment root, and the
/// hash of the validator set announced for the next height.
#[derive(Debug, PartialEq, Eq)]
pub struct ConsensusState {
    /// Timestamp of the block, in nanoseconds since the Unix epoch.
    pub timestamp: u64,
    /// Commitment root (application hash) of the block, 32 bytes.
    pub root: Vec<u8>,
    /// Hash of the validator set announced for the next height, 32 bytes.
    pub next_validators_hash: Vec<u8>,
}

/// Mathematical model of a [`ConsensusState`].
pub struct ConsensusStateView {
    /// Timestamp of the block, in nanoseconds.
    pub timestamp: u64,
    /// Commitment root of the block.
    pub root: Seq<u8>,
    /// Hash of the validator set announced for the next height.
    pub next_validators_hash: Seq<u8>,
}

impl View for ConsensusState {
    type V = ConsensusStateView;

    open spec fn view(&self) -> ConsensusStateView {
        ConsensusStateView {
            timestamp: self.timestamp,
            root: self.root@,
            next_validators_hash: self.next_validators_hash@,
        }
    }
}

/// Structural validity of a consensus state: both digests are 32 bytes.
pub open spec fn consensus_state_wf(c: ConsensusStateView) -> bool {
    c.root.len() == 32 && c.next_validators_hash.len() == 32
}

impl ConsensusState {
    /// Build a consensus state from its parts.
    pub fn new(timestamp: u64, root: Vec<u8>, next_validators_hash: Vec<u8>) -> (r: ConsensusState)
        ensures
            r@ == (ConsensusStateView {
                timestamp,
                root: root@,
                next_validators_hash: next_validators_hash@,
            }),
    {
        ConsensusState { timestamp, root, next_validators_hash }
    }

    /// Copy the consensus state.
    pub fn duplicate(&self) -> (r: ConsensusState)
        ensures
            r@ == self@,
    {
        ConsensusState {
            timestamp: self.timestamp,
            root: clone_bytes(&self.root),
            next_validators_hash: clone_bytes(&self.next_validators_hash),
        }
    }

    /// Whether both digests are 32 bytes.
    pub fn is_well_formed(&self) -> (r: bool)
        ensures
            r == consensus_state_wf(self@),
    {
        self.root.len() == 32 && self.next_validators_hash.len() == 32
    }
}

/// The persistent client state for the tracked chain.
#[derive(Debug, PartialEq, Eq)]
pub struct ClientState {
    /// Identifier of the tracked chain, as raw bytes of its name.
    pub chain_id: Vec<u8>,
    /// Fraction of trusted validator overlap needed to accept a header.
    pub trust_level: TrustThreshold,
    /// Latest height the client was updated to.
    pub latest_height: Height,
    /// Maximum age, in seconds, of a usable trusted consensus state.
    pub trusting_period: u64,
    /// Duration, in seconds, of the chain's staking unbonding period.
    pub unbonding_period: u64,
    /// Whether the client is frozen due to proven misbehaviour.  A frozen
    /// client rejects all further updates.
    pub is_frozen: bool,
}

/// Mathematical model of a [`ClientState`].
pub struct ClientStateView {
    /// Identifier of the tracked chain.
    pub chain_id: Seq<u8>,
    /// Fraction of trusted validator overlap needed to accept a header.
    pub trust_level: TrustThreshold,
    /// Latest height the client was updated to.
    pub latest_height: Height,
    /// Maximum age, in seconds, of a usable trusted consensus state.
    pub trusting_period: u64,
    /// Duration, in seconds, of the staking unbonding period.
    pub unbonding_period: u64,
    /// Whether the client is frozen.
    pub is_frozen: bool,
}

impl View for ClientState {
    type V = ClientStateView;

    open spec fn view(&self) -> ClientStateView {
        ClientStateView {
            chain_id: self.chain_id@,
            trust_level: self.trust_level,
            latest_height: self.latest_height,
            trusting_period: self.trusting_period,
            unbonding_period: self.unbonding_period,
            is_frozen: self.is_frozen,
        }
    }
}

/// Invariant of a client state: a valid trust level and a trusting period
/// no longer than the unbonding period.
pub open spec fn client_state_wf(c: ClientStateView) -> bool {
    trust_threshold_valid(c.trust_level) && c.trusting_period <= c.unbonding_period
}

impl ClientState {
    /// Whether the client state satisfies its invariant.
    pub fn is_well_formed(&self) -> (r: bool)
        ensures
            r == client_state_wf(self@),
    {
        self.trust_level.is_valid() && self.trusting_period <= self.unbonding_period
    }
}

} // verus!
