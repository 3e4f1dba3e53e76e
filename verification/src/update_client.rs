//! The header transition verifier: decides whether a proposed header is a
//! legitimate continuation of a trusted consensus state under the given
//! trust assumption, and derives the new consensus state from it.

use vstd::prelude::*;

use crate::bytes::bytes_eq;
use crate::errors::VerifyError;
use crate::header::{Header, HeaderView, lemma_signed_power_le_total, lemma_signed_power_nonneg,
    signed_power, spec_new_height, spec_signed_power, header_wf};
use crate::height::height_lt;
use crate::outputs::{UpdateClientOutput, UpdateClientOutputView};
use crate::types::{ConsensusState, ConsensusStateView, Env, EnvView, clone_bytes,
    consensus_state_wf, trust_threshold_valid};
use crate::validators::{spec_total_power, spec_validators_hash, lemma_total_power_nonneg};

verus! {

/// Whether the header proposes the height immediately after the height it
/// builds on.  An adjacent transition is accepted on validator-set
/// continuity alone; any farther jump must also meet the trust threshold.
pub open spec fn spec_adjacent(h: HeaderView) -> bool {
    h.trusted_height.revision_height + 1 == h.signed_header.height
}

/// The instant, in nanoseconds since the Unix epoch, at which a trusted
/// consensus state becomes too old to build on.
pub open spec fn spec_expiry(trusted: ConsensusStateView, env: EnvView) -> int {
    trusted.timestamp + env.trusting_period * 1_000_000_000
}

/// The consensus state a verified header induces: its own timestamp,
/// application hash, and announced next validator set hash.
pub open spec fn spec_new_consensus_state(h: HeaderView) -> ConsensusStateView {
    ConsensusStateView {
        timestamp: h.signed_header.time,
        root: h.signed_header.app_hash,
        next_validators_hash: h.signed_header.next_validators_hash,
    }
}

/// The checks of the transition rule that precede the trust-threshold
/// check: a valid threshold, structural soundness, the right chain, strict
/// height and time monotonicity, no header from the future, an unexpired
/// trusted state, and validator sets hashing to the announced digests.
pub open spec fn header_checks_before_trust(
    trusted: ConsensusStateView,
    h: HeaderView,
    env: EnvView,
) -> bool {
    &&& trust_threshold_valid(env.trust_threshold)
    &&& header_wf(h)
    &&& consensus_state_wf(trusted)
    &&& h.signed_header.chain_id == env.chain_id
    &&& height_lt(h.trusted_height, spec_new_height(h))
    &&& h.signed_header.time > trusted.timestamp
    &&& h.signed_header.time <= env.now
    &&& env.now < spec_expiry(trusted, env)
    &&& spec_validators_hash(h.validator_set) == h.signed_header.validators_hash
    &&& spec_validators_hash(h.trusted_next_validator_set) == trusted.next_validators_hash
    &&& (spec_adjacent(h) ==> h.signed_header.validators_hash == trusted.next_validators_hash)
}

/// The header transition rule.  In order: the trust threshold must be a
/// fraction in `(0, 1]`; the header and the trusted state must be
/// structurally sound; the header must carry the environment's chain;
/// height and time must strictly increase; the header must not come from
/// the verifier's future; the trusted state must still be within its
/// trusting period; the claimed validator sets must hash to the announced
/// digests (for an adjacent transition the proposed set must itself be the
/// one announced at the trusted height); a non-adjacent transition must be
/// signed by members of the trusted next validator set holding at least
/// `numerator/denominator` of its total power; and the commit must carry
/// more than two thirds of the proposed validator set's power.  On success
/// the result is the consensus state the header induces.
pub open spec fn spec_verify_header(
    trusted: ConsensusStateView,
    h: HeaderView,
    env: EnvView,
) -> Result<ConsensusStateView, VerifyError> {
    if !trust_threshold_valid(env.trust_threshold) {
        Err(VerifyError::InvalidTrustThreshold)
    } else if !header_wf(h) || !consensus_state_wf(trusted) {
        Err(VerifyError::MalformedHeader)
    } else if h.signed_header.chain_id != env.chain_id {
        Err(VerifyError::MismatchedChainId)
    } else if !height_lt(h.trusted_height, spec_new_height(h)) {
        Err(VerifyError::NonMonotonicHeight)
    } else if h.signed_header.time <= trusted.timestamp {
        Err(VerifyError::NonMonotonicTime)
    } else if h.signed_header.time > env.now {
        Err(VerifyError::HeaderFromFuture)
    } else if env.now >= spec_expiry(trusted, env) {
        Err(VerifyError::ExpiredTrustedState)
    } else if spec_validators_hash(h.validator_set) != h.signed_header.validators_hash {
        Err(VerifyError::MismatchedValidatorHashes)
    } else if spec_validators_hash(h.trusted_next_validator_set) != trusted.next_validators_hash {
        Err(VerifyError::MismatchedValidatorHashes)
    } else if spec_adjacent(h) && h.signed_header.validators_hash != trusted.next_validators_hash {
        Err(VerifyError::MismatchedValidatorHashes)
    } else if !spec_adjacent(h) && spec_signed_power(h.trusted_next_validator_set, h.signed_header)
        * env.trust_threshold.denominator < spec_total_power(h.trusted_next_validator_set)
        * env.trust_threshold.numerator {
        Err(VerifyError::InsufficientTrust)
    } else if spec_signed_power(h.validator_set, h.signed_header) * 3 <= spec_total_power(
        h.validator_set,
    ) * 2 {
        Err(VerifyError::InvalidCommit)
    } else {
        Ok(spec_new_consensus_state(h))
    }
}

/// Verifies a proposed header against a trusted consensus state under the
/// environment's trust assumption, returning the new consensus state the
/// header induces, or the first reason the transition is rejected.
pub fn verify_header(trusted: &ConsensusState, header: &Header, env: &Env) -> (r: Result<
    ConsensusState,
    VerifyError,
>)
    ensures
        match r {
            Ok(cs) => spec_verify_header(trusted@, header@, env@) == Ok::<
                ConsensusStateView,
                VerifyError,
            >(cs@),
            Err(e) => spec_verify_header(trusted@, header@, env@) == Err::<
                ConsensusStateView,
                VerifyError,
            >(e),
        },
{
    if !env.trust_threshold.is_valid() {
        return Err(VerifyError::InvalidTrustThreshold);
    }
    if !header.is_well_formed() || !trusted.is_well_formed() {
        return Err(VerifyError::MalformedHeader);
    }
    if !bytes_eq(&header.signed_header.chain_id, &env.chain_id) {
        return Err(VerifyError::MismatchedChainId);
    }
    let new_height = header.new_height();
    if !header.trusted_height.lt(&new_height) {
        return Err(VerifyError::NonMonotonicHeight);
    }
    if header.signed_header.time <= trusted.timestamp {
        return Err(VerifyError::NonMonotonicTime);
    }
    if header.signed_header.time > env.now {
        return Err(VerifyError::HeaderFromFuture);
    }
    let expiry: u128 = trusted.timestamp as u128 + env.trusting_period as u128 * 1_000_000_000;
    if env.now as u128 >= expiry {
        return Err(VerifyError::ExpiredTrustedState);
    }
    let validators_hash = header.validator_set.hash();
    if !bytes_eq(&validators_hash, &header.signed_header.validators_hash) {
        return Err(VerifyError::MismatchedValidatorHashes);
    }
    let trusted_next_hash = header.trusted_next_validator_set.hash();
    if !bytes_eq(&trusted_next_hash, &trusted.next_validators_hash) {
        return Err(VerifyError::MismatchedValidatorHashes);
    }
    let adjacent = header.trusted_height.revision_height as u128 + 1
        == header.signed_header.height as u128;
    if adjacent {
        if !bytes_eq(&header.signed_header.validators_hash, &trusted.next_validators_hash) {
            return Err(VerifyError::MismatchedValidatorHashes);
        }
    } else {
        let tn_total = header.trusted_next_validator_set.total_power();
        let tn_signed = signed_power(&header.trusted_next_validator_set, &header.signed_header);
        proof {
            lemma_signed_power_nonneg(header@.trusted_next_validator_set, header@.signed_header);
            lemma_signed_power_le_total(header@.trusted_next_validator_set, header@.signed_header);
            lemma_total_power_nonneg(header@.trusted_next_validator_set);
        }
        proof {
            assert(tn_signed <= 0x7fff_ffff_ffff_ffff && tn_total <= 0x7fff_ffff_ffff_ffff);
            vstd::arithmetic::mul::lemma_mul_upper_bound(
                tn_signed as int,
                0x7fff_ffff_ffff_ffff,
                env.trust_threshold.denominator as int,
                0xffff_ffff_ffff_ffff,
            );
            vstd::arithmetic::mul::lemma_mul_upper_bound(
                tn_total as int,
                0x7fff_ffff_ffff_ffff,
                env.trust_threshold.numerator as int,
                0xffff_ffff_ffff_ffff,
            );
        }
        let trust_lhs = tn_signed * (env.trust_threshold.denominator as u128);
        let trust_rhs = tn_total * (env.trust_threshold.numerator as u128);
        if trust_lhs < trust_rhs {
            return Err(VerifyError::InsufficientTrust);
        }
    }
    let total = header.validator_set.total_power();
    let signed = signed_power(&header.validator_set, &header.signed_header);
    proof {
        lemma_signed_power_nonneg(header@.validator_set, header@.signed_header);
        lemma_signed_power_le_total(header@.validator_set, header@.signed_header);
        lemma_total_power_nonneg(header@.validator_set);
    }
    if signed * 3 <= total * 2 {
        return Err(VerifyError::InvalidCommit);
    }
    Ok(ConsensusState {
        timestamp: header.signed_header.time,
        root: clone_bytes(&header.signed_header.app_hash),
        next_validators_hash: clone_bytes(&header.signed_header.next_validators_hash),
    })
}

/// The update-client mode: the transition rule, packaged with the record it
/// emits on success.
pub open spec fn spec_update_client(
    trusted: ConsensusStateView,
    h: HeaderView,
    env: EnvView,
) -> Result<UpdateClientOutputView, VerifyError> {
    match spec_verify_header(trusted, h, env) {
        Err(e) => Err(e),
        Ok(cs) => Ok(
            UpdateClientOutputView {
                trusted_consensus_state: trusted,
                new_consensus_state: cs,
                env,
                trusted_height: h.trusted_height,
                new_height: spec_new_height(h),
            },
        ),
    }
}

/// Runs the header transition verifier and emits the update record: the
/// trusted and new consensus states, the trusted and new heights, and the
/// environment, echoed back.
pub fn update_client(
    trusted_consensus_state: ConsensusState,
    proposed_header: &Header,
    env: Env,
) -> (r: Result<UpdateClientOutput, VerifyError>)
    ensures
        match r {
            Ok(out) => spec_update_client(trusted_consensus_state@, proposed_header@, env@) == Ok::<
                UpdateClientOutputView,
                VerifyError,
            >(out@),
            Err(e) => spec_update_client(trusted_consensus_state@, proposed_header@, env@) == Err::<
                UpdateClientOutputView,
                VerifyError,
            >(e),
        },
{
    let new_consensus_state = match verify_header(&trusted_consensus_state, proposed_header, &env) {
        Ok(cs) => cs,
        Err(e) => {
            return Err(e);
        },
    };
    let new_height = proposed_header.new_height();
    Ok(UpdateClientOutput {
        trusted_consensus_state,
        new_consensus_state,
        env,
        trusted_height: proposed_header.trusted_height,
        new_height,
    })
}

} // verus!
