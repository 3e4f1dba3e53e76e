//! End-to-end scenarios for the header transition verifier and the
//! misbehaviour detector, with real Ed25519 signatures.

use ics07_tendermint::errors::{MisbehaviourError, VerifyError};
use ics07_tendermint::header::{sign_bytes, CommitSig, Header, SignedHeader};
use ics07_tendermint::height::Height;
use ics07_tendermint::misbehaviour::{check_for_misbehaviour, detect, Misbehaviour};
use ics07_tendermint::types::{ConsensusState, Env, TrustThreshold};
use ics07_tendermint::update_client::{update_client, verify_header};
use ics07_tendermint::validators::{Validator, ValidatorSet};

const T0: u64 = 1_700_000_000_000_000_000;
const SECOND: u64 = 1_000_000_000;
const FOURTEEN_DAYS: u64 = 14 * 24 * 3600;

fn signing_key(seed: u8) -> ed25519_consensus::SigningKey {
    ed25519_consensus::SigningKey::from([seed; 32])
}

fn validator(seed: u8, power: u64) -> Validator {
    Validator {
        address: vec![seed; 20],
        pub_key: signing_key(seed).verification_key().to_bytes().to_vec(),
        power,
    }
}

fn validator_set(members: &[(u8, u64)]) -> ValidatorSet {
    ValidatorSet {
        validators: members.iter().map(|&(s, p)| validator(s, p)).collect(),
    }
}

fn chain_id() -> Vec<u8> {
    b"testchain-1".to_vec()
}

/// A signed header for the given height and time, committed to by the
/// given signers, claiming the given validator-set and next-set hashes.
fn signed_header(
    height: u64,
    time: u64,
    app_hash: Vec<u8>,
    validators_hash: Vec<u8>,
    next_validators_hash: Vec<u8>,
    block_hash: Vec<u8>,
    signer_seeds: &[u8],
) -> SignedHeader {
    let part_set_hash = vec![0xCC; 32];
    let signatures = signer_seeds
        .iter()
        .map(|&seed| {
            let msg = sign_bytes(&chain_id(), height, 0, &block_hash, 1, &part_set_hash, time);
            let sig = signing_key(seed).sign(&msg);
            CommitSig {
                is_commit: true,
                validator_address: vec![seed; 20],
                timestamp: time,
                signature: sig.to_bytes().to_vec(),
            }
        })
        .collect();
    SignedHeader {
        chain_id: chain_id(),
        height,
        time,
        round: 0,
        app_hash,
        validators_hash,
        next_validators_hash,
        block_hash,
        part_set_total: 1,
        part_set_hash,
        signatures,
    }
}

/// The standard four-member set holding 25 power each.
fn quorum_members() -> Vec<(u8, u64)> {
    vec![(1, 25), (2, 25), (3, 25), (4, 25)]
}

/// A header over the standard set, signed by the given members.
fn standard_header(height: u64, time: u64, block_hash: Vec<u8>, signers: &[u8]) -> Header {
    let members = quorum_members();
    let vset = validator_set(&members);
    let vh = vset.hash();
    Header {
        signed_header: signed_header(
            height,
            time,
            vec![0xA1; 32],
            vh.clone(),
            vh.clone(),
            block_hash,
            signers,
        ),
        validator_set: validator_set(&members),
        trusted_height: Height::new(1, 100),
        trusted_next_validator_set: validator_set(&members),
    }
}

/// The consensus state the standard headers build on.
fn standard_trusted() -> ConsensusState {
    let vh = validator_set(&quorum_members()).hash();
    ConsensusState {
        timestamp: T0,
        root: vec![0xAA; 32],
        next_validators_hash: vh,
    }
}

fn standard_env(now: u64) -> Env {
    Env {
        chain_id: chain_id(),
        trust_threshold: TrustThreshold::new(1, 3),
        trusting_period: FOURTEEN_DAYS,
        now,
    }
}

/// Trusted height 100 with trust level one third and a fourteen-day
/// trusting period; a target header at height 150 carries more than two
/// thirds of the unchanged validator set: the update succeeds, yielding
/// height 150 and the target header's own application hash as the new root.
#[test]
fn update_succeeds_at_height_150() {
    let header = standard_header(150, T0 + 100 * SECOND, vec![0xBB; 32], &[1, 2, 3]);
    let env = standard_env(T0 + 101 * SECOND);
    let output = update_client(standard_trusted(), &header, env).expect("update should succeed");
    assert_eq!(output.new_height, Height::new(1, 150));
    assert_eq!(output.trusted_height, Height::new(1, 100));
    assert_eq!(output.new_consensus_state.root, vec![0xA1; 32]);
    assert_eq!(output.new_consensus_state.timestamp, T0 + 100 * SECOND);
    assert_eq!(output.trusted_consensus_state, standard_trusted());
    assert_eq!(output.env.now, T0 + 101 * SECOND);
}

/// Running the same update twice with identical inputs yields identical
/// outputs.
#[test]
fn update_is_idempotent() {
    let header = standard_header(150, T0 + 100 * SECOND, vec![0xBB; 32], &[1, 2, 3]);
    let out1 = update_client(
        standard_trusted(),
        &header,
        standard_env(T0 + 101 * SECOND),
    )
    .expect("first run");
    let out2 = update_client(
        standard_trusted(),
        &header,
        standard_env(T0 + 101 * SECOND),
    )
    .expect("second run");
    assert_eq!(out1, out2);
}

/// An adjacent transition needs no trust-threshold overlap, only the
/// announced validator-set continuity.
#[test]
fn adjacent_update_succeeds() {
    let header = standard_header(101, T0 + 10 * SECOND, vec![0xBB; 32], &[1, 2, 3]);
    let env = standard_env(T0 + 11 * SECOND);
    let result = verify_header(&standard_trusted(), &header, &env);
    assert!(result.is_ok());
}

#[test]
fn height_at_trusted_height_is_rejected() {
    let header = standard_header(100, T0 + 100 * SECOND, vec![0xBB; 32], &[1, 2, 3]);
    let env = standard_env(T0 + 101 * SECOND);
    let result = verify_header(&standard_trusted(), &header, &env);
    assert_eq!(result.unwrap_err(), VerifyError::NonMonotonicHeight);
}

#[test]
fn height_below_trusted_height_is_rejected() {
    let header = standard_header(90, T0 + 100 * SECOND, vec![0xBB; 32], &[1, 2, 3]);
    let env = standard_env(T0 + 101 * SECOND);
    let result = verify_header(&standard_trusted(), &header, &env);
    assert_eq!(result.unwrap_err(), VerifyError::NonMonotonicHeight);
}

#[test]
fn time_not_after_trusted_time_is_rejected() {
    let header = standard_header(150, T0, vec![0xBB; 32], &[1, 2, 3]);
    let env = standard_env(T0 + 101 * SECOND);
    let result = verify_header(&standard_trusted(), &header, &env);
    assert_eq!(result.unwrap_err(), VerifyError::NonMonotonicTime);
}

#[test]
fn header_from_the_future_is_rejected() {
    let header = standard_header(150, T0 + 100 * SECOND, vec![0xBB; 32], &[1, 2, 3]);
    let env = standard_env(T0 + 99 * SECOND);
    let result = verify_header(&standard_trusted(), &header, &env);
    assert_eq!(result.unwrap_err(), VerifyError::HeaderFromFuture);
}

#[test]
fn expired_trusted_state_is_rejected() {
    let now = T0 + FOURTEEN_DAYS * SECOND + SECOND;
    let header = standard_header(150, now - SECOND, vec![0xBB; 32], &[1, 2, 3]);
    let env = standard_env(now);
    let result = verify_header(&standard_trusted(), &header, &env);
    assert_eq!(result.unwrap_err(), VerifyError::ExpiredTrustedState);
}

#[test]
fn invalid_trust_threshold_is_rejected() {
    let header = standard_header(150, T0 + 100 * SECOND, vec![0xBB; 32], &[1, 2, 3]);
    let mut env = standard_env(T0 + 101 * SECOND);
    env.trust_threshold = TrustThreshold::new(0, 3);
    let result = verify_header(&standard_trusted(), &header, &env);
    assert_eq!(result.unwrap_err(), VerifyError::InvalidTrustThreshold);
    env.trust_threshold = TrustThreshold::new(4, 3);
    let result = verify_header(&standard_trusted(), &header, &env);
    assert_eq!(result.unwrap_err(), VerifyError::InvalidTrustThreshold);
}

#[test]
fn malformed_header_is_rejected() {
    let mut header = standard_header(150, T0 + 100 * SECOND, vec![0xBB; 32], &[1, 2, 3]);
    header.signed_header.app_hash = vec![0xA1; 31];
    let env = standard_env(T0 + 101 * SECOND);
    let result = verify_header(&standard_trusted(), &header, &env);
    assert_eq!(result.unwrap_err(), VerifyError::MalformedHeader);
}

#[test]
fn mismatched_chain_id_is_rejected() {
    let header = standard_header(150, T0 + 100 * SECOND, vec![0xBB; 32], &[1, 2, 3]);
    let mut env = standard_env(T0 + 101 * SECOND);
    env.chain_id = b"otherchain-7".to_vec();
    let result = verify_header(&standard_trusted(), &header, &env);
    assert_eq!(result.unwrap_err(), VerifyError::MismatchedChainId);
}

#[test]
fn mismatched_next_validators_hash_is_rejected() {
    let header = standard_header(150, T0 + 100 * SECOND, vec![0xBB; 32], &[1, 2, 3]);
    let mut trusted = standard_trusted();
    trusted.next_validators_hash = vec![0x11; 32];
    let env = standard_env(T0 + 101 * SECOND);
    let result = verify_header(&trusted, &header, &env);
    assert_eq!(result.unwrap_err(), VerifyError::MismatchedValidatorHashes);
}

/// A commit signed by half the power misses the two-thirds quorum.
#[test]
fn commit_below_quorum_is_rejected() {
    let header = standard_header(150, T0 + 100 * SECOND, vec![0xBB; 32], &[1, 2]);
    let env = standard_env(T0 + 101 * SECOND);
    let result = verify_header(&standard_trusted(), &header, &env);
    assert_eq!(result.unwrap_err(), VerifyError::InvalidCommit);
}

/// A forged signature carries no weight: with one commit slot tampered,
/// only half the power remains and the commit is rejected.
#[test]
fn tampered_signature_is_rejected() {
    let mut header = standard_header(150, T0 + 100 * SECOND, vec![0xBB; 32], &[1, 2, 3]);
    header.signed_header.signatures[2].signature = vec![0x5A; 64];
    let env = standard_env(T0 + 101 * SECOND);
    let result = verify_header(&standard_trusted(), &header, &env);
    assert_eq!(result.unwrap_err(), VerifyError::InvalidCommit);
}

/// A non-adjacent header whose old-set signers hold exactly the trust
/// threshold's fraction of the old power is accepted; with the threshold a
/// notch higher the same commit is rejected for insufficient trust.
///
/// The old set holds two members of 50 power each; the new block is carried
/// by a disjoint set whose sole member signs, and one old member co-signs,
/// giving exactly half the old power.
fn boundary_header() -> (ConsensusState, Header) {
    let old_members = vec![(1, 50), (2, 50)];
    let new_members = vec![(9, 100)];
    let old_set = validator_set(&old_members);
    let new_set = validator_set(&new_members);
    let old_hash = old_set.hash();
    let new_hash = new_set.hash();
    let trusted = ConsensusState {
        timestamp: T0,
        root: vec![0xAA; 32],
        next_validators_hash: old_hash,
    };
    let header = Header {
        signed_header: signed_header(
            150,
            T0 + 100 * SECOND,
            vec![0xA1; 32],
            new_hash.clone(),
            new_hash,
            vec![0xBB; 32],
            &[9, 1],
        ),
        validator_set: new_set,
        trusted_height: Height::new(1, 100),
        trusted_next_validator_set: validator_set(&old_members),
    };
    (trusted, header)
}

#[test]
fn trust_exactly_at_threshold_succeeds() {
    let (trusted, header) = boundary_header();
    let mut env = standard_env(T0 + 101 * SECOND);
    env.trust_threshold = TrustThreshold::new(1, 2);
    let result = verify_header(&trusted, &header, &env);
    assert!(result.is_ok());
}

#[test]
fn trust_below_threshold_is_rejected() {
    let (trusted, header) = boundary_header();
    let mut env = standard_env(T0 + 101 * SECOND);
    env.trust_threshold = TrustThreshold::new(2, 3);
    let result = verify_header(&trusted, &header, &env);
    assert_eq!(result.unwrap_err(), VerifyError::InsufficientTrust);
}

/// Two independently valid headers at the same height with different block
/// hashes prove equivocation.
#[test]
fn misbehaviour_same_height_different_hash() {
    let h1 = standard_header(150, T0 + 100 * SECOND, vec![0xBB; 32], &[1, 2, 3]);
    let h2 = standard_header(150, T0 + 100 * SECOND, vec![0xBE; 32], &[1, 2, 3]);
    let env = standard_env(T0 + 101 * SECOND);
    let verdict = detect(&h1, &h2, &standard_trusted(), &standard_trusted(), &env);
    assert_eq!(verdict, Ok(true));
}

/// A later height with a timestamp at or before the earlier height's proves
/// equivocation.
#[test]
fn misbehaviour_time_regression() {
    let h1 = standard_header(150, T0 + 100 * SECOND, vec![0xBB; 32], &[1, 2, 3]);
    let h2 = standard_header(151, T0 + 100 * SECOND, vec![0xBE; 32], &[1, 2, 3]);
    let env = standard_env(T0 + 101 * SECOND);
    let verdict = detect(&h1, &h2, &standard_trusted(), &standard_trusted(), &env);
    assert_eq!(verdict, Ok(true));
}

/// Two valid headers at different heights with increasing timestamps are
/// no misbehaviour: the verdict is false, not an error.
#[test]
fn consistent_headers_are_no_misbehaviour() {
    let h1 = standard_header(150, T0 + 100 * SECOND, vec![0xBB; 32], &[1, 2, 3]);
    let h2 = standard_header(151, T0 + 101 * SECOND, vec![0xBE; 32], &[1, 2, 3]);
    let env = standard_env(T0 + 102 * SECOND);
    let verdict = detect(&h1, &h2, &standard_trusted(), &standard_trusted(), &env);
    assert_eq!(verdict, Ok(false));
}

/// A header that does not verify cannot serve as evidence: a single signer
/// holds a quarter of the trusted power, under the one-third trust level.
#[test]
fn unverified_evidence_is_rejected() {
    let h1 = standard_header(150, T0 + 100 * SECOND, vec![0xBB; 32], &[1]);
    let h2 = standard_header(150, T0 + 100 * SECOND, vec![0xBE; 32], &[1, 2, 3]);
    let env = standard_env(T0 + 101 * SECOND);
    let verdict = detect(&h1, &h2, &standard_trusted(), &standard_trusted(), &env);
    assert_eq!(
        verdict,
        Err(MisbehaviourError::InvalidEvidenceHeader(
            VerifyError::InsufficientTrust
        ))
    );
}

/// The misbehaviour record echoes the two trusted bases and the verdict.
#[test]
fn misbehaviour_output_record() {
    let evidence = Misbehaviour {
        header_1: standard_header(150, T0 + 100 * SECOND, vec![0xBB; 32], &[1, 2, 3]),
        header_2: standard_header(150, T0 + 100 * SECOND, vec![0xBE; 32], &[1, 2, 3]),
    };
    let env = standard_env(T0 + 101 * SECOND);
    let output = check_for_misbehaviour(env, &evidence, standard_trusted(), standard_trusted())
        .expect("evidence verifies");
    assert!(output.misbehaviour_found);
    assert_eq!(output.trusted_height_1, Height::new(1, 100));
    assert_eq!(output.trusted_height_2, Height::new(1, 100));
    assert_eq!(output.trusted_consensus_state_1, standard_trusted());
}

/// Sorting the commit's signature slots orders them by the descending
/// power their validators hold, keeping the slots themselves.
#[test]
fn signatures_sort_by_descending_power() {
    let members = vec![(1u8, 10u64), (2, 30), (3, 20)];
    let set = validator_set(&members);
    let mut header = standard_header(150, T0 + 100 * SECOND, vec![0xBB; 32], &[1, 2, 9, 3]);
    ics07_tendermint::header::sort_signatures_by_validators_power_desc(&mut header.signed_header, &set);
    let order: Vec<u8> = header
        .signed_header
        .signatures
        .iter()
        .map(|s| s.validator_address[0])
        .collect();
    assert_eq!(order, vec![2, 3, 1, 9]);
}

/// Slots whose validators hold equal power keep their original relative
/// order: the sort is stable.
#[test]
fn signatures_sort_keeps_order_of_equal_powers() {
    let set = validator_set(&vec![(1u8, 20u64), (2, 30), (3, 20)]);
    let mut header = standard_header(150, T0 + 100 * SECOND, vec![0xBB; 32], &[1, 2, 3, 9]);
    ics07_tendermint::header::sort_signatures_by_validators_power_desc(
        &mut header.signed_header,
        &set,
    );
    let order: Vec<u8> = header
        .signed_header
        .signatures
        .iter()
        .map(|s| s.validator_address[0])
        .collect();
    assert_eq!(order, vec![2, 1, 3, 9]);
}
