//! Scenarios for the commitment proof verifier and the combined
//! update-and-membership mode, over a small hand-built Merkle store.

use ics07_tendermint::errors::ProofError;
use ics07_tendermint::header::{sign_bytes, CommitSig, Header, SignedHeader};
use ics07_tendermint::height::Height;
use ics07_tendermint::membership::{
    membership, verify_membership, verify_non_membership, CommitmentProof, ExistenceProof,
    InnerOp, MembershipQuery, MerklePath, MerkleProof, NonExistenceProof,
};
use ics07_tendermint::types::{ConsensusState, Env, TrustThreshold};
use ics07_tendermint::uc_and_membership::{update_client_and_membership, UcAndMembershipError};
use ics07_tendermint::validators::{Validator, ValidatorSet};

const T0: u64 = 1_700_000_000_000_000_000;
const SECOND: u64 = 1_000_000_000;

fn sha(data: &[u8]) -> Vec<u8> {
    <sha2::Sha256 as sha2::Digest>::digest(data).to_vec()
}

/// The leaf commitment of the store: a zero domain byte, the length-prefixed
/// key, and the length-prefixed hash of the value.
fn leaf_digest(key: &[u8], value: &[u8]) -> Vec<u8> {
    let mut m = vec![0u8];
    m.push(key.len() as u8);
    m.extend_from_slice(key);
    m.push(32);
    m.extend_from_slice(&sha(value));
    sha(&m)
}

const K1: &[u8] = b"k1";
const V1: &[u8] = b"value-one";
const K2: &[u8] = b"k2";
const V2: &[u8] = b"value-two";

/// Root of a two-leaf store holding `K1` and `K2`.
fn store_root() -> Vec<u8> {
    let mut m = vec![1, 2, 3, 4];
    m.extend_from_slice(&leaf_digest(K1, V1));
    m.push(0xAA);
    m.extend_from_slice(&leaf_digest(K2, V2));
    sha(&m)
}

/// Existence proof for `K1` in the two-leaf store.
fn proof_k1() -> ExistenceProof {
    let mut suffix = vec![0xAA];
    suffix.extend_from_slice(&leaf_digest(K2, V2));
    ExistenceProof {
        key: K1.to_vec(),
        value: V1.to_vec(),
        leaf_prefix: vec![0],
        path: vec![InnerOp { prefix: vec![1, 2, 3, 4], suffix }],
    }
}

/// Existence proof for `K2` in the two-leaf store.
fn proof_k2() -> ExistenceProof {
    let mut prefix = vec![1, 2, 3, 4];
    prefix.extend_from_slice(&leaf_digest(K1, V1));
    prefix.push(0xAA);
    ExistenceProof {
        key: K2.to_vec(),
        value: V2.to_vec(),
        leaf_prefix: vec![0],
        path: vec![InnerOp { prefix, suffix: Vec::new() }],
    }
}

fn single_path(key: &[u8]) -> MerklePath {
    MerklePath { key_path: vec![key.to_vec()] }
}

#[test]
fn membership_of_included_pair_succeeds() {
    let result = verify_membership(
        &store_root(),
        &single_path(K1),
        &V1.to_vec(),
        &MerkleProof { proofs: vec![CommitmentProof::Exist(proof_k1())] },
    );
    assert_eq!(result, Ok(()));
    let result = verify_membership(
        &store_root(),
        &single_path(K2),
        &V2.to_vec(),
        &MerkleProof { proofs: vec![CommitmentProof::Exist(proof_k2())] },
    );
    assert_eq!(result, Ok(()));
}

#[test]
fn membership_of_tampered_value_fails() {
    let mut p = proof_k1();
    p.value = b"value-tampered".to_vec();
    let result = verify_membership(
        &store_root(),
        &single_path(K1),
        &b"value-tampered".to_vec(),
        &MerkleProof { proofs: vec![CommitmentProof::Exist(p)] },
    );
    assert_eq!(result, Err(ProofError::Invalid));
}

#[test]
fn membership_under_wrong_root_fails() {
    let result = verify_membership(
        &vec![0x77; 32],
        &single_path(K1),
        &V1.to_vec(),
        &MerkleProof { proofs: vec![CommitmentProof::Exist(proof_k1())] },
    );
    assert_eq!(result, Err(ProofError::Invalid));
}

#[test]
fn membership_layer_count_must_match_path() {
    let result = verify_membership(
        &store_root(),
        &MerklePath { key_path: vec![b"ibc".to_vec(), K1.to_vec()] },
        &V1.to_vec(),
        &MerkleProof { proofs: vec![CommitmentProof::Exist(proof_k1())] },
    );
    assert_eq!(result, Err(ProofError::MalformedProof));
}

#[test]
fn membership_with_bad_leaf_prefix_is_malformed() {
    let mut p = proof_k1();
    p.leaf_prefix = vec![7];
    let result = verify_membership(
        &store_root(),
        &single_path(K1),
        &V1.to_vec(),
        &MerkleProof { proofs: vec![CommitmentProof::Exist(p)] },
    );
    assert_eq!(result, Err(ProofError::MalformedProof));
}

/// Two layers: the store root proven a member of an outer store under the
/// key `ibc`, and the pair proven inside the store.
#[test]
fn two_layer_membership_round_trip() {
    let outer_root = leaf_digest(b"ibc", &store_root());
    let outer_proof = ExistenceProof {
        key: b"ibc".to_vec(),
        value: store_root(),
        leaf_prefix: vec![0],
        path: Vec::new(),
    };
    let result = verify_membership(
        &outer_root,
        &MerklePath { key_path: vec![b"ibc".to_vec(), K1.to_vec()] },
        &V1.to_vec(),
        &MerkleProof {
            proofs: vec![
                CommitmentProof::Exist(proof_k1()),
                CommitmentProof::Exist(outer_proof),
            ],
        },
    );
    assert_eq!(result, Ok(()));
}

#[test]
fn non_membership_of_absent_key_succeeds() {
    let np = NonExistenceProof {
        key: b"k15".to_vec(),
        left: Some(proof_k1()),
        right: Some(proof_k2()),
    };
    let result = verify_non_membership(
        &store_root(),
        &single_path(b"k15"),
        &MerkleProof { proofs: vec![CommitmentProof::NonExist(np)] },
    );
    assert_eq!(result, Ok(()));
}

#[test]
fn non_membership_of_present_key_fails() {
    let np = NonExistenceProof {
        key: K2.to_vec(),
        left: Some(proof_k1()),
        right: Some(proof_k2()),
    };
    let result = verify_non_membership(
        &store_root(),
        &single_path(K2),
        &MerkleProof { proofs: vec![CommitmentProof::NonExist(np)] },
    );
    assert_eq!(result, Err(ProofError::Invalid));
}

#[test]
fn non_membership_with_no_neighbours_is_malformed() {
    let np = NonExistenceProof { key: b"k15".to_vec(), left: None, right: None };
    let result = verify_non_membership(
        &store_root(),
        &single_path(b"k15"),
        &MerkleProof { proofs: vec![CommitmentProof::NonExist(np)] },
    );
    assert_eq!(result, Err(ProofError::MalformedProof));
}

#[test]
fn empty_batch_is_rejected() {
    let result = membership(store_root(), &Vec::new());
    assert_eq!(result.unwrap_err(), ProofError::EmptyBatch);
}

/// A batch mixing one membership and one non-membership claim verifies, and
/// the record echoes the root and the claimed pairs in order.
#[test]
fn batched_membership_output_record() {
    let queries = vec![
        MembershipQuery {
            path: single_path(K1),
            value: V1.to_vec(),
            proof: MerkleProof { proofs: vec![CommitmentProof::Exist(proof_k1())] },
        },
        MembershipQuery {
            path: single_path(b"k15"),
            value: Vec::new(),
            proof: MerkleProof {
                proofs: vec![CommitmentProof::NonExist(NonExistenceProof {
                    key: b"k15".to_vec(),
                    left: Some(proof_k1()),
                    right: Some(proof_k2()),
                })],
            },
        },
    ];
    let output = membership(store_root(), &queries).expect("batch verifies");
    assert_eq!(output.commitment_root, store_root());
    assert_eq!(output.kv_pairs.len(), 2);
    assert_eq!(output.kv_pairs[0].path, vec![K1.to_vec()]);
    assert_eq!(output.kv_pairs[0].value, V1.to_vec());
    assert_eq!(output.kv_pairs[1].path, vec![b"k15".to_vec()]);
    assert_eq!(output.kv_pairs[1].value, Vec::<u8>::new());
}

fn mk_signing_key(seed: u8) -> ed25519_consensus::SigningKey {
    ed25519_consensus::SigningKey::from([seed; 32])
}

fn mk_validator_set(members: &[(u8, u64)]) -> ValidatorSet {
    ValidatorSet {
        validators: members
            .iter()
            .map(|&(s, p)| Validator {
                address: vec![s; 20],
                pub_key: mk_signing_key(s).verification_key().to_bytes().to_vec(),
                power: p,
            })
            .collect(),
    }
}

/// A valid header at height 150 over an unchanged set, with the given
/// application hash.
fn mk_header(app_hash: Vec<u8>) -> Header {
    let members = [(1, 25), (2, 25), (3, 25), (4, 25)];
    let chain: Vec<u8> = b"testchain-1".to_vec();
    let vset = mk_validator_set(&members);
    let vh = vset.hash();
    let block_hash = vec![0xBB; 32];
    let part_set_hash = vec![0xCC; 32];
    let time = T0 + 100 * SECOND;
    let signatures = [1u8, 2, 3]
        .iter()
        .map(|&seed| {
            let msg = sign_bytes(&chain, 150, 0, &block_hash, 1, &part_set_hash, time);
            CommitSig {
                is_commit: true,
                validator_address: vec![seed; 20],
                timestamp: time,
                signature: mk_signing_key(seed).sign(&msg).to_bytes().to_vec(),
            }
        })
        .collect();
    Header {
        signed_header: SignedHeader {
            chain_id: chain,
            height: 150,
            time,
            round: 0,
            app_hash,
            validators_hash: vh.clone(),
            next_validators_hash: vh,
            block_hash,
            part_set_total: 1,
            part_set_hash,
            signatures,
        },
        validator_set: mk_validator_set(&members),
        trusted_height: Height::new(1, 100),
        trusted_next_validator_set: mk_validator_set(&members),
    }
}

fn mk_trusted(root: Vec<u8>) -> ConsensusState {
    ConsensusState {
        timestamp: T0,
        root,
        next_validators_hash: mk_validator_set(&[(1, 25), (2, 25), (3, 25), (4, 25)]).hash(),
    }
}

fn mk_env() -> Env {
    Env {
        chain_id: b"testchain-1".to_vec(),
        trust_threshold: TrustThreshold::new(1, 3),
        trusting_period: 14 * 24 * 3600,
        now: T0 + 101 * SECOND,
    }
}

fn mk_query() -> MembershipQuery {
    MembershipQuery {
        path: single_path(K1),
        value: V1.to_vec(),
        proof: MerkleProof { proofs: vec![CommitmentProof::Exist(proof_k1())] },
    }
}

/// The combined mode succeeds when the batch verifies against the new
/// header's own application hash, and its record carries that hash as the
/// new root.
#[test]
fn uc_and_membership_against_new_root_succeeds() {
    let header = mk_header(store_root());
    let trusted = mk_trusted(vec![0xAA; 32]);
    let output =
        update_client_and_membership(trusted, &header, mk_env(), &vec![mk_query()])
            .expect("combined mode verifies");
    assert_eq!(output.update_client_output.new_consensus_state.root, store_root());
    assert_eq!(output.kv_pairs.len(), 1);
    assert_eq!(output.kv_pairs[0].value, V1.to_vec());
}

/// A proof valid against the previously trusted root but not against the
/// new header's application hash must fail: membership is checked against
/// the header introduced in the same call.
#[test]
fn uc_and_membership_rejects_proof_against_old_root() {
    let header = mk_header(vec![0xA1; 32]);
    let trusted = mk_trusted(store_root());
    let result = update_client_and_membership(trusted, &header, mk_env(), &vec![mk_query()]);
    assert_eq!(result.unwrap_err(), UcAndMembershipError::Proof(ProofError::Invalid));
}

/// A rejected header transition fails the combined mode before any proof is
/// looked at.
#[test]
fn uc_and_membership_rejects_bad_header() {
    let mut header = mk_header(store_root());
    header.signed_header.height = 100;
    let trusted = mk_trusted(vec![0xAA; 32]);
    let result = update_client_and_membership(trusted, &header, mk_env(), &vec![mk_query()]);
    assert_eq!(
        result.unwrap_err(),
        UcAndMembershipError::Client(ics07_tendermint::errors::VerifyError::NonMonotonicHeight)
    );
}

/// A three-leaf store: `k1` and `k2` under one inner node, `k3` beside it.
fn leaf3(n: u8) -> Vec<u8> {
    match n {
        1 => leaf_digest(b"k1", b"one"),
        2 => leaf_digest(b"k2", b"two"),
        _ => leaf_digest(b"k3", b"three"),
    }
}

fn node_a() -> Vec<u8> {
    let mut m = vec![1, 2, 3, 4];
    m.extend_from_slice(&leaf3(1));
    m.push(0xBB);
    m.extend_from_slice(&leaf3(2));
    sha(&m)
}

fn root3() -> Vec<u8> {
    let mut m = vec![1, 2, 3, 4];
    m.extend_from_slice(&node_a());
    m.push(0xAA);
    m.extend_from_slice(&leaf3(3));
    sha(&m)
}

/// The inner step from the left pair up to the root.
fn op_root_left() -> InnerOp {
    let mut suffix = vec![0xAA];
    suffix.extend_from_slice(&leaf3(3));
    InnerOp { prefix: vec![1, 2, 3, 4], suffix }
}

fn proof3_k1() -> ExistenceProof {
    let mut suffix = vec![0xBB];
    suffix.extend_from_slice(&leaf3(2));
    ExistenceProof {
        key: b"k1".to_vec(),
        value: b"one".to_vec(),
        leaf_prefix: vec![0],
        path: vec![InnerOp { prefix: vec![1, 2, 3, 4], suffix }, op_root_left()],
    }
}

fn proof3_k2() -> ExistenceProof {
    let mut prefix = vec![1, 2, 3, 4];
    prefix.extend_from_slice(&leaf3(1));
    prefix.push(0xBB);
    ExistenceProof {
        key: b"k2".to_vec(),
        value: b"two".to_vec(),
        leaf_prefix: vec![0],
        path: vec![InnerOp { prefix, suffix: Vec::new() }, op_root_left()],
    }
}

fn proof3_k3() -> ExistenceProof {
    let mut prefix = vec![1, 2, 3, 4];
    prefix.extend_from_slice(&node_a());
    prefix.push(0xAA);
    ExistenceProof {
        key: b"k3".to_vec(),
        value: b"three".to_vec(),
        leaf_prefix: vec![0],
        path: vec![InnerOp { prefix, suffix: Vec::new() }],
    }
}

fn non_exist(key: &[u8], left: Option<ExistenceProof>, right: Option<ExistenceProof>) -> MerkleProof {
    MerkleProof {
        proofs: vec![CommitmentProof::NonExist(NonExistenceProof {
            key: key.to_vec(),
            left,
            right,
        })],
    }
}

/// Two valid existence proofs that bracket a key cannot prove it absent
/// when a leaf lies between them: `k2` is present between `k1` and `k3`.
#[test]
fn non_membership_of_bracketed_present_key_fails() {
    let result = verify_non_membership(
        &root3(),
        &single_path(b"k2"),
        &non_exist(b"k2", Some(proof3_k1()), Some(proof3_k3())),
    );
    assert_eq!(result, Err(ProofError::Invalid));
    let result = verify_non_membership(
        &root3(),
        &single_path(b"k11"),
        &non_exist(b"k11", Some(proof3_k1()), Some(proof3_k3())),
    );
    assert_eq!(result, Err(ProofError::Invalid));
}

/// Keys between adjacent leaves are proven absent, across either of the
/// tree's two adjacent pairs.
#[test]
fn non_membership_between_adjacent_leaves_succeeds() {
    let result = verify_non_membership(
        &root3(),
        &single_path(b"k15"),
        &non_exist(b"k15", Some(proof3_k1()), Some(proof3_k2())),
    );
    assert_eq!(result, Ok(()));
    let result = verify_non_membership(
        &root3(),
        &single_path(b"k25"),
        &non_exist(b"k25", Some(proof3_k2()), Some(proof3_k3())),
    );
    assert_eq!(result, Ok(()));
}

/// A key below every leaf is proven absent by the left-most leaf alone; a
/// key above every leaf by the right-most leaf alone.
#[test]
fn non_membership_beyond_the_ends_succeeds() {
    let result = verify_non_membership(
        &root3(),
        &single_path(b"k0"),
        &non_exist(b"k0", None, Some(proof3_k1())),
    );
    assert_eq!(result, Ok(()));
    let result = verify_non_membership(
        &root3(),
        &single_path(b"k9"),
        &non_exist(b"k9", Some(proof3_k3()), None),
    );
    assert_eq!(result, Ok(()));
}

/// A sole neighbour that is not the tree's outermost leaf proves nothing:
/// a leaf beyond it could carry the key.
#[test]
fn non_membership_with_inner_sole_neighbour_fails() {
    let result = verify_non_membership(
        &root3(),
        &single_path(b"k0"),
        &non_exist(b"k0", None, Some(proof3_k2())),
    );
    assert_eq!(result, Err(ProofError::Invalid));
    let result = verify_non_membership(
        &root3(),
        &single_path(b"k9"),
        &non_exist(b"k9", Some(proof3_k2()), None),
    );
    assert_eq!(result, Err(ProofError::Invalid));
}
