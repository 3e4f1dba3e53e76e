//! Unit tests for the small pieces: heights, thresholds, byte encodings,
//! hashing, and the request parsers.

use ics07_tendermint::bytes::{bytes_eq, bytes_lt};
use ics07_tendermint::cli::{parse_output_path, parse_trust_threshold, OutputPath};
use ics07_tendermint::hash::{inner_hash, leaf_hash, merkle_root, sha256};
use ics07_tendermint::height::Height;
use ics07_tendermint::programs::SupportedProofType;
use ics07_tendermint::types::{ConsensusState, TrustThreshold};
use ics07_tendermint::validators::{Validator, ValidatorSet};

#[test]
fn height_ordering_is_lexicographic() {
    let a = Height::new(1, 100);
    assert!(a.lt(&Height::new(1, 101)));
    assert!(a.lt(&Height::new(2, 1)));
    assert!(!a.lt(&Height::new(1, 100)));
    assert!(!a.lt(&Height::new(1, 99)));
    assert!(!a.lt(&Height::new(0, 200)));
}

#[test]
fn trust_threshold_validity() {
    assert!(TrustThreshold::new(1, 3).is_valid());
    assert!(TrustThreshold::new(3, 3).is_valid());
    assert!(!TrustThreshold::new(0, 3).is_valid());
    assert!(!TrustThreshold::new(4, 3).is_valid());
    assert!(!TrustThreshold::new(1, 0).is_valid());
    assert_eq!(TrustThreshold::default(), TrustThreshold::new(1, 3));
}

#[test]
fn consensus_state_well_formedness() {
    let good = ConsensusState::new(1, vec![0; 32], vec![0; 32]);
    assert!(good.is_well_formed());
    let bad = ConsensusState::new(1, vec![0; 31], vec![0; 32]);
    assert!(!bad.is_well_formed());
}

#[test]
fn sha256_known_digest() {
    assert_eq!(
        hex::encode(sha256(&Vec::new())),
        "e3b0c44298fc1c149afbf4c8996fb92427ae41e4649b934ca495991b7852b855"
    );
    assert_eq!(
        hex::encode(sha256(&b"abc".to_vec())),
        "ba7816bf8f01cfea414140de5dae2223b00361a396177a9cb410ff61f20015ad"
    );
}

fn sha(data: &[u8]) -> Vec<u8> {
    <sha2::Sha256 as sha2::Digest>::digest(data).to_vec()
}

#[test]
fn merkle_hashing_matches_domain_prefixes() {
    let item = b"payload".to_vec();
    let mut leaf_bytes = vec![0u8];
    leaf_bytes.extend_from_slice(&item);
    assert_eq!(leaf_hash(&item), sha(&leaf_bytes));
    let left = vec![1u8; 32];
    let right = vec![2u8; 32];
    let mut inner_bytes = vec![1u8];
    inner_bytes.extend_from_slice(&left);
    inner_bytes.extend_from_slice(&right);
    assert_eq!(inner_hash(&left, &right), sha(&inner_bytes));
    assert_eq!(merkle_root(&vec![item.clone()]), leaf_hash(&item));
    assert_eq!(
        merkle_root(&vec![b"a".to_vec(), b"b".to_vec()]),
        inner_hash(&leaf_hash(&b"a".to_vec()), &leaf_hash(&b"b".to_vec()))
    );
}

/// Three items split one-then-two... the left subtree takes the largest
/// power of two below the count, here two of three.
#[test]
fn merkle_root_of_three_items() {
    let items = vec![b"a".to_vec(), b"b".to_vec(), b"c".to_vec()];
    let expected = inner_hash(
        &inner_hash(&leaf_hash(&items[0]), &leaf_hash(&items[1])),
        &leaf_hash(&items[2]),
    );
    assert_eq!(merkle_root(&items), expected);
}

#[test]
fn validator_set_hash_changes_with_power() {
    let set_a = ValidatorSet {
        validators: vec![Validator { address: vec![1; 20], pub_key: vec![7; 32], power: 10 }],
    };
    let set_b = ValidatorSet {
        validators: vec![Validator { address: vec![1; 20], pub_key: vec![7; 32], power: 11 }],
    };
    assert_eq!(set_a.hash().len(), 32);
    assert_ne!(set_a.hash(), set_b.hash());
    assert_eq!(set_a.total_power(), 10);
    assert!(set_a.is_well_formed());
}

#[test]
fn duplicate_validator_addresses_are_ill_formed() {
    let set = ValidatorSet {
        validators: vec![
            Validator { address: vec![1; 20], pub_key: vec![7; 32], power: 10 },
            Validator { address: vec![1; 20], pub_key: vec![8; 32], power: 11 },
        ],
    };
    assert!(!set.is_well_formed());
}

#[test]
fn byte_comparisons() {
    assert!(bytes_lt(&b"k1".to_vec(), &b"k15".to_vec()));
    assert!(bytes_lt(&b"k15".to_vec(), &b"k2".to_vec()));
    assert!(!bytes_lt(&b"k2".to_vec(), &b"k2".to_vec()));
    assert!(bytes_eq(&b"k2".to_vec(), &b"k2".to_vec()));
    assert!(!bytes_eq(&b"k2".to_vec(), &b"k3".to_vec()));
}

#[test]
fn varint_encoding_of_three_hundred() {
    let mut out: Vec<u8> = Vec::new();
    ics07_tendermint::bytes::push_varint(&mut out, 300);
    assert_eq!(out, vec![0xAC, 0x02]);
    let mut out: Vec<u8> = Vec::new();
    ics07_tendermint::bytes::push_varint(&mut out, 0);
    assert_eq!(out, vec![0x00]);
}

#[test]
fn output_path_parsing() {
    assert!(matches!(parse_output_path("-"), OutputPath::Stdout));
    match parse_output_path("out.json") {
        OutputPath::File(f) => assert_eq!(f, "out.json"),
        OutputPath::Stdout => panic!("expected a file path"),
    }
}

#[test]
fn trust_threshold_parsing() {
    assert_eq!(parse_trust_threshold("1/3"), Some(TrustThreshold::new(1, 3)));
    assert_eq!(parse_trust_threshold("2/3"), Some(TrustThreshold::new(2, 3)));
    assert_eq!(parse_trust_threshold("3/3"), Some(TrustThreshold::new(3, 3)));
    assert_eq!(parse_trust_threshold("4/3"), None);
    assert_eq!(parse_trust_threshold("0/3"), None);
    assert_eq!(parse_trust_threshold("13"), None);
    assert_eq!(parse_trust_threshold("a/3"), None);
    assert_eq!(parse_trust_threshold("1/"), None);
    assert_eq!(parse_trust_threshold("/3"), None);
}

/// ASCII whitespace around either part of the fraction is ignored; inner
/// whitespace is not.
#[test]
fn trust_threshold_parsing_trims_whitespace() {
    assert_eq!(parse_trust_threshold(" 1/3"), Some(TrustThreshold::new(1, 3)));
    assert_eq!(parse_trust_threshold("1 / 3"), Some(TrustThreshold::new(1, 3)));
    assert_eq!(parse_trust_threshold("\t2/3 \n"), Some(TrustThreshold::new(2, 3)));
    assert_eq!(parse_trust_threshold(" / 3"), None);
    assert_eq!(parse_trust_threshold("1 1/3"), None);
}

#[test]
fn proof_type_codes() {
    assert_eq!(SupportedProofType::try_from(0), Some(SupportedProofType::Groth16));
    assert_eq!(SupportedProofType::try_from(1), Some(SupportedProofType::Plonk));
    assert_eq!(SupportedProofType::try_from(2), None);
}

#[test]
fn base64_decoding() {
    let dec = ics07_tendermint::keypath::base64_decode;
    assert_eq!(dec(&b"aWJj".to_vec()), Some(b"ibc".to_vec()));
    assert_eq!(dec(&b"aGVsbG8=".to_vec()), Some(b"hello".to_vec()));
    assert_eq!(dec(&b"aQ==".to_vec()), Some(b"i".to_vec()));
    assert_eq!(dec(&Vec::new()), Some(Vec::new()));
    assert_eq!(dec(&b"a".to_vec()), None);
    assert_eq!(dec(&b"aGVsbG8".to_vec()), None);
    assert_eq!(dec(&b"aR==".to_vec()), None);
    assert_eq!(dec(&b"####".to_vec()), None);
}

#[test]
fn key_path_construction() {
    let plain = ics07_tendermint::keypath::build_key_path(&b"clients/x".to_vec(), false);
    assert_eq!(plain, Some(vec![b"ibc".to_vec(), b"clients/x".to_vec()]));
    let encoded = ics07_tendermint::keypath::build_key_path(&b"aWJj\\a2V5".to_vec(), true);
    assert_eq!(encoded, Some(vec![b"ibc".to_vec(), b"key".to_vec()]));
    let bad = ics07_tendermint::keypath::build_key_path(&b"aWJj\\a2V".to_vec(), true);
    assert_eq!(bad, None);
}

#[test]
fn byte_splitting() {
    assert_eq!(
        ics07_tendermint::keypath::split_bytes(&b"a\\bc\\".to_vec(), 92),
        vec![b"a".to_vec(), b"bc".to_vec(), Vec::new()]
    );
    assert_eq!(
        ics07_tendermint::keypath::split_bytes(&b"abc".to_vec(), 92),
        vec![b"abc".to_vec()]
    );
}

/// The canonical precommit sign bytes, checked byte for byte: the vote
/// type, the height word, the block identifier with its part-set header,
/// the signing time, and the chain identifier, behind a length prefix.
#[test]
fn sign_bytes_exact_encoding() {
    let out = ics07_tendermint::header::sign_bytes(
        &vec![65, 66],
        1,
        0,
        &vec![0x11; 32],
        1,
        &vec![0x22; 32],
        2,
    );
    let mut expected = vec![93u8];
    expected.extend_from_slice(&[0x08, 0x02]);
    expected.extend_from_slice(&[0x11, 1, 0, 0, 0, 0, 0, 0, 0]);
    expected.extend_from_slice(&[0x22, 72]);
    expected.push(0x0a);
    expected.push(32);
    expected.extend_from_slice(&[0x11; 32]);
    expected.extend_from_slice(&[0x12, 36, 0x08, 0x01, 0x12, 32]);
    expected.extend_from_slice(&[0x22; 32]);
    expected.extend_from_slice(&[0x2a, 2, 0x10, 0x02]);
    expected.extend_from_slice(&[0x32, 2, 65, 66]);
    assert_eq!(out, expected);
}
