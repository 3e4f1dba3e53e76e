//! The commitment proof verifier: ICS-23-style Merkle (non-)membership
//! proofs checked against a commitment root and a hierarchical key path.
//!
//! A key path is ordered outermost store first; the proof holds one layer
//! per path segment, innermost first.  Each layer is an existence proof
//! (a leaf commitment and a chain of inner-node hashes) or, for the
//! innermost layer of a non-membership proof, the absent key's would-be
//! neighbours: existence proofs of adjacent leaves bracketing the key, or
//! of the tree's outermost leaf when the key would fall beyond one end.
//! Layer `i`'s computed root must reappear as the value proven by layer
//! `i + 1`; the outermost root must equal the commitment root.
//!
//! The hashing conventions are those of the Cosmos IAVL stores: a leaf is
//! the SHA-256 of a one-byte `0x00` prefix, the varint-length-prefixed key,
//! and the varint-length-prefixed SHA-256 of the value; an inner node is
//! the SHA-256 of its prefix, the child hash, and its suffix, with a prefix
//! of 4 to 45 bytes and a suffix that is empty or one 33-byte child.

use vstd::prelude::*;

use crate::bytes::{bytes_eq, bytes_lt, push_bytes, push_varint, spec_bytes_lt, spec_varint};
use crate::errors::ProofError;
use crate::hash::{sha256, sha256_of};

verus! {

/// One inner node of an existence proof: the bytes around the child hash.
#[derive(Debug)]
pub struct InnerOp {
    /// Bytes hashed before the child hash.
    pub prefix: Vec<u8>,
    /// Bytes hashed after the child hash.
    pub suffix: Vec<u8>,
}

/// Mathematical model of an [`InnerOp`].
#[verifier::ext_equal]
pub struct InnerOpView {
    /// Bytes hashed before the child hash.
    pub prefix: Seq<u8>,
    /// Bytes hashed after the child hash.
    pub suffix: Seq<u8>,
}

impl View for InnerOp {
    type V = InnerOpView;

    open spec fn view(&self) -> InnerOpView {
        InnerOpView { prefix: self.prefix@, suffix: self.suffix@ }
    }
}

impl DeepView for InnerOp {
    type V = InnerOpView;

    open spec fn deep_view(&self) -> InnerOpView {
        self@
    }
}

/// A proof that a key holds a value in one Merkle store: the leaf
/// commitment and the inner nodes up to the store's root.
#[derive(Debug)]
pub struct ExistenceProof {
    /// The key proven present.
    pub key: Vec<u8>,
    /// The value proven for the key.
    pub value: Vec<u8>,
    /// The leaf node's domain prefix.
    pub leaf_prefix: Vec<u8>,
    /// The inner nodes, leaf end first.
    pub path: Vec<InnerOp>,
}

/// Mathematical model of an [`ExistenceProof`].
pub struct ExistenceProofView {
    /// The key proven present.
    pub key: Seq<u8>,
    /// The value proven for the key.
    pub value: Seq<u8>,
    /// The leaf node's domain prefix.
    pub leaf_prefix: Seq<u8>,
    /// The inner nodes, leaf end first.
    pub path: Seq<InnerOpView>,
}

impl View for ExistenceProof {
    type V = ExistenceProofView;

    open spec fn view(&self) -> ExistenceProofView {
        ExistenceProofView {
            key: self.key@,
            value: self.value@,
            leaf_prefix: self.leaf_prefix@,
            path: self.path.deep_view(),
        }
    }
}

/// A proof that a key is absent from one Merkle store: its would-be
/// neighbours, present and ordered around it.
#[derive(Debug)]
pub struct NonExistenceProof {
    /// The key proven absent.
    pub key: Vec<u8>,
    /// The largest present key below `key`, if any.
    pub left: Option<ExistenceProof>,
    /// The smallest present key above `key`, if any.
    pub right: Option<ExistenceProof>,
}

/// Mathematical model of a [`NonExistenceProof`].
pub struct NonExistenceProofView {
    /// The key proven absent.
    pub key: Seq<u8>,
    /// The largest present key below `key`, if any.
    pub left: Option<ExistenceProofView>,
    /// The smallest present key above `key`, if any.
    pub right: Option<ExistenceProofView>,
}

impl View for NonExistenceProof {
    type V = NonExistenceProofView;

    open spec fn view(&self) -> NonExistenceProofView {
        NonExistenceProofView {
            key: self.key@,
            left: match self.left {
                Some(p) => Some(p@),
                None => None,
            },
            right: match self.right {
                Some(p) => Some(p@),
                None => None,
            },
        }
    }
}

/// One layer of a commitment proof.
#[derive(Debug)]
pub enum CommitmentProof {
    /// A membership layer.
    Exist(ExistenceProof),
    /// A non-membership layer.
    NonExist(NonExistenceProof),
}

/// Mathematical model of a [`CommitmentProof`].
pub enum CommitmentProofView {
    /// A membership layer.
    Exist(ExistenceProofView),
    /// A non-membership layer.
    NonExist(NonExistenceProofView),
}

impl View for CommitmentProof {
    type V = CommitmentProofView;

    open spec fn view(&self) -> CommitmentProofView {
        match self {
            CommitmentProof::Exist(p) => CommitmentProofView::Exist(p@),
            CommitmentProof::NonExist(p) => CommitmentProofView::NonExist(p@),
        }
    }
}

impl DeepView for CommitmentProof {
    type V = CommitmentProofView;

    open spec fn deep_view(&self) -> CommitmentProofView {
        self@
    }
}

/// An ordered sequence of per-layer commitment proofs, innermost first.
#[derive(Debug)]
pub struct MerkleProof {
    /// The layer proofs.
    pub proofs: Vec<CommitmentProof>,
}

impl View for MerkleProof {
    type V = Seq<CommitmentProofView>;

    open spec fn view(&self) -> Seq<CommitmentProofView> {
        self.proofs.deep_view()
    }
}

/// An ordered sequence of store keys, outermost store first.
#[derive(Debug)]
pub struct MerklePath {
    /// The raw byte keys.
    pub key_path: Vec<Vec<u8>>,
}

impl View for MerklePath {
    type V = Seq<Seq<u8>>;

    open spec fn view(&self) -> Seq<Seq<u8>> {
        self.key_path.deep_view()
    }
}

/// The hash an existence proof's leaf commits to.
pub open spec fn spec_leaf_digest(p: ExistenceProofView) -> Seq<u8> {
    sha256_of(
        p.leaf_prefix + spec_varint(p.key.len()) + p.key + spec_varint(32) + sha256_of(p.value),
    )
}

/// Folds the inner nodes over a child hash, leaf end first.
pub open spec fn spec_apply_inner(h: Seq<u8>, path: Seq<InnerOpView>) -> Seq<u8>
    decreases path.len(),
{
    if path.len() == 0 {
        h
    } else {
        spec_apply_inner(sha256_of(path[0].prefix + h + path[0].suffix), path.drop_first())
    }
}

/// The store root an existence proof commits to.
pub open spec fn spec_exist_root(p: ExistenceProofView) -> Seq<u8> {
    spec_apply_inner(spec_leaf_digest(p), p.path)
}

/// Structural validity of one inner node, per the Cosmos store shape: a
/// prefix of 4 to 45 bytes that cannot collide with a leaf's `0x00` domain
/// byte, and a suffix that is absent or one 33-byte child.
pub open spec fn spec_inner_op_wf(op: InnerOpView) -> bool {
    &&& 4 <= op.prefix.len() <= 45
    &&& op.prefix[0] != 0
    &&& (op.suffix.len() == 0 || op.suffix.len() == 33)
}

/// Structural validity of an existence proof: a non-empty key, the one-byte
/// `0x00` leaf domain prefix, and well-formed inner nodes.
pub open spec fn spec_exist_wf(p: ExistenceProofView) -> bool {
    &&& p.key.len() > 0
    &&& p.leaf_prefix == seq![0u8]
    &&& forall|i: int| 0 <= i < p.path.len() ==> spec_inner_op_wf(#[trigger] p.path[i])
}

/// Whether an inner node records descent into the left child: the child
/// hash is followed by the sibling as a 33-byte suffix, behind the node's
/// own 4-to-12-byte prefix.
pub open spec fn spec_left_step(op: InnerOpView) -> bool {
    4 <= op.prefix.len() <= 12 && op.suffix.len() == 33
}

/// Whether an inner node records descent into the right child: the sibling
/// sits at the end of the prefix, which grows by one 33-byte child, and no
/// suffix follows.
pub open spec fn spec_right_step(op: InnerOpView) -> bool {
    37 <= op.prefix.len() <= 45 && op.suffix.len() == 0
}

/// Whether a path descends into the left child at every level: its leaf is
/// the left-most leaf of the tree.
pub open spec fn spec_all_left(path: Seq<InnerOpView>) -> bool {
    forall|i: int| 0 <= i < path.len() ==> spec_left_step(#[trigger] path[i])
}

/// Whether a path descends into the right child at every level: its leaf is
/// the right-most leaf of the tree.
pub open spec fn spec_all_right(path: Seq<InnerOpView>) -> bool {
    forall|i: int| 0 <= i < path.len() ==> spec_right_step(#[trigger] path[i])
}

/// Whether two leaf paths, leaf end first, belong to adjacent leaves: the
/// paths coincide above some divergence node; there the left leaf descends
/// into the left child and the right leaf into the right child; below it
/// the left path keeps right and the right path keeps left.  No leaf can
/// then lie between the two.
pub open spec fn spec_adjacent_paths(lp: Seq<InnerOpView>, rp: Seq<InnerOpView>) -> bool
    decreases lp.len(),
{
    if lp.len() == 0 || rp.len() == 0 {
        false
    } else if lp.last() == rp.last() {
        spec_adjacent_paths(lp.drop_last(), rp.drop_last())
    } else {
        &&& spec_left_step(lp.last())
        &&& spec_right_step(rp.last())
        &&& spec_all_right(lp.drop_last())
        &&& spec_all_left(rp.drop_last())
    }
}

/// Checks the layers of a membership proof from layer `i` outward: each
/// must be a well-formed existence proof for the matching path segment
/// (innermost segment last in the path) whose proven value is the previous
/// layer's computed root, carried in `value`; the outermost computed root
/// must equal `root`.
pub open spec fn spec_layers(
    root: Seq<u8>,
    path: Seq<Seq<u8>>,
    value: Seq<u8>,
    proofs: Seq<CommitmentProofView>,
    i: nat,
) -> Result<(), ProofError>
    decreases proofs.len() - i,
    when i <= proofs.len() == path.len()
{
    if i == proofs.len() {
        if value == root {
            Ok(())
        } else {
            Err(ProofError::Invalid)
        }
    } else {
        match proofs[i as int] {
            CommitmentProofView::NonExist(_) => Err(ProofError::MalformedProof),
            CommitmentProofView::Exist(p) => {
                if !spec_exist_wf(p) {
                    Err(ProofError::MalformedProof)
                } else if p.key != path[path.len() - 1 - i] {
                    Err(ProofError::Invalid)
                } else if p.value != value {
                    Err(ProofError::Invalid)
                } else {
                    spec_layers(root, path, spec_exist_root(p), proofs, i + 1)
                }
            },
        }
    }
}

/// The membership rule: one layer per path segment, at least one segment,
/// every layer an existence proof, chained from the given value up to the
/// commitment root.
pub open spec fn spec_verify_membership(
    root: Seq<u8>,
    path: Seq<Seq<u8>>,
    value: Seq<u8>,
    proofs: Seq<CommitmentProofView>,
) -> Result<(), ProofError> {
    if path.len() == 0 || proofs.len() != path.len() {
        Err(ProofError::MalformedProof)
    } else {
        spec_layers(root, path, value, proofs, 0)
    }
}

/// The root the innermost non-membership layer commits to: the root proven
/// by its left neighbour, or by its right one when no left neighbour
/// exists.
pub open spec fn spec_non_exist_subroot(np: NonExistenceProofView) -> Seq<u8> {
    match np.left {
        Some(l) => spec_exist_root(l),
        None => match np.right {
            Some(r) => spec_exist_root(r),
            None => Seq::empty(),
        },
    }
}

/// The non-membership rule for the innermost layer: at least one
/// well-formed neighbour; neighbours strictly bracket the absent key; both
/// neighbours (when present) commit to the same store root and are
/// adjacent leaves of it; a sole right neighbour is the tree's left-most
/// leaf, a sole left neighbour its right-most, so in every case no leaf
/// can carry the key.  The outer layers then prove that store root a
/// member under the remaining path.
pub open spec fn spec_verify_non_membership(
    root: Seq<u8>,
    path: Seq<Seq<u8>>,
    proofs: Seq<CommitmentProofView>,
) -> Result<(), ProofError> {
    if path.len() == 0 || proofs.len() != path.len() {
        Err(ProofError::MalformedProof)
    } else {
        match proofs[0] {
            CommitmentProofView::Exist(_) => Err(ProofError::MalformedProof),
            CommitmentProofView::NonExist(np) => {
                if np.left is None && np.right is None {
                    Err(ProofError::MalformedProof)
                } else if match np.left {
                    Some(l) => !spec_exist_wf(l),
                    None => false,
                } {
                    Err(ProofError::MalformedProof)
                } else if match np.right {
                    Some(r) => !spec_exist_wf(r),
                    None => false,
                } {
                    Err(ProofError::MalformedProof)
                } else if np.key != path[path.len() - 1] {
                    Err(ProofError::Invalid)
                } else if match np.left {
                    Some(l) => !spec_bytes_lt(l.key, np.key),
                    None => false,
                } {
                    Err(ProofError::Invalid)
                } else if match np.right {
                    Some(r) => !spec_bytes_lt(np.key, r.key),
                    None => false,
                } {
                    Err(ProofError::Invalid)
                } else if match (np.left, np.right) {
                    (Some(l), Some(r)) => spec_exist_root(r) != spec_exist_root(l),
                    _ => false,
                } {
                    Err(ProofError::Invalid)
                } else if match (np.left, np.right) {
                    (Some(l), Some(r)) => !spec_adjacent_paths(l.path, r.path),
                    _ => false,
                } {
                    Err(ProofError::Invalid)
                } else if match (np.left, np.right) {
                    (None, Some(r)) => !spec_all_left(r.path),
                    _ => false,
                } {
                    Err(ProofError::Invalid)
                } else if match (np.left, np.right) {
                    (Some(l), None) => !spec_all_right(l.path),
                    _ => false,
                } {
                    Err(ProofError::Invalid)
                } else {
                    spec_layers(root, path, spec_non_exist_subroot(np), proofs, 1)
                }
            },
        }
    }
}

/// Computes the store root an existence proof commits to.
pub fn calc_exist_root(p: &ExistenceProof) -> (r: Vec<u8>)
    ensures
        r@ == spec_exist_root(p@),
        r@.len() == 32,
{
    let value_hash = sha256(&p.value);
    let mut leaf: Vec<u8> = Vec::new();
    push_bytes(&mut leaf, &p.leaf_prefix);
    push_varint(&mut leaf, p.key.len() as u64);
    push_bytes(&mut leaf, &p.key);
    push_varint(&mut leaf, 32);
    push_bytes(&mut leaf, &value_hash);
    assert(leaf@ =~= p@.leaf_prefix + spec_varint(p@.key.len()) + p@.key + spec_varint(32)
        + sha256_of(p@.value));
    let mut h = sha256(&leaf);
    let ghost ops = p@.path;
    let mut i: usize = 0;
    proof {
        assert(ops.skip(0) =~= ops);
    }
    while i < p.path.len()
        invariant
            i <= p.path@.len(),
            ops == p@.path,
            p@.path.len() == p.path@.len(),
            spec_apply_inner(h@, ops.skip(i as int)) == spec_exist_root(p@),
            h@.len() == 32,
        decreases p.path@.len() - i,
    {
        let op = &p.path[i];
        let mut buf: Vec<u8> = Vec::new();
        push_bytes(&mut buf, &op.prefix);
        push_bytes(&mut buf, &h);
        push_bytes(&mut buf, &op.suffix);
        proof {
            assert(ops[i as int] == p.path@[i as int]@);
            assert(buf@ =~= ops[i as int].prefix + h@ + ops[i as int].suffix);
            assert(ops.skip(i as int).drop_first() =~= ops.skip(i + 1));
        }
        h = sha256(&buf);
        i = i + 1;
    }
    proof {
        assert(ops.skip(ops.len() as int) =~= Seq::<InnerOpView>::empty());
    }
    h
}

/// Whether an existence proof is structurally valid.
pub fn exist_proof_wf(p: &ExistenceProof) -> (r: bool)
    ensures
        r == spec_exist_wf(p@),
{
    if p.key.len() == 0 {
        return false;
    }
    if !(p.leaf_prefix.len() == 1 && p.leaf_prefix[0] == 0) {
        proof {
            assert(p@.leaf_prefix == seq![0u8] ==> p@.leaf_prefix.len() == 1 && p@.leaf_prefix[0]
                == 0);
        }
        return false;
    }
    proof {
        assert(p@.leaf_prefix =~= seq![0u8]);
    }
    let mut i: usize = 0;
    while i < p.path.len()
        invariant
            i <= p.path@.len(),
            p@.path.len() == p.path@.len(),
            forall|k: int| 0 <= k < i ==> spec_inner_op_wf(#[trigger] p@.path[k]),
            p@.key.len() > 0,
            p@.leaf_prefix == seq![0u8],
        decreases p.path@.len() - i,
    {
        proof {
            assert(p@.path[i as int] == p.path@[i as int]@);
        }
        let op = &p.path[i];
        if !(4 <= op.prefix.len() && op.prefix.len() <= 45 && op.prefix[0] != 0 && (
        op.suffix.len() == 0 || op.suffix.len() == 33)) {
            return false;
        }
        i = i + 1;
    }
    true
}

/// Verifies that `proof` proves `value` present at `path` under `root`.
/// Succeeds exactly when the layered hash chain from the key/value leaf
/// reaches `root`; a structural defect is `MalformedProof`, a chain that
/// does not reach `root` is `Invalid`.
pub fn verify_membership(
    root: &Vec<u8>,
    path: &MerklePath,
    value: &Vec<u8>,
    proof: &MerkleProof,
) -> (r: Result<(), ProofError>)
    ensures
        r == spec_verify_membership(root@, path@, value@, proof@),
{
    let n = path.key_path.len();
    if n == 0 || proof.proofs.len() != n {
        return Err(ProofError::MalformedProof);
    }
    verify_layers_from(root, path, value, proof, 0)
}

/// Checks the layers of a membership chain from layer `start` outward,
/// expecting `value` as the value proven by layer `start`.
fn verify_layers_from(
    root: &Vec<u8>,
    path: &MerklePath,
    value: &Vec<u8>,
    proof: &MerkleProof,
    start: usize,
) -> (r: Result<(), ProofError>)
    requires
        path@.len() == proof@.len() > 0,
        start <= proof@.len(),
    ensures
        r == spec_layers(root@, path@, value@, proof@, start as nat),
{
    let n = proof.proofs.len();
    proof {
        assert(proof@.len() == proof.proofs@.len());
        assert(path@.len() == path.key_path@.len());
    }
    let mut cur: Vec<u8> = crate::types::clone_bytes(value);
    let mut i: usize = start;
    while i < n
        invariant
            start <= i <= n == proof.proofs@.len() == proof@.len() == path@.len(),
            spec_layers(root@, path@, value@, proof@, start as nat) == spec_layers(
                root@,
                path@,
                cur@,
                proof@,
                i as nat,
            ),
        decreases n - i,
    {
        proof {
            assert(proof@[i as int] == proof.proofs@[i as int]@);
            assert(path@[path@.len() - 1 - i] == path.key_path@[path@.len() - 1 - i]@);
        }
        let layer = &proof.proofs[i];
        let p = match layer {
            CommitmentProof::NonExist(_) => {
                return Err(ProofError::MalformedProof);
            },
            CommitmentProof::Exist(p) => p,
        };
        if !exist_proof_wf(p) {
            return Err(ProofError::MalformedProof);
        }
        if !bytes_eq(&p.key, &path.key_path[n - 1 - i]) {
            return Err(ProofError::Invalid);
        }
        if !bytes_eq(&p.value, &cur) {
            return Err(ProofError::Invalid);
        }
        cur = calc_exist_root(p);
        i = i + 1;
    }
    if bytes_eq(&cur, root) {
        Ok(())
    } else {
        Err(ProofError::Invalid)
    }
}

/// Whether an inner node records descent into the left child.
fn is_left_step(op: &InnerOp) -> (r: bool)
    ensures
        r == spec_left_step(op@),
{
    4 <= op.prefix.len() && op.prefix.len() <= 12 && op.suffix.len() == 33
}

/// Whether an inner node records descent into the right child.
fn is_right_step(op: &InnerOp) -> (r: bool)
    ensures
        r == spec_right_step(op@),
{
    37 <= op.prefix.len() && op.prefix.len() <= 45 && op.suffix.len() == 0
}

/// Whether the first `hi` inner nodes of `path` all descend left.
fn all_left_below(path: &Vec<InnerOp>, hi: usize) -> (r: bool)
    requires
        hi <= path@.len(),
    ensures
        r == spec_all_left(path.deep_view().take(hi as int)),
{
    let ghost pv = path.deep_view().take(hi as int);
    let mut i: usize = 0;
    while i < hi
        invariant
            i <= hi <= path@.len(),
            pv == path.deep_view().take(hi as int),
            forall|k: int| 0 <= k < i ==> spec_left_step(#[trigger] pv[k]),
        decreases hi - i,
    {
        proof {
            assert(pv[i as int] == path@[i as int]@);
        }
        if !is_left_step(&path[i]) {
            return false;
        }
        i = i + 1;
    }
    true
}

/// Whether the first `hi` inner nodes of `path` all descend right.
fn all_right_below(path: &Vec<InnerOp>, hi: usize) -> (r: bool)
    requires
        hi <= path@.len(),
    ensures
        r == spec_all_right(path.deep_view().take(hi as int)),
{
    let ghost pv = path.deep_view().take(hi as int);
    let mut i: usize = 0;
    while i < hi
        invariant
            i <= hi <= path@.len(),
            pv == path.deep_view().take(hi as int),
            forall|k: int| 0 <= k < i ==> spec_right_step(#[trigger] pv[k]),
        decreases hi - i,
    {
        proof {
            assert(pv[i as int] == path@[i as int]@);
        }
        if !is_right_step(&path[i]) {
            return false;
        }
        i = i + 1;
    }
    true
}

/// Whether the two existence proofs' inner paths belong to adjacent leaves.
fn adjacent_paths(lp: &Vec<InnerOp>, rp: &Vec<InnerOp>) -> (r: bool)
    ensures
        r == spec_adjacent_paths(lp.deep_view(), rp.deep_view()),
{
    let ghost lv = lp.deep_view();
    let ghost rv = rp.deep_view();
    let mut i: usize = lp.len();
    let mut j: usize = rp.len();
    proof {
        assert(lv.take(lv.len() as int) =~= lv);
        assert(rv.take(rv.len() as int) =~= rv);
    }
    loop
        invariant
            i <= lv.len() == lp@.len(),
            j <= rv.len() == rp@.len(),
            lv == lp.deep_view(),
            rv == rp.deep_view(),
            spec_adjacent_paths(lv, rv) == spec_adjacent_paths(
                lv.take(i as int),
                rv.take(j as int),
            ),
        decreases i,
    {
        if i == 0 || j == 0 {
            return false;
        }
        let lop = &lp[i - 1];
        let rop = &rp[j - 1];
        proof {
            assert(lv.take(i as int).last() == lv[i - 1]);
            assert(lv[i - 1] == lp@[i - 1]@);
            assert(rv.take(j as int).last() == rv[j - 1]);
            assert(rv[j - 1] == rp@[j - 1]@);
        }
        if bytes_eq(&lop.prefix, &rop.prefix) && bytes_eq(&lop.suffix, &rop.suffix) {
            proof {
                assert(lv[i - 1] =~= rv[j - 1]);
                assert(lv.take(i as int).drop_last() =~= lv.take(i - 1));
                assert(rv.take(j as int).drop_last() =~= rv.take(j - 1));
            }
            i = i - 1;
            j = j - 1;
        } else {
            proof {
                assert(lv[i - 1] != rv[j - 1]) by {
                    if lv[i - 1] == rv[j - 1] {
                        assert(lop@.prefix == rop@.prefix && lop@.suffix == rop@.suffix);
                    }
                }
                assert(lv.take(i as int).drop_last() =~= lv.take(i - 1));
                assert(rv.take(j as int).drop_last() =~= rv.take(j - 1));
            }
            let ok = is_left_step(lop) && is_right_step(rop) && all_right_below(lp, i - 1)
                && all_left_below(rp, j - 1);
            return ok;
        }
    }
}

/// Verifies that `proof` proves the innermost path key absent under
/// `root`: the key's would-be neighbours must be present, ordered around
/// it, adjacent (or the tree's outermost leaf when one side is empty), and
/// committed to a store root that the outer layers prove a member under
/// the rest of the path.
pub fn verify_non_membership(root: &Vec<u8>, path: &MerklePath, proof: &MerkleProof) -> (r: Result<
    (),
    ProofError,
>)
    ensures
        r == spec_verify_non_membership(root@, path@, proof@),
{
    let n = path.key_path.len();
    if n == 0 || proof.proofs.len() != n {
        return Err(ProofError::MalformedProof);
    }
    proof {
        assert(proof@[0] == proof.proofs@[0]@);
        assert(path@[path@.len() - 1] == path.key_path@[path@.len() - 1]@);
    }
    let np = match &proof.proofs[0] {
        CommitmentProof::Exist(_) => {
            return Err(ProofError::MalformedProof);
        },
        CommitmentProof::NonExist(np) => np,
    };
    if np.left.is_none() && np.right.is_none() {
        return Err(ProofError::MalformedProof);
    }
    match &np.left {
        Some(l) => {
            if !exist_proof_wf(l) {
                return Err(ProofError::MalformedProof);
            }
        },
        None => {},
    }
    match &np.right {
        Some(r) => {
            if !exist_proof_wf(r) {
                return Err(ProofError::MalformedProof);
            }
        },
        None => {},
    }
    if !bytes_eq(&np.key, &path.key_path[n - 1]) {
        return Err(ProofError::Invalid);
    }
    match &np.left {
        Some(l) => {
            if !bytes_lt(&l.key, &np.key) {
                return Err(ProofError::Invalid);
            }
        },
        None => {},
    }
    match &np.right {
        Some(r) => {
            if !bytes_lt(&np.key, &r.key) {
                return Err(ProofError::Invalid);
            }
        },
        None => {},
    }
    let subroot = match &np.left {
        Some(l) => calc_exist_root(l),
        None => match &np.right {
            Some(r) => calc_exist_root(r),
            None => {
                return Err(ProofError::MalformedProof);
            },
        },
    };
    match (&np.left, &np.right) {
        (Some(_), Some(r)) => {
            let right_root = calc_exist_root(r);
            if !bytes_eq(&right_root, &subroot) {
                return Err(ProofError::Invalid);
            }
        },
        _ => {},
    }
    match (&np.left, &np.right) {
        (Some(l), Some(r)) => {
            if !adjacent_paths(&l.path, &r.path) {
                return Err(ProofError::Invalid);
            }
        },
        (None, Some(r)) => {
            proof {
                assert(r.path.deep_view().take(r.path@.len() as int) =~= r.path.deep_view());
            }
            if !all_left_below(&r.path, r.path.len()) {
                return Err(ProofError::Invalid);
            }
        },
        (Some(l), None) => {
            proof {
                assert(l.path.deep_view().take(l.path@.len() as int) =~= l.path.deep_view());
            }
            if !all_right_below(&l.path, l.path.len()) {
                return Err(ProofError::Invalid);
            }
        },
        (None, None) => {
            return Err(ProofError::MalformedProof);
        },
    }
    verify_layers_from(root, path, &subroot, proof, 1)
}

} // verus!

use crate::outputs::{KVPair, KVPairView, MembershipOutput, MembershipOutputView};
use crate::types::clone_bytes;

verus! {

/// One batched request: a key path, the value claimed for it (empty for a
/// claim of absence), and the proof for the claim.
#[derive(Debug)]
pub struct MembershipQuery {
    /// The key path, outermost store first.
    pub path: MerklePath,
    /// The claimed value; empty to claim the key absent.
    pub value: Vec<u8>,
    /// The proof of the claim.
    pub proof: MerkleProof,
}

/// Mathematical model of a [`MembershipQuery`].
pub struct MembershipQueryView {
    /// The key path, outermost store first.
    pub path: Seq<Seq<u8>>,
    /// The claimed value; empty to claim the key absent.
    pub value: Seq<u8>,
    /// The proof of the claim.
    pub proof: Seq<CommitmentProofView>,
}

impl View for MembershipQuery {
    type V = MembershipQueryView;

    open spec fn view(&self) -> MembershipQueryView {
        MembershipQueryView { path: self.path@, value: self.value@, proof: self.proof@ }
    }
}

impl DeepView for MembershipQuery {
    type V = MembershipQueryView;

    open spec fn deep_view(&self) -> MembershipQueryView {
        self@
    }
}

/// The verdict on one query: non-membership when its value is empty,
/// membership otherwise.
pub open spec fn spec_verify_query(root: Seq<u8>, q: MembershipQueryView) -> Result<
    (),
    ProofError,
> {
    if q.value.len() == 0 {
        spec_verify_non_membership(root, q.path, q.proof)
    } else {
        spec_verify_membership(root, q.path, q.value, q.proof)
    }
}

/// The first failure among the queries from index `i` on, if any.
pub open spec fn spec_check_queries(
    root: Seq<u8>,
    queries: Seq<MembershipQueryView>,
    i: nat,
) -> Result<(), ProofError>
    decreases queries.len() - i,
    when i <= queries.len()
{
    if i == queries.len() {
        Ok(())
    } else {
        match spec_verify_query(root, queries[i as int]) {
            Err(e) => Err(e),
            Ok(_) => spec_check_queries(root, queries, i + 1),
        }
    }
}

/// The key/value pairs the queries claim, in order.
pub open spec fn spec_query_pairs(queries: Seq<MembershipQueryView>) -> Seq<KVPairView> {
    queries.map(|i: int, q: MembershipQueryView| KVPairView { path: q.path, value: q.value })
}

/// The batched membership mode: every query verified independently against
/// the same root, an empty batch rejected, and the verified pairs echoed
/// with the root.
pub open spec fn spec_membership(root: Seq<u8>, queries: Seq<MembershipQueryView>) -> Result<
    MembershipOutputView,
    ProofError,
> {
    if queries.len() == 0 {
        Err(ProofError::EmptyBatch)
    } else {
        match spec_check_queries(root, queries, 0) {
            Err(e) => Err(e),
            Ok(_) => Ok(
                MembershipOutputView {
                    commitment_root: root,
                    kv_pairs: spec_query_pairs(queries),
                },
            ),
        }
    }
}

/// Copies a key path.
fn clone_path(path: &Vec<Vec<u8>>) -> (r: Vec<Vec<u8>>)
    ensures
        r.deep_view() == path.deep_view(),
{
    let mut r: Vec<Vec<u8>> = Vec::new();
    let mut i: usize = 0;
    while i < path.len()
        invariant
            i <= path@.len(),
            r.deep_view() =~~= path.deep_view().take(i as int),
        decreases path@.len() - i,
    {
        let ghost prev = r.deep_view();
        let b = clone_bytes(&path[i]);
        let ghost bv = b@;
        r.push(b);
        proof {
            assert(r.deep_view() =~~= prev.push(bv));
            assert(prev.push(bv) =~~= path.deep_view().take(i + 1));
        }
        i = i + 1;
    }
    proof {
        assert(r.deep_view() =~~= path.deep_view());
    }
    r
}

/// Verifies every key/value/proof query against the commitment root
/// `app_hash` and emits the record of verified pairs.  An empty batch is
/// rejected; a query with an empty value must prove absence, any other must
/// prove presence; the first failure is fatal to the whole batch.
pub fn membership(app_hash: Vec<u8>, queries: &Vec<MembershipQuery>) -> (r: Result<
    MembershipOutput,
    ProofError,
>)
    ensures
        match r {
            Ok(out) => spec_membership(app_hash@, queries.deep_view()) == Ok::<
                MembershipOutputView,
                ProofError,
            >(out@),
            Err(e) => spec_membership(app_hash@, queries.deep_view()) == Err::<
                MembershipOutputView,
                ProofError,
            >(e),
        },
{
    let ghost qs = queries.deep_view();
    if queries.len() == 0 {
        return Err(ProofError::EmptyBatch);
    }
    let mut kv_pairs: Vec<KVPair> = Vec::new();
    let mut i: usize = 0;
    while i < queries.len()
        invariant
            i <= queries@.len(),
            qs == queries.deep_view(),
            qs.len() == queries@.len(),
            spec_check_queries(app_hash@, qs, 0) == spec_check_queries(app_hash@, qs, i as nat),
            kv_pairs.deep_view() =~~= spec_query_pairs(qs).take(i as int),
        decreases queries@.len() - i,
    {
        proof {
            assert(qs[i as int] == queries@[i as int]@);
        }
        let q = &queries[i];
        let res = if q.value.len() == 0 {
            verify_non_membership(&app_hash, &q.path, &q.proof)
        } else {
            verify_membership(&app_hash, &q.path, &q.value, &q.proof)
        };
        match res {
            Err(e) => {
                return Err(e);
            },
            Ok(_) => {},
        }
        let ghost prev = kv_pairs.deep_view();
        let pair = KVPair { path: clone_path(&q.path.key_path), value: clone_bytes(&q.value) };
        let ghost pv = pair@;
        kv_pairs.push(pair);
        proof {
            assert(kv_pairs.deep_view() =~~= prev.push(pv));
            assert(prev.push(pv) =~~= spec_query_pairs(qs).take(i + 1));
        }
        i = i + 1;
    }
    proof {
        assert(kv_pairs.deep_view() =~~= spec_query_pairs(qs));
    }
    Ok(MembershipOutput { commitment_root: app_hash, kv_pairs })
}

} // verus!
