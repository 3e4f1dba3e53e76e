//! SHA-256 hashing and the binary Merkle tree over byte items
//! (leaves prefixed with `0x00`, inner nodes with `0x01`, the left subtree
//! holding the largest power of two less than the item count).

use vstd::prelude::*;

use crate::bytes::push_bytes;

verus! {

/// The SHA-256 digest of `data`.  The digest of given bytes is a fixed
/// 32-byte value; nothing further is assumed about it.
pub uninterp spec fn sha256_of(data: Seq<u8>) -> Seq<u8>;

/// Relies on `sha2::Sha256::digest`: returns the 32-byte SHA-256 digest of
/// `data`, a function of `data` alone.
#[verifier::external_body]
pub fn sha256(data: &Vec<u8>) -> (r: Vec<u8>)
    ensures
        r@ == sha256_of(data@),
        r@.len() == 32,
{
    <sha2::Sha256 as sha2::Digest>::digest(data.as_slice()).to_vec()
}

/// Hash of a Merkle leaf: SHA-256 of the item behind a `0x00` domain byte.
pub open spec fn spec_leaf_hash(item: Seq<u8>) -> Seq<u8> {
    sha256_of(seq![0u8] + item)
}

/// Hash of a Merkle inner node: SHA-256 of the two child hashes behind a
/// `0x01` domain byte.
pub open spec fn spec_inner_hash(left: Seq<u8>, right: Seq<u8>) -> Seq<u8> {
    sha256_of(seq![1u8] + left + right)
}

/// The largest power of two strictly less than `n`, for `n >= 2`: the size
/// of the left subtree of a Merkle node over `n` items.
pub open spec fn spec_split_point(n: int) -> int
    decreases n,
{
    if n <= 2 {
        1
    } else {
        2 * spec_split_point((n + 1) / 2)
    }
}

/// The split point of `n >= 2` items lies strictly between half and all of
/// them.
pub proof fn lemma_split_point_bounds(n: int)
    requires
        n >= 2,
    ensures
        1 <= spec_split_point(n) < n,
        2 * spec_split_point(n) >= n,
    decreases n,
{
    if n > 2 {
        lemma_split_point_bounds((n + 1) / 2);
    }
}

/// Root hash of the Merkle tree over `items`, in order.
pub open spec fn spec_merkle_root(items: Seq<Seq<u8>>) -> Seq<u8>
    decreases items.len(),
    via spec_merkle_root_decreases
{
    if items.len() == 0 {
        sha256_of(Seq::empty())
    } else if items.len() == 1 {
        spec_leaf_hash(items[0])
    } else {
        spec_inner_hash(
            spec_merkle_root(items.take(spec_split_point(items.len() as int))),
            spec_merkle_root(items.skip(spec_split_point(items.len() as int))),
        )
    }
}

#[via_fn]
proof fn spec_merkle_root_decreases(items: Seq<Seq<u8>>) {
    if items.len() >= 2 {
        lemma_split_point_bounds(items.len() as int);
    }
}

/// The largest power of two strictly less than `n`.
fn split_point(n: usize) -> (r: usize)
    requires
        n >= 2,
    ensures
        r == spec_split_point(n as int),
    decreases n,
{
    if n <= 2 {
        1
    } else {
        let m = n / 2 + n % 2;
        assert(m == (n as int + 1) / 2);
        proof {
            lemma_split_point_bounds(n as int);
            lemma_split_point_bounds(m as int);
        }
        let s = split_point(m);
        assert(2 * s == spec_split_point(n as int) < n);
        2 * s
    }
}

/// Hash of a Merkle leaf holding `item`.
pub fn leaf_hash(item: &Vec<u8>) -> (r: Vec<u8>)
    ensures
        r@ == spec_leaf_hash(item@),
        r@.len() == 32,
{
    let mut buf: Vec<u8> = Vec::new();
    buf.push(0u8);
    assert(buf@ =~= seq![0u8]);
    push_bytes(&mut buf, item);
    sha256(&buf)
}

/// Hash of a Merkle inner node with child hashes `left` and `right`.
pub fn inner_hash(left: &Vec<u8>, right: &Vec<u8>) -> (r: Vec<u8>)
    ensures
        r@ == spec_inner_hash(left@, right@),
        r@.len() == 32,
{
    let mut buf: Vec<u8> = Vec::new();
    buf.push(1u8);
    assert(buf@ =~= seq![1u8]);
    push_bytes(&mut buf, left);
    push_bytes(&mut buf, right);
    assert(buf@ =~= seq![1u8] + left@ + right@);
    sha256(&buf)
}

/// Root hash of the Merkle tree over `items[lo..hi]`.
fn merkle_root_range(items: &Vec<Vec<u8>>, lo: usize, hi: usize) -> (r: Vec<u8>)
    requires
        lo <= hi <= items@.len(),
    ensures
        r@ == spec_merkle_root(items.deep_view().subrange(lo as int, hi as int)),
        r@.len() == 32,
    decreases hi - lo,
{
    let ghost sub = items.deep_view().subrange(lo as int, hi as int);
    let n = hi - lo;
    if n == 0 {
        let buf: Vec<u8> = Vec::new();
        assert(buf@ =~= Seq::<u8>::empty());
        sha256(&buf)
    } else if n == 1 {
        assert(sub[0] == items@[lo as int].deep_view());
        assert(items@[lo as int].deep_view() =~= items@[lo as int]@);
        leaf_hash(&items[lo])
    } else {
        proof {
            lemma_split_point_bounds(n as int);
        }
        let k = split_point(n);
        let left = merkle_root_range(items, lo, lo + k);
        let right = merkle_root_range(items, lo + k, hi);
        proof {
            assert(items.deep_view().subrange(lo as int, lo + k as int) =~= sub.take(
                spec_split_point(sub.len() as int),
            ));
            assert(items.deep_view().subrange(lo + k as int, hi as int) =~= sub.skip(
                spec_split_point(sub.len() as int),
            ));
        }
        inner_hash(&left, &right)
    }
}

/// Root hash of the Merkle tree over all of `items`.
pub fn merkle_root(items: &Vec<Vec<u8>>) -> (r: Vec<u8>)
    ensures
        r@ == spec_merkle_root(items.deep_view()),
        r@.len() == 32,
{
    let r = merkle_root_range(items, 0, items.len());
    proof {
        assert(items.deep_view().subrange(0, items.deep_view().len() as int) =~= items.deep_view());
    }
    r
}

} // verus!
