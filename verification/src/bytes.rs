//! Byte-level helpers: protobuf base-128 varints, little-endian fixed64
//! words, and lexicographic comparison of byte strings.

use vstd::prelude::*;

verus! {

/// Base-128 varint encoding of `n`, least-significant group first.
pub open spec fn spec_varint(n: nat) -> Seq<u8>
    decreases n,
{
    if n < 128 {
        seq![n as u8]
    } else {
        seq![(128 + n % 128) as u8] + spec_varint(n / 128)
    }
}

/// The eight bytes of `n`, least-significant first.
pub open spec fn spec_fixed64(n: u64) -> Seq<u8> {
    seq![
        (n & 0xff) as u8,
        ((n >> 8) & 0xff) as u8,
        ((n >> 16) & 0xff) as u8,
        ((n >> 24) & 0xff) as u8,
        ((n >> 32) & 0xff) as u8,
        ((n >> 40) & 0xff) as u8,
        ((n >> 48) & 0xff) as u8,
        ((n >> 56) & 0xff) as u8,
    ]
}

/// Appends the varint encoding of `n` to `out`.
pub fn push_varint(out: &mut Vec<u8>, n: u64)
    ensures
        final(out)@ == old(out)@ + spec_varint(n as nat),
    decreases n,
{
    if n < 128 {
        out.push(n as u8);
        assert(out@ =~= old(out)@ + spec_varint(n as nat));
    } else {
        out.push((128 + n % 128) as u8);
        assert(out@ =~= old(out)@ + seq![(128 + n as nat % 128) as u8]);
        push_varint(out, n / 128);
        assert(out@ =~= old(out)@ + spec_varint(n as nat));
    }
}

/// Appends the eight little-endian bytes of `n` to `out`.
pub fn push_fixed64(out: &mut Vec<u8>, n: u64)
    ensures
        final(out)@ == old(out)@ + spec_fixed64(n),
{
    out.push((n & 0xff) as u8);
    out.push(((n >> 8) & 0xff) as u8);
    out.push(((n >> 16) & 0xff) as u8);
    out.push(((n >> 24) & 0xff) as u8);
    out.push(((n >> 32) & 0xff) as u8);
    out.push(((n >> 40) & 0xff) as u8);
    out.push(((n >> 48) & 0xff) as u8);
    out.push(((n >> 56) & 0xff) as u8);
    assert(out@ =~= old(out)@ + spec_fixed64(n));
}

/// Appends all of `b` to `out`.
pub fn push_bytes(out: &mut Vec<u8>, b: &Vec<u8>)
    ensures
        final(out)@ == old(out)@ + b@,
{
    let mut i: usize = 0;
    while i < b.len()
        invariant
            i <= b@.len(),
            out@ == old(out)@ + b@.take(i as int),
        decreases b@.len() - i,
    {
        out.push(b[i]);
        assert(out@ =~= old(out)@ + b@.take(i as int) + seq![b@[i as int]]);
        assert(b@.take(i as int) + seq![b@[i as int]] =~= b@.take(i + 1));
        i = i + 1;
    }
    assert(b@.take(b@.len() as int) =~= b@);
}

/// A length-delimited protobuf field: tag byte, varint length, body.
pub open spec fn spec_len_prefixed(tag: u8, body: Seq<u8>) -> Seq<u8> {
    seq![tag] + spec_varint(body.len()) + body
}

/// A protobuf `bytes` field, omitted when empty.
pub open spec fn spec_bytes_field(tag: u8, b: Seq<u8>) -> Seq<u8> {
    if b.len() == 0 {
        Seq::empty()
    } else {
        spec_len_prefixed(tag, b)
    }
}

/// A protobuf varint field, omitted when zero.
pub open spec fn spec_varint_field(tag: u8, n: nat) -> Seq<u8> {
    if n == 0 {
        Seq::empty()
    } else {
        seq![tag] + spec_varint(n)
    }
}

/// A protobuf little-endian fixed64 field, omitted when zero.
pub open spec fn spec_fixed64_field(tag: u8, n: u64) -> Seq<u8> {
    if n == 0 {
        Seq::empty()
    } else {
        seq![tag] + spec_fixed64(n)
    }
}

/// Appends a length-delimited field holding `body` to `out`.
pub fn push_msg_field(out: &mut Vec<u8>, tag: u8, body: &Vec<u8>)
    ensures
        final(out)@ == old(out)@ + spec_len_prefixed(tag, body@),
{
    out.push(tag);
    assert(out@ =~= old(out)@ + seq![tag]);
    push_varint(out, body.len() as u64);
    push_bytes(out, body);
    assert(out@ =~= old(out)@ + spec_len_prefixed(tag, body@));
}

/// Appends a `bytes` field holding `b` to `out`; empty `b` is omitted.
pub fn push_bytes_field(out: &mut Vec<u8>, tag: u8, b: &Vec<u8>)
    ensures
        final(out)@ == old(out)@ + spec_bytes_field(tag, b@),
{
    if b.len() > 0 {
        push_msg_field(out, tag, b);
    }
}

/// Appends a varint field holding `n` to `out`; zero is omitted.
pub fn push_varint_field(out: &mut Vec<u8>, tag: u8, n: u64)
    ensures
        final(out)@ == old(out)@ + spec_varint_field(tag, n as nat),
{
    if n > 0 {
        out.push(tag);
        assert(out@ =~= old(out)@ + seq![tag]);
        push_varint(out, n);
        assert(out@ =~= old(out)@ + spec_varint_field(tag, n as nat));
    }
}

/// Appends a fixed64 field holding `n` to `out`; zero is omitted.
pub fn push_fixed64_field(out: &mut Vec<u8>, tag: u8, n: u64)
    ensures
        final(out)@ == old(out)@ + spec_fixed64_field(tag, n),
{
    if n > 0 {
        out.push(tag);
        assert(out@ =~= old(out)@ + seq![tag]);
        push_fixed64(out, n);
        assert(out@ =~= old(out)@ + spec_fixed64_field(tag, n));
    }
}

/// Whether `a` and `b` hold the same bytes.
pub fn bytes_eq(a: &Vec<u8>, b: &Vec<u8>) -> (r: bool)
    ensures
        r == (a@ == b@),
{
    if a.len() != b.len() {
        return false;
    }
    let mut i: usize = 0;
    while i < a.len()
        invariant
            i <= a@.len() == b@.len(),
            forall|k: int| 0 <= k < i ==> a@[k] == b@[k],
        decreases a@.len() - i,
    {
        if a[i] != b[i] {
            return false;
        }
        i = i + 1;
    }
    proof {
        assert(a@ =~= b@);
    }
    true
}

/// Strict lexicographic order on byte strings: `a` comes before `b` when, at
/// the first differing position, `a` has the smaller byte, or when `a` is a
/// strict prefix of `b`.
pub open spec fn spec_bytes_lt(a: Seq<u8>, b: Seq<u8>) -> bool
    decreases a.len(),
{
    if b.len() == 0 {
        false
    } else if a.len() == 0 {
        true
    } else if a[0] < b[0] {
        true
    } else if a[0] > b[0] {
        false
    } else {
        spec_bytes_lt(a.drop_first(), b.drop_first())
    }
}

/// Whether `a` is lexicographically strictly below `b`.
pub fn bytes_lt(a: &Vec<u8>, b: &Vec<u8>) -> (r: bool)
    ensures
        r == spec_bytes_lt(a@, b@),
{
    let mut i: usize = 0;
    proof {
        assert(a@.skip(0) =~= a@);
        assert(b@.skip(0) =~= b@);
    }
    loop
        invariant
            i <= a@.len(),
            i <= b@.len(),
            spec_bytes_lt(a@, b@) == spec_bytes_lt(a@.skip(i as int), b@.skip(i as int)),
        decreases a@.len() - i,
    {
        if i == b.len() {
            return false;
        }
        if i == a.len() {
            return true;
        }
        let x = a[i];
        let y = b[i];
        if x < y {
            return true;
        }
        if x > y {
            return false;
        }
        proof {
            assert(a@.skip(i as int).drop_first() =~= a@.skip(i + 1));
            assert(b@.skip(i as int).drop_first() =~= b@.skip(i + 1));
        }
        i = i + 1;
    }
}

} // verus!
