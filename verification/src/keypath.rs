//! Construction of Merkle key paths from operator input: either a fixed
//! two-segment `("ibc", key)` pair, or backslash-separated base64-encoded
//! segments.  The decoder accepts canonical, padded base64 with the
//! standard alphabet and rejects everything else.

use vstd::prelude::*;

verus! {

/// The value of one base64 alphabet byte, or a marker below zero for a byte
/// outside the alphabet.
pub open spec fn spec_b64_val(c: u8) -> int {
    if 65 <= c <= 90 {
        c - 65
    } else if 97 <= c <= 122 {
        c - 97 + 26
    } else if 48 <= c <= 57 {
        c - 48 + 52
    } else if c == 43 {
        62
    } else if c == 47 {
        63
    } else {
        -1
    }
}

/// The three bytes a full group of four alphabet values denotes.
pub open spec fn spec_b64_group(v0: int, v1: int, v2: int, v3: int) -> Seq<u8> {
    seq![
        (v0 * 4 + v1 / 16) as u8,
        ((v1 % 16) * 16 + v2 / 4) as u8,
        ((v2 % 4) * 64 + v3) as u8,
    ]
}

/// The bytes a canonical, padded base64 string denotes: groups of four
/// alphabet bytes, the last group allowed one or two padding bytes whose
/// unused bits must be zero.  `None` for anything else.
pub open spec fn spec_base64_decode(s: Seq<u8>) -> Option<Seq<u8>>
    decreases s.len(),
{
    if s.len() == 0 {
        Some(Seq::empty())
    } else if s.len() < 4 {
        None
    } else {
        let v0 = spec_b64_val(s[0]);
        let v1 = spec_b64_val(s[1]);
        let v2 = spec_b64_val(s[2]);
        let v3 = spec_b64_val(s[3]);
        if v0 < 0 || v1 < 0 {
            None
        } else if s.len() == 4 && s[2] == 61 && s[3] == 61 {
            if v1 % 16 == 0 {
                Some(seq![(v0 * 4 + v1 / 16) as u8])
            } else {
                None
            }
        } else if s.len() == 4 && s[3] == 61 {
            if v2 >= 0 && v2 % 4 == 0 {
                Some(seq![(v0 * 4 + v1 / 16) as u8, ((v1 % 16) * 16 + v2 / 4) as u8])
            } else {
                None
            }
        } else if v2 < 0 || v3 < 0 {
            None
        } else {
            match spec_base64_decode(s.skip(4)) {
                None => None,
                Some(rest) => Some(spec_b64_group(v0, v1, v2, v3) + rest),
            }
        }
    }
}

/// The base64 value of one byte; 255 outside the alphabet.
fn b64_val(c: u8) -> (r: u8)
    ensures
        spec_b64_val(c) >= 0 ==> r == spec_b64_val(c),
        spec_b64_val(c) < 0 ==> r == 255,
{
    if 65 <= c && c <= 90 {
        c - 65
    } else if 97 <= c && c <= 122 {
        c - 97 + 26
    } else if 48 <= c && c <= 57 {
        c - 48 + 52
    } else if c == 43 {
        62
    } else if c == 47 {
        63
    } else {
        255
    }
}

/// Decodes a canonical, padded base64 byte string.
pub fn base64_decode(s: &Vec<u8>) -> (r: Option<Vec<u8>>)
    ensures
        match r {
            Some(b) => spec_base64_decode(s@) == Some(b@),
            None => spec_base64_decode(s@) is None,
        },
{
    let mut out: Vec<u8> = Vec::new();
    let mut i: usize = 0;
    let n = s.len();
    proof {
        assert(s@.skip(0) =~= s@);
    }
    loop
        invariant
            i <= n == s@.len(),
            i % 4 == 0,
            match spec_base64_decode(s@) {
                Some(b) => spec_base64_decode(s@.skip(i as int)) matches Some(rest) && b == out@
                    + rest,
                None => spec_base64_decode(s@.skip(i as int)) is None,
            },
        decreases n - i,
    {
        let ghost rem = s@.skip(i as int);
        if i == n {
            proof {
                assert(rem =~= Seq::<u8>::empty());
            }
            return Some(out);
        }
        if n - i < 4 {
            return None;
        }
        let v0 = b64_val(s[i]);
        let v1 = b64_val(s[i + 1]);
        let v2 = b64_val(s[i + 2]);
        let v3 = b64_val(s[i + 3]);
        proof {
            assert(rem[0] == s@[i as int] && rem[1] == s@[i as int + 1] && rem[2] == s@[i as int
                + 2] && rem[3] == s@[i as int + 3]);
        }
        if v0 == 255 || v1 == 255 {
            return None;
        }
        let last = i + 4 == n;
        if last && s[i + 2] == 61 && s[i + 3] == 61 {
            if v1 % 16 != 0 {
                return None;
            }
            out.push(v0 * 4 + v1 / 16);
            proof {
                assert(rem.skip(4) =~= Seq::<u8>::empty());
            }
            return Some(out);
        }
        if last && s[i + 3] == 61 {
            if v2 == 255 || v2 % 4 != 0 {
                return None;
            }
            out.push(v0 * 4 + v1 / 16);
            out.push((v1 % 16) * 16 + v2 / 4);
            proof {
                assert(rem.skip(4) =~= Seq::<u8>::empty());
            }
            return Some(out);
        }
        if v2 == 255 || v3 == 255 {
            return None;
        }
        out.push(v0 * 4 + v1 / 16);
        out.push((v1 % 16) * 16 + v2 / 4);
        out.push((v2 % 4) * 64 + v3);
        proof {
            assert(rem.skip(4) =~= s@.skip(i as int + 4));
            assert(out@.skip(out@.len() - 3) =~= spec_b64_group(
                spec_b64_val(rem[0]),
                spec_b64_val(rem[1]),
                spec_b64_val(rem[2]),
                spec_b64_val(rem[3]),
            ));
        }
        i = i + 4;
    }
}

/// The segments of `s` between occurrences of `sep`; one segment more than
/// there are separators, in order.
pub open spec fn spec_split(s: Seq<u8>, sep: u8) -> Seq<Seq<u8>>
    decreases s.len(),
    via spec_split_decreases
{
    match s.index_of_first(sep) {
        None => seq![s],
        Some(k) => seq![s.take(k)] + spec_split(s.skip(k + 1), sep),
    }
}

#[via_fn]
proof fn spec_split_decreases(s: Seq<u8>, sep: u8) {
    s.index_of_first_ensures(sep);
}

/// Copies `s[lo..hi]`.
fn clone_range(s: &Vec<u8>, lo: usize, hi: usize) -> (r: Vec<u8>)
    requires
        lo <= hi <= s@.len(),
    ensures
        r@ == s@.subrange(lo as int, hi as int),
{
    let mut r: Vec<u8> = Vec::new();
    let mut j: usize = lo;
    while j < hi
        invariant
            lo <= j <= hi <= s@.len(),
            r@ =~= s@.subrange(lo as int, j as int),
        decreases hi - j,
    {
        r.push(s[j]);
        assert(r@ =~= s@.subrange(lo as int, j + 1));
        j = j + 1;
    }
    r
}

/// The position of the first occurrence of `sep` in `s` at or after
/// `start`, or the length of `s` when there is none.
fn find_from(s: &Vec<u8>, start: usize, sep: u8) -> (j: usize)
    requires
        start <= s@.len(),
    ensures
        start <= j <= s@.len(),
        forall|l: int| start <= l < j ==> s@[l] != sep,
        j < s@.len() ==> s@[j as int] == sep,
{
    let mut j: usize = start;
    while j < s.len()
        invariant
            start <= j <= s@.len(),
            forall|l: int| start <= l < j ==> s@[l] != sep,
        decreases s@.len() - j,
    {
        if s[j] == sep {
            return j;
        }
        j = j + 1;
    }
    j
}

/// Splits `s` at each occurrence of `sep`.
pub fn split_bytes(s: &Vec<u8>, sep: u8) -> (r: Vec<Vec<u8>>)
    ensures
        r.deep_view() == spec_split(s@, sep),
{
    let n = s.len();
    let mut out: Vec<Vec<u8>> = Vec::new();
    let mut start: usize = 0;
    proof {
        assert(s@.skip(0) =~= s@);
        assert(out.deep_view() + spec_split(s@, sep) =~= spec_split(s@, sep));
    }
    loop
        invariant
            start <= n == s@.len(),
            spec_split(s@, sep) == out.deep_view() + spec_split(s@.skip(start as int), sep),
        decreases n - start,
    {
        let ghost rem = s@.skip(start as int);
        let j = find_from(s, start, sep);
        proof {
            assert(rem.len() == n - start);
            assert forall|l: int| 0 <= l < rem.len() implies rem[l] == s@[start + l] by {}
        }
        if j == n {
            proof {
                assert(rem.index_of_first(sep) is None) by {
                    rem.index_of_first_ensures(sep);
                    if rem.contains(sep) {
                        let k = choose|k: int| 0 <= k < rem.len() && rem[k] == sep;
                        assert(s@[start + k] != sep);
                    }
                }
                assert(spec_split(rem, sep) =~= seq![rem]);
            }
            let ghost prev = out.deep_view();
            let piece = clone_range(s, start, n);
            let ghost pv = piece@;
            out.push(piece);
            proof {
                assert(pv =~= rem);
                assert(out.deep_view() =~~= prev.push(rem));
                assert(prev.push(rem) =~= prev + seq![rem]);
            }
            return out;
        }
        proof {
            lemma_index_of_first(rem, sep, j - start);
            assert(rem.take(j - start) =~= s@.subrange(start as int, j as int));
            assert(rem.skip(j - start + 1) =~= s@.skip(j + 1));
        }
        let ghost prev = out.deep_view();
        let piece = clone_range(s, start, j);
        let ghost pv = piece@;
        out.push(piece);
        proof {
            assert(out.deep_view() =~~= prev.push(pv));
            assert(prev.push(pv) =~= prev + seq![pv]);
            assert((prev + seq![pv]) + spec_split(s@.skip(j + 1), sep) =~= prev + (seq![pv]
                + spec_split(s@.skip(j + 1), sep)));
        }
        start = j + 1;
    }
}

/// The first occurrence of `sep` in `whole` is at `k` when `k` holds `sep`
/// and nothing before it does.
proof fn lemma_index_of_first(whole: Seq<u8>, sep: u8, k: int)
    requires
        0 <= k < whole.len(),
        whole[k] == sep,
        forall|j: int| 0 <= j < k ==> whole[j] != sep,
    ensures
        whole.index_of_first(sep) == Some(k),
{
    whole.index_of_first_ensures(sep);
    assert(whole.contains(sep)) by {
        assert(whole[k] == sep);
    }
}

/// The key path a membership request denotes.  A plain key names an entry
/// of the `ibc` store: the path is the pair of the store name and the key.
/// A base64 request carries backslash-separated base64 segments, each
/// decoded to one raw path key; it is refused when any segment is not
/// canonical base64.
pub open spec fn spec_build_key_path(raw: Seq<u8>, base64: bool) -> Option<Seq<Seq<u8>>> {
    if base64 {
        let segments = spec_split(raw, 92);
        if forall|i: int| 0 <= i < segments.len() ==> (#[trigger] spec_base64_decode(
            segments[i],
        )) is Some {
            Some(segments.map(|i: int, s: Seq<u8>| spec_base64_decode(s)->Some_0))
        } else {
            None
        }
    } else {
        Some(seq![seq![105u8, 98u8, 99u8], raw])
    }
}

/// Builds the Merkle key path for one requested key: the `("ibc", key)`
/// pair, or the decoded backslash-separated base64 segments.
pub fn build_key_path(raw: &Vec<u8>, base64: bool) -> (r: Option<Vec<Vec<u8>>>)
    ensures
        match r {
            Some(path) => spec_build_key_path(raw@, base64) == Some(path.deep_view()),
            None => spec_build_key_path(raw@, base64) is None,
        },
{
    if !base64 {
        let mut store: Vec<u8> = Vec::new();
        store.push(105);
        store.push(98);
        store.push(99);
        let mut path: Vec<Vec<u8>> = Vec::new();
        let ghost storev = store@;
        path.push(store);
        path.push(crate::types::clone_bytes(raw));
        proof {
            assert(storev =~= seq![105u8, 98u8, 99u8]);
            assert(path.deep_view() =~~= seq![seq![105u8, 98u8, 99u8], raw@]);
        }
        return Some(path);
    }
    let segments = split_bytes(raw, 92);
    let ghost segs = segments.deep_view();
    let ghost mapped = segs.map(|i: int, s: Seq<u8>| spec_base64_decode(s)->Some_0);
    let mut path: Vec<Vec<u8>> = Vec::new();
    let mut i: usize = 0;
    while i < segments.len()
        invariant
            base64,
            i <= segments@.len() == segs.len(),
            segs == segments.deep_view(),
            segs == spec_split(raw@, 92),
            mapped == segs.map(|i: int, s: Seq<u8>| spec_base64_decode(s)->Some_0),
            forall|j: int| 0 <= j < i ==> (#[trigger] spec_base64_decode(segs[j])) is Some,
            path.deep_view() =~~= mapped.take(i as int),
        decreases segments@.len() - i,
    {
        proof {
            assert(segs[i as int] == segments@[i as int]@);
        }
        let decoded_opt = base64_decode(&segments[i]);
        if decoded_opt.is_none() {
            proof {
                assert(spec_base64_decode(spec_split(raw@, 92)[i as int]) is None);
                assert(!(forall|k: int|
                    0 <= k < spec_split(raw@, 92).len() ==> (#[trigger] spec_base64_decode(
                        spec_split(raw@, 92)[k],
                    )) is Some));
            }
            return None;
        }
        let decoded = decoded_opt.unwrap();
        let ghost prev = path.deep_view();
        let ghost dv = decoded@;
        path.push(decoded);
        proof {
            assert(path.deep_view() =~~= prev.push(dv));
            assert(prev.push(dv) =~~= mapped.take(i + 1));
        }
        i = i + 1;
    }
    proof {
        assert(path.deep_view() =~~= mapped);
    }
    Some(path)
}

} // verus!
