//! Requests the engine's host can carry: the command tree of the operator,
//! as plain data.  Argument parsing and I/O live outside the library; these
//! types only name what each operation needs.

use vstd::prelude::*;
use vstd::string::StringSliceAdditionalSpecFns;

use crate::types::TrustThreshold;

pub mod fixtures;
pub mod genesis;
pub mod operator;

verus! {

/// Where an operation writes its result.
#[derive(Debug, Clone, PartialEq, Eq)]
pub enum OutputPath {
    /// Write the output to the standard output stream.
    Stdout,
    /// Write the output to the named file.
    File(String),
}

/// The trust options for client operations.
#[derive(Debug, Clone)]
pub struct TrustOptions {
    /// Trust level as a fraction.
    pub trust_level: TrustThreshold,
    /// Trusting period in seconds; when absent, two thirds of the chain's
    /// unbonding period is used.
    pub trusting_period: Option<u32>,
}

/// The top-level command of the operator.
#[derive(Debug)]
pub struct OperatorCli {
    /// The subcommand to run.
    pub command: Commands,
}

/// The subcommands of the operator.
#[derive(Debug)]
pub enum Commands {
    /// Run the update loop.
    Start(operator::Args),
    /// Produce the genesis record.
    Genesis(genesis::Args),
    /// Produce verification fixtures.
    Fixtures(fixtures::Cmd),
}

/// Reads an output destination: a lone dash names the standard output
/// stream; anything else names a file.
pub fn parse_output_path(path: &str) -> (r: OutputPath)
    ensures
        match r {
            OutputPath::Stdout => path.spec_bytes() == seq![45u8],
            OutputPath::File(f) => f@ == path@ && path.spec_bytes() != seq![45u8],
        },
{
    let b = path.as_bytes();
    if b.len() == 1 && b[0] == 45 {
        proof {
            assert(path.spec_bytes() =~= seq![45u8]);
        }
        OutputPath::Stdout
    } else {
        proof {
            if path.spec_bytes() == seq![45u8] {
                assert(path.spec_bytes().len() == 1);
            }
        }
        OutputPath::File(path.to_owned())
    }
}

/// The numeric value of a string of decimal digit bytes.
pub open spec fn spec_digits_val(b: Seq<u8>) -> nat
    decreases b.len(),
{
    if b.len() == 0 {
        0
    } else {
        (spec_digits_val(b.drop_last()) * 10 + (b.last() - 48)) as nat
    }
}

/// Whether every byte of `b` is a decimal digit.
pub open spec fn spec_all_digits(b: Seq<u8>) -> bool {
    forall|i: int| 0 <= i < b.len() ==> 48 <= #[trigger] b[i] <= 57
}

/// The unsigned 64-bit number a byte string denotes: defined when the
/// string is non-empty, all digits, and within range.
pub open spec fn spec_parse_u64(b: Seq<u8>) -> Option<u64> {
    if b.len() > 0 && spec_all_digits(b) && spec_digits_val(b) <= 0xffff_ffff_ffff_ffff {
        Some(spec_digits_val(b) as u64)
    } else {
        None
    }
}

/// A digit string's value never shrinks as the string grows to the right.
proof fn lemma_digits_val_monotone(b: Seq<u8>, i: int)
    requires
        0 <= i <= b.len(),
        spec_all_digits(b),
    ensures
        spec_digits_val(b.take(i)) <= spec_digits_val(b),
    decreases b.len() - i,
{
    if i < b.len() {
        assert(b.take(i + 1).drop_last() =~= b.take(i));
        assert(b.take(i + 1).last() == b[i] >= 48);
        assert(spec_digits_val(b.take(i)) <= spec_digits_val(b.take(i + 1)));
        lemma_digits_val_monotone(b, i + 1);
    } else {
        assert(b.take(i) =~= b);
    }
}

/// Reads the number denoted by `b[lo..hi]`: `None` when the range is empty,
/// holds a non-digit, or exceeds the unsigned 64-bit range.
fn parse_u64_range(b: &[u8], lo: usize, hi: usize) -> (r: Option<u64>)
    requires
        lo <= hi <= b@.len(),
    ensures
        r == spec_parse_u64(b@.subrange(lo as int, hi as int)),
{
    let ghost sub = b@.subrange(lo as int, hi as int);
    if lo == hi {
        return None;
    }
    let mut acc: u64 = 0;
    let mut i: usize = lo;
    while i < hi
        invariant
            lo <= i <= hi <= b@.len(),
            sub == b@.subrange(lo as int, hi as int),
            spec_all_digits(sub.take(i - lo)),
            acc == spec_digits_val(sub.take(i - lo)),
        decreases hi - i,
    {
        let d = b[i];
        proof {
            assert(sub[i - lo] == b@[i as int]);
        }
        if !(48 <= d && d <= 57) {
            return None;
        }
        let dv = (d - 48) as u64;
        if acc > (0xffff_ffff_ffff_ffffu64 - dv) / 10 {
            proof {
                let j = i - lo;
                assert(sub.take(j + 1).drop_last() =~= sub.take(j));
                assert(sub.take(j + 1).last() == sub[j]);
                vstd::arithmetic::div_mod::lemma_fundamental_div_mod(
                    (0xffff_ffff_ffff_ffff - dv) as int,
                    10,
                );
                assert(spec_digits_val(sub.take(j + 1)) > 0xffff_ffff_ffff_ffff);
                if spec_all_digits(sub) {
                    lemma_digits_val_monotone(sub, j + 1);
                }
            }
            return None;
        }
        proof {
            let j = i - lo;
            assert(sub.take(j + 1).drop_last() =~= sub.take(j));
            assert(sub.take(j + 1).last() == sub[j]);
            vstd::arithmetic::div_mod::lemma_fundamental_div_mod(
                (0xffff_ffff_ffff_ffff - dv) as int,
                10,
            );
        }
        acc = acc * 10 + dv;
        i = i + 1;
    }
    proof {
        assert(sub.take(hi - lo) =~= sub);
    }
    Some(acc)
}

/// The position of the first slash byte in `b`, if any.
pub open spec fn spec_first_slash(b: Seq<u8>) -> Option<nat>
    decreases b.len(),
{
    if b.len() == 0 {
        None
    } else if b[0] == 47 {
        Some(0)
    } else {
        match spec_first_slash(b.drop_first()) {
            Some(k) => Some((k + 1) as nat),
            None => None,
        }
    }
}

/// The first slash lies where it says, with no slash before it.
proof fn lemma_first_slash(b: Seq<u8>)
    ensures
        match spec_first_slash(b) {
            Some(k) => k < b.len() && b[k as int] == 47 && forall|j: int|
                0 <= j < k ==> b[j] != 47,
            None => forall|j: int| 0 <= j < b.len() ==> b[j] != 47,
        },
    decreases b.len(),
{
    if b.len() > 0 && b[0] != 47 {
        lemma_first_slash(b.drop_first());
        match spec_first_slash(b.drop_first()) {
            Some(k) => {
                assert(b[k as int + 1] == b.drop_first()[k as int] == 47);
                assert forall|j: int| 0 <= j < k + 1 implies b[j] != 47 by {
                    if j > 0 {
                        assert(b.drop_first()[j - 1] == b[j]);
                        assert(b.drop_first()[j - 1] != 47);
                    }
                }
            },
            None => {
                assert forall|j: int| 0 <= j < b.len() implies b[j] != 47 by {
                    if j > 0 {
                        assert(b.drop_first()[j - 1] == b[j]);
                        assert(b.drop_first()[j - 1] != 47);
                    }
                }
            },
        }
    }
}

/// Whether a byte is ASCII whitespace: space, tab, line feed, vertical
/// tab, form feed or carriage return.
pub open spec fn spec_is_ascii_ws(c: u8) -> bool {
    c == 32 || 9 <= c <= 13
}

/// `b` without its leading ASCII whitespace.
pub open spec fn spec_trim_front(b: Seq<u8>) -> Seq<u8>
    decreases b.len(),
{
    if b.len() > 0 && spec_is_ascii_ws(b[0]) {
        spec_trim_front(b.drop_first())
    } else {
        b
    }
}

/// `b` without its trailing ASCII whitespace.
pub open spec fn spec_trim_back(b: Seq<u8>) -> Seq<u8>
    decreases b.len(),
{
    if b.len() > 0 && spec_is_ascii_ws(b.last()) {
        spec_trim_back(b.drop_last())
    } else {
        b
    }
}

/// `b` without ASCII whitespace at either end.
pub open spec fn spec_trim(b: Seq<u8>) -> Seq<u8> {
    spec_trim_back(spec_trim_front(b))
}

/// The trust threshold a string denotes: a numerator and a denominator in
/// decimal digits around the first slash, each part allowed surrounding
/// ASCII whitespace, forming a fraction in `(0, 1]`.
pub open spec fn spec_parse_trust_threshold(b: Seq<u8>) -> Option<TrustThreshold> {
    match spec_first_slash(b) {
        None => None,
        Some(k) => match (
            spec_parse_u64(spec_trim(b.take(k as int))),
            spec_parse_u64(spec_trim(b.skip(k as int + 1))),
        ) {
            (Some(n), Some(d)) => if 1 <= n <= d {
                Some(TrustThreshold { numerator: n, denominator: d })
            } else {
                None
            },
            _ => None,
        },
    }
}

/// Whether a byte is ASCII whitespace.
fn is_ascii_ws_byte(c: u8) -> (r: bool)
    ensures
        r == spec_is_ascii_ws(c),
{
    c == 32 || (9 <= c && c <= 13)
}

/// The start of `b[lo..hi]` after its leading ASCII whitespace.
fn skip_ws_front(b: &[u8], lo: usize, hi: usize) -> (a: usize)
    requires
        lo <= hi <= b@.len(),
    ensures
        lo <= a <= hi,
        spec_trim_front(b@.subrange(lo as int, hi as int)) == b@.subrange(a as int, hi as int),
{
    let mut a: usize = lo;
    while a < hi
        invariant
            lo <= a <= hi <= b@.len(),
            spec_trim_front(b@.subrange(lo as int, hi as int)) == spec_trim_front(
                b@.subrange(a as int, hi as int),
            ),
        decreases hi - a,
    {
        if !is_ascii_ws_byte(b[a]) {
            return a;
        }
        proof {
            assert(b@.subrange(a as int, hi as int).drop_first() =~= b@.subrange(
                a + 1,
                hi as int,
            ));
        }
        a = a + 1;
    }
    a
}

/// The end of `b[lo..hi]` before its trailing ASCII whitespace.
fn skip_ws_back(b: &[u8], lo: usize, hi: usize) -> (h: usize)
    requires
        lo <= hi <= b@.len(),
    ensures
        lo <= h <= hi,
        spec_trim_back(b@.subrange(lo as int, hi as int)) == b@.subrange(lo as int, h as int),
{
    let mut h: usize = hi;
    while h > lo
        invariant
            lo <= h <= hi <= b@.len(),
            spec_trim_back(b@.subrange(lo as int, hi as int)) == spec_trim_back(
                b@.subrange(lo as int, h as int),
            ),
        decreases h,
    {
        if !is_ascii_ws_byte(b[h - 1]) {
            return h;
        }
        proof {
            assert(b@.subrange(lo as int, h as int).drop_last() =~= b@.subrange(
                lo as int,
                h - 1,
            ));
        }
        h = h - 1;
    }
    h
}

/// Reads a trust threshold written as a fraction, such as `1/3`: decimal
/// digits, a slash, decimal digits, denoting a fraction in `(0, 1]`.
/// ASCII whitespace around either part is ignored.
pub fn parse_trust_threshold(input: &str) -> (r: Option<TrustThreshold>)
    ensures
        r == spec_parse_trust_threshold(input.spec_bytes()),
{
    let b = input.as_bytes();
    let ghost bv = b@;
    proof {
        lemma_first_slash(bv);
    }
    let mut k: usize = 0;
    while k < b.len() && b[k] != 47
        invariant
            k <= bv.len(),
            bv == b@,
            forall|j: int| 0 <= j < k ==> bv[j] != 47,
        decreases bv.len() - k,
    {
        k = k + 1;
    }
    let found = k < b.len();
    proof {
        if found {
            assert(spec_first_slash(bv) == Some(k as nat)) by {
                lemma_first_slash(bv);
                match spec_first_slash(bv) {
                    Some(m) => {
                        if m < k {
                            assert(bv[m as int] != 47);
                        }
                        if m > k {
                            assert(bv[k as int] != 47);
                        }
                    },
                    None => {
                        assert(bv[k as int] != 47);
                    },
                }
            }
        } else {
            assert(spec_first_slash(bv) is None) by {
                lemma_first_slash(bv);
                match spec_first_slash(bv) {
                    Some(m) => {
                        assert(bv[m as int] != 47);
                    },
                    None => {},
                }
            }
        }
    }
    if !found {
        return None;
    }
    proof {
        assert(bv.subrange(0, k as int) =~= bv.take(k as int));
        assert(bv.subrange(k + 1, bv.len() as int) =~= bv.skip(k + 1));
    }
    let lo1 = skip_ws_front(b, 0, k);
    let hi1 = skip_ws_back(b, lo1, k);
    let numerator = match parse_u64_range(b, lo1, hi1) {
        Some(n) => n,
        None => {
            return None;
        },
    };
    let lo2 = skip_ws_front(b, k + 1, b.len());
    let hi2 = skip_ws_back(b, lo2, b.len());
    let denominator = match parse_u64_range(b, lo2, hi2) {
        Some(d) => d,
        None => {
            return None;
        },
    };
    if 1 <= numerator && numerator <= denominator {
        Some(TrustThreshold { numerator, denominator })
    } else {
        None
    }
}

} // verus!
