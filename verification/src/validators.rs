//! Validators and validator sets: their canonical byte encoding, the
//! validator-set hash, and voting-power arithmetic.
//!
//! A validator's voting power is a non-negative signed 64-bit quantity; a
//! well-formed set's total power also stays within that range, so threshold
//! comparisons never overflow 128-bit arithmetic.

use vstd::prelude::*;

use crate::bytes::{bytes_eq, push_bytes_field, push_msg_field, push_varint_field,
    spec_bytes_field, spec_len_prefixed, spec_varint_field};
use crate::hash::{merkle_root, spec_merkle_root};

verus! {

/// The largest value a voting power or a total power may take.
pub const MAX_TOTAL_POWER: u64 = 0x7fff_ffff_ffff_ffff;

/// One validator of the tracked chain.
#[derive(Debug)]
pub struct Validator {
    /// The validator's 20-byte account address.
    pub address: Vec<u8>,
    /// The validator's 32-byte Ed25519 verification key.
    pub pub_key: Vec<u8>,
    /// The validator's voting power.
    pub power: u64,
}

/// Mathematical model of a [`Validator`].
pub struct ValidatorView {
    /// The validator's account address.
    pub address: Seq<u8>,
    /// The validator's Ed25519 verification key.
    pub pub_key: Seq<u8>,
    /// The validator's voting power.
    pub power: u64,
}

impl View for Validator {
    type V = ValidatorView;

    open spec fn view(&self) -> ValidatorView {
        ValidatorView { address: self.address@, pub_key: self.pub_key@, power: self.power }
    }
}

impl DeepView for Validator {
    type V = ValidatorView;

    open spec fn deep_view(&self) -> ValidatorView {
        self@
    }
}

/// An ordered validator set.
#[derive(Debug)]
pub struct ValidatorSet {
    /// The validators, in the chain's canonical order.
    pub validators: Vec<Validator>,
}

impl View for ValidatorSet {
    type V = Seq<ValidatorView>;

    open spec fn view(&self) -> Seq<ValidatorView> {
        self.validators.deep_view()
    }
}

/// Structural validity of one validator: a 20-byte address, a 32-byte key,
/// and a power within the signed 64-bit range.
pub open spec fn validator_wf(v: ValidatorView) -> bool {
    v.address.len() == 20 && v.pub_key.len() == 32 && v.power <= MAX_TOTAL_POWER
}

/// Sum of the voting powers of `vals`.
pub open spec fn spec_total_power(vals: Seq<ValidatorView>) -> int
    decreases vals.len(),
{
    if vals.len() == 0 {
        0
    } else {
        vals[0].power + spec_total_power(vals.drop_first())
    }
}

/// Structural validity of a validator set: every member well formed, no
/// address repeated, and the total power within the signed 64-bit range.
pub open spec fn validator_set_wf(vals: Seq<ValidatorView>) -> bool {
    &&& forall|i: int| 0 <= i < vals.len() ==> validator_wf(#[trigger] vals[i])
    &&& forall|i: int, j: int|
        0 <= i < j < vals.len() ==> (#[trigger] vals[i].address) != (#[trigger] vals[j].address)
    &&& spec_total_power(vals) <= MAX_TOTAL_POWER
}

/// The canonical protobuf encoding of a validator for hashing purposes:
/// its key as a nested Ed25519 public-key message, then its power.
pub open spec fn spec_simple_validator(pub_key: Seq<u8>, power: u64) -> Seq<u8> {
    spec_len_prefixed(0x0a, spec_bytes_field(0x0a, pub_key)) + spec_varint_field(0x10, power as nat)
}

/// Hash of a validator set: the Merkle root over the canonical encodings of
/// its members, in order.
pub open spec fn spec_validators_hash(vals: Seq<ValidatorView>) -> Seq<u8> {
    spec_merkle_root(vals.map(|i: int, v: ValidatorView| spec_simple_validator(v.pub_key, v.power)))
}

/// The canonical byte encoding of one validator.
pub fn simple_validator_bytes(v: &Validator) -> (r: Vec<u8>)
    ensures
        r@ == spec_simple_validator(v@.pub_key, v@.power),
{
    let mut pk_msg: Vec<u8> = Vec::new();
    push_bytes_field(&mut pk_msg, 0x0a, &v.pub_key);
    let mut out: Vec<u8> = Vec::new();
    push_msg_field(&mut out, 0x0a, &pk_msg);
    push_varint_field(&mut out, 0x10, v.power);
    proof {
        assert(Seq::<u8>::empty() + spec_bytes_field(0x0a, v.pub_key@) =~= spec_bytes_field(
            0x0a,
            v.pub_key@,
        ));
        assert(out@ =~= spec_simple_validator(v@.pub_key, v@.power));
    }
    out
}

impl ValidatorSet {
    /// Build a set from its members.
    pub fn new(validators: Vec<Validator>) -> (r: ValidatorSet)
        ensures
            r@ == validators.deep_view(),
    {
        ValidatorSet { validators }
    }

    /// Hash of the set: the Merkle root over its members' canonical
    /// encodings.
    pub fn hash(&self) -> (r: Vec<u8>)
        ensures
            r@ == spec_validators_hash(self@),
            r@.len() == 32,
    {
        let ghost mapped = self@.map(
            |i: int, v: ValidatorView| spec_simple_validator(v.pub_key, v.power),
        );
        let mut items: Vec<Vec<u8>> = Vec::new();
        let mut i: usize = 0;
        while i < self.validators.len()
            invariant
                i <= self.validators@.len(),
                items.deep_view() =~~= mapped.take(i as int),
                mapped == self@.map(
                    |i: int, v: ValidatorView| spec_simple_validator(v.pub_key, v.power),
                ),
            decreases self.validators@.len() - i,
        {
            let b = simple_validator_bytes(&self.validators[i]);
            let ghost prev = items.deep_view();
            let ghost bv = b@;
            items.push(b);
            proof {
                assert(self@[i as int] == self.validators@[i as int]@);
                assert(bv == mapped[i as int]);
                assert(items.deep_view() =~~= prev.push(bv));
                assert(prev.push(bv) =~~= mapped.take(i + 1));
                assert(items.deep_view() =~~= mapped.take(i + 1));
            }
            i = i + 1;
        }
        assert(items.deep_view() =~~= mapped);
        merkle_root(&items)
    }

    /// Sum of the voting powers of the set's members.
    pub fn total_power(&self) -> (r: u128)
        ensures
            r == spec_total_power(self@),
    {
        let ghost all = self@;
        let mut acc: u128 = 0;
        let mut i: usize = 0;
        proof {
            assert(all.skip(0) =~= all);
        }
        while i < self.validators.len()
            invariant
                i <= self.validators@.len(),
                all == self@,
                acc == spec_total_power(all) - spec_total_power(all.skip(i as int)),
                acc <= i * (0xffff_ffff_ffff_ffffu64 as int),
            decreases self.validators@.len() - i,
        {
            proof {
                assert(all.skip(i as int).drop_first() =~= all.skip(i + 1));
                assert(self@[i as int] == self.validators@[i as int]@);
            }
            acc = acc + self.validators[i].power as u128;
            i = i + 1;
        }
        proof {
            assert(all.skip(all.len() as int) =~= Seq::<ValidatorView>::empty());
        }
        acc
    }

    /// Whether the set is structurally valid: every member well formed, no
    /// address repeated, total power within the signed 64-bit range.
    pub fn is_well_formed(&self) -> (r: bool)
        ensures
            r == validator_set_wf(self@),
    {
        let n = self.validators.len();
        let mut i: usize = 0;
        while i < n
            invariant
                i <= n == self.validators@.len(),
                forall|k: int| 0 <= k < i ==> validator_wf(#[trigger] self@[k]),
            decreases n - i,
        {
            proof {
                assert(self@[i as int] == self.validators@[i as int]@);
            }
            let v = &self.validators[i];
            if !(v.address.len() == 20 && v.pub_key.len() == 32 && v.power <= MAX_TOTAL_POWER) {
                return false;
            }
            i = i + 1;
        }
        let mut i: usize = 0;
        while i < n
            invariant
                i <= n == self.validators@.len(),
                forall|k: int, l: int|
                    0 <= k < l < self@.len() && k < i ==> (#[trigger] self@[k].address) != (
                    #[trigger] self@[l].address),
            decreases n - i,
        {
            let mut j: usize = i + 1;
            while j < n
                invariant
                    i < j <= n == self.validators@.len(),
                    forall|l: int|
                        i < l < j ==> (#[trigger] self@[l].address) != self@[i as int].address,
                decreases n - j,
            {
                proof {
                    assert(self@[i as int] == self.validators@[i as int]@);
                    assert(self@[j as int] == self.validators@[j as int]@);
                }
                if bytes_eq(&self.validators[i].address, &self.validators[j].address) {
                    return false;
                }
                j = j + 1;
            }
            i = i + 1;
        }
        self.total_power() <= MAX_TOTAL_POWER as u128
    }
}

/// The total power of a set is never negative.
pub proof fn lemma_total_power_nonneg(vals: Seq<ValidatorView>)
    ensures
        spec_total_power(vals) >= 0,
    decreases vals.len(),
{
    if vals.len() > 0 {
        lemma_total_power_nonneg(vals.drop_first());
    }
}

/// The power of the first validator in `vals` whose address is `addr`, or
/// zero when no member has that address.
pub open spec fn spec_power_of(vals: Seq<ValidatorView>, addr: Seq<u8>) -> u64
    decreases vals.len(),
{
    if vals.len() == 0 {
        0u64
    } else if vals[0].address == addr {
        vals[0].power
    } else {
        spec_power_of(vals.drop_first(), addr)
    }
}

/// The power held in `set` by the validator with address `addr`, or zero.
pub fn power_of(set: &ValidatorSet, addr: &Vec<u8>) -> (r: u64)
    ensures
        r == spec_power_of(set@, addr@),
{
    let mut i: usize = 0;
    proof {
        assert(set@.skip(0) =~= set@);
    }
    loop
        invariant
            i <= set@.len(),
            spec_power_of(set@, addr@) == spec_power_of(set@.skip(i as int), addr@),
        decreases set@.len() - i,
    {
        if i == set.validators.len() {
            return 0;
        }
        proof {
            assert(set@[i as int] == set.validators@[i as int]@);
        }
        if bytes_eq(&set.validators[i].address, addr) {
            return set.validators[i].power;
        }
        proof {
            assert(set@.skip(i as int).drop_first() =~= set@.skip(i + 1));
        }
        i = i + 1;
    }
}

} // verus!
