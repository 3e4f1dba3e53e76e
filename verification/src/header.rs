//! Signed headers and the commit arithmetic over them: the canonical
//! precommit sign bytes, and the voting power that a validator set has
//! provably committed to a header.

use vstd::prelude::*;
use vstd::multiset::Multiset;

use crate::bytes::{push_bytes, push_bytes_field, push_fixed64_field, push_msg_field, push_varint,
    push_varint_field, spec_bytes_field, spec_fixed64_field, spec_len_prefixed, spec_varint,
    spec_varint_field};
use crate::height::Height;
use crate::sig::{ed25519_verify, sig_valid};
use crate::types::NANOS_PER_SECOND;
use crate::validators::{MAX_TOTAL_POWER, ValidatorSet, ValidatorView, validator_set_wf};

verus! {

/// One signature slot of a commit.
#[derive(Debug)]
pub struct CommitSig {
    /// Whether this slot commits to the block.  Absent and nil votes carry
    /// no weight and are left `false`.
    pub is_commit: bool,
    /// Address of the validator the slot belongs to.
    pub validator_address: Vec<u8>,
    /// The time at which the validator signed, in nanoseconds since the
    /// Unix epoch.  Part of the signed message.
    pub timestamp: u64,
    /// The Ed25519 signature over the canonical vote.
    pub signature: Vec<u8>,
}

/// Mathematical model of a [`CommitSig`].
pub struct CommitSigView {
    /// Whether this slot commits to the block.
    pub is_commit: bool,
    /// Address of the validator the slot belongs to.
    pub validator_address: Seq<u8>,
    /// The time at which the validator signed, in nanoseconds.
    pub timestamp: u64,
    /// The Ed25519 signature over the canonical vote.
    pub signature: Seq<u8>,
}

impl View for CommitSig {
    type V = CommitSigView;

    open spec fn view(&self) -> CommitSigView {
        CommitSigView {
            is_commit: self.is_commit,
            validator_address: self.validator_address@,
            timestamp: self.timestamp,
            signature: self.signature@,
        }
    }
}

impl DeepView for CommitSig {
    type V = CommitSigView;

    open spec fn deep_view(&self) -> CommitSigView {
        self@
    }
}

/// A block header together with the commit that carries it: the fields the
/// light client reads, and one signature slot per validator.
#[derive(Debug)]
pub struct SignedHeader {
    /// Identifier of the chain, as raw bytes of its name.
    pub chain_id: Vec<u8>,
    /// Block height within the current revision.
    pub height: u64,
    /// Block timestamp, in nanoseconds since the Unix epoch.
    pub time: u64,
    /// Commit round of the quorum certificate.
    pub round: u64,
    /// Commitment root of the application state, 32 bytes.
    pub app_hash: Vec<u8>,
    /// Hash of the validator set that signed this block, 32 bytes.
    pub validators_hash: Vec<u8>,
    /// Hash of the validator set announced for the next height, 32 bytes.
    pub next_validators_hash: Vec<u8>,
    /// Hash of the block the commit signs, 32 bytes.
    pub block_hash: Vec<u8>,
    /// Number of parts the signed block was split into.
    pub part_set_total: u32,
    /// Hash of the block's part set, 32 bytes.
    pub part_set_hash: Vec<u8>,
    /// The commit's signature slots.
    pub signatures: Vec<CommitSig>,
}

/// Mathematical model of a [`SignedHeader`].
pub struct SignedHeaderView {
    /// Identifier of the chain.
    pub chain_id: Seq<u8>,
    /// Block height within the current revision.
    pub height: u64,
    /// Block timestamp, in nanoseconds.
    pub time: u64,
    /// Commit round of the quorum certificate.
    pub round: u64,
    /// Commitment root of the application state.
    pub app_hash: Seq<u8>,
    /// Hash of the validator set that signed this block.
    pub validators_hash: Seq<u8>,
    /// Hash of the validator set announced for the next height.
    pub next_validators_hash: Seq<u8>,
    /// Hash of the block the commit signs.
    pub block_hash: Seq<u8>,
    /// Number of parts the signed block was split into.
    pub part_set_total: u32,
    /// Hash of the block's part set.
    pub part_set_hash: Seq<u8>,
    /// The commit's signature slots.
    pub signatures: Seq<CommitSigView>,
}

impl View for SignedHeader {
    type V = SignedHeaderView;

    open spec fn view(&self) -> SignedHeaderView {
        SignedHeaderView {
            chain_id: self.chain_id@,
            height: self.height,
            time: self.time,
            round: self.round,
            app_hash: self.app_hash@,
            validators_hash: self.validators_hash@,
            next_validators_hash: self.next_validators_hash@,
            block_hash: self.block_hash@,
            part_set_total: self.part_set_total,
            part_set_hash: self.part_set_hash@,
            signatures: self.signatures.deep_view(),
        }
    }
}

/// Structural validity of a signed header: 32-byte digests throughout, and
/// a positive height within the signed 64-bit range.
pub open spec fn signed_header_wf(sh: SignedHeaderView) -> bool {
    &&& sh.app_hash.len() == 32
    &&& sh.validators_hash.len() == 32
    &&& sh.next_validators_hash.len() == 32
    &&& sh.block_hash.len() == 32
    &&& sh.part_set_hash.len() == 32
    &&& 1 <= sh.height <= MAX_TOTAL_POWER
}

impl SignedHeader {
    /// Whether the signed header is structurally valid.
    pub fn is_well_formed(&self) -> (r: bool)
        ensures
            r == signed_header_wf(self@),
    {
        self.app_hash.len() == 32 && self.validators_hash.len() == 32
            && self.next_validators_hash.len() == 32 && self.block_hash.len() == 32
            && self.part_set_hash.len() == 32 && 1 <= self.height && self.height <= MAX_TOTAL_POWER
    }
}

/// A proposed header: the signed header, the validator set it claims signed
/// it, the previously trusted height the proposal builds on, and the
/// validator set announced at that trusted height for its next height.
#[derive(Debug)]
pub struct Header {
    /// The proposed block header and its commit.
    pub signed_header: SignedHeader,
    /// The validator set claimed for the proposed block.
    pub validator_set: ValidatorSet,
    /// The previously trusted height this proposal builds on.
    pub trusted_height: Height,
    /// The validator set announced at the trusted height for the height
    /// after it.
    pub trusted_next_validator_set: ValidatorSet,
}

/// Mathematical model of a [`Header`].
pub struct HeaderView {
    /// The proposed block header and its commit.
    pub signed_header: SignedHeaderView,
    /// The validator set claimed for the proposed block.
    pub validator_set: Seq<ValidatorView>,
    /// The previously trusted height this proposal builds on.
    pub trusted_height: Height,
    /// The validator set announced at the trusted height.
    pub trusted_next_validator_set: Seq<ValidatorView>,
}

impl View for Header {
    type V = HeaderView;

    open spec fn view(&self) -> HeaderView {
        HeaderView {
            signed_header: self.signed_header@,
            validator_set: self.validator_set@,
            trusted_height: self.trusted_height,
            trusted_next_validator_set: self.trusted_next_validator_set@,
        }
    }
}

/// Structural validity of a proposed header: a well-formed signed header
/// and two well-formed validator sets.
pub open spec fn header_wf(h: HeaderView) -> bool {
    &&& signed_header_wf(h.signed_header)
    &&& validator_set_wf(h.validator_set)
    &&& validator_set_wf(h.trusted_next_validator_set)
}

impl Header {
    /// Whether the proposed header is structurally valid.
    pub fn is_well_formed(&self) -> (r: bool)
        ensures
            r == header_wf(self@),
    {
        self.signed_header.is_well_formed() && self.validator_set.is_well_formed()
            && self.trusted_next_validator_set.is_well_formed()
    }

    /// The height the header proposes, in the trusted height's revision.
    pub fn new_height(&self) -> (r: Height)
        ensures
            r == spec_new_height(self@),
    {
        Height {
            revision_number: self.trusted_height.revision_number,
            revision_height: self.signed_header.height,
        }
    }
}

/// The height a header proposes: its block height, within the revision of
/// the height it builds on.
pub open spec fn spec_new_height(h: HeaderView) -> Height {
    Height {
        revision_number: h.trusted_height.revision_number,
        revision_height: h.signed_header.height,
    }
}

/// The canonical protobuf encoding of a precommit vote for the given block
/// at the given height and round, signed at time `timestamp`: the vote type,
/// the height and round as little-endian fixed64 words, the block identifier
/// (block hash, then part-set count and hash), the signing time split into
/// seconds and nanoseconds, and the chain identifier.  Zero-valued scalar
/// fields and empty byte fields are omitted.
pub open spec fn spec_canonical_vote(
    chain_id: Seq<u8>,
    height: u64,
    round: u64,
    block_hash: Seq<u8>,
    part_set_total: u32,
    part_set_hash: Seq<u8>,
    timestamp: u64,
) -> Seq<u8> {
    let psh_msg = spec_varint_field(0x08, part_set_total as nat) + spec_bytes_field(
        0x12,
        part_set_hash,
    );
    let bid_msg = spec_bytes_field(0x0a, block_hash) + spec_len_prefixed(0x12, psh_msg);
    let ts_msg = spec_varint_field(0x08, (timestamp / 1_000_000_000) as nat) + spec_varint_field(
        0x10,
        (timestamp % 1_000_000_000) as nat,
    );
    seq![0x08u8, 0x02u8] + spec_fixed64_field(0x11, height) + spec_fixed64_field(0x19, round)
        + spec_len_prefixed(0x22, bid_msg) + spec_len_prefixed(0x2a, ts_msg) + spec_bytes_field(
        0x32,
        chain_id,
    )
}

/// The message a validator signs: the canonical vote behind its varint
/// length prefix.
pub open spec fn spec_sign_bytes(
    chain_id: Seq<u8>,
    height: u64,
    round: u64,
    block_hash: Seq<u8>,
    part_set_total: u32,
    part_set_hash: Seq<u8>,
    timestamp: u64,
) -> Seq<u8> {
    let msg = spec_canonical_vote(
        chain_id,
        height,
        round,
        block_hash,
        part_set_total,
        part_set_hash,
        timestamp,
    );
    spec_varint(msg.len()) + msg
}

/// The message signed by a precommit for the header `sh` at signing time
/// `timestamp`.
pub open spec fn spec_header_sign_bytes(sh: SignedHeaderView, timestamp: u64) -> Seq<u8> {
    spec_sign_bytes(
        sh.chain_id,
        sh.height,
        sh.round,
        sh.block_hash,
        sh.part_set_total,
        sh.part_set_hash,
        timestamp,
    )
}

/// Builds the message a validator signs for a precommit with the given
/// fields.
pub fn sign_bytes(
    chain_id: &Vec<u8>,
    height: u64,
    round: u64,
    block_hash: &Vec<u8>,
    part_set_total: u32,
    part_set_hash: &Vec<u8>,
    timestamp: u64,
) -> (r: Vec<u8>)
    ensures
        r@ == spec_sign_bytes(
            chain_id@,
            height,
            round,
            block_hash@,
            part_set_total,
            part_set_hash@,
            timestamp,
        ),
{
    let ghost spec_psh = spec_varint_field(0x08, part_set_total as nat) + spec_bytes_field(
        0x12,
        part_set_hash@,
    );
    let mut psh_msg: Vec<u8> = Vec::new();
    push_varint_field(&mut psh_msg, 0x08, part_set_total as u64);
    push_bytes_field(&mut psh_msg, 0x12, part_set_hash);
    assert(psh_msg@ =~= spec_psh);

    let ghost spec_bid = spec_bytes_field(0x0a, block_hash@) + spec_len_prefixed(0x12, spec_psh);
    let mut bid_msg: Vec<u8> = Vec::new();
    push_bytes_field(&mut bid_msg, 0x0a, block_hash);
    push_msg_field(&mut bid_msg, 0x12, &psh_msg);
    assert(bid_msg@ =~= spec_bid);

    let ghost spec_ts = spec_varint_field(0x08, (timestamp / 1_000_000_000) as nat)
        + spec_varint_field(0x10, (timestamp % 1_000_000_000) as nat);
    let mut ts_msg: Vec<u8> = Vec::new();
    push_varint_field(&mut ts_msg, 0x08, timestamp / NANOS_PER_SECOND);
    push_varint_field(&mut ts_msg, 0x10, timestamp % NANOS_PER_SECOND);
    assert(ts_msg@ =~= spec_ts);

    let mut msg: Vec<u8> = Vec::new();
    msg.push(0x08);
    msg.push(0x02);
    assert(msg@ =~= seq![0x08u8, 0x02u8]);
    push_fixed64_field(&mut msg, 0x11, height);
    push_fixed64_field(&mut msg, 0x19, round);
    push_msg_field(&mut msg, 0x22, &bid_msg);
    push_msg_field(&mut msg, 0x2a, &ts_msg);
    push_bytes_field(&mut msg, 0x32, chain_id);
    assert(msg@ =~= spec_canonical_vote(
        chain_id@,
        height,
        round,
        block_hash@,
        part_set_total,
        part_set_hash@,
        timestamp,
    ));

    let mut out: Vec<u8> = Vec::new();
    push_varint(&mut out, msg.len() as u64);
    push_bytes(&mut out, &msg);
    assert(out@ =~= spec_sign_bytes(
        chain_id@,
        height,
        round,
        block_hash@,
        part_set_total,
        part_set_hash@,
        timestamp,
    ));
    out
}

/// Whether the signature slot `sig` is a commit for the header `sh` by the
/// validator `v`: the slot commits, carries `v`'s address, and its signature
/// verifies under `v`'s key over the canonical sign bytes at the slot's own
/// signing time.
pub open spec fn spec_sig_signs(sh: SignedHeaderView, sig: CommitSigView, v: ValidatorView) -> bool {
    &&& sig.is_commit
    &&& sig.validator_address == v.address
    &&& sig_valid(v.pub_key, spec_header_sign_bytes(sh, sig.timestamp), sig.signature)
}

/// Whether some signature slot of `sh`'s commit is a valid commit by `v`.
pub open spec fn spec_has_valid_sig(sh: SignedHeaderView, v: ValidatorView) -> bool {
    exists|j: int| 0 <= j < sh.signatures.len() && spec_sig_signs(sh, sh.signatures[j], v)
}

/// The voting power of the members of `vals` that provably committed to the
/// header `sh`: each member counts once, with its own power, when some slot
/// of the commit is a valid commit by it.
pub open spec fn spec_signed_power(vals: Seq<ValidatorView>, sh: SignedHeaderView) -> int
    decreases vals.len(),
{
    if vals.len() == 0 {
        0
    } else {
        (if spec_has_valid_sig(sh, vals[0]) {
            vals[0].power as int
        } else {
            0
        }) + spec_signed_power(vals.drop_first(), sh)
    }
}

/// The committed power is never negative.
pub proof fn lemma_signed_power_nonneg(vals: Seq<ValidatorView>, sh: SignedHeaderView)
    ensures
        spec_signed_power(vals, sh) >= 0,
    decreases vals.len(),
{
    if vals.len() > 0 {
        lemma_signed_power_nonneg(vals.drop_first(), sh);
    }
}

/// The committed power never exceeds the total power.
pub proof fn lemma_signed_power_le_total(vals: Seq<ValidatorView>, sh: SignedHeaderView)
    ensures
        spec_signed_power(vals, sh) <= crate::validators::spec_total_power(vals),
    decreases vals.len(),
{
    if vals.len() > 0 {
        lemma_signed_power_le_total(vals.drop_first(), sh);
    }
}

/// Whether some slot of `sh`'s commit is a valid commit by the validator at
/// `vals[i]`.
fn has_valid_sig(sh: &SignedHeader, v: &crate::validators::Validator) -> (r: bool)
    ensures
        r == spec_has_valid_sig(sh@, v@),
{
    let mut j: usize = 0;
    while j < sh.signatures.len()
        invariant
            j <= sh.signatures@.len(),
            sh@.signatures.len() == sh.signatures@.len(),
            forall|k: int| 0 <= k < j ==> !spec_sig_signs(sh@, #[trigger] sh@.signatures[k], v@),
        decreases sh.signatures@.len() - j,
    {
        let sig = &sh.signatures[j];
        proof {
            assert(sh@.signatures[j as int] == sh.signatures@[j as int]@);
        }
        if sig.is_commit && crate::bytes::bytes_eq(&sig.validator_address, &v.address) {
            let msg = sign_bytes(
                &sh.chain_id,
                sh.height,
                sh.round,
                &sh.block_hash,
                sh.part_set_total,
                &sh.part_set_hash,
                sig.timestamp,
            );
            if ed25519_verify(&v.pub_key, &msg, &sig.signature) {
                proof {
                    assert(spec_sig_signs(sh@, sh@.signatures[j as int], v@));
                }
                return true;
            }
        }
        j = j + 1;
    }
    false
}

/// The power a signature slot's claimed validator holds in `set`; zero for
/// an address not in the set.
pub open spec fn spec_sig_power(set: Seq<ValidatorView>, sig: CommitSigView) -> u64 {
    crate::validators::spec_power_of(set, sig.validator_address)
}

/// Copies a commit's signature slots.
fn duplicate_sigs(sigs: &Vec<CommitSig>) -> (r: Vec<CommitSig>)
    ensures
        r.deep_view() == sigs.deep_view(),
{
    let mut r: Vec<CommitSig> = Vec::new();
    let mut i: usize = 0;
    while i < sigs.len()
        invariant
            i <= sigs@.len(),
            r.deep_view() =~~= sigs.deep_view().take(i as int),
        decreases sigs@.len() - i,
    {
        let ghost prev = r.deep_view();
        let s = &sigs[i];
        let d = CommitSig {
            is_commit: s.is_commit,
            validator_address: crate::types::clone_bytes(&s.validator_address),
            timestamp: s.timestamp,
            signature: crate::types::clone_bytes(&s.signature),
        };
        let ghost dv = d@;
        r.push(d);
        proof {
            assert(dv == sigs.deep_view()[i as int]);
            assert(r.deep_view() =~~= prev.push(dv));
            assert(prev.push(dv) =~~= sigs.deep_view().take(i + 1));
        }
        i = i + 1;
    }
    proof {
        assert(r.deep_view() =~~= sigs.deep_view());
    }
    r
}

/// The subsequence of signature slots whose claimed validator holds
/// exactly power `p` in `set`, in their original order.
pub open spec fn spec_power_filter(
    set: Seq<ValidatorView>,
    sigs: Seq<CommitSigView>,
    p: u64,
) -> Seq<CommitSigView> {
    sigs.filter(|sig: CommitSigView| spec_sig_power(set, sig) == p)
}

/// Filtering keeps nothing when no element satisfies the predicate.
proof fn lemma_filter_none(s: Seq<CommitSigView>, pred: spec_fn(CommitSigView) -> bool)
    requires
        forall|i: int| 0 <= i < s.len() ==> !pred(#[trigger] s[i]),
    ensures
        s.filter(pred) == Seq::<CommitSigView>::empty(),
    decreases s.len(),
{
    reveal(Seq::filter);
    if s.len() > 0 {
        assert(!pred(s.last()));
        lemma_filter_none(s.drop_last(), pred);
    } else {
        assert(s.filter(pred) =~= Seq::<CommitSigView>::empty());
    }
}

/// Filtering commutes with appending one element.
proof fn lemma_filter_push(s: Seq<CommitSigView>, x: CommitSigView, pred: spec_fn(CommitSigView) -> bool)
    ensures
        s.push(x).filter(pred) == if pred(x) {
            s.filter(pred).push(x)
        } else {
            s.filter(pred)
        },
{
    reveal(Seq::filter);
    assert(s.push(x).drop_last() =~= s);
    assert(s.push(x).last() == x);
}

/// Reorders the commit's signature slots by the descending power their
/// claimed validators hold in `validators_set`; slots of unknown validators
/// count as zero.  Slots of equal power keep their relative order, and the
/// slots themselves and every other field of the header are kept.  Tallying
/// can then stop as soon as a threshold is reached — a pure optimisation,
/// never required for correctness.
pub fn sort_signatures_by_validators_power_desc(
    signed_header: &mut SignedHeader,
    validators_set: &ValidatorSet,
)
    ensures
        final(signed_header).signatures.deep_view().to_multiset() == old(
            signed_header,
        ).signatures.deep_view().to_multiset(),
        forall|i: int, j: int|
            0 <= i < j < final(signed_header).signatures.deep_view().len() ==> spec_sig_power(
                validators_set@,
                #[trigger] final(signed_header).signatures.deep_view()[i],
            ) >= spec_sig_power(
                validators_set@,
                #[trigger] final(signed_header).signatures.deep_view()[j],
            ),
        forall|p: u64|
            #[trigger] spec_power_filter(
                validators_set@,
                final(signed_header).signatures.deep_view(),
                p,
            ) == spec_power_filter(
                validators_set@,
                old(signed_header).signatures.deep_view(),
                p,
            ),
        final(signed_header)@ == (SignedHeaderView {
            signatures: final(signed_header)@.signatures,
            ..old(signed_header)@
        }),
{
    broadcast use vstd::seq_lib::group_to_multiset_ensures;
    broadcast use vstd::multiset::group_multiset_axioms;

    let ghost orig_sigs = signed_header.signatures.deep_view();
    let ghost orig = signed_header.signatures.deep_view().to_multiset();
    let ghost set_v = validators_set@;
    let mut rest = duplicate_sigs(&signed_header.signatures);
    let mut out: Vec<CommitSig> = Vec::new();
    proof {
        assert forall|p: u64|
            spec_power_filter(set_v, out.deep_view(), p) + spec_power_filter(
                set_v,
                rest.deep_view(),
                p,
            ) == #[trigger] spec_power_filter(set_v, orig_sigs, p) by {
            assert(out.deep_view() =~= Seq::<CommitSigView>::empty());
            assert(spec_power_filter(set_v, out.deep_view(), p) + spec_power_filter(
                set_v,
                rest.deep_view(),
                p,
            ) =~= spec_power_filter(set_v, orig_sigs, p));
        }
    }
    while rest.len() > 0
        invariant
            out.deep_view().to_multiset().add(rest.deep_view().to_multiset()) =~= orig,
            set_v == validators_set@,
            forall|p: u64|
                spec_power_filter(set_v, out.deep_view(), p) + spec_power_filter(
                    set_v,
                    rest.deep_view(),
                    p,
                ) == #[trigger] spec_power_filter(set_v, orig_sigs, p),
            forall|i: int, j: int|
                0 <= i < j < out.deep_view().len() ==> spec_sig_power(
                    set_v,
                    #[trigger] out.deep_view()[i],
                ) >= spec_sig_power(set_v, #[trigger] out.deep_view()[j]),
            forall|i: int, j: int|
                0 <= i < out.deep_view().len() && 0 <= j < rest.deep_view().len()
                    ==> spec_sig_power(set_v, #[trigger] out.deep_view()[i]) >= spec_sig_power(
                    set_v,
                    #[trigger] rest.deep_view()[j],
                ),
        decreases rest@.len(),
    {
        let mut best: usize = 0;
        let mut best_power = crate::validators::power_of(
            validators_set,
            &rest[0].validator_address,
        );
        let mut j: usize = 1;
        proof {
            assert(rest.deep_view()[0] == rest@[0]@);
        }
        while j < rest.len()
            invariant
                best < j <= rest@.len() == rest.deep_view().len(),
                set_v == validators_set@,
                best_power == spec_sig_power(set_v, rest.deep_view()[best as int]),
                forall|l: int|
                    0 <= l < j ==> best_power >= spec_sig_power(
                        set_v,
                        #[trigger] rest.deep_view()[l],
                    ),
                forall|l: int|
                    0 <= l < best ==> best_power > spec_sig_power(
                        set_v,
                        #[trigger] rest.deep_view()[l],
                    ),
            decreases rest@.len() - j,
        {
            proof {
                assert(rest.deep_view()[j as int] == rest@[j as int]@);
            }
            let p = crate::validators::power_of(validators_set, &rest[j].validator_address);
            if p > best_power {
                best = j;
                best_power = p;
            }
            j = j + 1;
        }
        let ghost rest_dv = rest.deep_view();
        let s = rest.remove(best);
        let ghost sv = s@;
        proof {
            assert(sv == rest_dv[best as int]);
            assert(rest.deep_view() =~~= rest_dv.remove(best as int));
            assert(rest_dv.contains(rest_dv[best as int]));
        }
        let ghost out_dv = out.deep_view();
        out.push(s);
        proof {
            assert(out.deep_view() =~~= out_dv.push(sv));
            assert(out.deep_view() == out_dv.push(sv));
            vstd::seq_lib::to_multiset_build(out_dv, sv);
            assert(rest.deep_view() == rest_dv.remove(best as int));
            vstd::seq_lib::to_multiset_remove(rest_dv, best as int);
            vstd::seq_lib::to_multiset_contains(rest_dv, sv);
            assert(rest_dv.to_multiset().count(sv) > 0);
            assert(out.deep_view().to_multiset().add(rest.deep_view().to_multiset()) =~= orig);
            assert forall|j2: int|
                0 <= j2 < rest.deep_view().len() implies spec_sig_power(set_v, sv)
                >= spec_sig_power(set_v, #[trigger] rest.deep_view()[j2]) by {
                if j2 < best {
                    assert(rest.deep_view()[j2] == rest_dv[j2]);
                } else {
                    assert(rest.deep_view()[j2] == rest_dv[j2 + 1]);
                }
            }
            let a = rest_dv.take(best as int);
            let b = rest_dv.skip(best as int + 1);
            assert(rest_dv =~= a + (seq![sv] + b));
            assert(rest_dv.remove(best as int) =~= a + b);
            assert forall|p: u64|
                spec_power_filter(set_v, out.deep_view(), p) + spec_power_filter(
                    set_v,
                    rest.deep_view(),
                    p,
                ) == #[trigger] spec_power_filter(set_v, orig_sigs, p) by {
                let pred = |sig: CommitSigView| spec_sig_power(set_v, sig) == p;
                Seq::filter_distributes_over_add(a, seq![sv] + b, pred);
                Seq::filter_distributes_over_add(seq![sv], b, pred);
                Seq::filter_distributes_over_add(a, b, pred);
                lemma_filter_push(out_dv, sv, pred);
                lemma_filter_push(Seq::<CommitSigView>::empty(), sv, pred);
                assert(Seq::<CommitSigView>::empty().push(sv) =~= seq![sv]);
                assert(Seq::<CommitSigView>::empty().filter(pred) =~= Seq::<
                    CommitSigView,
                >::empty());
                if p == spec_sig_power(set_v, sv) {
                    assert forall|l: int| 0 <= l < a.len() implies !pred(#[trigger] a[l]) by {
                        assert(a[l] == rest_dv[l]);
                    }
                    lemma_filter_none(a, pred);
                }
                assert(spec_power_filter(set_v, out_dv, p) + spec_power_filter(
                    set_v,
                    rest_dv,
                    p,
                ) == spec_power_filter(set_v, orig_sigs, p));
                assert(spec_power_filter(set_v, out.deep_view(), p) + spec_power_filter(
                    set_v,
                    rest.deep_view(),
                    p,
                ) =~= spec_power_filter(set_v, orig_sigs, p));
            }
        }
    }
    proof {
        assert(rest.deep_view().to_multiset() =~= Multiset::<CommitSigView>::empty());
        assert(out.deep_view().to_multiset().add(Multiset::empty()) =~= out.deep_view().to_multiset());
        assert forall|p: u64|
            #[trigger] spec_power_filter(set_v, out.deep_view(), p) == spec_power_filter(
                set_v,
                orig_sigs,
                p,
            ) by {
            assert(rest.deep_view() =~= Seq::<CommitSigView>::empty());
            assert(spec_power_filter(set_v, rest.deep_view(), p) =~= Seq::<
                CommitSigView,
            >::empty());
            assert(spec_power_filter(set_v, out.deep_view(), p) + spec_power_filter(
                set_v,
                rest.deep_view(),
                p,
            ) =~= spec_power_filter(set_v, out.deep_view(), p));
        }
    }
    signed_header.signatures = out;
}

/// The voting power of the members of `set` that provably committed to the
/// header `sh`.
pub fn signed_power(set: &ValidatorSet, sh: &SignedHeader) -> (r: u128)
    ensures
        r == spec_signed_power(set@, sh@),
{
    let ghost all = set@;
    let mut acc: u128 = 0;
    let mut i: usize = 0;
    proof {
        assert(all.skip(0) =~= all);
    }
    while i < set.validators.len()
        invariant
            i <= set.validators@.len(),
            all == set@,
            acc == spec_signed_power(all, sh@) - spec_signed_power(all.skip(i as int), sh@),
            acc <= i * (0xffff_ffff_ffff_ffffu64 as int),
        decreases set.validators@.len() - i,
    {
        proof {
            assert(all.skip(i as int).drop_first() =~= all.skip(i + 1));
            assert(set@[i as int] == set.validators@[i as int]@);
        }
        if has_valid_sig(sh, &set.validators[i]) {
            acc = acc + set.validators[i].power as u128;
        }
        i = i + 1;
    }
    proof {
        assert(all.skip(all.len() as int) =~= Seq::<ValidatorView>::empty());
    }
    acc
}

} // verus!
