//! Laws of the verification engine, stated and proved over the same spec
//! functions the executable contracts use.

use vstd::prelude::*;

use crate::errors::VerifyError;
use crate::header::{HeaderView, spec_new_height, spec_signed_power};
use crate::height::height_lt;
use crate::membership::{MembershipQueryView, spec_membership};
use crate::misbehaviour::spec_detect;
use crate::outputs::UpdateClientOutputView;
use crate::types::{ConsensusStateView, EnvView};
use crate::uc_and_membership::spec_update_client_and_membership;
use crate::update_client::{header_checks_before_trust, spec_adjacent, spec_update_client,
    spec_verify_header};
use crate::validators::spec_total_power;

verus! {

/// Monotonicity: any accepted header transition strictly raises both the
/// height and the timestamp; a header at or below the trusted height is
/// rejected as non-monotonic in height, and one at or before the trusted
/// timestamp (when otherwise sound) as non-monotonic in time.
pub proof fn lemma_update_monotonic(
    trusted: ConsensusStateView,
    h: HeaderView,
    env: EnvView,
)
    requires
        spec_verify_header(trusted, h, env) is Ok,
    ensures
        height_lt(h.trusted_height, spec_new_height(h)),
        spec_verify_header(trusted, h, env)->Ok_0.timestamp > trusted.timestamp,
{
}

/// Trust-threshold boundary: for a non-adjacent transition whose other
/// checks all pass, acceptance holds exactly when the committed power of
/// the trusted next validator set reaches `numerator/denominator` of its
/// total power — equality included — and the transition is otherwise
/// rejected as `InsufficientTrust`.
pub proof fn lemma_trust_threshold_boundary(
    trusted: ConsensusStateView,
    h: HeaderView,
    env: EnvView,
)
    requires
        header_checks_before_trust(trusted, h, env),
        !spec_adjacent(h),
        spec_signed_power(h.validator_set, h.signed_header) * 3 > spec_total_power(h.validator_set)
            * 2,
    ensures
        spec_verify_header(trusted, h, env) is Ok <==> spec_signed_power(
            h.trusted_next_validator_set,
            h.signed_header,
        ) * env.trust_threshold.denominator >= spec_total_power(h.trusted_next_validator_set)
            * env.trust_threshold.numerator,
        spec_verify_header(trusted, h, env) !is Ok ==> spec_verify_header(trusted, h, env) == Err::<
            ConsensusStateView,
            VerifyError,
        >(VerifyError::InsufficientTrust),
{
}

/// Idempotence: update verification is a pure function of its inputs, so
/// two results obtained from identical inputs are identical.
pub proof fn lemma_update_client_idempotent(
    trusted: ConsensusStateView,
    h: HeaderView,
    env: EnvView,
    r1: Result<UpdateClientOutputView, VerifyError>,
    r2: Result<UpdateClientOutputView, VerifyError>,
)
    requires
        r1 == spec_update_client(trusted, h, env),
        r2 == spec_update_client(trusted, h, env),
    ensures
        r1 == r2,
{
}

/// Misbehaviour, same height: two independently valid headers for the same
/// height whose block hashes differ are proven equivocation.
pub proof fn lemma_misbehaviour_same_height(
    h1: HeaderView,
    h2: HeaderView,
    trusted_1: ConsensusStateView,
    trusted_2: ConsensusStateView,
    env: EnvView,
)
    requires
        spec_verify_header(trusted_1, h1, env) is Ok,
        spec_verify_header(trusted_2, h2, env) is Ok,
        spec_new_height(h1) == spec_new_height(h2),
        h1.signed_header.block_hash != h2.signed_header.block_hash,
    ensures
        spec_detect(h1, h2, trusted_1, trusted_2, env) == Ok::<
            bool,
            crate::errors::MisbehaviourError,
        >(true),
{
}

/// Misbehaviour, time regression: two independently valid headers at
/// different heights whose timestamps do not strictly increase with height
/// are proven equivocation.
pub proof fn lemma_misbehaviour_time_regression(
    h1: HeaderView,
    h2: HeaderView,
    trusted_1: ConsensusStateView,
    trusted_2: ConsensusStateView,
    env: EnvView,
)
    requires
        spec_verify_header(trusted_1, h1, env) is Ok,
        spec_verify_header(trusted_2, h2, env) is Ok,
        height_lt(spec_new_height(h1), spec_new_height(h2)),
        h2.signed_header.time <= h1.signed_header.time,
    ensures
        spec_detect(h1, h2, trusted_1, trusted_2, env) == Ok::<
            bool,
            crate::errors::MisbehaviourError,
        >(true),
{
}

/// Composite ordering: the combined mode accepts only batches that verify
/// against the application hash of the header introduced in the same call,
/// and fails whenever the batch does not verify against that hash — a batch
/// valid only against the previously trusted root is rejected.
pub proof fn lemma_uc_and_membership_ordering(
    trusted: ConsensusStateView,
    h: HeaderView,
    env: EnvView,
    queries: Seq<MembershipQueryView>,
)
    ensures
        spec_update_client_and_membership(trusted, h, env, queries) is Ok ==> spec_membership(
            h.signed_header.app_hash,
            queries,
        ) is Ok,
        spec_update_client_and_membership(trusted, h, env, queries) is Ok
            ==> spec_update_client_and_membership(
            trusted,
            h,
            env,
            queries,
        )->Ok_0.update_client_output.new_consensus_state.root == h.signed_header.app_hash,
        spec_update_client(trusted, h, env) is Ok && spec_membership(
            h.signed_header.app_hash,
            queries,
        ) !is Ok ==> spec_update_client_and_membership(trusted, h, env, queries) !is Ok,
{
}

} // verus!
