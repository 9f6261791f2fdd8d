//! Laws of the ledger: proved statements relating successive operations on
//! one stake record.  Each law is stated over the transition predicates
//! that the ledger operations promise in their contracts
//! ([`spec_stake_step`], [`spec_penalty_step`], [`spec_accrual_step`]).

use vstd::prelude::*;
use crate::platform::{spec_accrual_step, spec_has_active_stake, spec_penalty_step,
    spec_stake_step, spec_profile_delta, spec_total_delta};
use crate::tiers::VerificationStatus;
use crate::types::UserProfile;

verus! {

/// Earned rewards never decrease: across any two successive accrual passes
/// over a profile with an active stake, the recorded reward only grows.
pub proof fn lemma_reward_earned_monotone(
    p0: UserProfile,
    p1: UserProfile,
    p2: UserProfile,
    now1: u64,
    now2: u64,
)
    requires
        p0.stake_info is Some,
        spec_accrual_step(p0, p1, now1),
        spec_accrual_step(p1, p2, now2),
    ensures
        p0.stake_info->Some_0.reward_earned <= p1.stake_info->Some_0.reward_earned,
        p1.stake_info->Some_0.reward_earned <= p2.stake_info->Some_0.reward_earned,
{
}

/// Accrual is idempotent: a second pass at the same instant earns nothing
/// more, profile by profile.
pub proof fn lemma_accrual_idempotent(p0: UserProfile, p1: UserProfile, now: u64)
    requires
        spec_accrual_step(p0, p1, now),
    ensures
        spec_profile_delta(p1, now) == 0,
{
}

/// Accrual is idempotent over the whole ledger: after one pass at `now`,
/// the total newly accrued amount of a second pass at the same `now` is
/// zero.
pub proof fn lemma_batch_accrual_idempotent(s0: Seq<UserProfile>, s1: Seq<UserProfile>, now: u64)
    requires
        s0.len() == s1.len(),
        forall|i: int| 0 <= i < s0.len() ==> spec_accrual_step(s0[i], #[trigger] s1[i], now),
    ensures
        spec_total_delta(s1, now) == 0,
    decreases s1.len(),
{
    if s1.len() > 0 {
        assert(spec_accrual_step(s0.last(), s1.last(), now));
        lemma_accrual_idempotent(s0.last(), s1.last(), now);
        assert forall|i: int| 0 <= i < s0.drop_last().len() implies spec_accrual_step(
            s0.drop_last()[i],
            #[trigger] s1.drop_last()[i],
            now,
        ) by {
            assert(spec_accrual_step(s0[i], s1[i], now));
        }
        lemma_batch_accrual_idempotent(s0.drop_last(), s1.drop_last(), now);
    }
}

/// Three strikes: on a fresh stake, the third penalty — whatever the
/// violations — zeroes the stake and reverts the status, while after two
/// penalties the stake has only shrunk and the status still stands.  The
/// revoked record is no longer active, so no fourth penalty step exists
/// for it: revocation is terminal until a fresh stake replaces the record.
pub proof fn lemma_three_strikes(
    p0: UserProfile,
    p1: UserProfile,
    p2: UserProfile,
    p3: UserProfile,
    v1: Seq<char>,
    v2: Seq<char>,
    v3: Seq<char>,
)
    requires
        p0.stake_info is Some,
        p0.stake_info->Some_0.penalty_count == 0,
        spec_penalty_step(p0, p1, v1),
        spec_penalty_step(p1, p2, v2),
        spec_penalty_step(p2, p3, v3),
    ensures
        p2.verification_status == p0.verification_status,
        p2.stake_info->Some_0.amount_idr <= p0.stake_info->Some_0.amount_idr,
        p2.stake_info->Some_0.penalty_count == 2,
        p3.verification_status == VerificationStatus::Unverified,
        p3.stake_info->Some_0.amount_idr == 0,
        p3.stake_info->Some_0.penalty_count == 3,
        !spec_has_active_stake(p3),
        forall|p4: UserProfile, v4: Seq<char>| !spec_penalty_step(p3, p4, v4),
{
}

/// The reputation score is floored at zero: a penalty below the revocation
/// threshold takes a tenth of a point but never drives the score negative,
/// and a revocation leaves it untouched.
pub proof fn lemma_reputation_floor(p0: UserProfile, p1: UserProfile, v: Seq<char>)
    requires
        spec_penalty_step(p0, p1, v),
    ensures
        p1.reputation_score >= 0,
        p1.reputation_score <= p0.reputation_score,
        p0.reputation_score < 100 && p1.reputation_score != p0.reputation_score
            ==> p1.reputation_score == 0,
{
}

/// Round trip: a stake revoked at the third strike and then re-staked with
/// a valid tier starts over with a clean record — no penalty history, no
/// carried reward.
pub proof fn lemma_restake_resets_penalties(
    p0: UserProfile,
    p1: UserProfile,
    p2: UserProfile,
    v: Seq<char>,
    amount: u64,
    tier: crate::tiers::VerificationTier,
    now: u64,
)
    requires
        p0.stake_info is Some,
        p0.stake_info->Some_0.penalty_count == 2,
        spec_penalty_step(p0, p1, v),
        spec_stake_step(p1, p2, amount, tier, now),
    ensures
        p1.stake_info->Some_0.amount_idr == 0,
        p1.verification_status == VerificationStatus::Unverified,
        p2.stake_info->Some_0.penalty_count == 0,
        p2.stake_info->Some_0.reward_earned == 0,
        p2.stake_info->Some_0.amount_idr == amount,
        p2.verification_status == crate::tiers::spec_tier_status(tier),
{
}

} // verus!
