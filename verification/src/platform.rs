//! The platform state and its operations: the stake and reputation ledger,
//! the record stores, recommendation generation, transactions, analytics,
//! advertisements and the treasury.
//!
//! The host executes one call to completion before the next, so the state
//! is a plain value handed from call to call; no locking lives here.

use vstd::prelude::*;
use vstd::string::StringExecFns;
use crate::accrual::{ONE_YEAR, accrued_value, spec_accrued_value};
use crate::error::Error;
use crate::store::StoreMap;
use crate::text::{spec_u64_dec, u64_to_string};
use crate::tiers::{
    VerificationTier, VerificationStatus, spec_required_amount, spec_annual_return_permille,
    spec_tier_status, required_amount, annual_return_permille, tier_status,
};
use crate::types::{
    AIRecommendation, Advertisement, AnalyticsData, AnalyticsSubscription, DecentralizedIdentity,
    FragranceIdentity, Product, StakeInfo, Transaction, TreasuryInvestment, UserProfile,
    VerifiedReview,
};

verus! {

/// The whole marketplace state: one store per record family and the
/// aggregate stake pool.
pub struct Platform {
    pub user_profiles: StoreMap<UserProfile>,
    pub decentralized_identities: StoreMap<DecentralizedIdentity>,
    pub products: StoreMap<Product>,
    pub verified_reviews: StoreMap<VerifiedReview>,
    pub ai_recommendations: StoreMap<Vec<AIRecommendation>>,
    pub transactions: StoreMap<Transaction>,
    pub analytics_subscriptions: StoreMap<AnalyticsSubscription>,
    pub analytics_data: StoreMap<Vec<AnalyticsData>>,
    pub advertisements: StoreMap<Advertisement>,
    pub treasury_investments: StoreMap<TreasuryInvestment>,
    pub stake_pool: u64,
}

impl Platform {
    /// Every store is well formed and every record sits under its own id.
    pub open spec fn wf(self) -> bool {
        &&& self.user_profiles.wf()
        &&& self.decentralized_identities.wf()
        &&& self.products.wf()
        &&& self.verified_reviews.wf()
        &&& self.ai_recommendations.wf()
        &&& self.transactions.wf()
        &&& self.analytics_subscriptions.wf()
        &&& self.analytics_data.wf()
        &&& self.advertisements.wf()
        &&& self.treasury_investments.wf()
        &&& forall|i: int|
            0 <= i < self.user_profiles.spec_len() ==> (
            #[trigger] self.user_profiles.vals@[i]).user_id@ == self.user_profiles.keys@[i]@
        &&& forall|i: int|
            0 <= i < self.products.spec_len() ==> (#[trigger] self.products.vals@[i]).id@
                == self.products.keys@[i]@
        &&& forall|i: int|
            0 <= i < self.decentralized_identities.spec_len() ==> (
            #[trigger] self.decentralized_identities.vals@[i]).did@
                == self.decentralized_identities.keys@[i]@
    }

    /// The stores other than the profile ledger and the stake pool are
    /// untouched.
    pub open spec fn only_profiles_changed(self, other: Self) -> bool {
        &&& self.decentralized_identities == other.decentralized_identities
        &&& self.products == other.products
        &&& self.verified_reviews == other.verified_reviews
        &&& self.ai_recommendations == other.ai_recommendations
        &&& self.transactions == other.transactions
        &&& self.analytics_subscriptions == other.analytics_subscriptions
        &&& self.analytics_data == other.analytics_data
        &&& self.advertisements == other.advertisements
        &&& self.treasury_investments == other.treasury_investments
    }

    /// An empty platform: every store empty, nothing staked.
    pub fn new() -> (r: Self)
        ensures
            r.wf(),
            r.stake_pool == 0,
            r.user_profiles.spec_len() == 0,
            r.decentralized_identities.spec_len() == 0,
            r.products.spec_len() == 0,
            r.verified_reviews.spec_len() == 0,
            r.ai_recommendations.spec_len() == 0,
            r.transactions.spec_len() == 0,
            r.analytics_subscriptions.spec_len() == 0,
            r.analytics_data.spec_len() == 0,
            r.advertisements.spec_len() == 0,
            r.treasury_investments.spec_len() == 0,
    {
        Platform {
            user_profiles: StoreMap::new(),
            decentralized_identities: StoreMap::new(),
            products: StoreMap::new(),
            verified_reviews: StoreMap::new(),
            ai_recommendations: StoreMap::new(),
            transactions: StoreMap::new(),
            analytics_subscriptions: StoreMap::new(),
            analytics_data: StoreMap::new(),
            advertisements: StoreMap::new(),
            treasury_investments: StoreMap::new(),
            stake_pool: 0,
        }
    }

    /// Create or replace a profile, stored under its own user id.
    pub fn create_user_profile(&mut self, profile: UserProfile) -> (r: Result<String, Error>)
        requires
            old(self).wf(),
        ensures
            final(self).wf(),
            r is Ok,
            r->Ok_0@ == "Profile created for user: "@ + profile.user_id@,
            final(self).user_profiles.spec_get(profile.user_id@) == Option::Some(profile),
            forall|k: Seq<char>|
                k != profile.user_id@ ==> final(self).user_profiles.spec_get(k) == old(
                    self,
                ).user_profiles.spec_get(k),
            final(self).only_profiles_changed(*old(self)),
            final(self).stake_pool == old(self).stake_pool,
    {
        let key = profile.user_id.clone();
        let mut msg = String::from_str("Profile created for user: ");
        msg.append(profile.user_id.as_str());
        self.user_profiles.insert(key, profile);
        Ok(msg)
    }

    /// Look up a profile by user id.
    pub fn get_user_profile(&self, user_id: &String) -> (r: Option<&UserProfile>)
        requires
            self.wf(),
        ensures
            match r {
                Option::Some(p) => self.user_profiles.spec_get(user_id@)
                    == Option::Some(*p),
                Option::None => self.user_profiles.spec_get(user_id@)
                    == Option::<UserProfile>::None,
            },
    {
        self.user_profiles.get(user_id)
    }

    /// Stake `amount` for a verification tier.  Fails when the amount is
    /// below the tier's minimum or the user has no profile.  On success the
    /// prior stake record, if any, is replaced by a fresh one locked for a
    /// year, the profile's status becomes the tier's bucket, and the stake
    /// pool grows by the amount (saturating).
    pub fn stake_for_verification(
        &mut self,
        user_id: String,
        amount: u64,
        tier: VerificationTier,
        now: u64,
    ) -> (r: Result<String, Error>)
        requires
            old(self).wf(),
            now + ONE_YEAR <= u64::MAX,
        ensures
            final(self).wf(),
            amount < spec_required_amount(tier) ==> r == Result::<String, Error>::Err(
                Error::InsufficientStake { required: spec_required_amount(tier) },
            ) && *final(self) == *old(self),
            amount >= spec_required_amount(tier) && !old(self).user_profiles.contains_key(
                user_id@,
            ) ==> r == Result::<String, Error>::Err(Error::UserNotFound) && *final(self) == *old(
                self,
            ),
            amount >= spec_required_amount(tier) && old(self).user_profiles.contains_key(user_id@)
                ==> {
                &&& r is Ok
                &&& r->Ok_0@ == "Staked "@ + spec_u64_dec(amount as int)
                    + " IDR for verification tier"@
                &&& {
                    let p_old = old(self).user_profiles.spec_get(user_id@)->Some_0;
                    let p_new = final(self).user_profiles.spec_get(user_id@)->Some_0;
                    &&& final(self).user_profiles.contains_key(user_id@)
                    &&& spec_stake_step(p_old, p_new, amount, tier, now)
                    &&& p_new.base_eq(p_old)
                    &&& p_new.reputation_score == p_old.reputation_score
                    &&& p_new.verification_status == spec_tier_status(tier)
                    &&& p_new.stake_info == Option::Some(
                        StakeInfo {
                            amount_idr: amount,
                            tier,
                            locked_until: (now + ONE_YEAR) as u64,
                            penalty_count: 0,
                            reward_earned: 0,
                            annual_return_rate: spec_annual_return_permille(tier),
                        },
                    )
                }
                &&& forall|k: Seq<char>|
                    k != user_id@ ==> final(self).user_profiles.spec_get(k) == old(
                        self,
                    ).user_profiles.spec_get(k)
                &&& final(self).user_profiles.keys@ == old(self).user_profiles.keys@
                &&& final(self).stake_pool == if old(self).stake_pool + amount > u64::MAX {
                    u64::MAX as int
                } else {
                    old(self).stake_pool + amount
                }
                &&& final(self).only_profiles_changed(*old(self))
            },
    {
        let required = required_amount(&tier);
        let annual_return = annual_return_permille(&tier);
        if amount < required {
            return Err(Error::InsufficientStake { required });
        }
        let found = self.user_profiles.find(&user_id);
        match found {
            Option::None => Err(Error::UserNotFound),
            Option::Some(i) => {
                let mut updated = self.user_profiles.vals[i].clone();
                updated.stake_info = Some(
                    StakeInfo {
                        amount_idr: amount,
                        tier,
                        locked_until: now + ONE_YEAR,
                        penalty_count: 0,
                        reward_earned: 0,
                        annual_return_rate: annual_return,
                    },
                );
                updated.verification_status = tier_status(&tier);
                self.user_profiles.set_val(i, updated);
                self.stake_pool = self.stake_pool.saturating_add(amount);
                let mut msg = String::from_str("Staked ");
                let num = u64_to_string(amount);
                msg.append(num.as_str());
                msg.append(" IDR for verification tier");
                Ok(msg)
            },
        }
    }
}

/// The profile transition a successful stake performs: a fresh stake
/// record locked for a year, the tier's status bucket, everything else
/// untouched.
pub open spec fn spec_stake_step(
    p_old: UserProfile,
    p_new: UserProfile,
    amount: u64,
    tier: VerificationTier,
    now: u64,
) -> bool {
    &&& p_new.base_eq(p_old)
    &&& p_new.reputation_score == p_old.reputation_score
    &&& p_new.verification_status == spec_tier_status(tier)
    &&& p_new.stake_info == Option::Some(
        StakeInfo {
            amount_idr: amount,
            tier,
            locked_until: (now + ONE_YEAR) as u64,
            penalty_count: 0,
            reward_earned: 0,
            annual_return_rate: spec_annual_return_permille(tier),
        },
    )
}

/// A profile holds an active stake record.  The record invariant is
/// `penalty_count < 3` while active: the third strike zeroes the record,
/// which destroys it logically — `Revoked` is terminal, so a record whose
/// count has reached 3 is no longer active (a later stake replaces it with
/// a fresh one).
pub open spec fn spec_has_active_stake(p: UserProfile) -> bool {
    p.stake_info is Some && p.stake_info->Some_0.penalty_count < 3
}

/// The profile transition one penalty performs on an active stake: the
/// count rises first; at three strikes the stake is zeroed and the status
/// reverts, otherwise the stake shrinks by the violation's fraction
/// (saturating at zero) and the reputation drops by 0.1, floored at zero.
pub open spec fn spec_penalty_step(
    p_old: UserProfile,
    p_new: UserProfile,
    violation: Seq<char>,
) -> bool {
    spec_has_active_stake(p_old) && {
        let si = p_old.stake_info->Some_0;
        let cnt = (si.penalty_count + 1) as u32;
        let penalty = si.amount_idr / spec_penalty_divisor(violation);
        &&& p_new.base_eq(p_old)
        &&& if cnt >= 3 {
            &&& p_new.verification_status == VerificationStatus::Unverified
            &&& p_new.reputation_score == p_old.reputation_score
            &&& p_new.stake_info == Option::Some(
                StakeInfo { amount_idr: 0, penalty_count: cnt, ..si },
            )
        } else {
            &&& p_new.verification_status == p_old.verification_status
            &&& p_new.reputation_score == if p_old.reputation_score >= 100 {
                p_old.reputation_score - 100
            } else {
                0int
            }
            &&& p_new.stake_info == Option::Some(
                StakeInfo {
                    amount_idr: if si.amount_idr >= penalty {
                        (si.amount_idr - penalty) as u64
                    } else {
                        0u64
                    },
                    penalty_count: cnt,
                    ..si
                },
            )
        }
    }
}

/// Fraction of the stake forfeited for a violation, as a divisor keyed by
/// the violation type string.
pub open spec fn spec_penalty_divisor(violation: Seq<char>) -> u64 {
    if violation == "fake_review"@ {
        10
    } else if violation == "misleading_product"@ {
        5
    } else if violation == "spam_behavior"@ {
        20
    } else {
        50
    }
}

/// One accrual pass over a profile: with an active stake, the earned
/// reward advances to the accrued value if that is larger, and nothing
/// else moves; without a stake the profile is untouched.
pub open spec fn spec_accrual_step(p_old: UserProfile, p_new: UserProfile, now: u64) -> bool {
    match p_old.stake_info {
        Option::None => p_new == p_old,
        Option::Some(si) => {
            let acc = spec_accrued_value(
                si.amount_idr,
                si.annual_return_rate,
                (now - p_old.created_at) as u64,
            );
            &&& p_new.base_eq(p_old)
            &&& p_new.verification_status == p_old.verification_status
            &&& p_new.reputation_score == p_old.reputation_score
            &&& p_new.stake_info == Option::Some(
                StakeInfo {
                    reward_earned: if acc > si.reward_earned {
                        acc as u64
                    } else {
                        si.reward_earned
                    },
                    ..si
                },
            )
        },
    }
}

/// Newly accrued reward of one profile at `now`: the amount by which the
/// accrued value exceeds what was already earned.
pub open spec fn spec_profile_delta(p: UserProfile, now: u64) -> int {
    match p.stake_info {
        Option::None => 0,
        Option::Some(si) => {
            let acc = spec_accrued_value(
                si.amount_idr,
                si.annual_return_rate,
                (now - p.created_at) as u64,
            );
            if acc > si.reward_earned {
                acc - si.reward_earned
            } else {
                0
            }
        },
    }
}

/// Total newly accrued reward over a sequence of profiles.
pub open spec fn spec_total_delta(profiles: Seq<UserProfile>, now: u64) -> int
    decreases profiles.len(),
{
    if profiles.len() == 0 {
        0
    } else {
        spec_total_delta(profiles.drop_last(), now) + spec_profile_delta(profiles.last(), now)
    }
}

/// The total delta capped at `u64::MAX`.
pub open spec fn spec_total_delta_capped(profiles: Seq<UserProfile>, now: u64) -> int {
    if spec_total_delta(profiles, now) > u64::MAX as int {
        u64::MAX as int
    } else {
        spec_total_delta(profiles, now)
    }
}

pub proof fn lemma_total_delta_nonneg(profiles: Seq<UserProfile>, now: u64)
    ensures
        0 <= spec_total_delta(profiles, now),
    decreases profiles.len(),
{
    if profiles.len() > 0 {
        lemma_total_delta_nonneg(profiles.drop_last(), now);
    }
}

impl Platform {
    /// Advance every staked profile's earned reward to its accrued value at
    /// `now` (never backwards) and report the total newly accrued amount.
    pub fn process_stake_rewards(&mut self, now: u64) -> (r: Result<String, Error>)
        requires
            old(self).wf(),
            forall|i: int|
                0 <= i < old(self).user_profiles.spec_len() ==> (
                #[trigger] old(self).user_profiles.vals@[i]).created_at <= now,
        ensures
            final(self).wf(),
            r is Ok,
            r->Ok_0@ == "Processed stake rewards: "@ + spec_u64_dec(
                spec_total_delta_capped(old(self).user_profiles.vals@, now),
            ) + " IDR total"@,
            final(self).user_profiles.keys@ == old(self).user_profiles.keys@,
            final(self).user_profiles.spec_len() == old(self).user_profiles.spec_len(),
            forall|i: int|
                0 <= i < old(self).user_profiles.spec_len() ==> spec_accrual_step(
                    old(self).user_profiles.vals@[i],
                    #[trigger] final(self).user_profiles.vals@[i],
                    now,
                ),
            final(self).only_profiles_changed(*old(self)),
            final(self).stake_pool == old(self).stake_pool,
    {
        let mut total: u64 = 0;
        let mut i: usize = 0;
        let n = self.user_profiles.len();
        while i < n
            invariant
                self.wf(),
                old(self).wf(),
                n == self.user_profiles.spec_len(),
                n == old(self).user_profiles.vals@.len(),
                i <= n,
                self.user_profiles.keys@ == old(self).user_profiles.keys@,
                forall|k: int|
                    i <= k < n ==> #[trigger] self.user_profiles.vals@[k] == old(
                        self,
                    ).user_profiles.vals@[k],
                forall|k: int|
                    0 <= k < i ==> spec_accrual_step(
                        old(self).user_profiles.vals@[k],
                        #[trigger] self.user_profiles.vals@[k],
                        now,
                    ),
                forall|k: int|
                    0 <= k < n ==> (#[trigger] old(self).user_profiles.vals@[k]).created_at
                        <= now,
                total as int == spec_total_delta_capped(
                    old(self).user_profiles.vals@.take(i as int),
                    now,
                ),
                self.only_profiles_changed(*old(self)),
                self.stake_pool == old(self).stake_pool,
            decreases n - i,
        {
            proof {
                let pfx = old(self).user_profiles.vals@.take(i + 1);
                assert(pfx.drop_last() =~= old(self).user_profiles.vals@.take(i as int));
                assert(pfx.last() == old(self).user_profiles.vals@[i as int]);
                lemma_total_delta_nonneg(old(self).user_profiles.vals@.take(i as int), now);
            }
            if let Option::Some(si) = self.user_profiles.vals[i].stake_info {
                let created_at = self.user_profiles.vals[i].created_at;
                let acc = accrued_value(si.amount_idr, si.annual_return_rate, created_at, now);
                if acc > si.reward_earned {
                    let delta = acc - si.reward_earned;
                    let mut updated = self.user_profiles.vals[i].clone();
                    updated.stake_info = Some(StakeInfo { reward_earned: acc, ..si });
                    self.user_profiles.set_val(i, updated);
                    total = total.saturating_add(delta);
                }
            }
            i += 1;
        }
        proof {
            assert(old(self).user_profiles.vals@.take(n as int) =~= old(
                self,
            ).user_profiles.vals@);
        }
        let mut msg = String::from_str("Processed stake rewards: ");
        let num = u64_to_string(total);
        msg.append(num.as_str());
        msg.append(" IDR total");
        Ok(msg)
    }

    /// Penalize a user's active stake for a violation.  The penalty count
    /// rises first; at the third strike the stake is zeroed and the status
    /// reverts to `Unverified` (reported as a revocation, not an error).
    /// Below the threshold, the stake shrinks by the violation's fraction
    /// (never past zero) and the reputation drops by 0.1, floored at zero.
    /// A record already zeroed by revocation is no longer active, so a
    /// further penalty fails with `NoActiveStake`, like a missing record.
    pub fn penalize_malicious_behavior(
        &mut self,
        user_id: String,
        violation_type: String,
    ) -> (r: Result<String, Error>)
        requires
            old(self).wf(),
        ensures
            final(self).wf(),
            !old(self).user_profiles.contains_key(user_id@) ==> r == Result::<String, Error>::Err(
                Error::UserNotFound,
            ) && *final(self) == *old(self),
            old(self).user_profiles.contains_key(user_id@) && !spec_has_active_stake(
                old(self).user_profiles.spec_get(user_id@)->Some_0,
            ) ==> r == Result::<String, Error>::Err(Error::NoActiveStake) && *final(self) == *old(
                self,
            ),
            old(self).user_profiles.contains_key(user_id@) && spec_has_active_stake(
                old(self).user_profiles.spec_get(user_id@)->Some_0,
            ) ==> {
                let p_old = old(self).user_profiles.spec_get(user_id@)->Some_0;
                let si = p_old.stake_info->Some_0;
                let cnt = (si.penalty_count + 1) as u32;
                let penalty = si.amount_idr / spec_penalty_divisor(violation_type@);
                let p_new = final(self).user_profiles.spec_get(user_id@)->Some_0;
                &&& final(self).user_profiles.contains_key(user_id@)
                &&& spec_penalty_step(p_old, p_new, violation_type@)
                &&& p_new.base_eq(p_old)
                &&& forall|k: Seq<char>|
                    k != user_id@ ==> final(self).user_profiles.spec_get(k) == old(
                        self,
                    ).user_profiles.spec_get(k)
                &&& final(self).user_profiles.keys@ == old(self).user_profiles.keys@
                &&& final(self).only_profiles_changed(*old(self))
                &&& final(self).stake_pool == old(self).stake_pool
                &&& if cnt >= 3 {
                    &&& p_new.verification_status == VerificationStatus::Unverified
                    &&& p_new.reputation_score == p_old.reputation_score
                    &&& p_new.stake_info == Option::Some(
                        StakeInfo { amount_idr: 0, penalty_count: cnt, ..si },
                    )
                    &&& r is Ok
                    &&& r->Ok_0@ == "User "@ + user_id@
                        + " verification revoked due to repeated violations"@
                } else {
                    &&& p_new.verification_status == p_old.verification_status
                    &&& p_new.reputation_score == if p_old.reputation_score >= 100 {
                        p_old.reputation_score - 100
                    } else {
                        0int
                    }
                    &&& p_new.stake_info == Option::Some(
                        StakeInfo {
                            amount_idr: if si.amount_idr >= penalty {
                                (si.amount_idr - penalty) as u64
                            } else {
                                0u64
                            },
                            penalty_count: cnt,
                            ..si
                        },
                    )
                    &&& r is Ok
                    &&& r->Ok_0@ == "Penalty applied to "@ + user_id@ + ": "@ + spec_u64_dec(
                        penalty as int,
                    ) + " IDR deducted"@
                }
            },
    {
        let found = self.user_profiles.find(&user_id);
        let i = match found {
            Option::None => {
                return Err(Error::UserNotFound);
            },
            Option::Some(i) => i,
        };
        let si = match &self.user_profiles.vals[i].stake_info {
            Option::None => {
                return Err(Error::NoActiveStake);
            },
            Option::Some(s) => *s,
        };
        if si.penalty_count >= 3 {
            // The record was zeroed by revocation and is logically
            // destroyed; only a fresh stake can replace it.
            return Err(Error::NoActiveStake);
        }
        let divisor = if crate::text::str_eq(&violation_type, "fake_review") {
            10
        } else if crate::text::str_eq(&violation_type, "misleading_product") {
            5
        } else if crate::text::str_eq(&violation_type, "spam_behavior") {
            20
        } else {
            50
        };
        let penalty_amount = si.amount_idr / divisor;
        let cnt = si.penalty_count + 1;
        let mut updated = self.user_profiles.vals[i].clone();
        if cnt >= 3 {
            updated.verification_status = VerificationStatus::Unverified;
            updated.stake_info = Some(StakeInfo { amount_idr: 0, penalty_count: cnt, ..si });
            self.user_profiles.set_val(i, updated);
            let mut msg = String::from_str("User ");
            msg.append(user_id.as_str());
            msg.append(" verification revoked due to repeated violations");
            Ok(msg)
        } else {
            updated.stake_info = Some(
                StakeInfo {
                    amount_idr: si.amount_idr.saturating_sub(penalty_amount),
                    penalty_count: cnt,
                    ..si
                },
            );
            updated.reputation_score = updated.reputation_score.saturating_sub(100);
            self.user_profiles.set_val(i, updated);
            let mut msg = String::from_str("Penalty applied to ");
            msg.append(user_id.as_str());
            msg.append(": ");
            let num = u64_to_string(penalty_amount);
            msg.append(num.as_str());
            msg.append(" IDR deducted");
            Ok(msg)
        }
    }
}

/// The subsequence of `s` whose elements satisfy `pred`, in order.
pub open spec fn spec_select<T>(s: Seq<T>, pred: spec_fn(T) -> bool) -> Seq<T>
    decreases s.len(),
{
    if s.len() == 0 {
        Seq::empty()
    } else {
        let rest = spec_select(s.drop_last(), pred);
        if pred(s.last()) {
            rest.push(s.last())
        } else {
            rest
        }
    }
}

/// A product passes the advanced search filters.
pub open spec fn spec_search_matches(
    p: Product,
    fragrance_family: Option<String>,
    budget_min: Option<u64>,
    budget_max: Option<u64>,
    occasion: Option<String>,
    season: Option<String>,
    verified_only: Option<bool>,
) -> bool {
    &&& match fragrance_family {
        Option::Some(f) => crate::text::spec_contains_ci(p.fragrance_family@, f@),
        Option::None => true,
    }
    &&& match budget_min {
        Option::Some(m) => p.price_idr >= m,
        Option::None => true,
    }
    &&& match budget_max {
        Option::Some(m) => p.price_idr <= m,
        Option::None => true,
    }
    &&& match occasion {
        Option::Some(o) => crate::matching::spec_any_contains_ci(p.occasion@, o@),
        Option::None => true,
    }
    &&& match season {
        Option::Some(s) => crate::matching::spec_any_contains_ci(p.season@, s@),
        Option::None => true,
    }
    &&& match verified_only {
        Option::Some(v) => !v || p.verified,
        Option::None => true,
    }
}

/// Whether `p` passes the advanced search filters.
fn product_matches_search(
    p: &Product,
    fragrance_family: &Option<String>,
    budget_min: &Option<u64>,
    budget_max: &Option<u64>,
    occasion: &Option<String>,
    season: &Option<String>,
    verified_only: &Option<bool>,
) -> (r: bool)
    ensures
        r == spec_search_matches(
            *p,
            *fragrance_family,
            *budget_min,
            *budget_max,
            *occasion,
            *season,
            *verified_only,
        ),
{
    if let Option::Some(f) = fragrance_family {
        if !crate::text::contains_ci(p.fragrance_family.as_str(), f.as_str()) {
            return false;
        }
    }
    if let Option::Some(m) = budget_min {
        if p.price_idr < *m {
            return false;
        }
    }
    if let Option::Some(m) = budget_max {
        if p.price_idr > *m {
            return false;
        }
    }
    if let Option::Some(o) = occasion {
        if !crate::matching::any_contains_ci(&p.occasion, o.as_str()) {
            return false;
        }
    }
    if let Option::Some(s) = season {
        if !crate::matching::any_contains_ci(&p.season, s.as_str()) {
            return false;
        }
    }
    if let Option::Some(v) = verified_only {
        if *v && !p.verified {
            return false;
        }
    }
    true
}

impl Platform {
    /// Issue a decentralized identity for a user, store it under its DID,
    /// and link the user's profile to it when the profile exists.
    pub fn create_decentralized_identity(
        &mut self,
        user_id: String,
        personality_data: FragranceIdentity,
        now: u64,
    ) -> (r: Result<DecentralizedIdentity, Error>)
        requires
            old(self).wf(),
        ensures
            final(self).wf(),
            r is Ok,
            ({
                let ident = r->Ok_0;
                &&& ident.did@ == "did:icp:aromance:"@ + user_id@
                &&& ident.public_key@ == "pub_key_"@ + spec_u64_dec(now as int)
                &&& ident.private_key_hash@ == "priv_hash_"@ + spec_u64_dec(now as int)
                &&& ident.verified_claims@.len() == 0
                &&& ident.data_permissions@.len() == 0
                &&& ident.fragrance_identity == personality_data
                &&& ident.created_at == now
                &&& final(self).decentralized_identities.contains_key(ident.did@)
                &&& final(self).decentralized_identities.spec_get(ident.did@)->Some_0.eqv(ident)
                &&& forall|k: Seq<char>|
                    k != ident.did@ ==> final(self).decentralized_identities.spec_get(k) == old(
                        self,
                    ).decentralized_identities.spec_get(k)
                &&& old(self).user_profiles.contains_key(user_id@) ==> {
                    let p_old = old(self).user_profiles.spec_get(user_id@)->Some_0;
                    let p_new = final(self).user_profiles.spec_get(user_id@)->Some_0;
                    &&& final(self).user_profiles.contains_key(user_id@)
                    &&& p_new.eq_except_did(p_old)
                    &&& p_new.did is Some
                    &&& p_new.did->Some_0@ == ident.did@
                }
                &&& !old(self).user_profiles.contains_key(user_id@) ==> final(self).user_profiles
                    == old(self).user_profiles
            }),
            forall|k: Seq<char>|
                k != user_id@ ==> final(self).user_profiles.spec_get(k) == old(
                    self,
                ).user_profiles.spec_get(k),
            final(self).products == old(self).products,
            final(self).verified_reviews == old(self).verified_reviews,
            final(self).ai_recommendations == old(self).ai_recommendations,
            final(self).transactions == old(self).transactions,
            final(self).analytics_subscriptions == old(self).analytics_subscriptions,
            final(self).analytics_data == old(self).analytics_data,
            final(self).advertisements == old(self).advertisements,
            final(self).treasury_investments == old(self).treasury_investments,
            final(self).stake_pool == old(self).stake_pool,
    {
        let mut did = String::from_str("did:icp:aromance:");
        did.append(user_id.as_str());
        let timestr = u64_to_string(now);
        let mut public_key = String::from_str("pub_key_");
        public_key.append(timestr.as_str());
        let mut private_key_hash = String::from_str("priv_hash_");
        private_key_hash.append(timestr.as_str());
        let identity = DecentralizedIdentity {
            did: did.clone(),
            public_key,
            private_key_hash,
            verified_claims: Vec::new(),
            data_permissions: Vec::new(),
            fragrance_identity: personality_data,
            created_at: now,
        };
        let stored = identity.clone();
        self.decentralized_identities.insert(did.clone(), stored);
        let found = self.user_profiles.find(&user_id);
        if let Option::Some(i) = found {
            let mut updated = self.user_profiles.vals[i].clone();
            updated.did = Some(did);
            self.user_profiles.set_val(i, updated);
        }
        Ok(identity)
    }

    /// Add or replace a catalog product, stored under its own id.
    pub fn add_product(&mut self, product: Product) -> (r: Result<String, Error>)
        requires
            old(self).wf(),
        ensures
            final(self).wf(),
            r is Ok,
            r->Ok_0@ == "Product added: "@ + product.name@,
            final(self).products.contains_key(product.id@),
            final(self).products.spec_get(product.id@) == Option::Some(product),
            forall|k: Seq<char>|
                k != product.id@ ==> final(self).products.spec_get(k) == old(
                    self,
                ).products.spec_get(k),
            final(self).user_profiles == old(self).user_profiles,
            final(self).stake_pool == old(self).stake_pool,
    {
        let key = product.id.clone();
        let mut msg = String::from_str("Product added: ");
        msg.append(product.name.as_str());
        self.products.insert(key, product);
        Ok(msg)
    }

    /// All catalog products, in insertion order.
    pub fn get_products(&self) -> (r: Vec<Product>)
        requires
            self.wf(),
        ensures
            r@.len() == self.products.spec_len(),
            forall|i: int|
                0 <= i < r@.len() ==> #[trigger] r@[i].eqv(self.products.vals@[i]),
    {
        let mut out: Vec<Product> = Vec::new();
        let mut i: usize = 0;
        let n = self.products.len();
        while i < n
            invariant
                self.wf(),
                n == self.products.spec_len(),
                i <= n,
                out@.len() == i,
                forall|k: int| 0 <= k < i ==> #[trigger] out@[k].eqv(self.products.vals@[k]),
            decreases n - i,
        {
            out.push(self.products.vals[i].clone());
            i += 1;
        }
        out
    }

    /// Catalog products passing each supplied filter, in insertion order.
    pub fn search_products_advanced(
        &self,
        fragrance_family: Option<String>,
        budget_min: Option<u64>,
        budget_max: Option<u64>,
        occasion: Option<String>,
        season: Option<String>,
        longevity: Option<crate::types::LongevityRating>,
        verified_only: Option<bool>,
    ) -> (r: Vec<Product>)
        requires
            self.wf(),
        ensures
            ({
                let f = spec_select(
                    self.products.vals@,
                    |p: Product|
                        spec_search_matches(
                            p,
                            fragrance_family,
                            budget_min,
                            budget_max,
                            occasion,
                            season,
                            verified_only,
                        ),
                );
                r@.len() == f.len() && forall|i: int|
                    0 <= i < r@.len() ==> #[trigger] r@[i].eqv(f[i])
            }),
    {
        let _ = longevity;
        let ghost pred = |p: Product|
            spec_search_matches(
                p,
                fragrance_family,
                budget_min,
                budget_max,
                occasion,
                season,
                verified_only,
            );
        let mut out: Vec<Product> = Vec::new();
        let mut i: usize = 0;
        let n = self.products.len();
        while i < n
            invariant
                self.wf(),
                n == self.products.spec_len(),
                i <= n,
                pred == (|p: Product|
                    spec_search_matches(
                        p,
                        fragrance_family,
                        budget_min,
                        budget_max,
                        occasion,
                        season,
                        verified_only,
                    )),
                out@.len() == spec_select(self.products.vals@.take(i as int), pred).len(),
                forall|k: int|
                    0 <= k < out@.len() ==> #[trigger] out@[k].eqv(
                        spec_select(self.products.vals@.take(i as int), pred)[k],
                    ),
            decreases n - i,
        {
            proof {
                assert(self.products.vals@.take(i + 1).drop_last() =~= self.products.vals@.take(
                    i as int,
                ));
                assert(self.products.vals@.take(i + 1).last() == self.products.vals@[i as int]);
            }
            if product_matches_search(
                &self.products.vals[i],
                &fragrance_family,
                &budget_min,
                &budget_max,
                &occasion,
                &season,
                &verified_only,
            ) {
                out.push(self.products.vals[i].clone());
            }
            i += 1;
        }
        proof {
            assert(self.products.vals@.take(n as int) =~= self.products.vals@);
        }
        out
    }

    /// Publish a review, provided its author exists and is verified.
    pub fn create_verified_review(&mut self, review: VerifiedReview) -> (r: Result<String, Error>)
        requires
            old(self).wf(),
        ensures
            final(self).wf(),
            !old(self).user_profiles.contains_key(review.reviewer_id@) ==> r == Result::<
                String,
                Error,
            >::Err(Error::UserNotFound) && *final(self) == *old(self),
            old(self).user_profiles.contains_key(review.reviewer_id@) && old(
                self,
            ).user_profiles.spec_get(review.reviewer_id@)->Some_0.verification_status
                == VerificationStatus::Unverified ==> r == Result::<String, Error>::Err(
                Error::ReviewerUnverified,
            ) && *final(self) == *old(self),
            old(self).user_profiles.contains_key(review.reviewer_id@) && old(
                self,
            ).user_profiles.spec_get(review.reviewer_id@)->Some_0.verification_status
                != VerificationStatus::Unverified ==> {
                &&& r is Ok
                &&& r->Ok_0@ == "Verified review created: "@ + review.review_id@
                &&& final(self).verified_reviews.spec_get(review.review_id@) == Option::Some(
                    review,
                )
                &&& forall|k: Seq<char>|
                    k != review.review_id@ ==> final(self).verified_reviews.spec_get(k) == old(
                        self,
                    ).verified_reviews.spec_get(k)
                &&& final(self).user_profiles == old(self).user_profiles
                &&& final(self).stake_pool == old(self).stake_pool
            },
    {
        let found = self.user_profiles.find(&review.reviewer_id);
        match found {
            Option::None => Err(Error::UserNotFound),
            Option::Some(i) => {
                if matches!(
                    self.user_profiles.vals[i].verification_status,
                    VerificationStatus::Unverified
                ) {
                    return Err(Error::ReviewerUnverified);
                }
                let key = review.review_id.clone();
                let mut msg = String::from_str("Verified review created: ");
                msg.append(review.review_id.as_str());
                self.verified_reviews.insert(key, review);
                Ok(msg)
            },
        }
    }

    /// All reviews of one product, in insertion order.
    pub fn get_product_reviews(&self, product_id: String) -> (r: Vec<VerifiedReview>)
        requires
            self.wf(),
        ensures
            r@ == spec_select(
                self.verified_reviews.vals@,
                |rv: VerifiedReview| rv.product_id@ == product_id@,
            ),
    {
        let ghost pred = |rv: VerifiedReview| rv.product_id@ == product_id@;
        let mut out: Vec<VerifiedReview> = Vec::new();
        let mut i: usize = 0;
        let n = self.verified_reviews.len();
        while i < n
            invariant
                self.wf(),
                n == self.verified_reviews.spec_len(),
                i <= n,
                pred == (|rv: VerifiedReview| rv.product_id@ == product_id@),
                out@ == spec_select(self.verified_reviews.vals@.take(i as int), pred),
            decreases n - i,
        {
            proof {
                assert(self.verified_reviews.vals@.take(i + 1).drop_last()
                    =~= self.verified_reviews.vals@.take(i as int));
                assert(self.verified_reviews.vals@.take(i + 1).last()
                    == self.verified_reviews.vals@[i as int]);
            }
            if crate::text::str_eq(&product_id, self.verified_reviews.vals[i].product_id.as_str())
            {
                out.push(self.verified_reviews.vals[i].clone());
            }
            i += 1;
        }
        proof {
            assert(self.verified_reviews.vals@.take(n as int) =~= self.verified_reviews.vals@);
        }
        out
    }

    /// A user has a profile linked to a stored decentralized identity.
    pub open spec fn spec_has_identity(self, user_id: Seq<char>) -> bool {
        &&& self.user_profiles.contains_key(user_id)
        &&& self.user_profiles.spec_get(user_id)->Some_0.did is Some
        &&& self.decentralized_identities.contains_key(
            self.user_profiles.spec_get(user_id)->Some_0.did->Some_0@,
        )
    }

    /// The taste profile the matching engine would use for a user.
    pub open spec fn spec_identity_of(self, user_id: Seq<char>) -> FragranceIdentity {
        self.decentralized_identities.spec_get(
            self.user_profiles.spec_get(user_id)->Some_0.did->Some_0@,
        )->Some_0.fragrance_identity
    }

    /// Recompute the user's recommendation list over the whole catalog,
    /// replace the stored list, and return it.  Fails when the user lacks a
    /// profile or a resolved identity.
    pub fn generate_ai_recommendations(&mut self, user_id: String, now: u64) -> (r: Result<
        Vec<AIRecommendation>,
        Error,
    >)
        requires
            old(self).wf(),
        ensures
            final(self).wf(),
            !old(self).spec_has_identity(user_id@) ==> r == Result::<
                Vec<AIRecommendation>,
                Error,
            >::Err(Error::IdentityNotFound) && *final(self) == *old(self),
            old(self).spec_has_identity(user_id@) ==> {
                let ident = old(self).spec_identity_of(user_id@);
                let catalog = old(self).products.vals@;
                let recs = r->Ok_0;
                &&& r is Ok
                &&& recs@.len() == if crate::recommend::spec_survivor_count(ident, catalog)
                    > 10 {
                    10int
                } else {
                    crate::recommend::spec_survivor_count(ident, catalog)
                }
                &&& crate::recommend::spec_sorted_desc(recs@)
                &&& forall|i: int|
                    0 <= i < recs@.len() ==> #[trigger] recs@[i].match_score
                        > crate::recommend::SCORE_CUTOFF_X4
                &&& forall|i: int|
                    0 <= i < recs@.len() ==> crate::recommend::spec_rec_from_catalog(
                        #[trigger] recs@[i],
                        user_id@,
                        ident,
                        catalog,
                        now,
                    )
                &&& forall|i1: int, i2: int|
                    0 <= i1 < i2 < recs@.len() ==> recs@[i1].product_id@ != recs@[i2].product_id@
                &&& forall|j: int|
                    0 <= j < catalog.len() && #[trigger] crate::matching::spec_overall_score_x4(
                        ident,
                        catalog[j],
                    ) > crate::recommend::SCORE_CUTOFF_X4 ==> (exists|i: int|
                        0 <= i < recs@.len() && recs@[i].product_id == catalog[j].id) || (
                    recs@.len() == 10 && recs@[9].match_score
                        >= crate::matching::spec_overall_score_x4(ident, catalog[j]))
                &&& final(self).ai_recommendations.spec_get(user_id@) is Some
                &&& final(self).ai_recommendations.spec_get(user_id@)->Some_0@ == recs@
                &&& forall|k: Seq<char>|
                    k != user_id@ ==> final(self).ai_recommendations.spec_get(k) == old(
                        self,
                    ).ai_recommendations.spec_get(k)
                &&& final(self).user_profiles == old(self).user_profiles
                &&& final(self).products == old(self).products
                &&& final(self).decentralized_identities == old(self).decentralized_identities
                &&& final(self).verified_reviews == old(self).verified_reviews
                &&& final(self).transactions == old(self).transactions
                &&& final(self).analytics_subscriptions == old(self).analytics_subscriptions
                &&& final(self).analytics_data == old(self).analytics_data
                &&& final(self).advertisements == old(self).advertisements
                &&& final(self).treasury_investments == old(self).treasury_investments
                &&& final(self).stake_pool == old(self).stake_pool
            },
    {
        let pi = match self.user_profiles.find(&user_id) {
            Option::None => {
                return Err(Error::IdentityNotFound);
            },
            Option::Some(i) => i,
        };
        let did = match &self.user_profiles.vals[pi].did {
            Option::None => {
                return Err(Error::IdentityNotFound);
            },
            Option::Some(d) => d.clone(),
        };
        let ii = match self.decentralized_identities.find(&did) {
            Option::None => {
                return Err(Error::IdentityNotFound);
            },
            Option::Some(i) => i,
        };
        proof {
            assert forall|a: int, b: int|
                0 <= a < b < self.products.vals@.len() implies self.products.vals@[a].id@
                != self.products.vals@[b].id@ by {
                assert(self.products.keys@[a]@ != self.products.keys@[b]@);
            }
        }
        let recs = crate::recommend::generate_recommendations_for(
            &user_id,
            &self.decentralized_identities.vals[ii].fragrance_identity,
            &self.products.vals,
            now,
        );
        let stored = crate::types::clone_recommendations(&recs);
        self.ai_recommendations.insert(user_id, stored);
        Ok(recs)
    }

    /// The stored recommendation list of a user, or an empty list.
    pub fn get_recommendations_for_user(&self, user_id: String) -> (r: Vec<AIRecommendation>)
        requires
            self.wf(),
        ensures
            self.ai_recommendations.contains_key(user_id@) ==> r@
                == self.ai_recommendations.spec_get(user_id@)->Some_0@,
            !self.ai_recommendations.contains_key(user_id@) ==> r@.len() == 0,
    {
        match self.ai_recommendations.get(&user_id) {
            Option::Some(list) => crate::types::clone_recommendations(list),
            Option::None => Vec::new(),
        }
    }

    /// Record the outcome of an analysis pass over a product: replace its
    /// personality tags and mark it analyzed.
    pub fn update_product_ai_analysis(
        &mut self,
        product_id: String,
        personality_matches: Vec<String>,
        now: u64,
    ) -> (r: Result<String, Error>)
        requires
            old(self).wf(),
        ensures
            final(self).wf(),
            !old(self).products.contains_key(product_id@) ==> r == Result::<String, Error>::Err(
                Error::ProductNotFound,
            ) && *final(self) == *old(self),
            old(self).products.contains_key(product_id@) ==> {
                let p_old = old(self).products.spec_get(product_id@)->Some_0;
                let p_new = final(self).products.spec_get(product_id@)->Some_0;
                &&& r is Ok
                &&& r->Ok_0@ == "AI analysis updated for product: "@ + product_id@
                &&& final(self).products.contains_key(product_id@)
                &&& p_new.eq_immutable_base(p_old)
                &&& p_new.halal_certified == p_old.halal_certified
                &&& p_new.personality_matches@ == personality_matches@
                &&& p_new.ai_analyzed == true
                &&& p_new.updated_at == now
                &&& forall|k: Seq<char>|
                    k != product_id@ ==> final(self).products.spec_get(k) == old(
                        self,
                    ).products.spec_get(k)
                &&& final(self).user_profiles == old(self).user_profiles
                &&& final(self).stake_pool == old(self).stake_pool
            },
    {
        let i = match self.products.find(&product_id) {
            Option::None => {
                return Err(Error::ProductNotFound);
            },
            Option::Some(i) => i,
        };
        let mut updated = self.products.vals[i].clone();
        updated.personality_matches = personality_matches;
        updated.ai_analyzed = true;
        updated.updated_at = now;
        self.products.set_val(i, updated);
        let mut msg = String::from_str("AI analysis updated for product: ");
        msg.append(product_id.as_str());
        Ok(msg)
    }

    /// Catalog products whose personality tags include the given type.
    pub fn search_products_by_personality(&self, personality_type: String) -> (r: Vec<Product>)
        requires
            self.wf(),
        ensures
            ({
                let f = spec_select(
                    self.products.vals@,
                    |p: Product|
                        crate::text::spec_contains_string(
                            p.personality_matches@,
                            personality_type@,
                        ),
                );
                r@.len() == f.len() && forall|i: int|
                    0 <= i < r@.len() ==> #[trigger] r@[i].eqv(f[i])
            }),
    {
        let ghost pred = |p: Product|
            crate::text::spec_contains_string(p.personality_matches@, personality_type@);
        let mut out: Vec<Product> = Vec::new();
        let mut i: usize = 0;
        let n = self.products.len();
        while i < n
            invariant
                self.wf(),
                n == self.products.spec_len(),
                i <= n,
                pred == (|p: Product|
                    crate::text::spec_contains_string(
                        p.personality_matches@,
                        personality_type@,
                    )),
                out@.len() == spec_select(self.products.vals@.take(i as int), pred).len(),
                forall|k: int|
                    0 <= k < out@.len() ==> #[trigger] out@[k].eqv(
                        spec_select(self.products.vals@.take(i as int), pred)[k],
                    ),
            decreases n - i,
        {
            proof {
                assert(self.products.vals@.take(i + 1).drop_last() =~= self.products.vals@.take(
                    i as int,
                ));
                assert(self.products.vals@.take(i + 1).last() == self.products.vals@[i as int]);
            }
            if crate::text::contains_string(
                &self.products.vals[i].personality_matches,
                &personality_type,
            ) {
                out.push(self.products.vals[i].clone());
            }
            i += 1;
        }
        proof {
            assert(self.products.vals@.take(n as int) =~= self.products.vals@);
        }
        out
    }

    /// Set or clear a product's halal certification.
    pub fn validate_halal_certification(
        &mut self,
        product_id: String,
        certified: bool,
        now: u64,
    ) -> (r: Result<String, Error>)
        requires
            old(self).wf(),
        ensures
            final(self).wf(),
            !old(self).products.contains_key(product_id@) ==> r == Result::<String, Error>::Err(
                Error::ProductNotFound,
            ) && *final(self) == *old(self),
            old(self).products.contains_key(product_id@) ==> {
                let p_old = old(self).products.spec_get(product_id@)->Some_0;
                let p_new = final(self).products.spec_get(product_id@)->Some_0;
                &&& r is Ok
                &&& r->Ok_0@ == "Halal certification updated for product: "@ + product_id@
                &&& final(self).products.contains_key(product_id@)
                &&& p_new.eq_immutable_base(p_old)
                &&& p_new.personality_matches@ == p_old.personality_matches@
                &&& p_new.ai_analyzed == p_old.ai_analyzed
                &&& p_new.halal_certified == certified
                &&& p_new.updated_at == now
                &&& forall|k: Seq<char>|
                    k != product_id@ ==> final(self).products.spec_get(k) == old(
                        self,
                    ).products.spec_get(k)
                &&& final(self).user_profiles == old(self).user_profiles
                &&& final(self).stake_pool == old(self).stake_pool
            },
    {
        let i = match self.products.find(&product_id) {
            Option::None => {
                return Err(Error::ProductNotFound);
            },
            Option::Some(i) => i,
        };
        let mut updated = self.products.vals[i].clone();
        updated.halal_certified = certified;
        updated.updated_at = now;
        self.products.set_val(i, updated);
        let mut msg = String::from_str("Halal certification updated for product: ");
        msg.append(product_id.as_str());
        Ok(msg)
    }

    /// Catalog products carrying halal certification.
    pub fn get_halal_products(&self) -> (r: Vec<Product>)
        requires
            self.wf(),
        ensures
            ({
                let f = spec_select(self.products.vals@, |p: Product| p.halal_certified);
                r@.len() == f.len() && forall|i: int|
                    0 <= i < r@.len() ==> #[trigger] r@[i].eqv(f[i])
            }),
    {
        let ghost pred = |p: Product| p.halal_certified;
        let mut out: Vec<Product> = Vec::new();
        let mut i: usize = 0;
        let n = self.products.len();
        while i < n
            invariant
                self.wf(),
                n == self.products.spec_len(),
                i <= n,
                pred == (|p: Product| p.halal_certified),
                out@.len() == spec_select(self.products.vals@.take(i as int), pred).len(),
                forall|k: int|
                    0 <= k < out@.len() ==> #[trigger] out@[k].eqv(
                        spec_select(self.products.vals@.take(i as int), pred)[k],
                    ),
            decreases n - i,
        {
            proof {
                assert(self.products.vals@.take(i + 1).drop_last() =~= self.products.vals@.take(
                    i as int,
                ));
                assert(self.products.vals@.take(i + 1).last() == self.products.vals@[i as int]);
            }
            if self.products.vals[i].halal_certified {
                out.push(self.products.vals[i].clone());
            }
            i += 1;
        }
        proof {
            assert(self.products.vals@.take(n as int) =~= self.products.vals@);
        }
        out
    }

    /// Replace the data permissions on a user's identity.  Fails when the
    /// user lacks a profile or a resolved identity.
    pub fn update_user_data_permissions(
        &mut self,
        user_id: String,
        permissions: Vec<(String, crate::types::PermissionLevel)>,
    ) -> (r: Result<String, Error>)
        requires
            old(self).wf(),
        ensures
            final(self).wf(),
            !old(self).spec_has_identity(user_id@) ==> r == Result::<String, Error>::Err(
                Error::IdentityNotFound,
            ) && *final(self) == *old(self),
            old(self).spec_has_identity(user_id@) ==> {
                let did = old(self).user_profiles.spec_get(user_id@)->Some_0.did->Some_0@;
                let d_old = old(self).decentralized_identities.spec_get(did)->Some_0;
                let d_new = final(self).decentralized_identities.spec_get(did)->Some_0;
                &&& r is Ok
                &&& r->Ok_0@ == "Data permissions updated for user: "@ + user_id@
                &&& final(self).decentralized_identities.contains_key(did)
                &&& d_new.did == d_old.did
                &&& d_new.public_key == d_old.public_key
                &&& d_new.private_key_hash == d_old.private_key_hash
                &&& d_new.verified_claims@ == d_old.verified_claims@
                &&& d_new.fragrance_identity.eqv(d_old.fragrance_identity)
                &&& d_new.created_at == d_old.created_at
                &&& d_new.data_permissions@ == permissions@
                &&& forall|k: Seq<char>|
                    k != did ==> final(self).decentralized_identities.spec_get(k) == old(
                        self,
                    ).decentralized_identities.spec_get(k)
                &&& final(self).user_profiles == old(self).user_profiles
                &&& final(self).stake_pool == old(self).stake_pool
            },
    {
        let pi = match self.user_profiles.find(&user_id) {
            Option::None => {
                return Err(Error::IdentityNotFound);
            },
            Option::Some(i) => i,
        };
        let did = match &self.user_profiles.vals[pi].did {
            Option::None => {
                return Err(Error::IdentityNotFound);
            },
            Option::Some(d) => d.clone(),
        };
        let ii = match self.decentralized_identities.find(&did) {
            Option::None => {
                return Err(Error::IdentityNotFound);
            },
            Option::Some(i) => i,
        };
        let mut updated = self.decentralized_identities.vals[ii].clone();
        updated.data_permissions = permissions;
        self.decentralized_identities.set_val(ii, updated);
        let mut msg = String::from_str("Data permissions updated for user: ");
        msg.append(user_id.as_str());
        Ok(msg)
    }
}

/// Sum of transaction amounts, as an unbounded integer.
pub open spec fn spec_sum_amounts(s: Seq<Transaction>) -> int
    decreases s.len(),
{
    if s.len() == 0 {
        0
    } else {
        spec_sum_amounts(s.drop_last()) + s.last().total_amount_idr
    }
}

/// Sum of transaction amounts capped at `u64::MAX`.
pub open spec fn spec_sum_amounts_capped(s: Seq<Transaction>) -> int {
    if spec_sum_amounts(s) > u64::MAX as int {
        u64::MAX as int
    } else {
        spec_sum_amounts(s)
    }
}

pub proof fn lemma_sum_amounts_nonneg(s: Seq<Transaction>)
    ensures
        0 <= spec_sum_amounts(s),
    decreases s.len(),
{
    if s.len() > 0 {
        lemma_sum_amounts_nonneg(s.drop_last());
    }
}

/// Profiles whose verification status is not `Unverified`.
pub open spec fn spec_count_verified_profiles(s: Seq<UserProfile>) -> int
    decreases s.len(),
{
    if s.len() == 0 {
        0
    } else {
        spec_count_verified_profiles(s.drop_last()) + if s.last().verification_status
            != VerificationStatus::Unverified {
            1int
        } else {
            0int
        }
    }
}

/// Products marked verified.
pub open spec fn spec_count_verified_products(s: Seq<Product>) -> int
    decreases s.len(),
{
    if s.len() == 0 {
        0
    } else {
        spec_count_verified_products(s.drop_last()) + if s.last().verified {
            1int
        } else {
            0int
        }
    }
}

pub proof fn lemma_count_verified_profiles_bounds(s: Seq<UserProfile>)
    ensures
        0 <= spec_count_verified_profiles(s) <= s.len(),
    decreases s.len(),
{
    if s.len() > 0 {
        lemma_count_verified_profiles_bounds(s.drop_last());
    }
}

pub proof fn lemma_count_verified_products_bounds(s: Seq<Product>)
    ensures
        0 <= spec_count_verified_products(s) <= s.len(),
    decreases s.len(),
{
    if s.len() > 0 {
        lemma_count_verified_products_bounds(s.drop_last());
    }
}

/// Sum of accrued treasury returns at `now`, as an unbounded integer.
pub open spec fn spec_sum_returns(s: Seq<TreasuryInvestment>, now: u64) -> int
    decreases s.len(),
{
    if s.len() == 0 {
        0
    } else {
        spec_sum_returns(s.drop_last(), now) + spec_accrued_value(
            s.last().principal_amount,
            s.last().annual_return_rate,
            (now - s.last().created_at) as u64,
        )
    }
}

/// Sum of accrued treasury returns capped at `u64::MAX`.
pub open spec fn spec_sum_returns_capped(s: Seq<TreasuryInvestment>, now: u64) -> int {
    if spec_sum_returns(s, now) > u64::MAX as int {
        u64::MAX as int
    } else {
        spec_sum_returns(s, now)
    }
}

pub proof fn lemma_sum_returns_nonneg(s: Seq<TreasuryInvestment>, now: u64)
    ensures
        0 <= spec_sum_returns(s, now),
    decreases s.len(),
{
    if s.len() > 0 {
        lemma_sum_returns_nonneg(s.drop_last(), now);
        crate::accrual::lemma_accrued_value_nonneg(
            s.last().principal_amount,
            s.last().annual_return_rate,
            (now - s.last().created_at) as u64,
        );
    }
}

/// Annual return rate of a treasury instrument class, permille.
pub open spec fn spec_investment_rate_permille(t: crate::types::InvestmentType) -> u64 {
    match t {
        crate::types::InvestmentType::FixedIncome => 70,
        crate::types::InvestmentType::MoneyMarket => 60,
        crate::types::InvestmentType::EmergencyFund => 40,
    }
}

/// The id a treasury investment is stored under.
pub open spec fn spec_investment_id(now: u64, amount: u64) -> Seq<char> {
    "inv_"@ + spec_u64_dec(now as int) + "_"@ + spec_u64_dec(amount as int)
}

impl Platform {
    /// Record a purchase: resolve the commission from the supplied tier and
    /// store the transaction under its id.
    pub fn create_transaction(&mut self, transaction: Transaction) -> (r: Result<String, Error>)
        requires
            old(self).wf(),
        ensures
            final(self).wf(),
            r is Ok,
            r->Ok_0@ == "Transaction created: "@ + transaction.transaction_id@,
            final(self).transactions.spec_get(transaction.transaction_id@) == Option::Some(
                Transaction {
                    commission_amount: crate::commission::spec_commission(
                        transaction.transaction_tier,
                        transaction.total_amount_idr,
                    ) as u64,
                    ..transaction
                },
            ),
            forall|k: Seq<char>|
                k != transaction.transaction_id@ ==> final(self).transactions.spec_get(k) == old(
                    self,
                ).transactions.spec_get(k),
            final(self).user_profiles == old(self).user_profiles,
            final(self).stake_pool == old(self).stake_pool,
    {
        let commission = crate::commission::calculate_commission_by_tier(
            &transaction.transaction_tier,
            transaction.total_amount_idr,
        );
        let mut updated = transaction;
        updated.commission_amount = commission;
        let key = updated.transaction_id.clone();
        let mut msg = String::from_str("Transaction created: ");
        msg.append(updated.transaction_id.as_str());
        self.transactions.insert(key, updated);
        Ok(msg)
    }

    /// All transactions a user took part in, as buyer or seller.
    pub fn get_user_transactions(&self, user_id: String) -> (r: Vec<Transaction>)
        requires
            self.wf(),
        ensures
            r@ == spec_select(
                self.transactions.vals@,
                |t: Transaction| t.buyer_id@ == user_id@ || t.seller_id@ == user_id@,
            ),
    {
        let ghost pred = |t: Transaction| t.buyer_id@ == user_id@ || t.seller_id@ == user_id@;
        let mut out: Vec<Transaction> = Vec::new();
        let mut i: usize = 0;
        let n = self.transactions.len();
        while i < n
            invariant
                self.wf(),
                n == self.transactions.spec_len(),
                i <= n,
                pred == (|t: Transaction| t.buyer_id@ == user_id@ || t.seller_id@ == user_id@),
                out@ == spec_select(self.transactions.vals@.take(i as int), pred),
            decreases n - i,
        {
            proof {
                assert(self.transactions.vals@.take(i + 1).drop_last()
                    =~= self.transactions.vals@.take(i as int));
                assert(self.transactions.vals@.take(i + 1).last() == self.transactions.vals@[
                    i as int
                ]);
            }
            if crate::text::str_eq(&user_id, self.transactions.vals[i].buyer_id.as_str())
                || crate::text::str_eq(&user_id, self.transactions.vals[i].seller_id.as_str()) {
                out.push(self.transactions.vals[i].clone());
            }
            i += 1;
        }
        proof {
            assert(self.transactions.vals@.take(n as int) =~= self.transactions.vals@);
        }
        out
    }

    /// Register an advertisement: fees and counters are reset to the fixed
    /// schedule and the ad starts active.
    pub fn create_advertisement(&mut self, ad: Advertisement) -> (r: Result<String, Error>)
        requires
            old(self).wf(),
        ensures
            final(self).wf(),
            r is Ok,
            r->Ok_0@ == "Advertisement created: "@ + ad.ad_id@,
            final(self).advertisements.spec_get(ad.ad_id@) == Option::Some(
                Advertisement {
                    annual_fee: 1_500_000u64,
                    impressions: 0u32,
                    clicks: 0u32,
                    conversions: 0u32,
                    ctr: 0u32,
                    conversion_rate: 0u32,
                    active: true,
                    ..ad
                },
            ),
            forall|k: Seq<char>|
                k != ad.ad_id@ ==> final(self).advertisements.spec_get(k) == old(
                    self,
                ).advertisements.spec_get(k),
            final(self).user_profiles == old(self).user_profiles,
            final(self).stake_pool == old(self).stake_pool,
    {
        let mut updated = ad;
        updated.annual_fee = 1_500_000;
        updated.impressions = 0;
        updated.clicks = 0;
        updated.conversions = 0;
        updated.ctr = 0;
        updated.conversion_rate = 0;
        updated.active = true;
        let key = updated.ad_id.clone();
        let mut msg = String::from_str("Advertisement created: ");
        msg.append(updated.ad_id.as_str());
        self.advertisements.insert(key, updated);
        Ok(msg)
    }

    /// Ads that are active, unexpired at `now`, and in the given placement.
    pub fn get_active_advertisements(
        &self,
        placement: crate::types::AdPlacement,
        now: u64,
    ) -> (r: Vec<Advertisement>)
        requires
            self.wf(),
        ensures
            r@ == spec_select(
                self.advertisements.vals@,
                |a: Advertisement| a.active && a.expires_at > now && a.placement == placement,
            ),
    {
        let ghost pred = |a: Advertisement|
            a.active && a.expires_at > now && a.placement == placement;
        let mut out: Vec<Advertisement> = Vec::new();
        let mut i: usize = 0;
        let n = self.advertisements.len();
        while i < n
            invariant
                self.wf(),
                n == self.advertisements.spec_len(),
                i <= n,
                pred == (|a: Advertisement|
                    a.active && a.expires_at > now && a.placement == placement),
                out@ == spec_select(self.advertisements.vals@.take(i as int), pred),
            decreases n - i,
        {
            proof {
                assert(self.advertisements.vals@.take(i + 1).drop_last()
                    =~= self.advertisements.vals@.take(i as int));
                assert(self.advertisements.vals@.take(i + 1).last() == self.advertisements.vals@[
                    i as int
                ]);
            }
            let a = &self.advertisements.vals[i];
            if a.active && a.expires_at > now && a.placement == placement {
                out.push(self.advertisements.vals[i].clone());
            }
            i += 1;
        }
        proof {
            assert(self.advertisements.vals@.take(n as int) =~= self.advertisements.vals@);
        }
        out
    }

    /// Place treasury funds in an instrument for a year.
    pub fn invest_treasury_funds(
        &mut self,
        amount: u64,
        investment_type: crate::types::InvestmentType,
        now: u64,
    ) -> (r: Result<String, Error>)
        requires
            old(self).wf(),
            now + ONE_YEAR <= u64::MAX,
        ensures
            final(self).wf(),
            r is Ok,
            r->Ok_0@ == "Treasury investment created: "@ + spec_investment_id(now, amount),
            final(self).treasury_investments.contains_key(spec_investment_id(now, amount)),
            ({
                let v = final(self).treasury_investments.spec_get(
                    spec_investment_id(now, amount),
                )->Some_0;
                &&& v.investment_id@ == spec_investment_id(now, amount)
                &&& v.principal_amount == amount
                &&& v.investment_type == investment_type
                &&& v.annual_return_rate == spec_investment_rate_permille(investment_type)
                &&& v.maturity_date == now + ONE_YEAR
                &&& v.current_value == amount
                &&& v.created_at == now
            }),
            forall|k: Seq<char>|
                k != spec_investment_id(now, amount) ==> final(self).treasury_investments.spec_get(
                    k,
                ) == old(self).treasury_investments.spec_get(k),
            final(self).user_profiles == old(self).user_profiles,
            final(self).stake_pool == old(self).stake_pool,
            final(self).transactions == old(self).transactions,
            final(self).products == old(self).products,
    {
        let rate: u64 = match investment_type {
            crate::types::InvestmentType::FixedIncome => 70,
            crate::types::InvestmentType::MoneyMarket => 60,
            crate::types::InvestmentType::EmergencyFund => 40,
        };
        let mut id = String::from_str("inv_");
        let now_str = u64_to_string(now);
        id.append(now_str.as_str());
        id.append("_");
        let amount_str = u64_to_string(amount);
        id.append(amount_str.as_str());
        let investment = TreasuryInvestment {
            investment_id: id.clone(),
            principal_amount: amount,
            investment_type,
            annual_return_rate: rate,
            maturity_date: now + ONE_YEAR,
            current_value: amount,
            created_at: now,
        };
        let mut msg = String::from_str("Treasury investment created: ");
        msg.append(id.as_str());
        self.treasury_investments.insert(id, investment);
        Ok(msg)
    }

    /// Sweep the accrued treasury returns into fresh investments, split
    /// 60% fixed income, 30% money market, 10% emergency fund (each floor
    /// division).
    pub fn process_monthly_treasury_allocation(&mut self, now: u64) -> (r: Result<String, Error>)
        requires
            old(self).wf(),
            now + ONE_YEAR <= u64::MAX,
            forall|i: int|
                0 <= i < old(self).treasury_investments.spec_len() ==> (
                #[trigger] old(self).treasury_investments.vals@[i]).created_at <= now,
        ensures
            final(self).wf(),
            r is Ok,
            ({
                let rev = spec_sum_returns_capped(old(self).treasury_investments.vals@, now);
                let a1 = (rev * 6 / 10) as u64;
                let a2 = (rev * 3 / 10) as u64;
                let a3 = (rev / 10) as u64;
                let id1 = spec_investment_id(now, a1);
                let id2 = spec_investment_id(now, a2);
                let id3 = spec_investment_id(now, a3);
                &&& r->Ok_0@ == "Monthly treasury allocation completed: "@ + spec_u64_dec(rev)
                    + " IDR total"@
                &&& final(self).treasury_investments.contains_key(id3)
                &&& ({
                    let v = final(self).treasury_investments.spec_get(id3)->Some_0;
                    v.principal_amount == a3 && v.investment_type
                        == crate::types::InvestmentType::EmergencyFund && v.created_at == now
                })
                &&& id2 != id3 ==> ({
                    let v = final(self).treasury_investments.spec_get(id2)->Some_0;
                    final(self).treasury_investments.contains_key(id2) && v.principal_amount == a2
                        && v.investment_type == crate::types::InvestmentType::MoneyMarket
                })
                &&& id1 != id2 && id1 != id3 ==> ({
                    let v = final(self).treasury_investments.spec_get(id1)->Some_0;
                    final(self).treasury_investments.contains_key(id1) && v.principal_amount == a1
                        && v.investment_type == crate::types::InvestmentType::FixedIncome
                })
                &&& forall|k: Seq<char>|
                    k != id1 && k != id2 && k != id3
                        ==> final(self).treasury_investments.spec_get(k)
                        == old(self).treasury_investments.spec_get(k)
            }),
            final(self).user_profiles == old(self).user_profiles,
            final(self).stake_pool == old(self).stake_pool,
    {
        let treasury_revenue = self.calculate_treasury_returns(now);
        proof {
            crate::accrual::lemma_accrued_value_nonneg(0, 0, 0);
            assert(treasury_revenue * 6 / 10 <= treasury_revenue * 10 / 10) by (nonlinear_arith)
                requires treasury_revenue >= 0;
            assert(treasury_revenue * 10 / 10 == treasury_revenue) by (nonlinear_arith);
            assert(treasury_revenue * 3 / 10 <= treasury_revenue * 10 / 10) by (nonlinear_arith)
                requires treasury_revenue >= 0;
            assert(treasury_revenue * 6 / 10 >= 0) by (nonlinear_arith)
                requires treasury_revenue >= 0;
            assert(treasury_revenue * 3 / 10 >= 0) by (nonlinear_arith)
                requires treasury_revenue >= 0;
        }
        let fixed_income_allocation: u64 = ((treasury_revenue as u128) * 6 / 10) as u64;
        let money_market_allocation: u64 = ((treasury_revenue as u128) * 3 / 10) as u64;
        let emergency_fund_allocation: u64 = treasury_revenue / 10;
        let r1 = self.invest_treasury_funds(
            fixed_income_allocation,
            crate::types::InvestmentType::FixedIncome,
            now,
        );
        if let Err(e) = r1 {
            return Err(e);
        }
        let r2 = self.invest_treasury_funds(
            money_market_allocation,
            crate::types::InvestmentType::MoneyMarket,
            now,
        );
        if let Err(e) = r2 {
            return Err(e);
        }
        let r3 = self.invest_treasury_funds(
            emergency_fund_allocation,
            crate::types::InvestmentType::EmergencyFund,
            now,
        );
        if let Err(e) = r3 {
            return Err(e);
        }
        let mut msg = String::from_str("Monthly treasury allocation completed: ");
        let num = u64_to_string(treasury_revenue);
        msg.append(num.as_str());
        msg.append(" IDR total");
        Ok(msg)
    }

    /// Total accrued return over all treasury investments at `now`.
    pub fn calculate_treasury_returns(&self, now: u64) -> (r: u64)
        requires
            self.wf(),
            forall|i: int|
                0 <= i < self.treasury_investments.spec_len() ==> (
                #[trigger] self.treasury_investments.vals@[i]).created_at <= now,
        ensures
            r as int == spec_sum_returns_capped(self.treasury_investments.vals@, now),
    {
        let mut total: u64 = 0;
        let mut i: usize = 0;
        let n = self.treasury_investments.len();
        while i < n
            invariant
                self.wf(),
                n == self.treasury_investments.spec_len(),
                i <= n,
                forall|k: int|
                    0 <= k < n ==> (#[trigger] self.treasury_investments.vals@[k]).created_at
                        <= now,
                total as int == spec_sum_returns_capped(
                    self.treasury_investments.vals@.take(i as int),
                    now,
                ),
            decreases n - i,
        {
            proof {
                let pfx = self.treasury_investments.vals@.take(i + 1);
                assert(pfx.drop_last() =~= self.treasury_investments.vals@.take(i as int));
                assert(pfx.last() == self.treasury_investments.vals@[i as int]);
                lemma_sum_returns_nonneg(self.treasury_investments.vals@.take(i as int), now);
                crate::accrual::lemma_accrued_value_nonneg(
                    self.treasury_investments.vals@[i as int].principal_amount,
                    self.treasury_investments.vals@[i as int].annual_return_rate,
                    (now - self.treasury_investments.vals@[i as int].created_at) as u64,
                );
            }
            let inv = &self.treasury_investments.vals[i];
            let acc = accrued_value(inv.principal_amount, inv.annual_return_rate, inv.created_at,
                now);
            total = total.saturating_add(acc);
            i += 1;
        }
        proof {
            assert(self.treasury_investments.vals@.take(n as int)
                =~= self.treasury_investments.vals@);
        }
        total
    }

    /// Platform-wide counters.
    pub fn get_platform_statistics(&self) -> (r: crate::types::PlatformStatistics)
        requires
            self.wf(),
        ensures
            r.total_users == self.user_profiles.spec_len(),
            r.verified_users == spec_count_verified_profiles(self.user_profiles.vals@),
            r.total_products == self.products.spec_len(),
            r.verified_products == spec_count_verified_products(self.products.vals@),
            r.total_transactions == self.transactions.spec_len(),
            r.total_gmv_idr == spec_sum_amounts_capped(self.transactions.vals@),
            r.total_reviews == self.verified_reviews.spec_len(),
            r.total_staked_idr == self.stake_pool,
    {
        let mut verified_users: u64 = 0;
        let mut i: usize = 0;
        let n = self.user_profiles.len();
        while i < n
            invariant
                self.wf(),
                n == self.user_profiles.spec_len(),
                i <= n,
                verified_users == spec_count_verified_profiles(
                    self.user_profiles.vals@.take(i as int),
                ),
            decreases n - i,
        {
            proof {
                let pfx = self.user_profiles.vals@.take(i + 1);
                assert(pfx.drop_last() =~= self.user_profiles.vals@.take(i as int));
                assert(pfx.last() == self.user_profiles.vals@[i as int]);
                lemma_count_verified_profiles_bounds(self.user_profiles.vals@.take(i as int));
            }
            if !matches!(
                self.user_profiles.vals[i].verification_status,
                VerificationStatus::Unverified
            ) {
                verified_users = verified_users + 1;
            }
            i += 1;
        }
        proof {
            assert(self.user_profiles.vals@.take(n as int) =~= self.user_profiles.vals@);
        }
        let mut verified_products: u64 = 0;
        let mut j: usize = 0;
        let m = self.products.len();
        while j < m
            invariant
                self.wf(),
                m == self.products.spec_len(),
                j <= m,
                verified_products == spec_count_verified_products(
                    self.products.vals@.take(j as int),
                ),
            decreases m - j,
        {
            proof {
                let pfx = self.products.vals@.take(j + 1);
                assert(pfx.drop_last() =~= self.products.vals@.take(j as int));
                assert(pfx.last() == self.products.vals@[j as int]);
                lemma_count_verified_products_bounds(self.products.vals@.take(j as int));
            }
            if self.products.vals[j].verified {
                verified_products = verified_products + 1;
            }
            j += 1;
        }
        proof {
            assert(self.products.vals@.take(m as int) =~= self.products.vals@);
        }
        let mut gmv: u64 = 0;
        let mut k: usize = 0;
        let t = self.transactions.len();
        while k < t
            invariant
                self.wf(),
                t == self.transactions.spec_len(),
                k <= t,
                gmv as int == spec_sum_amounts_capped(self.transactions.vals@.take(k as int)),
            decreases t - k,
        {
            proof {
                let pfx = self.transactions.vals@.take(k + 1);
                assert(pfx.drop_last() =~= self.transactions.vals@.take(k as int));
                assert(pfx.last() == self.transactions.vals@[k as int]);
                lemma_sum_amounts_nonneg(self.transactions.vals@.take(k as int));
            }
            gmv = gmv.saturating_add(self.transactions.vals[k].total_amount_idr);
            k += 1;
        }
        proof {
            assert(self.transactions.vals@.take(t as int) =~= self.transactions.vals@);
        }
        crate::types::PlatformStatistics {
            total_users: self.user_profiles.len() as u64,
            verified_users,
            total_products: self.products.len() as u64,
            verified_products,
            total_transactions: self.transactions.len() as u64,
            total_gmv_idr: gmv,
            total_reviews: self.verified_reviews.len() as u64,
            total_staked_idr: self.stake_pool,
        }
    }
}

/// Monthly fee of an analytics tier, in currency units.
pub open spec fn spec_monthly_fee(tier: crate::types::AnalyticsTier) -> u64 {
    match tier {
        crate::types::AnalyticsTier::Basic => 1_200_000,
        crate::types::AnalyticsTier::Premium => 2_800_000,
        crate::types::AnalyticsTier::Enterprise => 4_500_000,
    }
}

/// Feature list of an analytics tier.
pub open spec fn spec_features(tier: crate::types::AnalyticsTier) -> Seq<Seq<char>> {
    match tier {
        crate::types::AnalyticsTier::Basic => seq![
            "Basic Demographics"@,
            "Sales Overview"@,
            "Product Performance"@,
        ],
        crate::types::AnalyticsTier::Premium => seq![
            "Advanced Demographics"@,
            "Predictive Analytics"@,
            "Competitor Analysis"@,
            "Custom Reports"@,
            "API Access"@,
        ],
        crate::types::AnalyticsTier::Enterprise => seq![
            "Full Analytics Suite"@,
            "Real-time Insights"@,
            "Advanced ML Models"@,
            "Dedicated Support"@,
            "Custom Integrations"@,
            "White-label Reports"@,
        ],
    }
}

/// A subscription of this seller that has not expired at `now`.
pub open spec fn spec_live_sub(s: AnalyticsSubscription, seller: Seq<char>, now: u64) -> bool {
    s.seller_id@ == seller && s.expires_at > now
}

/// A transaction of this seller created inside the reporting window.
pub open spec fn spec_tx_in_window(t: Transaction, seller: Seq<char>, start: u64, end: u64)
    -> bool {
    t.seller_id@ == seller && start <= t.created_at && t.created_at <= end
}

/// Transactions whose buyer has a profile.
pub open spec fn spec_count_active(txs: Seq<Transaction>, profiles: StoreMap<UserProfile>) -> int
    decreases txs.len(),
{
    if txs.len() == 0 {
        0
    } else {
        spec_count_active(txs.drop_last(), profiles) + if profiles.contains_key(
            txs.last().buyer_id@,
        ) {
            1int
        } else {
            0int
        }
    }
}

pub proof fn lemma_count_active_bounds(txs: Seq<Transaction>, profiles: StoreMap<UserProfile>)
    ensures
        0 <= spec_count_active(txs, profiles) <= txs.len(),
    decreases txs.len(),
{
    if txs.len() > 0 {
        lemma_count_active_bounds(txs.drop_last(), profiles);
    }
}

/// The exact shape of a generated analytics report, given the subscription
/// tier, the seller's transactions in the window, and the profile ledger.
/// Counters derived from the order count cap at `u32::MAX`.
pub open spec fn spec_report_shape(
    a: AnalyticsData,
    seller: Seq<char>,
    start: u64,
    end: u64,
    now: u64,
    tier: crate::types::AnalyticsTier,
    txs: Seq<Transaction>,
    profiles: StoreMap<UserProfile>,
) -> bool {
    let orders = txs.len() as int;
    let active = spec_count_active(txs, profiles);
    &&& a.analytics_id@ == "analytics_"@ + seller + "_"@ + spec_u64_dec(now as int)
    &&& a.seller_id@ == seller
    &&& a.period_start == start
    &&& a.period_end == end
    &&& a.total_views == if orders * 3 > u32::MAX as int {
        u32::MAX as int
    } else {
        orders * 3
    }
    &&& a.unique_visitors == if orders * 2 > u32::MAX as int {
        u32::MAX as int
    } else {
        orders * 2
    }
    &&& a.conversion_rate == if orders > 0 {
        155int
    } else {
        0int
    }
    &&& a.top_performing_products@.len() == 2
    &&& a.top_performing_products@[0]@ == "Product1"@
    &&& a.top_performing_products@[1]@ == "Product2"@
    &&& if active > 0 {
        &&& a.customer_demographics@.len() == 1
        &&& a.customer_demographics@[0].0@ == "active_users"@
        &&& a.customer_demographics@[0].1 == if active > u32::MAX as int {
            u32::MAX as int
        } else {
            active
        }
    } else {
        a.customer_demographics@.len() == 0
    }
    &&& a.sales_trends@.len() == txs.len()
    &&& forall|i: int|
        0 <= i < txs.len() ==> {
            let tr = #[trigger] a.sales_trends@[i];
            &&& tr.date == txs[i].created_at
            &&& tr.sales_volume == 1
            &&& tr.revenue_idr == txs[i].total_amount_idr
            &&& tr.avg_order_value == txs[i].total_amount_idr
            &&& tr.top_category@ == "Fragrance"@
        }
    &&& match tier {
        crate::types::AnalyticsTier::Basic => a.competitor_analysis is None,
        _ => {
            &&& a.competitor_analysis is Some
            &&& {
                let c = a.competitor_analysis->Some_0;
                &&& c.competitor_prices@.len() == 0
                &&& c.market_position@ == "Competitive"@
                &&& c.competitive_advantage@.len() == 2
                &&& c.competitive_advantage@[0]@ == "AI Recommendations"@
                &&& c.competitive_advantage@[1]@ == "Verified Reviews"@
                &&& c.threat_level@ == "Medium"@
            }
        },
    }
    &&& match tier {
        crate::types::AnalyticsTier::Enterprise => {
            &&& a.predictive_insights is Some
            &&& {
                let p = a.predictive_insights->Some_0;
                &&& p.predicted_demand@.len() == 0
                &&& p.optimal_pricing@.len() == 0
                &&& p.inventory_recommendations@.len() == 1
                &&& p.inventory_recommendations@[0]@ == "Increase floral fragrances"@
                &&& p.seasonal_adjustments@.len() == 1
                &&& p.seasonal_adjustments@[0]@ == "Summer collection launch"@
            }
        },
        _ => a.predictive_insights is None,
    }
    &&& a.generated_at == now
}

impl Platform {
    /// Register an analytics subscription: the fee and feature list are
    /// fixed by the chosen tier, the rest of the record is kept as given.
    pub fn subscribe_analytics(&mut self, subscription: AnalyticsSubscription) -> (r: Result<
        String,
        Error,
    >)
        requires
            old(self).wf(),
        ensures
            final(self).wf(),
            r is Ok,
            r->Ok_0@ == "Analytics subscription created: "@ + subscription.subscription_id@,
            final(self).analytics_subscriptions.contains_key(subscription.subscription_id@),
            ({
                let s = final(self).analytics_subscriptions.spec_get(
                    subscription.subscription_id@,
                )->Some_0;
                &&& s.subscription_id == subscription.subscription_id
                &&& s.seller_id == subscription.seller_id
                &&& s.tier == subscription.tier
                &&& s.monthly_fee == spec_monthly_fee(subscription.tier)
                &&& s.features_included@.len() == spec_features(subscription.tier).len()
                &&& forall|i: int|
                    0 <= i < s.features_included@.len() ==> (
                    #[trigger] s.features_included@[i])@ == spec_features(subscription.tier)[i]
                &&& s.data_retention_days == subscription.data_retention_days
                &&& s.api_calls_limit == subscription.api_calls_limit
                &&& s.started_at == subscription.started_at
                &&& s.expires_at == subscription.expires_at
                &&& s.auto_renew == subscription.auto_renew
            }),
            forall|k: Seq<char>|
                k != subscription.subscription_id@
                    ==> final(self).analytics_subscriptions.spec_get(k)
                    == old(self).analytics_subscriptions.spec_get(k),
            final(self).user_profiles == old(self).user_profiles,
            final(self).stake_pool == old(self).stake_pool,
    {
        let monthly_fee: u64 = match subscription.tier {
            crate::types::AnalyticsTier::Basic => 1_200_000,
            crate::types::AnalyticsTier::Premium => 2_800_000,
            crate::types::AnalyticsTier::Enterprise => 4_500_000,
        };
        let mut features: Vec<String> = Vec::new();
        match subscription.tier {
            crate::types::AnalyticsTier::Basic => {
                features.push(String::from_str("Basic Demographics"));
                features.push(String::from_str("Sales Overview"));
                features.push(String::from_str("Product Performance"));
            },
            crate::types::AnalyticsTier::Premium => {
                features.push(String::from_str("Advanced Demographics"));
                features.push(String::from_str("Predictive Analytics"));
                features.push(String::from_str("Competitor Analysis"));
                features.push(String::from_str("Custom Reports"));
                features.push(String::from_str("API Access"));
            },
            crate::types::AnalyticsTier::Enterprise => {
                features.push(String::from_str("Full Analytics Suite"));
                features.push(String::from_str("Real-time Insights"));
                features.push(String::from_str("Advanced ML Models"));
                features.push(String::from_str("Dedicated Support"));
                features.push(String::from_str("Custom Integrations"));
                features.push(String::from_str("White-label Reports"));
            },
        }
        let mut updated = subscription;
        updated.monthly_fee = monthly_fee;
        updated.features_included = features;
        let key = updated.subscription_id.clone();
        let mut msg = String::from_str("Analytics subscription created: ");
        msg.append(updated.subscription_id.as_str());
        self.analytics_subscriptions.insert(key, updated);
        Ok(msg)
    }

    /// Generate an analytics report for a seller over a reporting window,
    /// provided a live subscription exists; the first live subscription in
    /// insertion order decides which sections the report carries.  The
    /// report is appended to the seller's stored history and returned.
    pub fn generate_analytics_data(
        &mut self,
        seller_id: String,
        period_start: u64,
        period_end: u64,
        now: u64,
    ) -> (r: Result<AnalyticsData, Error>)
        requires
            old(self).wf(),
        ensures
            final(self).wf(),
            (!exists|i: int|
                0 <= i < old(self).analytics_subscriptions.spec_len() && spec_live_sub(
                    #[trigger] old(self).analytics_subscriptions.vals@[i],
                    seller_id@,
                    now,
                )) ==> r == Result::<AnalyticsData, Error>::Err(Error::SubscriptionRequired)
                && *final(self) == *old(self),
            (exists|i: int|
                0 <= i < old(self).analytics_subscriptions.spec_len() && spec_live_sub(
                    #[trigger] old(self).analytics_subscriptions.vals@[i],
                    seller_id@,
                    now,
                )) ==> {
                let txs = spec_select(
                    old(self).transactions.vals@,
                    |t: Transaction| spec_tx_in_window(t, seller_id@, period_start, period_end),
                );
                &&& r is Ok
                &&& exists|si: int|
                    {
                        &&& 0 <= si < old(self).analytics_subscriptions.spec_len()
                        &&& spec_live_sub(
                            #[trigger] old(self).analytics_subscriptions.vals@[si],
                            seller_id@,
                            now,
                        )
                        &&& forall|k: int|
                            0 <= k < si ==> !spec_live_sub(
                                #[trigger] old(self).analytics_subscriptions.vals@[k],
                                seller_id@,
                                now,
                            )
                        &&& spec_report_shape(
                            r->Ok_0,
                            seller_id@,
                            period_start,
                            period_end,
                            now,
                            old(self).analytics_subscriptions.vals@[si].tier,
                            txs,
                            old(self).user_profiles,
                        )
                    }
                &&& final(self).analytics_data.contains_key(seller_id@)
                &&& {
                    let stored = final(self).analytics_data.spec_get(seller_id@)->Some_0@;
                    let prior = if old(self).analytics_data.contains_key(seller_id@) {
                        old(self).analytics_data.spec_get(seller_id@)->Some_0@
                    } else {
                        Seq::<AnalyticsData>::empty()
                    };
                    &&& stored.len() == prior.len() + 1
                    &&& forall|i: int| 0 <= i < prior.len() ==> #[trigger] stored[i].eqv(prior[i])
                    &&& stored.last().eqv(r->Ok_0)
                }
                &&& forall|k: Seq<char>|
                    k != seller_id@ ==> final(self).analytics_data.spec_get(k) == old(
                        self,
                    ).analytics_data.spec_get(k)
                &&& final(self).user_profiles == old(self).user_profiles
                &&& final(self).transactions == old(self).transactions
                &&& final(self).analytics_subscriptions == old(self).analytics_subscriptions
                &&& final(self).stake_pool == old(self).stake_pool
            },
    {
        let mut si: usize = 0;
        let subs_n = self.analytics_subscriptions.len();
        let mut found_sub = false;
        while si < subs_n && !found_sub
            invariant
                self.wf(),
                subs_n == self.analytics_subscriptions.spec_len(),
                si <= subs_n,
                !found_sub ==> forall|k: int|
                    0 <= k < si ==> !spec_live_sub(
                        #[trigger] self.analytics_subscriptions.vals@[k],
                        seller_id@,
                        now,
                    ),
                found_sub ==> si < subs_n && spec_live_sub(
                    self.analytics_subscriptions.vals@[si as int],
                    seller_id@,
                    now,
                ) && forall|k: int|
                    0 <= k < si ==> !spec_live_sub(
                        #[trigger] self.analytics_subscriptions.vals@[k],
                        seller_id@,
                        now,
                    ),
            decreases subs_n - si + if found_sub {
                0int
            } else {
                1int
            },
        {
            let s = &self.analytics_subscriptions.vals[si];
            if crate::text::str_eq(&seller_id, s.seller_id.as_str()) && s.expires_at > now {
                found_sub = true;
            } else {
                si += 1;
            }
        }
        if !found_sub {
            return Err(Error::SubscriptionRequired);
        }
        let tier = self.analytics_subscriptions.vals[si].tier;
        // Collect the seller's transactions inside the window.
        let ghost pred = |t: Transaction|
            spec_tx_in_window(t, seller_id@, period_start, period_end);
        let mut stxs: Vec<Transaction> = Vec::new();
        let mut i: usize = 0;
        let n = self.transactions.len();
        while i < n
            invariant
                self.wf(),
                n == self.transactions.spec_len(),
                i <= n,
                pred == (|t: Transaction|
                    spec_tx_in_window(t, seller_id@, period_start, period_end)),
                stxs@ == spec_select(self.transactions.vals@.take(i as int), pred),
            decreases n - i,
        {
            proof {
                assert(self.transactions.vals@.take(i + 1).drop_last()
                    =~= self.transactions.vals@.take(i as int));
                assert(self.transactions.vals@.take(i + 1).last() == self.transactions.vals@[
                    i as int
                ]);
            }
            let t = &self.transactions.vals[i];
            if crate::text::str_eq(&seller_id, t.seller_id.as_str()) && period_start
                <= t.created_at && t.created_at <= period_end {
                stxs.push(self.transactions.vals[i].clone());
            }
            i += 1;
        }
        proof {
            assert(self.transactions.vals@.take(n as int) =~= self.transactions.vals@);
        }
        // One trend entry per transaction; count buyers with a profile.
        let mut sales_trends: Vec<crate::types::SalesTrend> = Vec::new();
        let mut active: u32 = 0;
        let mut j: usize = 0;
        while j < stxs.len()
            invariant
                self.wf(),
                j <= stxs@.len(),
                sales_trends@.len() == j,
                forall|k: int|
                    0 <= k < j ==> {
                        let tr = #[trigger] sales_trends@[k];
                        &&& tr.date == stxs@[k].created_at
                        &&& tr.sales_volume == 1
                        &&& tr.revenue_idr == stxs@[k].total_amount_idr
                        &&& tr.avg_order_value == stxs@[k].total_amount_idr
                        &&& tr.top_category@ == "Fragrance"@
                    },
                active as int == if spec_count_active(stxs@.take(j as int), self.user_profiles)
                    > u32::MAX as int {
                    u32::MAX as int
                } else {
                    spec_count_active(stxs@.take(j as int), self.user_profiles)
                },
            decreases stxs@.len() - j,
        {
            proof {
                assert(stxs@.take(j + 1).drop_last() =~= stxs@.take(j as int));
                assert(stxs@.take(j + 1).last() == stxs@[j as int]);
                lemma_count_active_bounds(stxs@.take(j as int), self.user_profiles);
            }
            let trend = crate::types::SalesTrend {
                date: stxs[j].created_at,
                sales_volume: 1,
                revenue_idr: stxs[j].total_amount_idr,
                avg_order_value: stxs[j].total_amount_idr,
                top_category: String::from_str("Fragrance"),
            };
            sales_trends.push(trend);
            let has_buyer = match self.user_profiles.find(&stxs[j].buyer_id) {
                Option::Some(_) => true,
                Option::None => false,
            };
            if has_buyer {
                active = active.saturating_add(1);
            }
            j += 1;
        }
        proof {
            assert(stxs@.take(stxs@.len() as int) =~= stxs@);
        }
        let orders = stxs.len();
        let views_wide: u128 = orders as u128 * 3;
        let total_views: u32 = if views_wide > u32::MAX as u128 {
            u32::MAX
        } else {
            views_wide as u32
        };
        let visitors_wide: u128 = orders as u128 * 2;
        let unique_visitors: u32 = if visitors_wide > u32::MAX as u128 {
            u32::MAX
        } else {
            visitors_wide as u32
        };
        let conversion_rate: u32 = if orders > 0 {
            155
        } else {
            0
        };
        let mut top_performing: Vec<String> = Vec::new();
        top_performing.push(String::from_str("Product1"));
        top_performing.push(String::from_str("Product2"));
        let mut customer_demographics: Vec<(String, u32)> = Vec::new();
        if active > 0 {
            let pair = (String::from_str("active_users"), active);
            customer_demographics.push(pair);
        }
        let competitor_analysis = match tier {
            crate::types::AnalyticsTier::Basic => Option::None,
            _ => {
                let mut advantage: Vec<String> = Vec::new();
                advantage.push(String::from_str("AI Recommendations"));
                advantage.push(String::from_str("Verified Reviews"));
                Option::Some(
                    crate::types::CompetitorData {
                        competitor_prices: Vec::new(),
                        market_position: String::from_str("Competitive"),
                        competitive_advantage: advantage,
                        threat_level: String::from_str("Medium"),
                    },
                )
            },
        };
        let predictive_insights = match tier {
            crate::types::AnalyticsTier::Enterprise => {
                let mut inventory: Vec<String> = Vec::new();
                inventory.push(String::from_str("Increase floral fragrances"));
                let mut seasonal: Vec<String> = Vec::new();
                seasonal.push(String::from_str("Summer collection launch"));
                Option::Some(
                    crate::types::PredictiveInsight {
                        predicted_demand: Vec::new(),
                        optimal_pricing: Vec::new(),
                        inventory_recommendations: inventory,
                        seasonal_adjustments: seasonal,
                    },
                )
            },
            _ => Option::None,
        };
        let mut analytics_id = String::from_str("analytics_");
        analytics_id.append(seller_id.as_str());
        analytics_id.append("_");
        let now_str = u64_to_string(now);
        analytics_id.append(now_str.as_str());
        let report = AnalyticsData {
            analytics_id,
            seller_id: seller_id.clone(),
            period_start,
            period_end,
            total_views,
            unique_visitors,
            conversion_rate,
            top_performing_products: top_performing,
            customer_demographics,
            sales_trends,
            competitor_analysis,
            predictive_insights,
            generated_at: now,
        };
        let mut history: Vec<AnalyticsData> = match self.analytics_data.get(&seller_id) {
            Option::Some(l) => crate::types::clone_analytics(l),
            Option::None => Vec::new(),
        };
        history.push(report.clone());
        self.analytics_data.insert(seller_id, history);
        Ok(report)
    }

    /// The stored analytics history of a seller, oldest first.
    pub fn get_seller_analytics(&self, seller_id: String) -> (r: Vec<AnalyticsData>)
        requires
            self.wf(),
        ensures
            self.analytics_data.contains_key(seller_id@) ==> {
                let stored = self.analytics_data.spec_get(seller_id@)->Some_0@;
                r@.len() == stored.len() && forall|i: int|
                    0 <= i < r@.len() ==> #[trigger] r@[i].eqv(stored[i])
            },
            !self.analytics_data.contains_key(seller_id@) ==> r@.len() == 0,
    {
        match self.analytics_data.get(&seller_id) {
            Option::Some(l) => crate::types::clone_analytics(l),
            Option::None => Vec::new(),
        }
    }
}

/// Acknowledge a fragrance-family trend report.  `trend_score_permille` is
/// permille of 1.0.
pub fn create_fragrance_family_trend(family: String, trend_score_permille: u64) -> (r: Result<
    String,
    Error,
>)
    ensures
        r is Ok,
        r->Ok_0@ == "Trend analysis created for "@ + family@ + " family with score: "@
            + spec_u64_dec(trend_score_permille as int),
{
    let mut msg = String::from_str("Trend analysis created for ");
    msg.append(family.as_str());
    msg.append(" family with score: ");
    let num = u64_to_string(trend_score_permille);
    msg.append(num.as_str());
    Ok(msg)
}

/// The current trending fragrance families.
pub fn get_trending_fragrances() -> (r: Vec<String>)
    ensures
        r@.len() == 4,
        r@[0]@ == "Fresh Citrus"@,
        r@[1]@ == "Woody Oriental"@,
        r@[2]@ == "Floral Fruity"@,
        r@[3]@ == "Gourmand"@,
{
    let mut out: Vec<String> = Vec::new();
    out.push(String::from_str("Fresh Citrus"));
    out.push(String::from_str("Woody Oriental"));
    out.push(String::from_str("Floral Fruity"));
    out.push(String::from_str("Gourmand"));
    out
}

/// Greet a visitor by name.
pub fn greet(name: String) -> (r: String)
    ensures
        r@ == "Hello, "@ + name@
            + "! Welcome to Aromance - Your Decentralized Fragrance Identity Platform!"@,
{
    let mut msg = String::from_str("Hello, ");
    msg.append(name.as_str());
    msg.append("! Welcome to Aromance - Your Decentralized Fragrance Identity Platform!");
    msg
}

/// A one-line description of the platform.
pub fn get_aromance_info() -> (r: String)
    ensures
        r@ == "Aromance: AI-Powered Decentralized Perfume Marketplace with Web3 Identity and Verified Reviews"@,
{
    String::from_str(
        "Aromance: AI-Powered Decentralized Perfume Marketplace with Web3 Identity and Verified Reviews",
    )
}

} // verus!
