use aromance_backend::accrual::{accrued_value, ONE_YEAR};
use aromance_backend::commission::{calculate_commission_by_tier, TransactionTier};
use aromance_backend::error::Error;
use aromance_backend::text::{contains_ci, contains_cs, eq_ci};
use aromance_backend::platform::Platform;
use aromance_backend::tiers::{required_amount, tier_status, VerificationStatus, VerificationTier};
use aromance_backend::types::{StakeInfo, UserProfile};

fn sample_profile(user_id: &str, created_at: u64) -> UserProfile {
    UserProfile {
        user_id: user_id.to_string(),
        wallet_address: None,
        did: None,
        verification_status: VerificationStatus::Unverified,
        stake_info: None,
        preferences: Vec::new(),
        consultation_completed: false,
        ai_consent: true,
        data_monetization_consent: false,
        reputation_score: 500,
        total_transactions: 0,
        created_at,
        last_active: created_at,
    }
}

fn stake_of(p: &Platform, user: &str) -> StakeInfo {
    p.get_user_profile(&user.to_string())
        .expect("profile")
        .stake_info
        .expect("stake")
}

fn status_of(p: &Platform, user: &str) -> VerificationStatus {
    p.get_user_profile(&user.to_string()).expect("profile").verification_status
}

#[test]
fn stake_succeeds_at_required_amount_for_every_tier() {
    let tiers = [
        VerificationTier::BasicReviewer { stake: 0 },
        VerificationTier::PremiumReviewer { stake: 0 },
        VerificationTier::EliteReviewer { stake: 0 },
        VerificationTier::BasicSeller { stake: 0 },
        VerificationTier::PremiumSeller { stake: 0 },
        VerificationTier::EliteSeller { stake: 0 },
    ];
    for tier in tiers {
        let mut p = Platform::new();
        p.create_user_profile(sample_profile("alice", 10)).unwrap();
        let required = required_amount(&tier);
        // One unit short is refused.
        let below = p.stake_for_verification("alice".to_string(), required - 1, tier, 100);
        assert_eq!(below, Err(Error::InsufficientStake { required }));
        assert!(matches!(status_of(&p, "alice"), VerificationStatus::Unverified));
        // The exact minimum succeeds and sets the tier's bucket.
        let ok = p.stake_for_verification("alice".to_string(), required, tier, 100);
        assert!(ok.is_ok());
        assert_eq!(status_of(&p, "alice"), tier_status(&tier));
        let si = stake_of(&p, "alice");
        assert_eq!(si.amount_idr, required);
        assert_eq!(si.penalty_count, 0);
        assert_eq!(si.reward_earned, 0);
        assert_eq!(si.locked_until, 100 + ONE_YEAR);
    }
}

#[test]
fn stake_unknown_user_fails() {
    let mut p = Platform::new();
    let r = p.stake_for_verification(
        "ghost".to_string(),
        1_000_000,
        VerificationTier::BasicReviewer { stake: 0 },
        5,
    );
    assert_eq!(r, Err(Error::UserNotFound));
}

#[test]
fn stake_message_carries_amount() {
    let mut p = Platform::new();
    p.create_user_profile(sample_profile("bob", 0)).unwrap();
    let msg = p
        .stake_for_verification(
            "bob".to_string(),
            500_000,
            VerificationTier::BasicSeller { stake: 0 },
            0,
        )
        .unwrap();
    assert_eq!(msg, "Staked 500000 IDR for verification tier");
}

#[test]
fn insufficient_stake_message_names_required_amount() {
    let e = Error::InsufficientStake { required: 300_000 };
    assert_eq!(e.message(), "Insufficient stake amount. Required: 300000 IDR");
}

#[test]
fn accrual_pays_rate_after_one_year() {
    // 1_000_000 at 6.0% for exactly one year.
    assert_eq!(accrued_value(1_000_000, 60, 0, ONE_YEAR), 60_000);
    // Half a year accrues half of it.
    assert_eq!(accrued_value(1_000_000, 60, 0, ONE_YEAR / 2), 30_000);
    // Nothing accrues over zero elapsed time.
    assert_eq!(accrued_value(1_000_000, 60, 7, 7), 0);
}

#[test]
fn process_stake_rewards_accrues_and_is_idempotent() {
    let mut p = Platform::new();
    p.create_user_profile(sample_profile("carol", 0)).unwrap();
    p.stake_for_verification(
        "carol".to_string(),
        1_000_000,
        VerificationTier::BasicReviewer { stake: 0 },
        0,
    )
    .unwrap();
    let msg = p.process_stake_rewards(ONE_YEAR).unwrap();
    assert_eq!(msg, "Processed stake rewards: 60000 IDR total");
    assert_eq!(stake_of(&p, "carol").reward_earned, 60_000);
    // A second pass at the same instant earns nothing more.
    let again = p.process_stake_rewards(ONE_YEAR).unwrap();
    assert_eq!(again, "Processed stake rewards: 0 IDR total");
    assert_eq!(stake_of(&p, "carol").reward_earned, 60_000);
}

#[test]
fn reward_earned_never_decreases() {
    let mut p = Platform::new();
    p.create_user_profile(sample_profile("dave", 0)).unwrap();
    p.stake_for_verification(
        "dave".to_string(),
        1_900_000,
        VerificationTier::EliteReviewer { stake: 0 },
        0,
    )
    .unwrap();
    let mut last = 0;
    for k in 1..=4u64 {
        p.process_stake_rewards(k * ONE_YEAR / 4).unwrap();
        let earned = stake_of(&p, "dave").reward_earned;
        assert!(earned >= last);
        last = earned;
    }
    assert_eq!(last, 171_000);
}

#[test]
fn penalties_escalate_and_revoke_on_third_strike() {
    let mut p = Platform::new();
    p.create_user_profile(sample_profile("eve", 0)).unwrap();
    p.stake_for_verification(
        "eve".to_string(),
        1_500_000,
        VerificationTier::PremiumSeller { stake: 0 },
        0,
    )
    .unwrap();
    // Strike 1: fake review forfeits a tenth.
    let m1 = p
        .penalize_malicious_behavior("eve".to_string(), "fake_review".to_string())
        .unwrap();
    assert_eq!(m1, "Penalty applied to eve: 150000 IDR deducted");
    let s1 = stake_of(&p, "eve");
    assert_eq!(s1.amount_idr, 1_350_000);
    assert_eq!(s1.penalty_count, 1);
    // Strike 2: an unlisted violation forfeits a fiftieth.
    let m2 = p
        .penalize_malicious_behavior("eve".to_string(), "late_shipping".to_string())
        .unwrap();
    assert_eq!(m2, "Penalty applied to eve: 27000 IDR deducted");
    let s2 = stake_of(&p, "eve");
    assert_eq!(s2.amount_idr, 1_323_000);
    assert_eq!(s2.penalty_count, 2);
    // Two strikes in: still verified.
    assert!(matches!(status_of(&p, "eve"), VerificationStatus::Premium));
    // Strike 3: revocation takes precedence over the deduction.
    let m3 = p
        .penalize_malicious_behavior("eve".to_string(), "spam_behavior".to_string())
        .unwrap();
    assert_eq!(m3, "User eve verification revoked due to repeated violations");
    let s3 = stake_of(&p, "eve");
    assert_eq!(s3.amount_idr, 0);
    assert_eq!(s3.penalty_count, 3);
    assert!(matches!(status_of(&p, "eve"), VerificationStatus::Unverified));
}

#[test]
fn penalty_divisors_by_violation_type() {
    for (violation, expected) in [
        ("fake_review", 100_000u64),
        ("misleading_product", 200_000u64),
        ("spam_behavior", 50_000u64),
        ("anything_else", 20_000u64),
    ] {
        let mut p = Platform::new();
        p.create_user_profile(sample_profile("finn", 0)).unwrap();
        p.stake_for_verification(
            "finn".to_string(),
            1_000_000,
            VerificationTier::BasicSeller { stake: 0 },
            0,
        )
        .unwrap();
        p.penalize_malicious_behavior("finn".to_string(), violation.to_string()).unwrap();
        assert_eq!(stake_of(&p, "finn").amount_idr, 1_000_000 - expected);
    }
}

#[test]
fn reputation_score_is_floored_at_zero() {
    let mut p = Platform::new();
    let mut profile = sample_profile("gita", 0);
    profile.reputation_score = 150;
    p.create_user_profile(profile).unwrap();
    p.stake_for_verification(
        "gita".to_string(),
        300_000,
        VerificationTier::BasicReviewer { stake: 0 },
        0,
    )
    .unwrap();
    p.penalize_malicious_behavior("gita".to_string(), "fake_review".to_string()).unwrap();
    assert_eq!(p.get_user_profile(&"gita".to_string()).unwrap().reputation_score, 50);
    p.penalize_malicious_behavior("gita".to_string(), "fake_review".to_string()).unwrap();
    assert_eq!(p.get_user_profile(&"gita".to_string()).unwrap().reputation_score, 0);
}

#[test]
fn penalize_without_stake_fails() {
    let mut p = Platform::new();
    p.create_user_profile(sample_profile("hana", 0)).unwrap();
    let r = p.penalize_malicious_behavior("hana".to_string(), "fake_review".to_string());
    assert_eq!(r, Err(Error::NoActiveStake));
    assert_eq!(Error::NoActiveStake.message(), "User has no stake to penalize");
    let r2 = p.penalize_malicious_behavior("ghost".to_string(), "fake_review".to_string());
    assert_eq!(r2, Err(Error::UserNotFound));
}

#[test]
fn penalize_after_revocation_is_refused() {
    let mut p = Platform::new();
    p.create_user_profile(sample_profile("mona", 0)).unwrap();
    p.stake_for_verification(
        "mona".to_string(),
        300_000,
        VerificationTier::BasicReviewer { stake: 0 },
        0,
    )
    .unwrap();
    for _ in 0..3 {
        p.penalize_malicious_behavior("mona".to_string(), "spam_behavior".to_string()).unwrap();
    }
    let s = stake_of(&p, "mona");
    assert_eq!(s.amount_idr, 0);
    assert_eq!(s.penalty_count, 3);
    // The record was zeroed by revocation and is no longer active: a
    // fourth penalty is refused and nothing moves.
    let r = p.penalize_malicious_behavior("mona".to_string(), "fake_review".to_string());
    assert_eq!(r, Err(Error::NoActiveStake));
    let s2 = stake_of(&p, "mona");
    assert_eq!(s2.penalty_count, 3);
    assert_eq!(s2.amount_idr, 0);
    assert!(matches!(status_of(&p, "mona"), VerificationStatus::Unverified));
}

#[test]
fn restake_after_revocation_resets_penalty_history() {
    let mut p = Platform::new();
    p.create_user_profile(sample_profile("ivan", 0)).unwrap();
    p.stake_for_verification(
        "ivan".to_string(),
        300_000,
        VerificationTier::BasicReviewer { stake: 0 },
        0,
    )
    .unwrap();
    for _ in 0..3 {
        p.penalize_malicious_behavior("ivan".to_string(), "spam_behavior".to_string()).unwrap();
    }
    assert_eq!(stake_of(&p, "ivan").penalty_count, 3);
    assert_eq!(stake_of(&p, "ivan").amount_idr, 0);
    // Re-staking with a valid tier yields a brand-new record.
    p.stake_for_verification(
        "ivan".to_string(),
        950_000,
        VerificationTier::PremiumReviewer { stake: 0 },
        50,
    )
    .unwrap();
    let si = stake_of(&p, "ivan");
    assert_eq!(si.penalty_count, 0);
    assert_eq!(si.reward_earned, 0);
    assert_eq!(si.amount_idr, 950_000);
    assert!(matches!(status_of(&p, "ivan"), VerificationStatus::Premium));
}

#[test]
fn commission_brackets_match_the_schedule() {
    // floor(99_999 * 0.015) = 1_499
    assert_eq!(calculate_commission_by_tier(&TransactionTier::Budget, 99_999), 1_499);
    assert_eq!(calculate_commission_by_tier(&TransactionTier::Luxury, 2_000_000), 60_000);
    assert_eq!(calculate_commission_by_tier(&TransactionTier::Standard, 250_000), 5_000);
    assert_eq!(calculate_commission_by_tier(&TransactionTier::Premium, 800_000), 20_000);
    assert_eq!(calculate_commission_by_tier(&TransactionTier::Budget, 0), 0);
}

#[test]
fn stake_pool_accumulates() {
    let mut p = Platform::new();
    p.create_user_profile(sample_profile("judy", 0)).unwrap();
    p.create_user_profile(sample_profile("karl", 0)).unwrap();
    p.stake_for_verification(
        "judy".to_string(),
        300_000,
        VerificationTier::BasicReviewer { stake: 0 },
        0,
    )
    .unwrap();
    p.stake_for_verification(
        "karl".to_string(),
        500_000,
        VerificationTier::BasicSeller { stake: 0 },
        0,
    )
    .unwrap();
    let stats = p.get_platform_statistics();
    assert_eq!(stats.total_staked_idr, 800_000);
    assert_eq!(stats.total_users, 2);
    assert_eq!(stats.verified_users, 2);
}

#[test]
fn profile_insert_replaces_by_id() {
    let mut p = Platform::new();
    p.create_user_profile(sample_profile("lena", 0)).unwrap();
    let mut updated = sample_profile("lena", 0);
    updated.reputation_score = 900;
    p.create_user_profile(updated).unwrap();
    assert_eq!(p.get_user_profile(&"lena".to_string()).unwrap().reputation_score, 900);
    assert_eq!(p.get_platform_statistics().total_users, 1);
}

#[test]
fn text_matching_utilities() {
    assert!(contains_ci("Floral Oriental", "ORIENTAL"));
    assert!(contains_ci("anything", ""));
    assert!(!contains_ci("abc", "abcd"));
    assert!(eq_ci("Casual", "casual"));
    assert!(!eq_ci("casual", "casually"));
    assert!(contains_cs("date night", "night"));
    assert!(!contains_cs("Date Night", "night"));
    // Case folding is Unicode, not only ASCII.
    assert!(contains_ci("FRUIT\u{c9}", "fruit\u{e9}"));
    assert!(eq_ci("\u{c9}T\u{c9}", "\u{e9}t\u{e9}"));
}
