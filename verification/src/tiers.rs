//! Verification-tier catalog: each tier maps 1:1 to a required stake
//! amount, an annual return rate, and a verification-status bucket.

use vstd::prelude::*;

verus! {

/// Verification bracket (role and level).  Each variant carries the stake
/// the caller proposes to commit; the catalog below fixes the minimum it
/// must reach.
#[derive(Clone, Copy, PartialEq, Eq, Structural, Debug)]
pub enum VerificationTier {
    BasicReviewer { stake: u64 },
    PremiumReviewer { stake: u64 },
    EliteReviewer { stake: u64 },
    BasicSeller { stake: u64 },
    PremiumSeller { stake: u64 },
    EliteSeller { stake: u64 },
}

/// Verification standing of a profile.  The three verified buckets collapse
/// both roles of the same level.
#[derive(Clone, Copy, PartialEq, Eq, Structural, Debug)]
pub enum VerificationStatus {
    Unverified,
    Basic,
    Premium,
    Elite,
}

/// Minimum stake a tier demands, in currency units.
pub open spec fn spec_required_amount(tier: VerificationTier) -> u64 {
    match tier {
        VerificationTier::BasicReviewer { .. } => 300_000,
        VerificationTier::PremiumReviewer { .. } => 950_000,
        VerificationTier::EliteReviewer { .. } => 1_900_000,
        VerificationTier::BasicSeller { .. } => 500_000,
        VerificationTier::PremiumSeller { .. } => 1_500_000,
        VerificationTier::EliteSeller { .. } => 3_000_000,
    }
}

/// Annual return rate of a tier, in permille of the stake per year
/// (Basic 6.0%, Premium 7.5%, Elite 9.0%).
pub open spec fn spec_annual_return_permille(tier: VerificationTier) -> u64 {
    match tier {
        VerificationTier::BasicReviewer { .. } => 60,
        VerificationTier::PremiumReviewer { .. } => 75,
        VerificationTier::EliteReviewer { .. } => 90,
        VerificationTier::BasicSeller { .. } => 60,
        VerificationTier::PremiumSeller { .. } => 75,
        VerificationTier::EliteSeller { .. } => 90,
    }
}

/// Status bucket a tier confers on the profile that staked for it.
pub open spec fn spec_tier_status(tier: VerificationTier) -> VerificationStatus {
    match tier {
        VerificationTier::BasicReviewer { .. } => VerificationStatus::Basic,
        VerificationTier::BasicSeller { .. } => VerificationStatus::Basic,
        VerificationTier::PremiumReviewer { .. } => VerificationStatus::Premium,
        VerificationTier::PremiumSeller { .. } => VerificationStatus::Premium,
        VerificationTier::EliteReviewer { .. } => VerificationStatus::Elite,
        VerificationTier::EliteSeller { .. } => VerificationStatus::Elite,
    }
}

/// Minimum stake a tier demands.
pub fn required_amount(tier: &VerificationTier) -> (r: u64)
    ensures
        r == spec_required_amount(*tier),
{
    match tier {
        VerificationTier::BasicReviewer { .. } => 300_000,
        VerificationTier::PremiumReviewer { .. } => 950_000,
        VerificationTier::EliteReviewer { .. } => 1_900_000,
        VerificationTier::BasicSeller { .. } => 500_000,
        VerificationTier::PremiumSeller { .. } => 1_500_000,
        VerificationTier::EliteSeller { .. } => 3_000_000,
    }
}

/// Annual return rate of a tier, in permille of the stake per year.
pub fn annual_return_permille(tier: &VerificationTier) -> (r: u64)
    ensures
        r == spec_annual_return_permille(*tier),
{
    match tier {
        VerificationTier::BasicReviewer { .. } => 60,
        VerificationTier::PremiumReviewer { .. } => 75,
        VerificationTier::EliteReviewer { .. } => 90,
        VerificationTier::BasicSeller { .. } => 60,
        VerificationTier::PremiumSeller { .. } => 75,
        VerificationTier::EliteSeller { .. } => 90,
    }
}

/// Status bucket a tier confers.
pub fn tier_status(tier: &VerificationTier) -> (r: VerificationStatus)
    ensures
        r == spec_tier_status(*tier),
{
    match tier {
        VerificationTier::BasicReviewer { .. } => VerificationStatus::Basic,
        VerificationTier::BasicSeller { .. } => VerificationStatus::Basic,
        VerificationTier::PremiumReviewer { .. } => VerificationStatus::Premium,
        VerificationTier::PremiumSeller { .. } => VerificationStatus::Premium,
        VerificationTier::EliteReviewer { .. } => VerificationStatus::Elite,
        VerificationTier::EliteSeller { .. } => VerificationStatus::Elite,
    }
}

} // verus!
