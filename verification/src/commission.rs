//! Commission resolver: an amount-bracket fee-rate lookup.
//!
//! Each transaction tier carries a fixed fee rate, expressed in tenths of a
//! percent (permille).  The commission owed on an amount is
//! `floor(amount * rate / 1000)`.  The caller selects the tier; the resolver
//! never buckets an amount itself and has no failure modes.

use vstd::prelude::*;

verus! {

/// Fee bracket of a transaction.  The tier is supplied by the caller
/// together with the amount; the rate it carries is fixed per variant.
#[derive(Clone, Copy, PartialEq, Eq, Structural, Debug)]
pub enum TransactionTier {
    Budget,
    Standard,
    Premium,
    Luxury,
}

/// Fee rate of a tier in permille (tenths of a percent):
/// Budget 1.5%, Standard 2.0%, Premium 2.5%, Luxury 3.0%.
pub open spec fn spec_commission_rate_permille(tier: TransactionTier) -> u64 {
    match tier {
        TransactionTier::Budget => 15,
        TransactionTier::Standard => 20,
        TransactionTier::Premium => 25,
        TransactionTier::Luxury => 30,
    }
}

/// The commission owed on `amount` at `tier`'s rate:
/// `floor(amount * rate / 1000)`.
pub open spec fn spec_commission(tier: TransactionTier, amount: u64) -> int {
    amount * spec_commission_rate_permille(tier) / 1000
}

/// Fee rate of `tier` in permille.
pub fn commission_rate_permille(tier: &TransactionTier) -> (r: u64)
    ensures
        r == spec_commission_rate_permille(*tier),
{
    match tier {
        TransactionTier::Budget => 15,
        TransactionTier::Standard => 20,
        TransactionTier::Premium => 25,
        TransactionTier::Luxury => 30,
    }
}

/// Commission owed on `amount` at `tier`'s rate.  Always returns a value;
/// zero amounts yield zero commission.
pub fn calculate_commission_by_tier(tier: &TransactionTier, amount: u64) -> (r: u64)
    ensures
        r == spec_commission(*tier, amount),
{
    let rate = commission_rate_permille(tier);
    proof {
        assert(amount * rate <= amount * 30) by (nonlinear_arith)
            requires rate <= 30, amount >= 0;
        assert(amount * 30 / 1000 <= u64::MAX) by (nonlinear_arith)
            requires amount <= u64::MAX;
        assert(amount * rate / 1000 <= amount * 30 / 1000) by (nonlinear_arith)
            requires amount * rate <= amount * 30;
    }
    let wide: u128 = (amount as u128) * (rate as u128) / 1000;
    wide as u64
}

} // verus!
