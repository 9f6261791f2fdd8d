//! Yield accrual: the single time-proportional return formula shared by
//! stake-reward accrual and treasury-return queries.
//!
//! `accrued_value(principal, rate, created_at, now)` is
//! `floor(principal * rate * (now - created_at) / (RATE_SCALE * ONE_YEAR))`,
//! capped at `u64::MAX`.  Rates are permille (tenths of a percent) of the
//! principal per year; timestamps are ticks with [`ONE_YEAR`] ticks to a
//! year.  Keeping one formula guarantees the two subsystems cannot diverge
//! in rounding or unit handling.

use vstd::prelude::*;
use vstd::arithmetic::div_mod::{lemma_div_is_ordered, lemma_div_by_multiple};

verus! {

/// Ticks per year: 365 days of 24 hours of 3600 ticks.
pub const ONE_YEAR: u64 = 31_536_000;

/// Denominator of a permille rate.
pub const RATE_SCALE: u64 = 1000;

/// The uncapped accrued return: `floor(p * rate * elapsed / (1000 * year))`.
pub open spec fn spec_accrued(principal: u64, rate_permille: u64, elapsed: u64) -> int {
    (principal * rate_permille * elapsed) / (RATE_SCALE as int * ONE_YEAR as int)
}

/// The accrued return as a currency amount: capped at `u64::MAX`.
pub open spec fn spec_accrued_value(principal: u64, rate_permille: u64, elapsed: u64) -> int {
    if spec_accrued(principal, rate_permille, elapsed) > u64::MAX as int {
        u64::MAX as int
    } else {
        spec_accrued(principal, rate_permille, elapsed)
    }
}

/// Time-proportional return on `principal` at `rate_permille` per year,
/// between `created_at` and `now`.
pub fn accrued_value(principal: u64, rate_permille: u64, created_at: u64, now: u64) -> (r: u64)
    requires
        created_at <= now,
    ensures
        r as int == spec_accrued_value(principal, rate_permille, (now - created_at) as u64),
{
    let elapsed: u64 = now - created_at;
    proof {
        assert(principal * rate_permille <= u64::MAX * u64::MAX) by (nonlinear_arith)
            requires principal <= u64::MAX, rate_permille <= u64::MAX;
    }
    let a: u128 = (principal as u128) * (rate_permille as u128);
    let denom: u128 = 31_536_000_000;
    proof {
        assert(denom as int == RATE_SCALE as int * ONE_YEAR as int);
    }
    match a.checked_mul(elapsed as u128) {
        None => {
            proof {
                assert(principal * rate_permille * elapsed > u128::MAX as int)
                    by (nonlinear_arith)
                    requires
                        a == principal * rate_permille,
                        a * elapsed > u128::MAX as int,
                ;
                assert((u64::MAX as int + 1) * (denom as int) < u128::MAX as int)
                    by (nonlinear_arith)
                    requires denom == 31_536_000_000u128,
                ;
                lemma_div_is_ordered(
                    (u64::MAX as int + 1) * (denom as int),
                    principal * rate_permille * elapsed,
                    denom as int,
                );
                lemma_div_by_multiple(u64::MAX as int + 1, denom as int);
            }
            u64::MAX
        },
        Some(t) => {
            proof {
                assert(t == principal * rate_permille * elapsed) by (nonlinear_arith)
                    requires
                        a == principal * rate_permille,
                        t == a * elapsed,
                ;
            }
            let q: u128 = t / denom;
            if q > (u64::MAX as u128) {
                u64::MAX
            } else {
                q as u64
            }
        },
    }
}

/// The accrued value never shrinks as time advances: for a fixed principal
/// and rate, a later query never reports less than an earlier one.
pub proof fn lemma_accrued_value_monotone(principal: u64, rate_permille: u64, e1: u64, e2: u64)
    requires
        e1 <= e2,
    ensures
        spec_accrued_value(principal, rate_permille, e1)
            <= spec_accrued_value(principal, rate_permille, e2),
{
    let a = principal * rate_permille;
    assert(a * e1 <= a * e2) by (nonlinear_arith)
        requires e1 <= e2, a >= 0;
    lemma_div_is_ordered(a * e1, a * e2, RATE_SCALE as int * ONE_YEAR as int);
}

/// Accrual never reports a negative return.
pub proof fn lemma_accrued_value_nonneg(principal: u64, rate_permille: u64, elapsed: u64)
    ensures
        0 <= spec_accrued_value(principal, rate_permille, elapsed) <= u64::MAX as int,
{
    let a = principal * rate_permille;
    assert(a * elapsed >= 0) by (nonlinear_arith)
        requires a >= 0, elapsed >= 0;
    lemma_div_is_ordered(0, a * elapsed, RATE_SCALE as int * ONE_YEAR as int);
}

} // verus!
