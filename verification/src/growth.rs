//! Growth arithmetic and the yield-rate alert rule.
//!
//! A yield rate is carried as basis points (hundredths of a percent), so
//! the sample rate of 3.5% is 350 basis points. The daily growth estimate
//! for a vault is `principal * rate / 100 / 365`, which in basis points is
//! `principal * rate_bps / 10000 / 365`, rounded down at each division.

use vstd::prelude::*;

verus! {

/// Rates strictly below this threshold (2.0%) raise the rebalancing alert.
pub const ALERT_THRESHOLD_BPS: u64 = 200;

/// The sample yield rate the demo source reports: 3.5%.
pub const MOCK_RATE_BPS: u64 = 350;

/// Daily growth estimate: `principal * rate / 100 / 365` with the rate in
/// basis points, all divisions rounding toward zero.
pub open spec fn spec_growth(principal: u128, rate_bps: u64) -> int {
    (principal as int * rate_bps as int) / 10000 / 365
}

/// Growth, saturating at `u128::MAX` when the scaled principal does not
/// fit the word.
pub open spec fn spec_growth_saturating(principal: u128, rate_bps: u64) -> u128 {
    if principal as int * rate_bps as int <= u128::MAX as int {
        spec_growth(principal, rate_bps) as u128
    } else {
        u128::MAX
    }
}

/// Exact daily growth for principals small enough that the scaled value
/// fits in the word.
pub fn growth(principal: u128, rate_bps: u64) -> (g: u128)
    requires
        principal as int * rate_bps as int <= u128::MAX as int,
    ensures
        g as int == spec_growth(principal, rate_bps),
{
    let scaled: u128 = principal * (rate_bps as u128);
    scaled / 10000 / 365
}

/// Daily growth, or `None` exactly when `principal * rate_bps` overflows
/// the word.
pub fn checked_growth(principal: u128, rate_bps: u64) -> (g: Option<u128>)
    ensures
        principal as int * rate_bps as int <= u128::MAX as int ==> g == Some(
            spec_growth(principal, rate_bps) as u128,
        ),
        principal as int * rate_bps as int > u128::MAX as int ==> g is None,
{
    if rate_bps == 0 {
        Some(0)
    } else {
        let limit: u128 = u128::MAX / (rate_bps as u128);
        if principal <= limit {
            proof {
                let p = principal as int;
                let b = rate_bps as int;
                let m = u128::MAX as int;
                assert(p <= m / b ==> p * b <= m) by (nonlinear_arith)
                    requires
                        0 < b,
                        0 <= p,
                        0 < m,
                ;
            }
            Some(growth(principal, rate_bps))
        } else {
            proof {
                let p = principal as int;
                let b = rate_bps as int;
                let m = u128::MAX as int;
                assert(p > m / b ==> p * b > m) by (nonlinear_arith)
                    requires
                        0 < b,
                        0 <= p,
                        0 < m,
                ;
            }
            None
        }
    }
}

/// Daily growth, saturating at `u128::MAX` instead of failing on overflow.
pub fn growth_saturating(principal: u128, rate_bps: u64) -> (g: u128)
    ensures
        g == spec_growth_saturating(principal, rate_bps),
{
    match checked_growth(principal, rate_bps) {
        Some(g) => g,
        None => u128::MAX,
    }
}

/// The alert rule: a rate strictly below the threshold calls for
/// rebalancing; a rate at or above it does not.
pub fn rate_is_alert(rate_bps: u64) -> (r: bool)
    ensures
        r == (rate_bps < ALERT_THRESHOLD_BPS),
{
    rate_bps < ALERT_THRESHOLD_BPS
}

/// The demo rate source: always reports the sample rate.
pub fn mock_rate_bps() -> (r: u64)
    ensures
        r == MOCK_RATE_BPS,
{
    MOCK_RATE_BPS
}

} // verus!
