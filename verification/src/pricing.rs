//! Registration pricing tiers and the expiry arithmetic of the lifecycle
//! (active until expiry, then a grace window, then claimable).

use vstd::prelude::*;

use crate::constants::{GRACE_PERIOD_SECONDS, YEAR_SECONDS};

verus! {

/// `a * b`, or `u64::MAX` when the product does not fit.
pub open spec fn sat_mul(a: u64, b: u64) -> u64 {
    if a * b > u64::MAX {
        u64::MAX
    } else {
        (a * b) as u64
    }
}

pub fn saturating_mul(a: u64, b: u64) -> (r: u64)
    ensures
        r == sat_mul(a, b),
{
    match a.checked_mul(b) {
        Some(v) => v,
        None => u64::MAX,
    }
}

/// Yearly fee in stroops for a label of `length` bytes: short labels are
/// premium, medium labels cost less, long labels cost least.
pub open spec fn price_of(length: usize) -> u64 {
    if length <= 3 {
        1_000_000_000
    } else if length <= 6 {
        250_000_000
    } else {
        100_000_000
    }
}

pub fn price_for_label_length(length: usize) -> (r: u64)
    ensures
        r == price_of(length),
        length <= 3 ==> r == 1_000_000_000,
        4 <= length <= 6 ==> r == 250_000_000,
        length >= 7 ==> r == 100_000_000,
{
    if length <= 3 {
        1_000_000_000
    } else if length <= 6 {
        250_000_000
    } else {
        100_000_000
    }
}

/// The price tiers: 1 000 000 000 stroops a year for labels of at most three
/// bytes, 250 000 000 for four to six bytes, 100 000 000 from seven bytes on;
/// a longer label never costs more.
pub proof fn law_price_tiers(length: usize, longer: usize)
    ensures
        length <= 3 ==> price_of(length) == 1_000_000_000,
        4 <= length <= 6 ==> price_of(length) == 250_000_000,
        length >= 7 ==> price_of(length) == 100_000_000,
        length <= longer ==> price_of(longer) <= price_of(length),
{
}

/// The expiry `years` registration years after `now_unix`, saturating.
pub open spec fn expiry_after(now_unix: u64, years: u64) -> u64 {
    now_unix.saturating_add(sat_mul(years, YEAR_SECONDS))
}

pub fn expiry_from_now(now_unix: u64, years: u64) -> (r: u64)
    ensures
        r == expiry_after(now_unix, years),
{
    now_unix.saturating_add(saturating_mul(years, YEAR_SECONDS))
}

/// End of the grace window that follows `expiry_unix`, saturating.
pub open spec fn grace_end(expiry_unix: u64) -> u64 {
    expiry_unix.saturating_add(GRACE_PERIOD_SECONDS)
}

/// Whether `now_unix` lies in the grace window after `expiry_unix`: past
/// the expiry, and no later than the end of the window.
pub fn within_grace_period(expiry_unix: u64, now_unix: u64) -> (r: bool)
    ensures
        r == (expiry_unix < now_unix && now_unix <= grace_end(expiry_unix)),
{
    expiry_unix < now_unix && now_unix <= expiry_unix.saturating_add(GRACE_PERIOD_SECONDS)
}

} // verus!
