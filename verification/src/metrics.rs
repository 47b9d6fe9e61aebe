//! The metric families and what they share.

use vstd::prelude::*;

pub mod abc;
pub mod cyclomatic;
pub mod exit;
pub mod halstead;
pub mod loc;
pub mod nom;
pub mod npa;
pub mod npm;
pub mod wmc;
pub mod tally;

verus! {

/// The sentinel a minimum starts from: no count reaches it.
pub const NO_MIN: u64 = 0xFFFF_FFFF_FFFF_FFFF;

/// An exact quotient of two counts.
#[derive(Clone, Copy, Debug, PartialEq, Eq, Structural)]
pub struct Ratio {
    /// The dividend.
    pub num: u128,
    /// The divisor, never zero.
    pub den: u128,
}

/// The quotient `num / den`, undefined when `den` is zero.
pub open spec fn quotient(num: u64, den: u64) -> Option<Ratio> {
    if den == 0 {
        None
    } else {
        Some(Ratio { num: num as u128, den: den as u128 })
    }
}

/// Divides two counts exactly; `None` when the divisor is zero.
pub fn ratio(num: u64, den: u64) -> (r: Option<Ratio>)
    ensures
        r == quotient(num, den),
{
    if den == 0 {
        None
    } else {
        Some(Ratio { num: num as u128, den: den as u128 })
    }
}

/// A minimum as reported: undefined while it still holds the sentinel.
pub open spec fn reported_min(min: u64) -> Option<u64> {
    if min == NO_MIN {
        None
    } else {
        Some(min)
    }
}

/// Reports a minimum; `None` when no value was ever recorded.
pub fn report_min(min: u64) -> (r: Option<u64>)
    ensures
        r == reported_min(min),
{
    if min == NO_MIN {
        None
    } else {
        Some(min)
    }
}

/// The smaller of two counts.
pub open spec fn min_of(a: u64, b: u64) -> u64 {
    if a <= b {
        a
    } else {
        b
    }
}

/// The larger of two counts.
pub open spec fn max_of(a: u64, b: u64) -> u64 {
    if a >= b {
        a
    } else {
        b
    }
}

/// Computes the smaller of two counts.
pub fn min_u64(a: u64, b: u64) -> (r: u64)
    ensures
        r == min_of(a, b),
{
    if a <= b {
        a
    } else {
        b
    }
}

/// Computes the larger of two counts.
pub fn max_u64(a: u64, b: u64) -> (r: u64)
    ensures
        r == max_of(a, b),
{
    if a >= b {
        a
    } else {
        b
    }
}

} // verus!
