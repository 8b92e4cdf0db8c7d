//! Shared fixed-point denominators for fee and tolerance rates.

use vstd::prelude::*;

verus! {

/// Denominator of every fee and tolerance rate: a rate of `MAX_PERCENTAGE`
/// means 100%.
pub const MAX_PERCENTAGE: u64 = 1_000_000;

} // verus!
