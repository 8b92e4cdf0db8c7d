//! Error kinds reported by the math library.
//!
//! Every kind is terminal for the current call: the library performs no
//! retries and no partial application, and never clamps a failing
//! computation to a default value.

use vstd::prelude::*;

verus! {

/// Why a quote or swap computation was rejected.
#[derive(Clone, Copy, Debug, PartialEq, Eq, Structural)]
pub enum ErrorCode {
    /// An arithmetic step exceeded its integer range, or required
    /// subtracting a larger value from a smaller one.
    MathLibMathOverflow,
    /// The computed lock would leave the available X reserve at zero or
    /// below.
    MathLibInsufficientPoolTokenXBalance,
    /// The computed lock would leave the available Y reserve below zero.
    MathLibInsufficientPoolTokenYBalance,
    /// The rebalance solver reports that the trade moves the reserve ratio
    /// beyond the configured tolerance.
    MathLibTradeTooBig,
    /// The nominal input, after the external transfer fee, is zero.
    MathLibInputAmountTooSmall,
    /// The gross output, after the external transfer fee, is zero.
    MathLibOutputIsZero,
}

} // verus!
