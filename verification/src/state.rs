//! Plain data carried into and out of the pricing functions.

use vstd::prelude::*;

use crate::constants::MAX_PERCENTAGE;

verus! {

/// Fee and tolerance configuration of a pool, passed by reference into every
/// quote. Each rate is a numerator over [`MAX_PERCENTAGE`];
/// `protocol_fee_rate` is a percentage *of the trade fee*, not of the trade
/// amount.
pub struct AmmConfig {
    /// Fee charged on the gross input, as a rate over [`MAX_PERCENTAGE`].
    pub trade_fee_rate: u64,
    /// Portion of the trade fee retained by the protocol, as a rate over
    /// [`MAX_PERCENTAGE`].
    pub protocol_fee_rate: u64,
    /// Largest tolerated relative drift of the available reserve ratio, as a
    /// rate over [`MAX_PERCENTAGE`].
    pub ratio_change_tolerance_rate: u64,
}

impl AmmConfig {
    /// Configuration invariant: every rate is at most 100%.
    pub open spec fn wf(&self) -> bool {
        &&& self.trade_fee_rate <= MAX_PERCENTAGE
        &&& self.protocol_fee_rate <= MAX_PERCENTAGE
        &&& self.ratio_change_tolerance_rate <= MAX_PERCENTAGE
    }
}

/// Outcome of the swap engine for one trade.
#[derive(Clone, Copy, Debug, PartialEq, Eq, Structural)]
pub struct SwapResult {
    /// Net input actually applied to the invariant, after the trade fee.
    pub from_amount: u64,
    /// Gross output, before any external transfer fee.
    pub to_amount: u64,
    /// Fee charged on the gross input, rounded up.
    pub trade_fee: u64,
    /// Portion of `trade_fee` retained by the protocol, rounded down.
    pub protocol_fee: u64,
}

/// A [`SwapResult`] extended with the corrective lock amount chosen by the
/// rebalance solver.
#[derive(Clone, Copy, Debug, PartialEq, Eq, Structural)]
pub struct SwapResultWithFromToLock {
    /// Net input actually applied to the invariant, after the trade fee.
    pub from_amount: u64,
    /// Gross output, before any external transfer fee.
    pub to_amount: u64,
    /// Fee charged on the gross input, rounded up.
    pub trade_fee: u64,
    /// Portion of `trade_fee` retained by the protocol, rounded down.
    pub protocol_fee: u64,
    /// Amount additionally set aside from the source side.
    pub from_to_lock: u64,
}

/// The sole externally consumed artifact of a quote.
#[derive(Clone, Copy, Debug, PartialEq, Eq, Structural)]
pub struct QuoteOutput {
    /// Net input applied to the invariant: the nominal input minus the
    /// external transfer fee and the trade fee.
    pub from_amount: u64,
    /// Gross output, before the external transfer fee of the destination
    /// mint.
    pub to_amount: u64,
    /// Nominal input minus the external transfer fee of the source mint;
    /// what the pool actually receives, gross of the trade fee.
    pub from_amount_after_transfer_fees: u64,
    /// Gross output minus the external transfer fee of the destination
    /// mint; what the counterparty actually receives.
    pub to_amount_after_transfer_fees: u64,
    /// Fee charged on the gross input, rounded up.
    pub trade_fee: u64,
    /// Portion of `trade_fee` retained by the protocol, rounded down.
    pub protocol_fee: u64,
    /// Amount additionally set aside from the source side to keep the
    /// reserve ratio within tolerance.
    pub from_to_lock: u64,
}

/// Outcome of the ratio-rebalance solver, computed fresh per quote and never
/// persisted.
#[derive(Clone, Copy, Debug, PartialEq, Eq, Structural)]
pub struct RebalanceResult {
    /// Amount to additionally set aside from the source side.
    pub from_to_lock: u64,
    /// Whether even the best lock leaves the ratio drift above the
    /// configured tolerance.
    pub is_rate_tolerance_exceeded: bool,
}

} // verus!
