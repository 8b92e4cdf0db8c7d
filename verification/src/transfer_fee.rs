//! The external transfer-fee adapter.
//!
//! The token system may charge its own per-mint fee on every transfer,
//! independent of the pool's fee configuration. Its schedule is modelled
//! here as plain values — two epoch-indexed entries — and the fee itself is
//! computed by the external token library behind one trusted wrapper.

use vstd::prelude::*;

use spl_token_2022_interface::extension::transfer_fee::{
    TransferFee as SplTransferFee, TransferFeeConfig as SplTransferFeeConfig,
};

use crate::errors::ErrorCode;

verus! {

/// Basis-point denominator of the external transfer-fee schedule: a fee of
/// `ONE_IN_BASIS_POINTS` basis points is 100%.
pub const ONE_IN_BASIS_POINTS: u64 = 10_000;

/// One epoch-indexed entry of an external transfer-fee schedule.
#[derive(Clone, Copy, Debug, PartialEq, Eq, Structural)]
pub struct TransferFeeParams {
    /// First epoch where this entry takes effect.
    pub epoch: u64,
    /// Maximum fee assessed on a transfer, in tokens.
    pub maximum_fee: u64,
    /// Fee as basis points (increments of 0.01%) of the transfer amount.
    pub transfer_fee_basis_points: u16,
}

/// An external transfer-fee schedule for one mint: an older and a newer
/// entry, selected by the current epoch.
#[derive(Clone, Copy, Debug, PartialEq, Eq, Structural)]
pub struct TransferFeeSchedule {
    /// Entry used while the current epoch is below the newer entry's epoch.
    pub older_transfer_fee: TransferFeeParams,
    /// Entry used once the current epoch reaches its epoch.
    pub newer_transfer_fee: TransferFeeParams,
}

/// The fee one schedule entry assesses on a transfer of `pre_fee_amount`:
/// zero when the entry's rate is zero or nothing is transferred, otherwise
/// `ceil(pre_fee_amount * basis_points / 10_000)` capped at the entry's
/// `maximum_fee`; no fee (`None`) only when that uncapped ceiling exceeds
/// the `u64` range.
pub open spec fn spec_entry_fee(entry: TransferFeeParams, pre_fee_amount: int) -> Option<u64> {
    let bps = entry.transfer_fee_basis_points as int;
    if bps == 0 || pre_fee_amount == 0 {
        Some(0u64)
    } else {
        let raw_fee = (pre_fee_amount * bps + (ONE_IN_BASIS_POINTS - 1)) / (ONE_IN_BASIS_POINTS as int);
        if raw_fee > u64::MAX {
            None
        } else if raw_fee > entry.maximum_fee {
            Some(entry.maximum_fee)
        } else {
            Some(raw_fee as u64)
        }
    }
}

/// The fee a schedule assesses at `epoch` on a transfer of
/// `pre_fee_amount`: the newer entry applies from its own epoch on, the
/// older one before.
pub open spec fn spec_epoch_fee(schedule: TransferFeeSchedule, epoch: int, pre_fee_amount: int) -> Option<u64> {
    if epoch >= schedule.newer_transfer_fee.epoch {
        spec_entry_fee(schedule.newer_transfer_fee, pre_fee_amount)
    } else {
        spec_entry_fee(schedule.older_transfer_fee, pre_fee_amount)
    }
}

/// Relies on `TransferFeeConfig::calculate_epoch_fee` of
/// `spl-token-2022-interface`: it selects the newer fee entry when
/// `epoch >= newer.epoch` and the older one otherwise, and assesses
/// `ceil(pre_fee_amount * transfer_fee_basis_points / 10_000)` capped at
/// the entry's `maximum_fee`, with `None` only when the uncapped ceiling
/// exceeds the `u64` range; for `u64` amounts none of its `u128`
/// intermediate steps can overflow.
#[verifier::external_body]
fn calculate_epoch_fee(schedule: &TransferFeeSchedule, epoch: u64, pre_fee_amount: u64) -> (r: Option<u64>)
    ensures
        r == spec_epoch_fee(*schedule, epoch as int, pre_fee_amount as int),
{
    let config = SplTransferFeeConfig {
        older_transfer_fee: SplTransferFee {
            epoch: schedule.older_transfer_fee.epoch.into(),
            maximum_fee: schedule.older_transfer_fee.maximum_fee.into(),
            transfer_fee_basis_points: schedule.older_transfer_fee.transfer_fee_basis_points.into(),
        },
        newer_transfer_fee: SplTransferFee {
            epoch: schedule.newer_transfer_fee.epoch.into(),
            maximum_fee: schedule.newer_transfer_fee.maximum_fee.into(),
            transfer_fee_basis_points: schedule.newer_transfer_fee.transfer_fee_basis_points.into(),
        },
        ..Default::default()
    };
    config.calculate_epoch_fee(epoch, pre_fee_amount)
}

/// The transfer fee charged by the external token system on
/// `pre_fee_amount` at `epoch`: zero when the mint has no fee schedule,
/// otherwise the schedule's epoch fee, with the schedule's overflow
/// reported as a math-overflow error.
pub open spec fn spec_get_transfer_fee(
    transfer_fee_config: Option<TransferFeeSchedule>,
    pre_fee_amount: int,
    epoch: int,
) -> Result<u64, ErrorCode> {
    match transfer_fee_config {
        None => Ok(0u64),
        Some(schedule) => match spec_epoch_fee(schedule, epoch, pre_fee_amount) {
            Some(fee) => Ok(fee),
            None => Err(ErrorCode::MathLibMathOverflow),
        },
    }
}

/// The transfer fee the external token system charges on `pre_fee_amount`
/// at `epoch`, or zero when the mint has no fee schedule configured.
pub fn get_transfer_fee(
    transfer_fee_config: &Option<TransferFeeSchedule>,
    pre_fee_amount: u64,
    epoch: u64,
) -> (r: Result<u64, ErrorCode>)
    ensures
        r == spec_get_transfer_fee(*transfer_fee_config, pre_fee_amount as int, epoch as int),
{
    match transfer_fee_config {
        None => Ok(0),
        Some(schedule) => match calculate_epoch_fee(schedule, epoch, pre_fee_amount) {
            Some(fee) => Ok(fee),
            None => Err(ErrorCode::MathLibMathOverflow),
        },
    }
}

} // verus!
