//! The quote orchestrator: one request/response pass over the whole
//! pricing pipeline.
//!
//! A quote strips protocol-fee accruals, user-pending locks and
//! pool-pending locks from the raw reserves to get the tradable base,
//! deducts the external transfer fee from the nominal input, invokes the
//! swap engine and the rebalance solver, applies the boundary checks, and
//! deducts the external transfer fee from the gross output.

use vstd::prelude::*;

use crate::errors::ErrorCode;
use crate::state::{AmmConfig, QuoteOutput, SwapResultWithFromToLock};
use crate::transfer_fee::{get_transfer_fee, spec_get_transfer_fee, TransferFeeSchedule};
use crate::utils::{
    rebalance_pool_ratio, spec_protocol_fee, spec_rebalance, spec_rebalance_degenerate,
    spec_swap_ok, spec_swap_output, spec_trade_fee, swap,
};

verus! {

/// The complete quote pipeline as a function of its inputs.
///
/// Every failure is a distinct error kind and every step is stated exactly,
/// so a quote is fully determined by its arguments: no hidden state, no
/// clamping.
pub open spec fn spec_quote(
    nominal_exchange_in: u64,
    is_swap_x_to_y: bool,
    amm_config: AmmConfig,
    transfer_fee_config_x: Option<TransferFeeSchedule>,
    transfer_fee_config_y: Option<TransferFeeSchedule>,
    protocol_fee_x: u64,
    protocol_fee_y: u64,
    user_locked_x: u64,
    user_locked_y: u64,
    locked_x: u64,
    locked_y: u64,
    reserve_x_balance: u64,
    reserve_y_balance: u64,
    epoch: u64,
) -> Result<QuoteOutput, ErrorCode> {
    if reserve_x_balance < protocol_fee_x + user_locked_x
        || reserve_y_balance < protocol_fee_y + user_locked_y {
        // protocol fees or user locks exceed a raw reserve: a fatal
        // invariant violation upstream
        Err(ErrorCode::MathLibMathOverflow)
    } else {
        let total_x = reserve_x_balance - protocol_fee_x - user_locked_x;
        let total_y = reserve_y_balance - protocol_fee_y - user_locked_y;
        if total_x < locked_x || total_y < locked_y {
            Err(ErrorCode::MathLibMathOverflow)
        } else {
            let available_x = total_x - locked_x;
            let available_y = total_y - locked_y;
            let available_src = if is_swap_x_to_y { available_x } else { available_y };
            let available_dst = if is_swap_x_to_y { available_y } else { available_x };
            let total_src = if is_swap_x_to_y { total_x } else { total_y };
            let total_dst = if is_swap_x_to_y { total_y } else { total_x };
            let src_fee_config = if is_swap_x_to_y { transfer_fee_config_x } else { transfer_fee_config_y };
            let dst_fee_config = if is_swap_x_to_y { transfer_fee_config_y } else { transfer_fee_config_x };
            match spec_get_transfer_fee(src_fee_config, nominal_exchange_in as int, epoch as int) {
                Err(e) => Err(e),
                Ok(input_transfer_fee) => {
                    // the transfer-fee deduction from the nominal input
                    // saturates: a pathological external schedule may charge
                    // more than the amount itself
                    let exchange_in: u64 = if nominal_exchange_in >= input_transfer_fee {
                        (nominal_exchange_in - input_transfer_fee) as u64
                    } else {
                        0u64
                    };
                    if exchange_in == 0 {
                        Err(ErrorCode::MathLibInputAmountTooSmall)
                    } else if !spec_swap_ok(exchange_in as int, available_src as int, available_dst as int,
                            amm_config.trade_fee_rate as int, amm_config.protocol_fee_rate as int) {
                        Err(ErrorCode::MathLibMathOverflow)
                    } else {
                        let trade_fee = spec_trade_fee(exchange_in as int, amm_config.trade_fee_rate as int);
                        let protocol_fee = spec_protocol_fee(trade_fee, amm_config.protocol_fee_rate as int);
                        let from_amount = exchange_in - trade_fee;
                        let to_amount = spec_swap_output(from_amount, available_src as int, available_dst as int);
                        match spec_rebalance(to_amount, available_src as int, available_dst as int,
                                total_src as int, total_dst as int, amm_config.ratio_change_tolerance_rate as int) {
                            None => Err(ErrorCode::MathLibMathOverflow),
                            Some(rebalance_result) => {
                                if rebalance_result.is_rate_tolerance_exceeded {
                                    Err(ErrorCode::MathLibTradeTooBig)
                                } else if is_swap_x_to_y && rebalance_result.from_to_lock >= available_src {
                                    // X to Y rejects a lock that consumes the
                                    // whole available source reserve
                                    Err(ErrorCode::MathLibInsufficientPoolTokenXBalance)
                                } else if !is_swap_x_to_y && rebalance_result.from_to_lock > available_src {
                                    // Y to X allows full consumption and
                                    // rejects only more than that
                                    Err(ErrorCode::MathLibInsufficientPoolTokenYBalance)
                                } else {
                                    match spec_get_transfer_fee(dst_fee_config, to_amount, epoch as int) {
                                        Err(e) => Err(e),
                                        Ok(output_transfer_fee) => {
                                            let to_after: int = if to_amount >= output_transfer_fee {
                                                to_amount - output_transfer_fee
                                            } else {
                                                0
                                            };
                                            if to_after == 0 {
                                                Err(ErrorCode::MathLibOutputIsZero)
                                            } else {
                                                Ok(QuoteOutput {
                                                    from_amount: from_amount as u64,
                                                    to_amount: to_amount as u64,
                                                    from_amount_after_transfer_fees: exchange_in,
                                                    to_amount_after_transfer_fees: to_after as u64,
                                                    trade_fee: trade_fee as u64,
                                                    protocol_fee: protocol_fee as u64,
                                                    from_to_lock: rebalance_result.from_to_lock,
                                                })
                                            }
                                        }
                                    }
                                }
                            }
                        }
                    }
                }
            }
        }
    }
}

/// Quote the outcome of swapping `nominal_exchange_in` of the source mint
/// against the pool, in the direction given by `is_swap_x_to_y`.
///
/// A quote is a pure function of its arguments: the result is stated
/// exactly by [`spec_quote`], so two calls with identical arguments yield
/// identical results, and the caller applies the outcome atomically — this
/// function never moves funds or persists state.
pub fn quote(
    nominal_exchange_in: u64,
    is_swap_x_to_y: bool,
    amm_config: &AmmConfig,
    transfer_fee_config_x: &Option<TransferFeeSchedule>,
    transfer_fee_config_y: &Option<TransferFeeSchedule>,
    protocol_fee_x: u64,
    protocol_fee_y: u64,
    user_locked_x: u64,
    user_locked_y: u64,
    locked_x: u64,
    locked_y: u64,
    reserve_x_balance: u64,
    reserve_y_balance: u64,
    epoch: u64,
) -> (r: Result<QuoteOutput, ErrorCode>)
    requires
        amm_config.wf(),
    ensures
        r == spec_quote(
            nominal_exchange_in,
            is_swap_x_to_y,
            *amm_config,
            *transfer_fee_config_x,
            *transfer_fee_config_y,
            protocol_fee_x,
            protocol_fee_y,
            user_locked_x,
            user_locked_y,
            locked_x,
            locked_y,
            reserve_x_balance,
            reserve_y_balance,
            epoch,
        ),
        // the trade fee never truncates the input: the net input plus the
        // trade fee is exactly the input net of transfer fees
        r matches Ok(q) ==> q.from_amount + q.trade_fee == q.from_amount_after_transfer_fees,
        // the protocol share never exceeds the trade fee
        r matches Ok(q) ==> q.protocol_fee <= q.trade_fee,
        // external transfer fees only reduce what the counterparty receives
        r matches Ok(q) ==> q.to_amount_after_transfer_fees <= q.to_amount,
{
    // exclude protocol fees and user pending orders from the raw reserves
    let total_token_x_amount = match reserve_x_balance.checked_sub(protocol_fee_x) {
        Some(v) => match v.checked_sub(user_locked_x) {
            Some(v) => v,
            None => return Err(ErrorCode::MathLibMathOverflow),
        },
        None => return Err(ErrorCode::MathLibMathOverflow),
    };
    let total_token_y_amount = match reserve_y_balance.checked_sub(protocol_fee_y) {
        Some(v) => match v.checked_sub(user_locked_y) {
            Some(v) => v,
            None => return Err(ErrorCode::MathLibMathOverflow),
        },
        None => return Err(ErrorCode::MathLibMathOverflow),
    };

    // exclude pool-pending locks from earlier trades
    let available_token_x_amount = match total_token_x_amount.checked_sub(locked_x) {
        Some(v) => v,
        None => return Err(ErrorCode::MathLibMathOverflow),
    };
    let available_token_y_amount = match total_token_y_amount.checked_sub(locked_y) {
        Some(v) => v,
        None => return Err(ErrorCode::MathLibMathOverflow),
    };

    let (available_src, available_dst, total_src, total_dst) = if is_swap_x_to_y {
        (available_token_x_amount, available_token_y_amount, total_token_x_amount, total_token_y_amount)
    } else {
        (available_token_y_amount, available_token_x_amount, total_token_y_amount, total_token_x_amount)
    };
    let src_fee_config = if is_swap_x_to_y { transfer_fee_config_x } else { transfer_fee_config_y };
    let dst_fee_config = if is_swap_x_to_y { transfer_fee_config_y } else { transfer_fee_config_x };

    // the amount the pool receives, excluding the outside transfer fee
    let input_transfer_fee = match get_transfer_fee(src_fee_config, nominal_exchange_in, epoch) {
        Ok(fee) => fee,
        Err(e) => return Err(e),
    };
    let exchange_in = nominal_exchange_in.saturating_sub(input_transfer_fee);
    if exchange_in == 0 {
        return Err(ErrorCode::MathLibInputAmountTooSmall);
    }

    // the output amount by the constant-product formula
    let result_amounts = match swap(
        exchange_in as u128,
        available_src as u128,
        available_dst as u128,
        amm_config.trade_fee_rate,
        amm_config.protocol_fee_rate,
    ) {
        Some(res) => res,
        None => return Err(ErrorCode::MathLibMathOverflow),
    };

    let rebalance_result = match rebalance_pool_ratio(
        result_amounts.to_amount,
        available_src,
        available_dst,
        total_src,
        total_dst,
        amm_config.ratio_change_tolerance_rate,
    ) {
        Some(rb) => rb,
        None => return Err(ErrorCode::MathLibMathOverflow),
    };

    if rebalance_result.is_rate_tolerance_exceeded {
        return Err(ErrorCode::MathLibTradeTooBig);
    }

    // can't reserve to zero or negative; the boundary differs by direction
    if is_swap_x_to_y {
        if rebalance_result.from_to_lock >= available_src {
            return Err(ErrorCode::MathLibInsufficientPoolTokenXBalance);
        }
    } else {
        if rebalance_result.from_to_lock > available_src {
            return Err(ErrorCode::MathLibInsufficientPoolTokenYBalance);
        }
    }

    let result_with_lock = SwapResultWithFromToLock {
        from_amount: result_amounts.from_amount,
        to_amount: result_amounts.to_amount,
        trade_fee: result_amounts.trade_fee,
        protocol_fee: result_amounts.protocol_fee,
        from_to_lock: rebalance_result.from_to_lock,
    };

    // the amount the counterparty receives, excluding the outside transfer
    // fee of the destination mint
    let output_transfer_fee = match get_transfer_fee(dst_fee_config, result_with_lock.to_amount, epoch) {
        Ok(fee) => fee,
        Err(e) => return Err(e),
    };
    let to_amount_after_transfer_fees = result_with_lock.to_amount.saturating_sub(output_transfer_fee);
    if to_amount_after_transfer_fees == 0 {
        return Err(ErrorCode::MathLibOutputIsZero);
    }

    Ok(QuoteOutput {
        from_amount: result_with_lock.from_amount,
        to_amount: result_with_lock.to_amount,
        from_amount_after_transfer_fees: exchange_in,
        to_amount_after_transfer_fees,
        trade_fee: result_with_lock.trade_fee,
        protocol_fee: result_with_lock.protocol_fee,
        from_to_lock: result_with_lock.from_to_lock,
    })
}

} // verus!
