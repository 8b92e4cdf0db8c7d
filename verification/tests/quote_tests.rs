use dex_math::{
    get_transfer_fee, quote, AmmConfig, ErrorCode, TransferFeeParams, TransferFeeSchedule,
};

fn fee_free_config(tolerance: u64) -> AmmConfig {
    AmmConfig {
        trade_fee_rate: 0,
        protocol_fee_rate: 0,
        ratio_change_tolerance_rate: tolerance,
    }
}

fn flat_schedule(basis_points: u16, maximum_fee: u64) -> Option<TransferFeeSchedule> {
    Some(TransferFeeSchedule {
        older_transfer_fee: TransferFeeParams {
            epoch: 0,
            maximum_fee,
            transfer_fee_basis_points: basis_points,
        },
        newer_transfer_fee: TransferFeeParams {
            epoch: 0,
            maximum_fee,
            transfer_fee_basis_points: basis_points,
        },
    })
}

#[test]
fn test_quote_simple_swap() {
    // 1,000 X into a 10,000 : 50,000 pool, no fees of any kind, 100%
    // tolerance: out = 1,000 * 50,000 / 11,000 = 4,545, and the lock that
    // restores the 1:5 ratio exactly is 909
    let result = quote(
        1000, true, &fee_free_config(1_000_000), &None, &None,
        0, 0, 0, 0, 0, 0, 10_000, 50_000, 0,
    )
    .unwrap();
    assert_eq!(result.from_amount, 1000);
    assert_eq!(result.to_amount, 4545);
    assert_eq!(result.from_amount_after_transfer_fees, 1000);
    assert_eq!(result.to_amount_after_transfer_fees, 4545);
    assert_eq!(result.trade_fee, 0);
    assert_eq!(result.protocol_fee, 0);
    assert_eq!(result.from_to_lock, 909);
}

#[test]
fn test_quote_with_trade_and_protocol_fee() {
    // 10,000 in at a 0.25% trade fee, protocol keeps 50% of the fee, on a
    // balanced 1,000,000 : 1,000,000 pool
    let config = AmmConfig {
        trade_fee_rate: 2500,
        protocol_fee_rate: 500_000,
        ratio_change_tolerance_rate: 1_000_000,
    };
    let result = quote(
        10_000, true, &config, &None, &None,
        0, 0, 0, 0, 0, 0, 1_000_000, 1_000_000, 0,
    )
    .unwrap();
    assert_eq!(result.trade_fee, 25);
    assert_eq!(result.protocol_fee, 12);
    assert_eq!(result.from_amount, 9975);
    assert_eq!(result.to_amount, 9876);
    assert_eq!(result.from_amount_after_transfer_fees, 10_000);
    assert_eq!(result.to_amount_after_transfer_fees, 9876);
    assert_eq!(result.from_to_lock, 9876);
    assert_eq!(result.from_amount + result.trade_fee, 10_000);
}

#[test]
fn test_quote_direction_y_to_x() {
    // the same trade mirrored: 1,000 Y into the Y side of a pool whose Y
    // reserve is 10,000 and X reserve is 50,000
    let result = quote(
        1000, false, &fee_free_config(1_000_000), &None, &None,
        0, 0, 0, 0, 0, 0, 50_000, 10_000, 0,
    )
    .unwrap();
    assert_eq!(result.to_amount, 4545);
    assert_eq!(result.from_to_lock, 909);
}

#[test]
fn test_quote_strips_accruals_and_locks() {
    // protocol fees, user locks and pool locks are stripped before pricing:
    // raw 12,000 X carries 1,000 protocol fee, 500 user-locked and 500
    // pool-locked, leaving 10,000 available; raw 50,600 Y carries 100 + 200
    // + 300, leaving 50,000 available
    let result = quote(
        1000, true, &fee_free_config(1_000_000), &None, &None,
        1000, 100, 500, 200, 500, 300, 12_000, 50_600, 0,
    )
    .unwrap();
    assert_eq!(result.to_amount, 4545);
}

#[test]
fn test_quote_input_transfer_fee_applies() {
    // a 1% input-side transfer fee on 10,000 nominal: the pool receives
    // 9,900, trades it against 10,000 : 50,000, and pays out 24,874 gross
    let result = quote(
        10_000, true, &fee_free_config(1_000_000), &flat_schedule(100, u64::MAX), &None,
        0, 0, 0, 0, 0, 0, 10_000, 50_000, 0,
    )
    .unwrap();
    assert_eq!(result.from_amount_after_transfer_fees, 9900);
    assert_eq!(result.from_amount, 9900);
    assert_eq!(result.to_amount, 24_874);
    assert_eq!(result.to_amount_after_transfer_fees, 24_874);
    assert_eq!(result.from_to_lock, 4975);
}

#[test]
fn test_quote_output_transfer_fee_applies() {
    // a 1% output-side transfer fee: the counterparty receives the gross
    // output minus ceil(4,545 * 100 / 10,000) = 46
    let result = quote(
        1000, true, &fee_free_config(1_000_000), &None, &flat_schedule(100, u64::MAX),
        0, 0, 0, 0, 0, 0, 10_000, 50_000, 0,
    )
    .unwrap();
    assert_eq!(result.to_amount, 4545);
    assert_eq!(result.to_amount_after_transfer_fees, 4545 - 46);
}

#[test]
fn test_quote_underflow_is_math_overflow() {
    // protocol fee accrual exceeds the raw reserve: fatal invariant
    // violation upstream
    let result = quote(
        1000, true, &fee_free_config(1_000_000), &None, &None,
        20_000, 0, 0, 0, 0, 0, 10_000, 50_000, 0,
    );
    assert_eq!(result.unwrap_err(), ErrorCode::MathLibMathOverflow);
    // pool locks exceed what protocol fees and user locks left over
    let result = quote(
        1000, true, &fee_free_config(1_000_000), &None, &None,
        0, 0, 0, 0, 11_000, 0, 10_000, 50_000, 0,
    );
    assert_eq!(result.unwrap_err(), ErrorCode::MathLibMathOverflow);
}

#[test]
fn test_quote_input_amount_too_small() {
    // a zero nominal input
    let result = quote(
        0, true, &fee_free_config(1_000_000), &None, &None,
        0, 0, 0, 0, 0, 0, 10_000, 50_000, 0,
    );
    assert_eq!(result.unwrap_err(), ErrorCode::MathLibInputAmountTooSmall);
    // a 100% input-side transfer fee collapses the input to zero
    let result = quote(
        1000, true, &fee_free_config(1_000_000), &flat_schedule(10_000, u64::MAX), &None,
        0, 0, 0, 0, 0, 0, 10_000, 50_000, 0,
    );
    assert_eq!(result.unwrap_err(), ErrorCode::MathLibInputAmountTooSmall);
}

#[test]
fn test_quote_output_is_zero() {
    // a 100% output-side transfer fee collapses the output to zero
    let result = quote(
        1000, true, &fee_free_config(1_000_000), &None, &flat_schedule(10_000, u64::MAX),
        0, 0, 0, 0, 0, 0, 10_000, 50_000, 0,
    );
    assert_eq!(result.unwrap_err(), ErrorCode::MathLibOutputIsZero);
}

#[test]
fn test_quote_trade_too_big() {
    // 1 X into a lopsided 100 : 1,000,000 pool moves the available ratio by
    // about 1/101; tolerance 0.01% rejects it, 0.0102% allows it
    let result = quote(
        1, true, &fee_free_config(100), &None, &None,
        0, 0, 0, 0, 0, 0, 100, 1_000_000, 0,
    );
    assert_eq!(result.unwrap_err(), ErrorCode::MathLibTradeTooBig);
    let result = quote(
        1, true, &fee_free_config(102), &None, &None,
        0, 0, 0, 0, 0, 0, 100, 1_000_000, 0,
    )
    .unwrap();
    assert_eq!(result.to_amount, 9900);
    assert_eq!(result.from_to_lock, 1);
}

#[test]
fn test_quote_is_deterministic() {
    // a quote is a pure function of its arguments: two identical calls give
    // identical results
    let schedule = flat_schedule(250, 1_000);
    let config = AmmConfig {
        trade_fee_rate: 2500,
        protocol_fee_rate: 500_000,
        ratio_change_tolerance_rate: 1_000_000,
    };
    let first = quote(
        10_000, true, &config, &schedule, &schedule,
        10, 20, 30, 40, 50, 60, 1_000_000, 2_000_000, 7,
    );
    let second = quote(
        10_000, true, &config, &schedule, &schedule,
        10, 20, 30, 40, 50, 60, 1_000_000, 2_000_000, 7,
    );
    assert_eq!(first, second);
    assert!(first.is_ok());
}

#[test]
fn test_get_transfer_fee_none_schedule() {
    assert_eq!(get_transfer_fee(&None, 12345, 0), Ok(0));
}

#[test]
fn test_get_transfer_fee_charges_bps_rounded_up() {
    // 0.5% of 10,001 is 50.005, charged as 51 — this exercises the real
    // external fee computation behind the adapter
    let schedule = flat_schedule(50, u64::MAX);
    assert_eq!(get_transfer_fee(&schedule, 10_001, 0), Ok(51));
    // the cap applies
    let schedule = flat_schedule(50, 7);
    assert_eq!(get_transfer_fee(&schedule, 10_001, 0), Ok(7));
    // no fee on nothing
    let schedule = flat_schedule(50, u64::MAX);
    assert_eq!(get_transfer_fee(&schedule, 0, 0), Ok(0));
}

#[test]
fn test_get_transfer_fee_selects_entry_by_epoch() {
    let schedule = Some(TransferFeeSchedule {
        older_transfer_fee: TransferFeeParams {
            epoch: 0,
            maximum_fee: u64::MAX,
            transfer_fee_basis_points: 100,
        },
        newer_transfer_fee: TransferFeeParams {
            epoch: 5,
            maximum_fee: u64::MAX,
            transfer_fee_basis_points: 200,
        },
    });
    // before epoch 5 the older 1% entry applies, from epoch 5 on the newer
    // 2% entry
    assert_eq!(get_transfer_fee(&schedule, 10_000, 4), Ok(100));
    assert_eq!(get_transfer_fee(&schedule, 10_000, 5), Ok(200));
    assert_eq!(get_transfer_fee(&schedule, 10_000, 9), Ok(200));
}

#[test]
fn test_get_transfer_fee_overflow() {
    // a basis-point rate above 100% on a huge amount pushes the uncapped
    // ceiling beyond u64: the external schedule reports overflow
    let schedule = flat_schedule(65_535, u64::MAX);
    assert_eq!(
        get_transfer_fee(&schedule, u64::MAX, 0),
        Err(ErrorCode::MathLibMathOverflow)
    );
}
