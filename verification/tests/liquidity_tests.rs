use dex_math::{deposit_lp, floor_sqrt, withdraw_lp};

#[test]
fn test_deposit_lp_initial() {
    let result = deposit_lp(1000, 2000, 0, 0, 0);
    assert_eq!(result, 1414); // sqrt(1000 * 2000) ≈ 1414
}

#[test]
fn test_deposit_lp_existing() {
    let result = deposit_lp(100, 200, 1000, 1000, 2000);
    assert_eq!(result, 100); // min(100, 100) = 100
}

#[test]
fn test_withdraw_lp() {
    let (token_a, token_b) = withdraw_lp(100, 1000, 1000, 2000);
    assert_eq!(token_a, 100); // 100 * 1000 / 1000 = 100
    assert_eq!(token_b, 200); // 100 * 2000 / 1000 = 200
}

#[test]
fn test_withdraw_lp_zero_supply() {
    let (token_a, token_b) = withdraw_lp(100, 0, 1000, 2000);
    assert_eq!(token_a, 0);
    assert_eq!(token_b, 0);
}

#[test]
fn test_deposit_lp_unequal_shares() {
    // a-share: 500 * 1000 / 1000 = 500; b-share: 200 * 1000 / 2000 = 100
    let result = deposit_lp(500, 200, 1000, 1000, 2000);
    assert_eq!(result, 100);
}

#[test]
fn test_deposit_lp_initial_truncates() {
    // sqrt(2) = 1.41..., floor 1
    assert_eq!(deposit_lp(1, 2, 0, 0, 0), 1);
    // sqrt(99) = 9.94..., floor 9
    assert_eq!(deposit_lp(9, 11, 0, 0, 0), 9);
    assert_eq!(deposit_lp(0, 5, 0, 0, 0), 0);
}

#[test]
fn test_withdraw_lp_truncates() {
    // 7 * 100 / 3 = 233.33 -> 233; 7 * 10 / 3 = 23.33 -> 23
    let (token_a, token_b) = withdraw_lp(7, 3, 100, 10);
    assert_eq!(token_a, 233);
    assert_eq!(token_b, 23);
}

#[test]
fn test_floor_sqrt_exact_and_between() {
    assert_eq!(floor_sqrt(0), 0);
    assert_eq!(floor_sqrt(1), 1);
    assert_eq!(floor_sqrt(2), 1);
    assert_eq!(floor_sqrt(3), 1);
    assert_eq!(floor_sqrt(4), 2);
    assert_eq!(floor_sqrt(2_000_000), 1414);
    assert_eq!(floor_sqrt(u64::MAX as u128 * u64::MAX as u128), u64::MAX);
    assert_eq!(floor_sqrt(u128::MAX), u64::MAX);
}

#[test]
fn test_deposit_lp_large_values_use_double_width() {
    // amounts, supply and reserves near 2^40: each product is far beyond
    // u64, but the proportional share itself fits comfortably
    let v = 1u64 << 40;
    assert_eq!(deposit_lp(v, v, v, v, v), v);
    // a lopsided large deposit still takes the minimum share:
    // min((2^40 * 2^40) / 2^40, (2^20 * 2^40) / 2^40) = 2^20
    assert_eq!(deposit_lp(v, 1 << 20, v, v, v), 1 << 20);
}

#[test]
fn test_withdraw_lp_large_values_use_double_width() {
    // burning the whole supply pays out exactly the reserves
    let v = 1u64 << 40;
    let (token_a, token_b) = withdraw_lp(v, v, v, v << 1);
    assert_eq!(token_a, v);
    assert_eq!(token_b, v << 1);
}

#[test]
fn test_withdraw_lp_payout_bounded_by_reserves() {
    // burning less than the whole supply pays out less than the reserves
    let (token_a, token_b) = withdraw_lp(999, 1000, 123_456_789, 987_654_321);
    assert_eq!(token_a, 123_333_332); // floor(999 * 123,456,789 / 1000)
    assert_eq!(token_b, 986_666_666); // floor(999 * 987,654,321 / 1000)
    assert!(token_a <= 123_456_789 && token_b <= 987_654_321);
}
