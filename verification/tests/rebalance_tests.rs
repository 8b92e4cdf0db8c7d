use dex_math::rebalance_pool_ratio;

#[test]
fn test_from_to_lock_transition_manually() {
    // Test cases with different ratios and amounts - both small and large values
    // Format: (to_amount_swapped, current_source_amount, current_destination_amount, original_source_amount, original_destination_amount, is_out_of_range, tolerance_rate)
    let test_cases = vec![
        (500u64, 100u64, 1000000u64, 100u64, 1000000u64, true, 100), // 1:1000 fails - 0.05..2% change - allowed 0.01%
        (500u64, 100u64, 1000000u64, 100u64, 1000000u64, true, 499), // 1:1000 fails - 0.05..2% change - allowed 0.0499%
        (500u64, 100u64, 1000000u64, 100u64, 1000000u64, true, 500), // 1:1000 fails - 0.05..2% change - allowed 0.05%
        (500u64, 100u64, 1000000u64, 100u64, 1000000u64, false, 501), // 1:1000 passes - 0.05..2% change - allowed 0.05%
        // real world
        (
            1980148883u64,
            1_000_000u64,
            2_000_000_000u64,
            1_000_000u64,
            2_000_000_000u64,
            false,
            100,
        ), // 1:2000
        (
            1980148883u64,
            1_000_000u64,
            2_000_000_000u64,
            1_000_000u64,
            2_000_000_000u64,
            true,
            40,
        ), // 1:2000
        // real world with pending trades
        (
            10_000_000u64,
            9_926u64,
            19_851_117u64,
            1_000_000u64,
            2_000_000_000u64,
            true,
            40,
        ), // 1:2000
        // extreme cases
        (49u64, 1u64, 100u64, 1u64, 100u64, false, 990000), // 1:1000 passes - 99% change - allowed 99%
        // impossible cases
        (100u64, 1u64, 100u64, 1u64, 100u64, true, 990000), // 1:1000 passes - 0.05% change - allowed 0.05%
        (100u64, 0u64, 100u64, 1u64, 100u64, true, 1000000), // 1:1000 passes - 0.05% change - allowed 0.05%
        (100u64, 100u64, 0u64, 1u64, 100u64, true, 1000000), // 1:1000 passes - 0.05% change - allowed 0.05%
    ];

    for (
        to_amount_swapped,
        current_source_amount,
        current_destination_amount,
        original_source_amount,
        original_destination_amount,
        is_out_of_range,
        tolerance_rate,
    ) in test_cases
    {
        println!("\n=== Testing from_to_lock accuracy for pool {}:{} with current {}:{} with swap {} ===",
            original_source_amount, original_destination_amount, current_source_amount, current_destination_amount, to_amount_swapped);

        // Use the rebalance_pool_ratio function to calculate from_to_lock
        let rebalance_result = rebalance_pool_ratio(
            to_amount_swapped,
            current_source_amount,
            current_destination_amount,
            original_source_amount,
            original_destination_amount,
            tolerance_rate,
        )
        .unwrap();

        println!("Rebalance result: {:?}", rebalance_result);

        // The rebalance function should correctly identify if the ratio change is within tolerance
        assert_eq!(
            rebalance_result.is_rate_tolerance_exceeded, is_out_of_range,
            "Rebalance should correctly identify ratio tolerance. Expected: {}, Got: {}",
            is_out_of_range, rebalance_result.is_rate_tolerance_exceeded
        );
    }
}

#[test]
fn test_rebalance_picks_minimal_error_lock() {
    // pool 10,000 : 50,000 after a swap of 4,545 out: the exact solution is
    // 10,000 - 45,455 / 5 = 909.0, and 909 restores the 1:5 ratio exactly
    let result = rebalance_pool_ratio(4545, 10_000, 50_000, 10_000, 50_000, 0).unwrap();
    assert_eq!(result.from_to_lock, 909);
    assert!(!result.is_rate_tolerance_exceeded);
}

#[test]
fn test_rebalance_degenerate_cases() {
    // output reaches the destination reserve
    let result = rebalance_pool_ratio(100, 1, 100, 1, 100, 990000).unwrap();
    assert_eq!(result.from_to_lock, 0);
    assert!(result.is_rate_tolerance_exceeded);
    // a zero current reserve on either side
    let result = rebalance_pool_ratio(10, 0, 100, 1, 100, 1000000).unwrap();
    assert_eq!(result.from_to_lock, 0);
    assert!(result.is_rate_tolerance_exceeded);
    let result = rebalance_pool_ratio(10, 100, 0, 1, 100, 1000000).unwrap();
    assert_eq!(result.from_to_lock, 0);
    assert!(result.is_rate_tolerance_exceeded);
}

#[test]
fn test_rebalance_overflow_is_none() {
    // the best error times MAX_PERCENTAGE leaves the u128 range for extreme
    // reserve magnitudes
    let result = rebalance_pool_ratio(1, 1, u64::MAX, u64::MAX, 1, 1);
    assert!(result.is_none());
    // the tolerance rate times the scaled target ratio leaves the u128 range
    let result = rebalance_pool_ratio(1, u64::MAX, u64::MAX, u64::MAX, u64::MAX, u64::MAX);
    assert!(result.is_none());
}

#[test]
fn test_rebalance_exact_lock_small_pool() {
    // remaining destination 1,500 against source 1,000 on an original 1:2
    // ratio: the exact lock is 1,000 - 1,500 / 2 = 250, and it restores the
    // ratio exactly, so even zero tolerance passes
    let result = rebalance_pool_ratio(500, 1_000, 2_000, 1_000, 2_000, 0).unwrap();
    assert_eq!(result.from_to_lock, 250);
    assert!(!result.is_rate_tolerance_exceeded);
}
