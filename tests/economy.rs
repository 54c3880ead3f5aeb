use cw721_gotchi::economy::calculate_total_cost;

#[test]
fn test_calculate_total_cost_0_days() {
    let result = calculate_total_cost(0, 100);
    assert_eq!(result, 0, "Total cost for 0 days should be 0");
}

#[test]
fn test_calculate_total_cost_1_day() {
    let result = calculate_total_cost(1, 100);
    assert_eq!(result, 1000, "Total cost for 1 day should be 1000");
}

#[test]
fn test_calculate_total_cost_5_days() {
    let result = calculate_total_cost(5, 100);
    assert_eq!(
        result,
        1000 + 1100 + 1200 + 1300 + 1400,
        "Total cost for 5 days should be 6000"
    );
}

#[test]
fn test_calculate_total_cost_10_days() {
    let result = calculate_total_cost(10, 100);
    let expected: u64 = (0..10).map(|day| 1000 + (1000 * 100 * day / 1000)).sum();
    assert_eq!(result, expected, "Total cost for 10 days should be correct");
}

#[test]
fn test_calculate_total_cost_with_different_multiplier() {
    let result = calculate_total_cost(5, 200);
    assert_eq!(
        result,
        1000 + 1200 + 1400 + 1600 + 1800,
        "Total cost for 5 days with multiplier 200 should be 7000"
    );
}

#[test]
fn total_cost_of_no_day_and_one_day_ignores_multiplier() {
    for m in [0u64, 1, 100, 1_000_000, u64::MAX] {
        assert_eq!(calculate_total_cost(0, m), 0);
        assert_eq!(calculate_total_cost(1, m), 1000);
    }
}

#[test]
fn total_cost_never_decreases_with_more_days() {
    for m in [0u64, 7, 250] {
        let mut previous = 0;
        for days in 0..40 {
            let cost = calculate_total_cost(days, m);
            assert!(cost >= previous);
            previous = cost;
        }
    }
}

#[test]
fn total_cost_without_multiplier_is_linear() {
    assert_eq!(calculate_total_cost(10, 0), 10_000);
}

#[test]
fn total_cost_saturates_at_largest_value() {
    assert_eq!(calculate_total_cost(3, u64::MAX), u64::MAX);
    assert_eq!(calculate_total_cost(2, u64::MAX - 3000), u64::MAX - 1000);
}
