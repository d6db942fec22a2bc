use bin_sniper::time::compare_time_diff;

#[test]
fn seconds_between_two_instants() {
    assert_eq!(compare_time_diff(1_000, 5_000), 4);
    assert_eq!(compare_time_diff(5_000, 1_000), -4);
    assert_eq!(compare_time_diff(0, 999), 0);
}

#[test]
fn each_instant_is_rounded_toward_zero_first() {
    assert_eq!(compare_time_diff(1_999, 2_000), 1);
    assert_eq!(compare_time_diff(-1_999, 1_999), 2);
    assert_eq!(compare_time_diff(-999, 999), 0);
    assert_eq!(compare_time_diff(i64::MIN, i64::MAX), 18_446_744_073_709_550);
}
