use mapnav::fixed::{
    floor_div, power_of_two, saturate, saturating_difference, saturating_negation,
    saturating_product, saturating_sum, wide_product, PIXEL_UNIT,
};

#[test]
fn pixel_unit_is_two_to_the_thirty_two() {
    assert_eq!(PIXEL_UNIT, 4_294_967_296);
}

#[test]
fn saturate_stops_at_both_ends() {
    assert_eq!(saturate(0), 0);
    assert_eq!(saturate(-5), -5);
    assert_eq!(saturate(i64::MAX as i128), i64::MAX);
    assert_eq!(saturate(i64::MAX as i128 + 1), i64::MAX);
    assert_eq!(saturate(i64::MIN as i128), i64::MIN);
    assert_eq!(saturate(i64::MIN as i128 - 1), i64::MIN);
    assert_eq!(saturate(i128::MAX), i64::MAX);
    assert_eq!(saturate(i128::MIN), i64::MIN);
}

#[test]
fn saturating_sum_and_difference() {
    assert_eq!(saturating_sum(2, 3), 5);
    assert_eq!(saturating_sum(i64::MAX, 1), i64::MAX);
    assert_eq!(saturating_sum(i64::MIN, -1), i64::MIN);
    assert_eq!(saturating_sum(i64::MAX, i64::MIN), -1);
    assert_eq!(saturating_difference(2, 3), -1);
    assert_eq!(saturating_difference(i64::MIN, 1), i64::MIN);
    assert_eq!(saturating_difference(i64::MAX, -1), i64::MAX);
    assert_eq!(saturating_difference(0, i64::MIN), i64::MAX);
}

#[test]
fn saturating_negation_of_the_least_value() {
    assert_eq!(saturating_negation(7), -7);
    assert_eq!(saturating_negation(-7), 7);
    assert_eq!(saturating_negation(0), 0);
    assert_eq!(saturating_negation(i64::MAX), -i64::MAX);
    assert_eq!(saturating_negation(i64::MIN), i64::MAX);
}

#[test]
fn saturating_product_and_wide_product() {
    assert_eq!(saturating_product(6, -7), -42);
    assert_eq!(saturating_product(i64::MAX, 2), i64::MAX);
    assert_eq!(saturating_product(i64::MIN, 2), i64::MIN);
    assert_eq!(saturating_product(i64::MIN, -1), i64::MAX);
    assert_eq!(wide_product(i64::MIN, i64::MIN), 1i128 << 126);
    assert_eq!(wide_product(i64::MAX, i64::MIN), -((1i128 << 126) - (1i128 << 63)));
    assert_eq!(wide_product(3, 4), 12);
}

#[test]
fn floor_div_rounds_towards_negative_infinity() {
    assert_eq!(floor_div(7, 2), 3);
    assert_eq!(floor_div(-7, 2), -4);
    assert_eq!(floor_div(-8, 2), -4);
    assert_eq!(floor_div(-1, 1000), -1);
    assert_eq!(floor_div(0, 1000), 0);
    assert_eq!(floor_div(999, 1000), 0);
    assert_eq!(floor_div(-1000, 1000), -1);
    assert_eq!(floor_div(-1001, 1000), -2);
    assert_eq!(floor_div(i128::MAX, 1), i128::MAX);
    assert_eq!(floor_div(i128::MIN + 1, 1), i128::MIN + 1);
    assert_eq!(floor_div(i128::MIN + 1, i128::MAX), -1);
}

#[test]
fn powers_of_two() {
    assert_eq!(power_of_two(0), 1);
    assert_eq!(power_of_two(1), 2);
    assert_eq!(power_of_two(10), 1024);
    assert_eq!(power_of_two(32), 4_294_967_296);
    assert_eq!(power_of_two(62), 1u64 << 62);
}
