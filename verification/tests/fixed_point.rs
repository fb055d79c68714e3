use tank_duel::math::sat_add;
use tank_duel::math::scale_milli;

#[test]
fn sat_add_exact_when_in_range() {
    assert_eq!(sat_add(3, 4), 7);
    assert_eq!(sat_add(-3, 4), 1);
    assert_eq!(sat_add(i64::MAX - 1, 1), i64::MAX);
    assert_eq!(sat_add(i64::MIN + 1, -1), i64::MIN);
}

#[test]
fn sat_add_saturates_at_bounds() {
    assert_eq!(sat_add(i64::MAX, 1), i64::MAX);
    assert_eq!(sat_add(i64::MAX, i64::MAX), i64::MAX);
    assert_eq!(sat_add(i64::MIN, -1), i64::MIN);
    assert_eq!(sat_add(i64::MIN, i64::MIN), i64::MIN);
}

#[test]
fn scale_milli_exact_products() {
    assert_eq!(scale_milli(7070, 1000), 7070);
    assert_eq!(scale_milli(-9810, 500), -4905);
    assert_eq!(scale_milli(-9810, 1000), -9810);
    assert_eq!(scale_milli(0, 123456), 0);
    assert_eq!(scale_milli(123456, 0), 0);
}

#[test]
fn scale_milli_truncates_toward_zero() {
    assert_eq!(scale_milli(3, 500), 1);
    assert_eq!(scale_milli(-3, 500), -1);
    assert_eq!(scale_milli(-3, 100), 0);
    assert_eq!(scale_milli(999, 1), 0);
    assert_eq!(scale_milli(-999, 1), 0);
}

#[test]
fn scale_milli_saturates() {
    assert_eq!(scale_milli(i64::MAX, 2000000), i64::MAX);
    assert_eq!(scale_milli(i64::MIN, 2000000), i64::MIN);
    assert_eq!(scale_milli(i64::MAX, -2000000), i64::MIN);
    assert_eq!(scale_milli(i64::MIN, -2000000), i64::MAX);
}
