use statusbar::metrics::{disk_usage_tenths, mem_usage_tenths};
use statusbar::numfmt::{decimal_string, digit_pair, tenths_field, tenths_string};

#[test]
fn decimal_renders_zero() {
    assert_eq!(decimal_string(0), "0");
}

#[test]
fn decimal_renders_multi_digit() {
    assert_eq!(decimal_string(42), "42");
    assert_eq!(decimal_string(100), "100");
    assert_eq!(decimal_string(9876543210), "9876543210");
}

#[test]
fn tenths_renders_one_fractional_digit() {
    assert_eq!(tenths_string(0), "0.0");
    assert_eq!(tenths_string(5), "0.5");
    assert_eq!(tenths_string(123), "12.3");
    assert_eq!(tenths_string(1000), "100.0");
}

#[test]
fn tenths_field_is_right_aligned_to_five() {
    assert_eq!(tenths_field(500), " 50.0");
    assert_eq!(tenths_field(1000), "100.0");
    assert_eq!(tenths_field(5), "  0.5");
    assert_eq!(tenths_field(123), " 12.3");
    assert_eq!(tenths_field(0), "  0.0");
}

#[test]
fn digit_pair_zero_pads() {
    assert_eq!(digit_pair(3), "03");
    assert_eq!(digit_pair(59), "59");
    assert_eq!(digit_pair(0), "00");
}

#[test]
fn disk_usage_half_full() {
    assert_eq!(disk_usage_tenths(250_000_000_000, 500_000_000_000), 500);
}

#[test]
fn disk_usage_extremes() {
    assert_eq!(disk_usage_tenths(0, 10), 1000);
    assert_eq!(disk_usage_tenths(10, 10), 0);
    assert_eq!(disk_usage_tenths(0, 0), 0);
}

#[test]
fn mem_usage_quarter() {
    assert_eq!(mem_usage_tenths(4_000_000_000, 16_000_000_000), 250);
}

#[test]
fn mem_usage_rounds_half_up() {
    assert_eq!(mem_usage_tenths(1, 3), 333);
    assert_eq!(mem_usage_tenths(2, 3), 667);
    assert_eq!(mem_usage_tenths(1, 16), 63);
}
