use plot_axis::format::{format_decimal_scaled, format_signed_sci, format_tick_label, TickMeasure};

#[test]
fn signed_sci_large_integer_power_of_ten() {
    assert_eq!(format_signed_sci(10_000_000_000, 0), "+1e10");
}

#[test]
fn signed_sci_plain_integers() {
    assert_eq!(format_signed_sci(12345, 0), "+1.2345e4");
    assert_eq!(format_signed_sci(-120, 0), "-1.2e2");
    assert_eq!(format_signed_sci(7, 0), "+7e0");
}

#[test]
fn signed_sci_zero() {
    assert_eq!(format_signed_sci(0, 0), "+0e0");
    assert_eq!(format_signed_sci(0, 3), "+0e0");
}

#[test]
fn signed_sci_negative_exponent() {
    assert_eq!(format_signed_sci(1, 3), "+1e-3");
    assert_eq!(format_signed_sci(-1, 3), "-1e-3");
    assert_eq!(format_signed_sci(25, 6), "+2.5e-5");
}

#[test]
fn decimal_zero_has_no_fraction() {
    assert_eq!(format_decimal_scaled(0, 0), "0");
    assert_eq!(format_decimal_scaled(0, 5), "0");
}

#[test]
fn decimal_strips_trailing_zeros() {
    assert_eq!(format_decimal_scaled(1500, 3), "1.5");
    assert_eq!(format_decimal_scaled(2000, 3), "2");
}

#[test]
fn decimal_pads_leading_zeros() {
    assert_eq!(format_decimal_scaled(250, 3), "0.25");
    assert_eq!(format_decimal_scaled(-500, 3), "-0.5");
    assert_eq!(format_decimal_scaled(7, 5), "0.00007");
}

#[test]
fn decimal_wide_integer_part() {
    assert_eq!(format_decimal_scaled(12_345_600, 5), "123.456");
    assert_eq!(format_decimal_scaled(10_000_000_000, 5), "100000");
    assert_eq!(format_decimal_scaled(-98765, 0), "-98765");
}

#[test]
fn tick_label_magnitude_over_bound_is_scientific() {
    // a tick of 1e10 with a three-digit bound: truncated and re-emitted
    // in signed scientific notation with no fractional part
    let m = TickMeasure {
        magnitude_exceeds_max: true,
        truncated: 10_000_000_000,
        rounded_scaled: 0,
        below_min_positive: false,
        is_zero: false,
    };
    assert_eq!(format_tick_label(&m, 3), "+1e10");
}

#[test]
fn tick_label_tiny_nonzero_is_scientific() {
    // a tick of 1e-10 with a three-digit bound rounds to zero, so the
    // rounded value is re-emitted in signed scientific notation
    let m = TickMeasure {
        magnitude_exceeds_max: false,
        truncated: 0,
        rounded_scaled: 0,
        below_min_positive: true,
        is_zero: false,
    };
    assert_eq!(format_tick_label(&m, 3), "+0e0");
}

#[test]
fn tick_label_tiny_nonzero_that_rounds_up() {
    // a tick of 0.0006 with a three-digit bound rounds to 0.001
    let m = TickMeasure {
        magnitude_exceeds_max: false,
        truncated: 0,
        rounded_scaled: 1,
        below_min_positive: true,
        is_zero: false,
    };
    assert_eq!(format_tick_label(&m, 3), "+1e-3");
}

#[test]
fn tick_label_zero_is_plain_zero() {
    let m = TickMeasure {
        magnitude_exceeds_max: false,
        truncated: 0,
        rounded_scaled: 0,
        below_min_positive: true,
        is_zero: true,
    };
    assert_eq!(format_tick_label(&m, 0), "0");
    assert_eq!(format_tick_label(&m, 3), "0");
    assert_eq!(format_tick_label(&m, 5), "0");
}

#[test]
fn tick_label_ordinary_value_is_plain_decimal() {
    // a tick of 123.456 with a five-digit bound
    let m = TickMeasure {
        magnitude_exceeds_max: false,
        truncated: 123,
        rounded_scaled: 12_345_600,
        below_min_positive: false,
        is_zero: false,
    };
    assert_eq!(format_tick_label(&m, 5), "123.456");
}
