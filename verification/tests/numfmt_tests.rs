use brick_svg::fmt_milli;

#[test]
fn zero_prints_bare() {
    assert_eq!(fmt_milli(0), "0");
}

#[test]
fn whole_values_have_no_fraction() {
    assert_eq!(fmt_milli(20000), "20");
    assert_eq!(fmt_milli(1000), "1");
    assert_eq!(fmt_milli(350000), "350");
}

#[test]
fn default_font_size_prints_three_digits() {
    assert_eq!(fmt_milli(15875), "15.875");
}

#[test]
fn trailing_zeros_are_trimmed() {
    assert_eq!(fmt_milli(1500), "1.5");
    assert_eq!(fmt_milli(12340), "12.34");
    assert_eq!(fmt_milli(1050), "1.05");
}

#[test]
fn sub_unit_values_keep_leading_zero() {
    assert_eq!(fmt_milli(100), "0.1");
    assert_eq!(fmt_milli(10), "0.01");
    assert_eq!(fmt_milli(1), "0.001");
}

#[test]
fn negative_values_carry_sign() {
    assert_eq!(fmt_milli(-1500), "-1.5");
    assert_eq!(fmt_milli(-100), "-0.1");
    assert_eq!(fmt_milli(-20000), "-20");
}

#[test]
fn large_values_round_trip() {
    assert_eq!(fmt_milli(123456789), "123456.789");
    assert_eq!(fmt_milli(1000000000), "1000000");
}
