use brick_svg::{parse_hex_color, Rgba};

fn rgba(red: u8, green: u8, blue: u8, alpha: u8) -> Rgba {
    Rgba { red, green, blue, alpha }
}

#[test]
fn six_digit_colors_are_opaque() {
    assert_eq!(parse_hex_color("#408ac5"), rgba(0x40, 0x8a, 0xc5, 255));
    assert_eq!(parse_hex_color("#27567c"), rgba(0x27, 0x56, 0x7c, 255));
    assert_eq!(parse_hex_color("#000000"), rgba(0, 0, 0, 255));
}

#[test]
fn eight_digit_colors_carry_alpha() {
    assert_eq!(parse_hex_color("#ffffffff"), rgba(255, 255, 255, 255));
    assert_eq!(parse_hex_color("#12345678"), rgba(0x12, 0x34, 0x56, 0x78));
    assert_eq!(parse_hex_color("#00000000"), rgba(0, 0, 0, 0));
}

#[test]
fn upper_case_digits_count() {
    assert_eq!(parse_hex_color("#ABCDEF"), rgba(0xab, 0xcd, 0xef, 255));
    assert_eq!(parse_hex_color("#AbCdEf"), rgba(0xab, 0xcd, 0xef, 255));
}

#[test]
fn the_hash_is_optional_and_repeatable() {
    assert_eq!(parse_hex_color("ff0000"), rgba(255, 0, 0, 255));
    assert_eq!(parse_hex_color("##ff0000"), rgba(255, 0, 0, 255));
}

#[test]
fn bad_digit_pairs_read_as_zero() {
    assert_eq!(parse_hex_color("#zzzzzz"), rgba(0, 0, 0, 255));
    assert_eq!(parse_hex_color("#1g3h5j"), rgba(0, 0, 0, 255));
    assert_eq!(parse_hex_color("#ff00zz"), rgba(255, 0, 0, 255));
}

#[test]
fn seven_digits_have_no_alpha_pair() {
    assert_eq!(parse_hex_color("#1234567"), rgba(0x12, 0x34, 0x56, 255));
}

#[test]
fn malformed_alpha_pairs_stay_opaque() {
    assert_eq!(parse_hex_color("#000000zz"), rgba(0, 0, 0, 255));
    assert_eq!(parse_hex_color("#ffffffg0"), rgba(255, 255, 255, 255));
    assert_eq!(parse_hex_color("#4080c0 1"), rgba(0x40, 0x80, 0xc0, 255));
}

#[test]
fn a_leading_plus_in_a_pair_counts_as_one_digit() {
    assert_eq!(parse_hex_color("#+1+2+3"), rgba(1, 2, 3, 255));
    assert_eq!(parse_hex_color("#123456+f"), rgba(0x12, 0x34, 0x56, 15));
    // The plus only leads: trailing or doubled signs make the pair
    // malformed.
    assert_eq!(parse_hex_color("#f+0000"), rgba(0, 0, 0, 255));
    assert_eq!(parse_hex_color("#000000++"), rgba(0, 0, 0, 255));
}
