use lvgl::textfmt::{format_int, format_int_percent};

#[test]
fn formats_positive_values() {
    assert_eq!(format_int(0), b"0");
    assert_eq!(format_int(7), b"7");
    assert_eq!(format_int(50), b"50");
    assert_eq!(format_int(65535), b"65535");
    assert_eq!(format_int(2147483647), b"2147483647");
}

#[test]
fn formats_negative_values_with_a_sign() {
    assert_eq!(format_int(-1), b"-1");
    assert_eq!(format_int(-99999), b"-99999");
    assert_eq!(format_int(-2147483648), b"-2147483648");
}

#[test]
fn percent_text_clamps_negatives_to_zero() {
    assert_eq!(format_int_percent(65), b"65%");
    assert_eq!(format_int_percent(0), b"0%");
    assert_eq!(format_int_percent(-3), b"0%");
    assert_eq!(format_int_percent(100), b"100%");
}
