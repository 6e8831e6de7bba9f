use script_launcher::numfmt::dec_string_i64;

#[test]
fn renders_zero_and_single_digits() {
    assert_eq!(dec_string_i64(0), "0");
    assert_eq!(dec_string_i64(7), "7");
    assert_eq!(dec_string_i64(-5), "-5");
}

#[test]
fn renders_multi_digit_values() {
    assert_eq!(dec_string_i64(1000), "1000");
    assert_eq!(dec_string_i64(1234567890123), "1234567890123");
    assert_eq!(dec_string_i64(-1000), "-1000");
}

#[test]
fn renders_the_extremes() {
    assert_eq!(dec_string_i64(i64::MAX), "9223372036854775807");
    assert_eq!(dec_string_i64(i64::MIN), "-9223372036854775808");
}
