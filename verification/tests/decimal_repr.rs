use syllabus::decimal::i32_to_string;

#[test]
fn dec_zero() {
    assert_eq!(i32_to_string(0), "0");
}

#[test]
fn dec_single_digit() {
    assert_eq!(i32_to_string(7), "7");
}

#[test]
fn dec_ten() {
    assert_eq!(i32_to_string(10), "10");
}

#[test]
fn dec_many_digits() {
    assert_eq!(i32_to_string(1234567890), "1234567890");
}

#[test]
fn dec_negative() {
    assert_eq!(i32_to_string(-1), "-1");
}

#[test]
fn dec_extremes() {
    assert_eq!(i32_to_string(i32::MAX), "2147483647");
    assert_eq!(i32_to_string(i32::MIN), "-2147483648");
}
