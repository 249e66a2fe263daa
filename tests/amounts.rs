use x402::amount::{chars_of, dec_ge, is_digit_string, parse_u64_digits, scale_digits};

fn cs(s: &str) -> Vec<char> {
    chars_of(s)
}

#[test]
fn decimal_comparison() {
    assert!(dec_ge(&cs("1000000"), &cs("1000000")));
    assert!(!dec_ge(&cs("999999"), &cs("1000000")));
    assert!(dec_ge(&cs("0001"), &cs("1")));
    assert!(dec_ge(&cs("20"), &cs("19")));
    assert!(!dec_ge(&cs(""), &cs("1")));
    assert!(dec_ge(&cs("0"), &cs("")));
    assert!(dec_ge(
        &cs("115792089237316195423570985008687907853269984665640564039457584007913129639935"),
        &cs("115792089237316195423570985008687907853269984665640564039457584007913129639934")
    ));
}

#[test]
fn scaling_appends_zeros() {
    let s: String = scale_digits(&cs("1"), 6).into_iter().collect();
    assert_eq!(s, "1000000");
    let t: String = scale_digits(&cs("25"), 0).into_iter().collect();
    assert_eq!(t, "25");
}

#[test]
fn digit_parsing() {
    assert!(is_digit_string(&cs("0123")));
    assert!(!is_digit_string(&cs("12a")));
    assert_eq!(parse_u64_digits(&cs("18446744073709551615"), 0, 20), Some(u64::MAX));
    assert_eq!(parse_u64_digits(&cs("18446744073709551616"), 0, 20), None);
    assert_eq!(parse_u64_digits(&cs("x42y"), 1, 3), Some(42));
    assert_eq!(parse_u64_digits(&cs("4-2"), 0, 3), None);
}

#[test]
fn decimal_formatting() {
    assert_eq!(x402::amount::u64_to_decimal(0), "0");
    assert_eq!(x402::amount::u64_to_decimal(8453), "8453");
    assert_eq!(x402::amount::u64_to_decimal(u64::MAX), "18446744073709551615");
}
