use photobomber::numeric::{i64_to_decimal, parse_i64, parse_u64, u64_to_lower_hex};

#[test]
fn parse_i64_matches_std_on_many_inputs() {
    let cases = [
        "0", "42", "-42", "+7", "", "-", "+", "12a", " 1", "1 ", "007", "-0", "+-1", "--1",
        "9223372036854775807", "9223372036854775808", "-9223372036854775808",
        "-9223372036854775809", "99999999999999999999999", "1_000", "١٢",
    ];
    for c in cases.iter() {
        assert_eq!(parse_i64(c), c.parse::<i64>().ok(), "input {:?}", c);
    }
}

#[test]
fn parse_i64_exact_values() {
    assert_eq!(parse_i64("-12"), Some(-12));
    assert_eq!(parse_i64("+7"), Some(7));
    assert_eq!(parse_i64("-9223372036854775808"), Some(i64::MIN));
    assert_eq!(parse_i64("9223372036854775808"), None);
    assert_eq!(parse_i64(""), None);
    assert_eq!(parse_i64("-"), None);
}

#[test]
fn parse_u64_matches_std_on_many_inputs() {
    let cases = [
        "0", "+5", "-0", "-5", "", "+", "18446744073709551615", "18446744073709551616", "1x",
        "00012",
    ];
    for c in cases.iter() {
        assert_eq!(parse_u64(c), c.parse::<u64>().ok(), "input {:?}", c);
    }
}

#[test]
fn decimal_text_matches_to_string() {
    for x in [0i64, 1, -1, 9, 10, -10, 123456789, i64::MIN, i64::MAX, i64::MIN + 1].iter() {
        assert_eq!(i64_to_decimal(*x), x.to_string());
    }
    assert_eq!(i64_to_decimal(-305), "-305");
}

#[test]
fn decimal_round_trip_law_on_values() {
    for x in [0i64, 5, -5, 1000, i64::MIN, i64::MAX, -1234567].iter() {
        assert_eq!(parse_i64(&i64_to_decimal(*x)), Some(*x));
    }
}

#[test]
fn lower_hex_matches_format() {
    assert_eq!(u64_to_lower_hex(0), "0");
    assert_eq!(u64_to_lower_hex(255), "ff");
    assert_eq!(u64_to_lower_hex(4096), "1000");
    assert_eq!(u64_to_lower_hex(u64::MAX), "ffffffffffffffff");
    for x in [1u64, 15, 16, 0xdeadbeef, 0x0123456789abcdef].iter() {
        assert_eq!(u64_to_lower_hex(*x), format!("{:x}", x));
    }
}

