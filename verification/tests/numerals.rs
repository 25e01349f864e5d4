use vaxbot::numeral::{
    magnitude, parse_integer, write_decimal, write_grouped, write_signed_decimal,
    write_signed_two_places, write_two_places, MAX_MAGNITUDE,
};

fn decimal(n: u64) -> String {
    let mut out = String::new();
    write_decimal(&mut out, n);
    out
}

fn grouped(n: u64) -> String {
    let mut out = String::new();
    write_grouped(&mut out, n);
    out
}

fn two_places(n: u64) -> String {
    let mut out = String::new();
    write_two_places(&mut out, n);
    out
}

fn signed_decimal(v: i64) -> String {
    let mut out = String::new();
    write_signed_decimal(&mut out, v);
    out
}

fn signed_two_places(v: i64) -> String {
    let mut out = String::new();
    write_signed_two_places(&mut out, v);
    out
}

#[test]
fn plain_numerals_are_read() {
    assert_eq!(parse_integer("0"), Some(0));
    assert_eq!(parse_integer("7"), Some(7));
    assert_eq!(parse_integer("30000000"), Some(30000000));
    assert_eq!(parse_integer("000123"), Some(123));
    assert_eq!(parse_integer("1203"), Some(1203));
}

#[test]
fn signs_are_read() {
    assert_eq!(parse_integer("-5"), Some(-5));
    assert_eq!(parse_integer("+5"), Some(5));
    assert_eq!(parse_integer("-0"), Some(0));
    assert_eq!(parse_integer("-4294967295"), Some(-4294967295));
}

#[test]
fn the_limit_is_the_largest_numeral() {
    assert_eq!(MAX_MAGNITUDE, 4294967295);
    assert_eq!(parse_integer("4294967295"), Some(4294967295));
    assert_eq!(parse_integer("4294967296"), None);
    assert_eq!(parse_integer("-4294967296"), None);
    assert_eq!(parse_integer("99999999999999999999999999999999"), None);
    assert_eq!(parse_integer("00000000000000000000000000000001"), Some(1));
}

#[test]
fn other_text_is_no_numeral() {
    assert_eq!(parse_integer(""), None);
    assert_eq!(parse_integer("-"), None);
    assert_eq!(parse_integer("+"), None);
    assert_eq!(parse_integer("--1"), None);
    assert_eq!(parse_integer("+-1"), None);
    assert_eq!(parse_integer("1-"), None);
    assert_eq!(parse_integer("12a"), None);
    assert_eq!(parse_integer("a12"), None);
    assert_eq!(parse_integer("1.5"), None);
    assert_eq!(parse_integer("1e3"), None);
    assert_eq!(parse_integer(" 1"), None);
    assert_eq!(parse_integer("1 "), None);
    assert_eq!(parse_integer("1,000"), None);
    assert_eq!(parse_integer("/"), None);
    assert_eq!(parse_integer(":"), None);
}

#[test]
fn digits_of_other_scripts_are_no_numeral() {
    assert_eq!(parse_integer("١٢٣"), None);
    assert_eq!(parse_integer("12３"), None);
    assert_eq!(parse_integer("é1"), None);
    assert_eq!(parse_integer("-é"), None);
}

#[test]
fn decimal_writes_every_digit() {
    assert_eq!(decimal(0), "0");
    assert_eq!(decimal(9), "9");
    assert_eq!(decimal(10), "10");
    assert_eq!(decimal(1234567890), "1234567890");
    assert_eq!(decimal(u64::MAX), "18446744073709551615");
}

#[test]
fn decimal_appends_to_what_is_there() {
    let mut out = String::from("n=");
    write_decimal(&mut out, 42);
    write_decimal(&mut out, 7);
    assert_eq!(out, "n=427");
}

#[test]
fn grouping_sets_a_comma_every_three_digits() {
    assert_eq!(grouped(0), "0");
    assert_eq!(grouped(7), "7");
    assert_eq!(grouped(999), "999");
    assert_eq!(grouped(1000), "1,000");
    assert_eq!(grouped(1001), "1,001");
    assert_eq!(grouped(12345), "12,345");
    assert_eq!(grouped(100000), "100,000");
    assert_eq!(grouped(1000000), "1,000,000");
    assert_eq!(grouped(30123456), "30,123,456");
    assert_eq!(grouped(30000000), "30,000,000");
    assert_eq!(grouped(4294967295), "4,294,967,295");
    assert_eq!(grouped(u64::MAX), "18,446,744,073,709,551,615");
}

#[test]
fn grouping_keeps_the_digits() {
    for n in [0u64, 5, 10, 999, 1000, 1010, 999999, 1000000, 66800000, 37590000] {
        let text = grouped(n);
        let digits: String = text.chars().filter(|c| *c != ',').collect();
        assert_eq!(digits, decimal(n));
        assert_eq!(parse_integer(&digits), Some(n as i64));
    }
}

#[test]
fn hundredths_are_written_with_two_places() {
    assert_eq!(two_places(0), "0.00");
    assert_eq!(two_places(5), "0.05");
    assert_eq!(two_places(50), "0.50");
    assert_eq!(two_places(99), "0.99");
    assert_eq!(two_places(100), "1.00");
    assert_eq!(two_places(4491), "44.91");
    assert_eq!(two_places(10000), "100.00");
    assert_eq!(two_places(1142582), "11425.82");
}

#[test]
fn signed_numbers_carry_their_sign() {
    assert_eq!(signed_decimal(0), "+0");
    assert_eq!(signed_decimal(1000), "+1000");
    assert_eq!(signed_decimal(-1000), "-1000");
    assert_eq!(signed_decimal(i64::MAX), "+9223372036854775807");
    assert_eq!(signed_decimal(i64::MIN), "-9223372036854775808");
    assert_eq!(signed_two_places(0), "0.00");
    assert_eq!(signed_two_places(8), "0.08");
    assert_eq!(signed_two_places(-8), "-0.08");
    assert_eq!(signed_two_places(-100), "-1.00");
    assert_eq!(signed_two_places(i64::MIN), "-92233720368547758.08");
}

#[test]
fn magnitude_is_the_distance_from_zero() {
    assert_eq!(magnitude(0), 0);
    assert_eq!(magnitude(5), 5);
    assert_eq!(magnitude(-5), 5);
    assert_eq!(magnitude(i64::MAX), 9223372036854775807);
    assert_eq!(magnitude(i64::MIN), 9223372036854775808);
}
