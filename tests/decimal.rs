use ctrs::decimal::{Decimal, Ratio};

fn dec(mantissa: i64, scale: u8) -> Decimal {
    Decimal { mantissa, scale }
}

#[test]
fn parse_integer() {
    assert_eq!(Decimal::parse("100"), Some(dec(100, 0)));
}

#[test]
fn parse_fraction() {
    assert_eq!(Decimal::parse("0.71"), Some(dec(71, 2)));
}

#[test]
fn parse_negative() {
    assert_eq!(Decimal::parse("-0.25"), Some(dec(-25, 2)));
}

#[test]
fn parse_sign_and_bare_point() {
    assert_eq!(Decimal::parse("+3."), Some(dec(3, 0)));
    assert_eq!(Decimal::parse(".5"), Some(dec(5, 1)));
    assert_eq!(Decimal::parse("007.50"), Some(dec(750, 2)));
}

#[test]
fn parse_rejects_text_that_is_no_number() {
    for text in ["abc", "", "-", ".", "+.", "1.2.3", "1e5", " 1", "1 ", "--1", "1-"] {
        assert_eq!(Decimal::parse(text), None, "{text:?}");
    }
}

#[test]
fn parse_digit_limit() {
    assert_eq!(
        Decimal::parse("123456789012345678"),
        Some(dec(123456789012345678, 0))
    );
    assert_eq!(
        Decimal::parse("-0.12345678901234567"),
        Some(dec(-12345678901234567, 17))
    );
    assert_eq!(Decimal::parse("1234567890123456789"), None);
    assert_eq!(Decimal::parse("1.234567890123456789"), None);
}

#[test]
fn decimal_to_ratio() {
    assert_eq!(dec(71, 2).to_ratio(), Ratio { num: 71, den: 100 });
    assert_eq!(dec(-5, 0).to_ratio(), Ratio { num: -5, den: 1 });
}
