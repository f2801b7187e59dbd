use taler_merchant::{Amount, MerchantError, MAX_AMOUNT_VALUE};

#[test]
fn parses_spec_examples() {
    assert_eq!(Amount::parse("EUR:1.50").unwrap().to_string(), "EUR:1.50");
    assert_eq!(Amount::parse("EUR:10").unwrap().to_string(), "EUR:10");
    assert_eq!(Amount::parse("KUDOS:1").unwrap().currency(), "KUDOS");
    // Spec allows a-zA-Z (case-preserving).
    assert_eq!(Amount::parse("eur:10").unwrap().currency(), "eur");
}

#[test]
fn accepts_boundary_integer_and_fraction() {
    let max = format!("EUR:{MAX_AMOUNT_VALUE}");
    assert!(Amount::parse(&max).is_ok());
    assert!(Amount::parse("EUR:0").is_ok());
    assert!(Amount::parse("EUR:1.12345678").is_ok()); // 8 frac digits
    assert!(Amount::parse("ABCDEFGHIJK:1").is_ok()); // 11 letter currency
}

#[test]
fn rejects_spec_invalid_examples() {
    assert!(Amount::parse("A:B:1.5").is_err());
    assert!(Amount::parse("EUR:4503599627370501.0").is_err()); // > 2^52
    assert!(Amount::parse("EUR:1.").is_err());
    assert!(Amount::parse("EUR:.1").is_err());
}

#[test]
fn rejects_currency_and_fraction_rules() {
    assert!(Amount::parse("").is_err());
    assert!(Amount::parse("10").is_err());
    assert!(Amount::parse(":10").is_err());
    assert!(Amount::parse("EUR:").is_err());
    assert!(Amount::parse("EU1:10").is_err()); // digit in currency
    assert!(Amount::parse("ABCDEFGHIJKL:1").is_err()); // 12 chars
    assert!(Amount::parse("EUR:1.123456789").is_err()); // 9 frac
    assert!(Amount::parse("EUR:1.2.3").is_err());
    assert!(Amount::parse("EUR:abc").is_err());
    assert!(Amount::parse("+EUR:1").is_err());
    assert!(Amount::parse("EUR:+1").is_err());
    assert!(Amount::parse("EUR:-1").is_err());
    let over = format!("EUR:{}", MAX_AMOUNT_VALUE + 1);
    assert!(Amount::parse(&over).is_err());
}

#[test]
fn max_amount_value_is_two_to_the_52() {
    assert_eq!(MAX_AMOUNT_VALUE, 1u64 << 52);
}

#[test]
fn parse_trims_surrounding_whitespace() {
    let a = Amount::parse("  KUDOS:3.14\n").unwrap();
    assert_eq!(a.currency(), "KUDOS");
    assert_eq!(a.value(), "3.14");
    assert_eq!(a.as_str(), "KUDOS:3.14");
    // Unicode whitespace is trimmed too.
    assert_eq!(Amount::parse("\u{a0}EUR:2\u{3000}").unwrap().as_str(), "EUR:2");
}

#[test]
fn parse_error_carries_original_input() {
    assert_eq!(
        Amount::parse("  EUR:1. ").unwrap_err(),
        MerchantError::InvalidAmount("  EUR:1. ".to_string())
    );
}

#[test]
fn render_then_parse_gives_the_same_amount() {
    for s in ["EUR:0001.5", "kudos:4503599627370496", "A:0.00000001", " X:7 "] {
        let a = Amount::parse(s).unwrap();
        let b = Amount::parse(&a.as_str()).unwrap();
        assert_eq!(a, b);
        assert_eq!(a.as_str(), s.trim());
        assert_eq!(a.clone(), a);
    }
}

#[test]
fn leading_zeros_and_overflowing_integers() {
    assert!(Amount::parse("EUR:0004503599627370496").is_ok());
    assert!(Amount::parse("EUR:4503599627370497").is_err());
    assert!(Amount::parse("EUR:99999999999999999999999").is_err());
    assert!(Amount::parse("EUR:1:2").is_err());
    assert!(Amount::parse("ÉUR:1").is_err());
    assert!(Amount::parse("EUR:١").is_err()); // non-ASCII digit
}

#[test]
fn from_str_parses_like_parse() {
    let a: Amount = "KUDOS:1".parse().unwrap();
    assert_eq!(a, Amount::parse("KUDOS:1").unwrap());
    assert!("KUDOS".parse::<Amount>().is_err());
}

#[test]
fn debug_form_wraps_wire_text() {
    let a = Amount::parse(" EUR:1.50 ").unwrap();
    assert_eq!(a.to_debug_string(), format!("Amount({})", a.as_str()));
    assert_eq!(Amount::parse("EUR:1").unwrap().to_debug_string(), "Amount(EUR:1)");
}
