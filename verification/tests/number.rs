use tradejournal::number::{is_number, Number};

fn accepted(text: &str) -> bool {
    match Number::from_text(String::from(text)) {
        Some(number) => {
            assert_eq!(number.as_str(), text);
            true
        }
        None => false,
    }
}

#[test]
fn integers_are_numbers() {
    assert!(is_number("0"));
    assert!(is_number("7"));
    assert!(is_number("10"));
    assert!(is_number("1234567890"));
    assert!(is_number("-0"));
    assert!(is_number("-42"));
}

#[test]
fn fractions_are_numbers() {
    assert!(is_number("0.0"));
    assert!(is_number("1000.0"));
    assert!(is_number("-3.5"));
    assert!(is_number("1.0852"));
    assert!(is_number("0.000001"));
}

#[test]
fn exponents_are_numbers() {
    assert!(is_number("1e21"));
    assert!(is_number("1E21"));
    assert!(is_number("1.5e-7"));
    assert!(is_number("1.5E+7"));
    assert!(is_number("-2.25e308"));
    assert!(is_number("0e0"));
}

#[test]
fn what_is_not_a_number() {
    assert!(!is_number(""));
    assert!(!is_number("-"));
    assert!(!is_number("+1"));
    assert!(!is_number("01"));
    assert!(!is_number("-01"));
    assert!(!is_number("00"));
    assert!(!is_number("1."));
    assert!(!is_number(".5"));
    assert!(!is_number("1.e5"));
    assert!(!is_number("1e"));
    assert!(!is_number("1e+"));
    assert!(!is_number("1e-"));
    assert!(!is_number("1e5.0"));
    assert!(!is_number("1.2.3"));
    assert!(!is_number("1e5e5"));
    assert!(!is_number("--1"));
    assert!(!is_number("1 "));
    assert!(!is_number(" 1"));
    assert!(!is_number("1,2"));
    assert!(!is_number("0x10"));
    assert!(!is_number("NaN"));
    assert!(!is_number("Infinity"));
    assert!(!is_number("null"));
    assert!(!is_number("1\u{e9}"));
    assert!(!is_number("\u{661}"));
}

#[test]
fn from_text_takes_numbers_and_null() {
    assert!(accepted("1000.0"));
    assert!(accepted("-0.25"));
    assert!(accepted("6.02e23"));
    assert!(accepted("null"));
}

#[test]
fn from_text_refuses_other_text() {
    assert!(!accepted(""));
    assert!(!accepted("nul"));
    assert!(!accepted("nulll"));
    assert!(!accepted("Null"));
    assert!(!accepted("true"));
    assert!(!accepted("\"1\""));
    assert!(!accepted("1,\"x\":2"));
    assert!(!accepted("nu\u{142}l"));
}

#[test]
fn from_text_takes_what_serde_json_writes() {
    let values: [f64; 12] = [
        0.0,
        -0.0,
        1.0,
        1000.0,
        0.1,
        -3.5,
        1e21,
        1.5e-7,
        f64::MAX,
        f64::MIN,
        f64::MIN_POSITIVE,
        5e-324,
    ];
    for value in values {
        let text = serde_json::to_string(&value).unwrap();
        let number = Number::from_text(text.clone()).unwrap();
        assert_eq!(number.as_str(), text);
        assert_eq!(number.as_str().parse::<f64>().unwrap().to_bits(), value.to_bits());
    }
    for value in [f64::NAN, f64::INFINITY, f64::NEG_INFINITY] {
        let number = Number::from_text(serde_json::to_string(&value).unwrap()).unwrap();
        assert_eq!(number.as_str(), "null");
    }
}
