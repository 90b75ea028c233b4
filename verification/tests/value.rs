use hass_collector::value::{NumericForms, ParseError, Value, ONE_BITS, ZERO_BITS};

fn forms(text: &str) -> NumericForms {
    NumericForms {
        float: text.parse::<f64>().ok().map(f64::to_bits),
        integer: text.parse::<i64>().ok().map(|v| (v as f64).to_bits()),
    }
}

fn parse(text: &str) -> Result<f64, ParseError> {
    Value::parse(text, forms(text)).map(|v| f64::from_bits(v.bits()))
}

#[test]
fn bit_patterns_are_zero_and_one() {
    assert_eq!(f64::from_bits(ZERO_BITS), 0.0);
    assert_eq!(f64::from_bits(ONE_BITS), 1.0);
}

#[test]
fn digit_one_is_numeric() {
    assert_eq!(parse("1"), Ok(1.0));
}

#[test]
fn decimal_text_is_read_as_float() {
    assert_eq!(parse("21.5"), Ok(21.5));
    assert_eq!(parse("-3"), Ok(-3.0));
    assert_eq!(parse("1e3"), Ok(1000.0));
}

#[test]
fn boolean_literals() {
    assert_eq!(parse("true"), Ok(1.0));
    assert_eq!(parse("false"), Ok(0.0));
}

#[test]
fn on_and_off_tokens() {
    assert_eq!(parse("on"), Ok(1.0));
    assert_eq!(parse("off"), Ok(0.0));
}

#[test]
fn other_text_is_an_error() {
    assert_eq!(parse("maybe"), Err(ParseError));
    assert_eq!(parse(""), Err(ParseError));
    assert_eq!(parse("ON"), Err(ParseError));
    assert_eq!(parse("True"), Err(ParseError));
    assert_eq!(parse("unavailable"), Err(ParseError));
}

#[test]
fn float_reading_wins_over_every_other_form() {
    let both = NumericForms { float: Some(7.25f64.to_bits()), integer: Some(7.0f64.to_bits()) };
    assert_eq!(Value::parse("on", both).map(|v| v.bits()), Ok(7.25f64.to_bits()));
}

#[test]
fn integer_reading_wins_over_tokens() {
    let only_integer = NumericForms { float: None, integer: Some(5.0f64.to_bits()) };
    assert_eq!(Value::parse("off", only_integer).map(|v| v.bits()), Ok(5.0f64.to_bits()));
    assert_eq!(Value::parse("true", only_integer).map(|v| v.bits()), Ok(5.0f64.to_bits()));
}

#[test]
fn parse_error_message() {
    assert_eq!(ParseError.message(), "Failed to parse value");
}

#[test]
fn readings_that_are_not_finite_are_no_values() {
    assert_eq!(parse("inf"), Err(ParseError));
    assert_eq!(parse("-inf"), Err(ParseError));
    assert_eq!(parse("NaN"), Err(ParseError));
    assert_eq!(parse("1e999"), Err(ParseError));
    let odd = NumericForms { float: Some(f64::INFINITY.to_bits()), integer: Some(2.0f64.to_bits()) };
    assert_eq!(Value::parse("x", odd).map(|v| v.bits()), Ok(2.0f64.to_bits()));
    let none = NumericForms { float: Some(f64::NAN.to_bits()), integer: Some(f64::NEG_INFINITY.to_bits()) };
    assert_eq!(Value::parse("on", none).map(|v| v.bits()), Ok(ONE_BITS));
    assert_eq!(Value::parse("x", none), Err(ParseError));
}

#[test]
fn values_from_bit_patterns() {
    assert_eq!(Value::from_bits(21.5f64.to_bits()).map(|v| f64::from_bits(v.bits())), Some(21.5));
    assert_eq!(Value::from_bits(f64::MAX.to_bits()).map(|v| f64::from_bits(v.bits())), Some(f64::MAX));
    assert_eq!(Value::from_bits((-0.0f64).to_bits()).map(|v| v.bits()), Some(1u64 << 63));
    assert_eq!(Value::from_bits(f64::INFINITY.to_bits()), None);
    assert_eq!(Value::from_bits(f64::NEG_INFINITY.to_bits()), None);
    assert_eq!(Value::from_bits(f64::NAN.to_bits()), None);
    assert_eq!(Value::zero().bits(), ZERO_BITS);
    assert_eq!(Value::one().bits(), ONE_BITS);
}
