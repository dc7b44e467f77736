use fluent_number::number::fraction_digits;
use fluent_number::{FluentNumber, FluentNumberOptions, FluentValue, ParseError};

fn plain(value: f64) -> FluentNumber {
    FluentNumber::new(value.to_string(), FluentNumberOptions::default())
}

fn with_minimum(value: f64, minimum: usize) -> FluentNumber {
    let mut number = plain(value);
    number.options.minimum_fraction_digits = Some(minimum);
    number
}

fn parse(input: &str) -> Result<FluentNumber, ParseError> {
    let parsed = input.parse::<f64>().ok().map(|value| value.to_string());
    FluentNumber::from_parsed(parsed, input)
}

fn try_number(input: &str) -> FluentValue {
    match parse(input) {
        Ok(number) => FluentValue::Number(number),
        Err(_) => FluentValue::String(input.to_string()),
    }
}

#[test]
fn value_from_copy_ref() {
    let x = 1i16;
    let y = &x;
    let z: FluentValue = y.into();
    assert_eq!(z, try_number("1"));
}

#[test]
fn fluent_value_try_number() {
    let value = try_number("invalid");
    assert_eq!(value, FluentValue::String("invalid".to_string()));
}

#[test]
fn fluent_value_from() {
    let value_str = FluentValue::from("my str");
    let value_string = FluentValue::from(String::from("my string"));
    let value_f64 = FluentValue::from(plain(23.5));
    let value_isize = FluentValue::from(-23);

    assert_eq!(value_str, "my str".into());
    assert_eq!(value_string, "my string".into());

    assert_eq!(value_f64, FluentValue::from(plain(23.5)));
    assert_eq!(value_isize, FluentValue::from(-23));
}

#[test]
fn value_from_number_holds_the_number() {
    assert_eq!(FluentValue::from(plain(23.5)), FluentValue::Number(plain(23.5)));
    assert_eq!(FluentValue::from("23.5"), FluentValue::String("23.5".to_string()));
    assert_ne!(FluentValue::from("23.5"), FluentValue::from(plain(23.5)));
    assert_eq!(FluentValue::from(-23), FluentValue::Number(plain(-23.0)));
}

#[test]
fn new_keeps_value_and_options() {
    let mut options = FluentNumberOptions::default();
    options.maximum_fraction_digits = Some(2);
    let number = FluentNumber::new("23.5".to_string(), options.clone());
    assert_eq!(number.value, "23.5");
    assert_eq!(number.options, options);
}

#[test]
fn renders_value_without_minimum() {
    assert_eq!(plain(1.0).as_string(), "1");
    assert_eq!(plain(1.5).as_string(), "1.5");
    assert_eq!(plain(-23.5).as_string(), "-23.5");
    assert_eq!(plain(0.0).as_string(), "0");
    assert_eq!(plain(1234.567).as_string(), "1234.567");
}

#[test]
fn renders_padding_up_to_minimum() {
    assert_eq!(with_minimum(1.5, 2).as_string(), "1.50");
    assert_eq!(with_minimum(1.5, 4).as_string(), "1.5000");
    assert_eq!(with_minimum(-0.25, 3).as_string(), "-0.250");
}

#[test]
fn renders_point_where_value_has_none() {
    assert_eq!(with_minimum(1.0, 2).as_string(), "1.00");
    assert_eq!(with_minimum(-7.0, 1).as_string(), "-7.0");
    assert_eq!(with_minimum(3.0, 0).as_string(), "3.");
}

#[test]
fn renders_without_removing_digits() {
    assert_eq!(with_minimum(1.2345, 2).as_string(), "1.2345");
    assert_eq!(with_minimum(1.25, 2).as_string(), "1.25");
    assert_eq!(with_minimum(1.25, 0).as_string(), "1.25");
}

#[test]
fn render_ignores_other_options() {
    let mut number = plain(1234.5678);
    number.options.maximum_fraction_digits = Some(1);
    number.options.minimum_integer_digits = Some(9);
    number.options.use_grouping = true;
    number.options.currency = Some("EUR".to_string());
    assert_eq!(number.as_string(), "1234.5678");
}

#[test]
fn parse_keeps_trailing_zeros() {
    let number = parse("1.50").unwrap();
    assert_eq!(number.value, "1.5");
    assert_eq!(number.options.minimum_fraction_digits, Some(2));
    assert_eq!(number.as_string(), "1.50");
}

#[test]
fn parse_of_integer_literal_sets_no_minimum() {
    let number = parse("23").unwrap();
    assert_eq!(number.value, "23");
    assert_eq!(number.options, FluentNumberOptions::default());
    assert_eq!(number.as_string(), "23");
}

#[test]
fn parse_counts_written_fraction_digits() {
    assert_eq!(parse("0.40").unwrap().options.minimum_fraction_digits, Some(2));
    assert_eq!(parse("-12.000").unwrap().options.minimum_fraction_digits, Some(3));
    assert_eq!(parse("5.").unwrap().options.minimum_fraction_digits, Some(0));
    assert_eq!(parse("-12.000").unwrap().as_string(), "-12.000");
}

#[test]
fn parse_leaves_the_exponent_out_of_the_count() {
    let number = parse("1.5e2").unwrap();
    assert_eq!(number.value, "150");
    assert_eq!(number.options.minimum_fraction_digits, Some(1));
    assert_eq!(number.as_string(), "150.0");
    let number = parse("2.50E-1").unwrap();
    assert_eq!(number.value, "0.25");
    assert_eq!(number.options.minimum_fraction_digits, Some(2));
    assert_eq!(number.as_string(), "0.25");
    assert_eq!(parse("1e3").unwrap().options.minimum_fraction_digits, None);
}

#[test]
fn parse_rejects_what_is_no_numeral() {
    assert_eq!(parse("invalid"), Err(ParseError));
    assert_eq!(parse(""), Err(ParseError));
    assert_eq!(parse("1.2.3"), Err(ParseError));
    assert_eq!(FluentNumber::from_parsed(None, "1.5"), Err(ParseError));
}

#[test]
fn fraction_digits_of_literals() {
    assert_eq!(fraction_digits("1.50"), Some(2));
    assert_eq!(fraction_digits("1"), None);
    assert_eq!(fraction_digits("1."), Some(0));
    assert_eq!(fraction_digits(".5"), Some(1));
    assert_eq!(fraction_digits("1.2.3"), Some(1));
    assert_eq!(fraction_digits("1.5e2"), Some(1));
    assert_eq!(fraction_digits("1.e2"), Some(0));
    assert_eq!(fraction_digits("-0.250E-3"), Some(3));
    assert_eq!(fraction_digits("1.50 "), Some(2));
    assert_eq!(fraction_digits(""), None);
}

#[test]
fn equal_numbers() {
    assert_eq!(plain(-23.5), plain(-23.5));
    assert_ne!(plain(-23.5), plain(23.5));
    assert_eq!(plain(0.0), plain(-0.0));
    assert_ne!(plain(f64::NAN), plain(f64::NAN));
    assert_eq!(plain(f64::INFINITY), plain(f64::INFINITY));
    assert_ne!(plain(f64::INFINITY), plain(f64::NEG_INFINITY));
}

#[test]
fn numbers_with_other_options_differ() {
    assert_ne!(plain(1.5), with_minimum(1.5, 1));
    assert_eq!(with_minimum(1.5, 1), with_minimum(1.5, 1));
}

#[test]
fn renderings_of_floats_are_well_formed() {
    for value in [
        0.0,
        -0.0,
        1.0,
        -1.5,
        0.1 + 0.2,
        1e-7,
        5e-324,
        1e21,
        -1e300,
        f64::MAX,
        f64::MIN_POSITIVE,
        f64::NAN,
        f64::INFINITY,
        f64::NEG_INFINITY,
    ] {
        assert!(plain(value).has_rendering(), "{}", value);
    }
}

#[test]
fn other_texts_are_not_well_formed() {
    for text in ["", "-", "1.", ".5", "-.5", "1e5", "abc", "+1", "1.5.2", "--1", "1.a", " 1", "1 ", "nan", "Inf", "-NaN", "1,5"] {
        let number = FluentNumber::new(text.to_string(), FluentNumberOptions::default());
        assert!(!number.has_rendering(), "{}", text);
    }
}

#[test]
fn numbers_from_integers_are_well_formed() {
    assert!(FluentNumber::from(0u8).has_rendering());
    assert!(FluentNumber::from(i32::MIN).has_rendering());
    assert!(FluentNumber::from(u32::MAX).has_rendering());
}
