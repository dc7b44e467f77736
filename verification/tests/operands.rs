use fluent_number::{FluentNumber, FluentNumberOptions, OperandDerivationError, PluralOperands};

fn plain(value: f64) -> FluentNumber {
    FluentNumber::new(value.to_string(), FluentNumberOptions::default())
}

fn with_minimum(value: f64, minimum: usize) -> FluentNumber {
    let mut number = plain(value);
    number.options.minimum_fraction_digits = Some(minimum);
    number
}

fn parse(input: &str) -> FluentNumber {
    let parsed = input.parse::<f64>().ok().map(|value| value.to_string());
    FluentNumber::from_parsed(parsed, input).unwrap()
}

fn operands(n: &str, i: u64, v: usize, w: usize, f: u64, t: u64) -> PluralOperands {
    PluralOperands { n: n.to_string(), i, v, w, f, t }
}

#[test]
fn operands_of_one() {
    assert_eq!(plain(1.0).to_plural_operands(), Ok(operands("1", 1, 0, 0, 0, 0)));
}

#[test]
fn operands_of_parsed_literal_with_trailing_zero() {
    assert_eq!(parse("1.50").to_plural_operands(), Ok(operands("1.5", 1, 2, 1, 50, 5)));
}

#[test]
fn operands_of_fraction() {
    assert_eq!(plain(1234.567).to_plural_operands(), Ok(operands("1234.567", 1234, 3, 3, 567, 567)));
    assert_eq!(plain(0.05).to_plural_operands(), Ok(operands("0.05", 0, 2, 2, 5, 5)));
}

#[test]
fn operands_take_the_absolute_value() {
    assert_eq!(plain(-23.5).to_plural_operands(), Ok(operands("23.5", 23, 1, 1, 5, 5)));
    assert_eq!(plain(-2.0).to_plural_operands(), Ok(operands("2", 2, 0, 0, 0, 0)));
}

#[test]
fn operands_keep_zeros_inside_the_fraction() {
    assert_eq!(parse("0.40").to_plural_operands(), Ok(operands("0.4", 0, 2, 1, 40, 4)));
    assert_eq!(parse("1.0").to_plural_operands(), Ok(operands("1", 1, 1, 0, 0, 0)));
}

#[test]
fn operands_widen_to_minimum() {
    assert_eq!(with_minimum(1.5, 4).to_plural_operands(), Ok(operands("1.5", 1, 4, 1, 5000, 5)));
    assert_eq!(with_minimum(3.0, 2).to_plural_operands(), Ok(operands("3", 3, 2, 0, 0, 0)));
    assert_eq!(with_minimum(3.0, 40).to_plural_operands(), Ok(operands("3", 3, 40, 0, 0, 0)));
}

#[test]
fn operands_unchanged_by_smaller_minimum() {
    let natural = plain(1.2345).to_plural_operands();
    assert_eq!(natural, Ok(operands("1.2345", 1, 4, 4, 2345, 2345)));
    assert_eq!(with_minimum(1.2345, 0).to_plural_operands(), natural);
    assert_eq!(with_minimum(1.2345, 2).to_plural_operands(), natural);
    assert_eq!(with_minimum(1.2345, 4).to_plural_operands(), natural);
}

#[test]
fn operands_ignore_other_options() {
    let mut number = plain(1.25);
    number.options.maximum_fraction_digits = Some(1);
    number.options.minimum_significant_digits = Some(7);
    number.options.maximum_significant_digits = Some(1);
    number.options.minimum_integer_digits = Some(3);
    assert_eq!(number.to_plural_operands(), Ok(operands("1.25", 1, 2, 2, 25, 25)));
}

#[test]
fn operands_of_nan_and_infinities_fail() {
    assert_eq!(plain(f64::NAN).to_plural_operands(), Err(OperandDerivationError::NotFinite));
    assert_eq!(plain(f64::INFINITY).to_plural_operands(), Err(OperandDerivationError::NotFinite));
    assert_eq!(
        plain(f64::NEG_INFINITY).to_plural_operands(),
        Err(OperandDerivationError::NotFinite)
    );
    assert_eq!(
        with_minimum(f64::NAN, 2).to_plural_operands(),
        Err(OperandDerivationError::NotFinite)
    );
}

#[test]
fn operands_of_what_is_no_numeral_fail() {
    let number = FluentNumber::new("twelve".to_string(), FluentNumberOptions::default());
    assert_eq!(number.to_plural_operands(), Err(OperandDerivationError::Unreadable));
    let number = FluentNumber::new("1.5e3".to_string(), FluentNumberOptions::default());
    assert_eq!(number.to_plural_operands(), Err(OperandDerivationError::Unreadable));
}

#[test]
fn operands_of_digits_beyond_64_bits_fail() {
    let number = FluentNumber::new(
        "0.18446744073709551616".to_string(),
        FluentNumberOptions::default(),
    );
    assert_eq!(number.to_plural_operands(), Err(OperandDerivationError::Unreadable));
    let number = FluentNumber::new(
        "18446744073709551616.5".to_string(),
        FluentNumberOptions::default(),
    );
    assert_eq!(number.to_plural_operands(), Err(OperandDerivationError::Unreadable));
    let number = FluentNumber::new(
        "18446744073709551615.18446744073709551615".to_string(),
        FluentNumberOptions::default(),
    );
    assert_eq!(
        number.to_plural_operands(),
        Ok(operands(
            "18446744073709551615.18446744073709551615",
            u64::MAX,
            20,
            20,
            u64::MAX,
            u64::MAX
        ))
    );
}

#[test]
fn operands_of_small_and_large_floats() {
    assert_eq!(plain(1e-7).to_plural_operands(), Ok(operands("0.0000001", 0, 7, 7, 1, 1)));
    assert_eq!(
        plain(9007199254740992.0).to_plural_operands(),
        Ok(operands("9007199254740992", 9007199254740992, 0, 0, 0, 0))
    );
    assert_eq!(plain(-0.0).to_plural_operands(), Ok(operands("0", 0, 0, 0, 0, 0)));
    assert_eq!(
        plain(100.25).to_plural_operands(),
        Ok(operands("100.25", 100, 2, 2, 25, 25))
    );
}

#[test]
fn operands_fail_where_padded_fraction_overflows() {
    assert_eq!(
        with_minimum(0.5, 25).to_plural_operands(),
        Err(OperandDerivationError::FractionOverflow)
    );
    assert_eq!(
        with_minimum(0.5, 19).to_plural_operands(),
        Ok(operands("0.5", 0, 19, 1, 5_000_000_000_000_000_000, 5))
    );
    assert_eq!(
        with_minimum(0.5, 20).to_plural_operands(),
        Err(OperandDerivationError::FractionOverflow)
    );
    assert_eq!(
        with_minimum(0.1, 20).to_plural_operands(),
        Ok(operands("0.1", 0, 20, 1, 10_000_000_000_000_000_000, 1))
    );
    assert_eq!(
        with_minimum(0.5, usize::MAX).to_plural_operands(),
        Err(OperandDerivationError::FractionOverflow)
    );
}

#[test]
fn widen_pads_fraction_digits() {
    let base = operands("1.5", 1, 1, 1, 5, 5);
    assert_eq!(base.clone().widen(Some(2)), Ok(operands("1.5", 1, 2, 1, 50, 5)));
    assert_eq!(base.clone().widen(Some(1)), Ok(base.clone()));
    assert_eq!(base.clone().widen(Some(0)), Ok(base.clone()));
    assert_eq!(base.clone().widen(None), Ok(base.clone()));
    assert_eq!(base.widen(Some(7)), Ok(operands("1.5", 1, 7, 1, 5_000_000, 5)));
}

#[test]
fn widen_at_the_bound() {
    let base = operands("0.18446744073709551615", 0, 20, 20, u64::MAX, u64::MAX);
    assert_eq!(base.clone().widen(Some(20)), Ok(base.clone()));
    assert_eq!(base.widen(Some(21)), Err(OperandDerivationError::FractionOverflow));
    let base = operands("0.1844674407370955161", 0, 19, 19, 1844674407370955161, 1844674407370955161);
    assert_eq!(
        base.widen(Some(20)),
        Ok(operands("0.1844674407370955161", 0, 20, 19, 18446744073709551610, 1844674407370955161))
    );
    let base = operands("0.1844674407370955162", 0, 19, 19, 1844674407370955162, 1844674407370955162);
    assert_eq!(base.widen(Some(20)), Err(OperandDerivationError::FractionOverflow));
}

#[test]
fn operands_agree_with_those_read_from_the_float() {
    for value in [
        0.0,
        1.0,
        -1.0,
        2.0,
        0.5,
        -23.5,
        1.25,
        100.25,
        0.001,
        123456.789,
        -1234.567,
        1e-7,
        3.0e10,
        9007199254740991.0,
        0.1 + 0.2,
    ] {
        let theirs = intl_pluralrules::operands::PluralOperands::try_from(value).unwrap();
        let ours = plain(value).to_plural_operands().unwrap();
        assert_eq!(ours.n.parse::<f64>().unwrap(), theirs.n);
        assert_eq!(ours.i, theirs.i);
        assert_eq!(ours.v, theirs.v);
        assert_eq!(ours.w, theirs.w);
        assert_eq!(ours.f, theirs.f);
        assert_eq!(ours.t, theirs.t);
    }
}

#[test]
fn operands_of_literal_with_exponent() {
    assert_eq!(parse("1.5e2").to_plural_operands(), Ok(operands("150", 150, 1, 0, 0, 0)));
}

#[test]
fn operands_of_what_is_no_rendering_fail() {
    for text in ["infinity", "nan", "+inf", "-nan", "1e400", "1e5", "+1", ".5", "5.", "", "-", "NAN"] {
        let number = FluentNumber::new(text.to_string(), FluentNumberOptions::default());
        assert_eq!(
            number.to_plural_operands(),
            Err(OperandDerivationError::Unreadable),
            "{}",
            text
        );
    }
}
