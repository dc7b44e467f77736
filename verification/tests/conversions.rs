use fluent_number::{FluentNumber, FluentNumberOptions, FluentValue};

fn plain(value: f64) -> FluentNumber {
    FluentNumber::new(value.to_string(), FluentNumberOptions::default())
}

#[test]
fn number_from_integer_renders_as_written() {
    assert_eq!(FluentNumber::from(0u8).as_string(), "0");
    assert_eq!(FluentNumber::from(42i32).as_string(), "42");
    assert_eq!(FluentNumber::from(-7i8).as_string(), "-7");
    assert_eq!(FluentNumber::from(i8::MIN).as_string(), "-128");
    assert_eq!(FluentNumber::from(u16::MAX).as_string(), "65535");
    assert_eq!(FluentNumber::from(i32::MIN).as_string(), "-2147483648");
    assert_eq!(FluentNumber::from(i32::MAX).as_string(), "2147483647");
    assert_eq!(FluentNumber::from(u32::MAX).as_string(), "4294967295");
    assert_eq!(FluentNumber::from(1000i16).as_string(), "1000");
}

#[test]
fn number_from_integer_is_the_number_from_float() {
    assert_eq!(FluentNumber::from(-23i32), plain(-23.0));
    assert_eq!(FluentNumber::from(u32::MAX), plain(u32::MAX as f64));
    assert_eq!(FluentNumber::from(i32::MIN), plain(i32::MIN as f64));
    assert_eq!(FluentNumber::from(0u16).value, (0u16 as f64).to_string());
    assert_eq!(FluentNumber::from(100i8).options, FluentNumberOptions::default());
}

#[test]
fn number_from_reference() {
    let n = 7u8;
    assert_eq!(FluentNumber::from(&n), FluentNumber::from(7u8));
    let m = -300i16;
    assert_eq!(FluentNumber::from(&m).as_string(), "-300");
}

#[test]
fn value_from_integer() {
    assert_eq!(FluentValue::from(-23i32), FluentValue::Number(plain(-23.0)));
    let n = 5u32;
    assert_eq!(FluentValue::from(&n), FluentValue::Number(plain(5.0)));
}

#[test]
fn integer_from_number_drops_fraction() {
    assert_eq!(u8::from(&plain(2.9)), 2);
    assert_eq!(i32::from(&plain(-2.9)), -2);
    assert_eq!(i64::from(&plain(1234.567)), 1234);
    assert_eq!(usize::from(&plain(0.999)), 0);
    assert_eq!(i8::from(&plain(-0.5)), 0);
    assert_eq!(u64::from(&plain(1e-7)), 0);
}

#[test]
fn integer_from_number_saturates() {
    assert_eq!(u8::from(&plain(256.0)), u8::MAX);
    assert_eq!(u8::from(&plain(255.0)), 255);
    assert_eq!(u8::from(&plain(-1.0)), 0);
    assert_eq!(i8::from(&plain(127.9)), 127);
    assert_eq!(i8::from(&plain(128.0)), i8::MAX);
    assert_eq!(i8::from(&plain(-128.0)), i8::MIN);
    assert_eq!(i8::from(&plain(-129.0)), i8::MIN);
    assert_eq!(i16::from(&plain(-40000.0)), i16::MIN);
    assert_eq!(u16::from(&plain(70000.0)), u16::MAX);
    assert_eq!(i32::from(&plain(3e9)), i32::MAX);
    assert_eq!(u32::from(&plain(5e9)), u32::MAX);
    assert_eq!(i64::from(&plain(1e300)), i64::MAX);
    assert_eq!(i64::from(&plain(-1e300)), i64::MIN);
    assert_eq!(u64::from(&plain(1e300)), u64::MAX);
    assert_eq!(i128::from(&plain(1e300)), i128::MAX);
    assert_eq!(i128::from(&plain(-1e300)), i128::MIN);
    assert_eq!(u128::from(&plain(1e300)), u128::MAX);
    assert_eq!(isize::from(&plain(-1e300)), isize::MIN);
    assert_eq!(usize::from(&plain(1e300)), usize::MAX);
}

#[test]
fn integer_from_number_follows_the_cast() {
    for value in [
        0.0,
        -0.0,
        1.0,
        -1.0,
        0.5,
        99.99,
        -99.99,
        4294967296.0,
        1e15,
        -1e15,
        9007199254740991.0,
        -9007199254740991.0,
        1e19,
        1e20,
        3.5e38,
        -3.5e38,
    ] {
        let number = plain(value);
        assert_eq!(u8::from(&number), value as u8);
        assert_eq!(u16::from(&number), value as u16);
        assert_eq!(u32::from(&number), value as u32);
        assert_eq!(u64::from(&number), value as u64);
        assert_eq!(u128::from(&number), value as u128);
        assert_eq!(usize::from(&number), value as usize);
        assert_eq!(i8::from(&number), value as i8);
        assert_eq!(i16::from(&number), value as i16);
        assert_eq!(i32::from(&number), value as i32);
        assert_eq!(i64::from(&number), value as i64);
        assert_eq!(i128::from(&number), value as i128);
        assert_eq!(isize::from(&number), value as isize);
    }
}

#[test]
fn integer_from_large_number_takes_the_digits_as_rendered() {
    assert_eq!(plain(1.7e38).value, "170000000000000000000000000000000000000");
    assert_eq!(u128::from(&plain(1.7e38)), 170000000000000000000000000000000000000);
    assert_eq!(i128::from(&plain(-1.7e38)), -170000000000000000000000000000000000000);
    assert_eq!(plain(1152921504606846976.0).value, "1152921504606847000");
    assert_eq!(u64::from(&plain(1152921504606846976.0)), 1152921504606847000);
}

#[test]
fn integer_from_what_is_no_finite_number() {
    assert_eq!(i32::from(&plain(f64::NAN)), 0);
    assert_eq!(u64::from(&plain(f64::NAN)), 0);
    assert_eq!(i32::from(&plain(f64::INFINITY)), i32::MAX);
    assert_eq!(i32::from(&plain(f64::NEG_INFINITY)), i32::MIN);
    assert_eq!(u32::from(&plain(f64::INFINITY)), u32::MAX);
    assert_eq!(u32::from(&plain(f64::NEG_INFINITY)), 0);
    assert_eq!(u128::from(&plain(f64::INFINITY)), u128::MAX);
    assert_eq!(i128::from(&plain(f64::NEG_INFINITY)), i128::MIN);
}

#[test]
fn integer_survives_the_round_trip() {
    assert_eq!(i32::from(&FluentNumber::from(-2147483648i32)), i32::MIN);
    assert_eq!(u32::from(&FluentNumber::from(4294967295u32)), u32::MAX);
    assert_eq!(i64::from(&FluentNumber::from(-5i8)), -5);
    assert_eq!(u8::from(&FluentNumber::from(300u16)), u8::MAX);
    assert_eq!(u8::from(&FluentNumber::from(-300i16)), 0);
    assert_eq!(i8::from(&FluentNumber::from(77u32)), 77);
}

#[test]
fn integer_from_number_by_value() {
    assert_eq!(u8::from(plain(2.9)), 2);
    assert_eq!(u16::from(plain(70000.0)), u16::MAX);
    assert_eq!(u32::from(plain(-1.0)), 0);
    assert_eq!(u64::from(plain(1234.567)), 1234);
    assert_eq!(u128::from(plain(f64::INFINITY)), u128::MAX);
    assert_eq!(usize::from(plain(f64::NAN)), 0);
    assert_eq!(i8::from(plain(-128.9)), i8::MIN);
    assert_eq!(i16::from(plain(-2.9)), -2);
    assert_eq!(i32::from(plain(3e9)), i32::MAX);
    assert_eq!(i64::from(plain(-1e300)), i64::MIN);
    assert_eq!(i128::from(plain(-77.0)), -77);
    assert_eq!(isize::from(plain(f64::NEG_INFINITY)), isize::MIN);
    let n: i32 = plain(-23.5).into();
    assert_eq!(n, -23);
}
