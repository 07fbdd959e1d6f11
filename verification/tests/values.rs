use worm::errors::FieldConversionError;
use worm::sql::floats::Float32;
use worm::sql::floats::Float64;
use worm::sql::RecordField;
use worm::sql::SqlValue;

fn text(s: &str) -> SqlValue {
    SqlValue::String(String::from(s))
}

#[test]
fn signed_integers_round_trip_at_their_bounds() {
    assert_eq!(i8::from_sql(i8::MIN.into_sql()), Ok(i8::MIN));
    assert_eq!(i8::from_sql(i8::MAX.into_sql()), Ok(i8::MAX));
    assert_eq!(i16::from_sql(i16::MIN.into_sql()), Ok(i16::MIN));
    assert_eq!(i16::from_sql(i16::MAX.into_sql()), Ok(i16::MAX));
    assert_eq!(i32::from_sql(i32::MIN.into_sql()), Ok(i32::MIN));
    assert_eq!(i32::from_sql(i32::MAX.into_sql()), Ok(i32::MAX));
    assert_eq!(i64::from_sql(i64::MIN.into_sql()), Ok(i64::MIN));
    assert_eq!(i64::from_sql(i64::MAX.into_sql()), Ok(i64::MAX));
    assert_eq!(i128::from_sql(i128::MIN.into_sql()), Ok(i128::MIN));
    assert_eq!(i128::from_sql(i128::MAX.into_sql()), Ok(i128::MAX));
}

#[test]
fn unsigned_integers_round_trip_at_their_bounds() {
    assert_eq!(u8::from_sql(0u8.into_sql()), Ok(0u8));
    assert_eq!(u8::from_sql(u8::MAX.into_sql()), Ok(u8::MAX));
    assert_eq!(u16::from_sql(u16::MAX.into_sql()), Ok(u16::MAX));
    assert_eq!(u32::from_sql(u32::MAX.into_sql()), Ok(u32::MAX));
    assert_eq!(u64::from_sql(u64::MAX.into_sql()), Ok(u64::MAX));
    assert_eq!(u128::from_sql(u128::MAX.into_sql()), Ok(u128::MAX));
}

#[test]
fn other_types_round_trip() {
    assert_eq!(bool::from_sql(true.into_sql()), Ok(true));
    assert_eq!(bool::from_sql(false.into_sql()), Ok(false));
    assert_eq!(String::from_sql(String::from("o'clock").into_sql()), Ok(String::from("o'clock")));
    let half = Float32::new(0.5f32.to_bits(), format!("{}", 0.5f32));
    let back = Float32::from_sql(half.into_sql()).unwrap();
    assert_eq!(f32::from_bits(back.bits()), 0.5f32);
    assert_eq!(back.literal(), "0.5");
    let third = Float64::new((1.0f64 / 3.0).to_bits(), format!("{}", 1.0f64 / 3.0));
    let back = Float64::from_sql(third.into_sql()).unwrap();
    assert_eq!(f64::from_bits(back.bits()), 1.0f64 / 3.0);
}

#[test]
fn narrow_integers_widen_into_the_carrier() {
    assert_eq!(7u8.into_sql(), SqlValue::Unsigned128(7));
    assert_eq!(7u16.into_sql(), SqlValue::Unsigned128(7));
    assert_eq!(7u32.into_sql(), SqlValue::Unsigned128(7));
    assert_eq!(7u64.into_sql(), SqlValue::Unsigned128(7));
    assert_eq!(7u128.into_sql(), SqlValue::Unsigned128(7));
    assert_eq!((-7i8).into_sql(), SqlValue::Signed128(-7));
    assert_eq!((-7i16).into_sql(), SqlValue::Signed128(-7));
    assert_eq!((-7i32).into_sql(), SqlValue::Signed128(-7));
    assert_eq!((-7i64).into_sql(), SqlValue::Signed128(-7));
    assert_eq!((-7i128).into_sql(), SqlValue::Signed128(-7));
}

#[test]
fn integers_convert_from_every_integer_variant() {
    assert_eq!(i64::from_sql(SqlValue::Signed8(-3)), Ok(-3i64));
    assert_eq!(i64::from_sql(SqlValue::Signed16(-3)), Ok(-3i64));
    assert_eq!(i64::from_sql(SqlValue::Signed32(-3)), Ok(-3i64));
    assert_eq!(i64::from_sql(SqlValue::Signed64(-3)), Ok(-3i64));
    assert_eq!(i64::from_sql(SqlValue::Signed128(-3)), Ok(-3i64));
    assert_eq!(i64::from_sql(SqlValue::Unsigned8(3)), Ok(3i64));
    assert_eq!(i64::from_sql(SqlValue::Unsigned16(3)), Ok(3i64));
    assert_eq!(i64::from_sql(SqlValue::Unsigned32(3)), Ok(3i64));
    assert_eq!(i64::from_sql(SqlValue::Unsigned64(3)), Ok(3i64));
    assert_eq!(i64::from_sql(SqlValue::Unsigned128(3)), Ok(3i64));
}

#[test]
fn sign_of_the_carrier_does_not_matter_within_range() {
    assert_eq!(u8::from_sql(SqlValue::Signed128(200)), Ok(200u8));
    assert_eq!(u128::from_sql(SqlValue::Signed128(i128::MAX)), Ok(i128::MAX as u128));
    assert_eq!(i8::from_sql(SqlValue::Unsigned128(127)), Ok(127i8));
    assert_eq!(i128::from_sql(SqlValue::Unsigned128(i128::MAX as u128)), Ok(i128::MAX));
}

#[test]
fn out_of_range_integers_are_rejected() {
    assert_eq!(i8::from_sql(SqlValue::Signed128(128)), Err(FieldConversionError::ValueOutOfBounds));
    assert_eq!(i8::from_sql(SqlValue::Signed128(-129)), Err(FieldConversionError::ValueOutOfBounds));
    assert_eq!(i8::from_sql(SqlValue::Unsigned8(128)), Err(FieldConversionError::ValueOutOfBounds));
    assert_eq!(i16::from_sql(SqlValue::Signed32(40_000)), Err(FieldConversionError::ValueOutOfBounds));
    assert_eq!(i32::from_sql(SqlValue::Signed64(i64::MIN)), Err(FieldConversionError::ValueOutOfBounds));
    assert_eq!(i64::from_sql(SqlValue::Unsigned64(u64::MAX)), Err(FieldConversionError::ValueOutOfBounds));
    assert_eq!(i128::from_sql(SqlValue::Unsigned128(i128::MAX as u128 + 1)), Err(FieldConversionError::ValueOutOfBounds));
    assert_eq!(u8::from_sql(SqlValue::Signed8(-1)), Err(FieldConversionError::ValueOutOfBounds));
    assert_eq!(u8::from_sql(SqlValue::Unsigned128(256)), Err(FieldConversionError::ValueOutOfBounds));
    assert_eq!(u16::from_sql(SqlValue::Unsigned32(65_536)), Err(FieldConversionError::ValueOutOfBounds));
    assert_eq!(u32::from_sql(SqlValue::Signed128(-1)), Err(FieldConversionError::ValueOutOfBounds));
    assert_eq!(u64::from_sql(SqlValue::Unsigned128(u64::MAX as u128 + 1)), Err(FieldConversionError::ValueOutOfBounds));
    assert_eq!(u128::from_sql(SqlValue::Signed128(i128::MIN)), Err(FieldConversionError::ValueOutOfBounds));
}

#[test]
fn values_of_another_family_are_of_incorrect_type() {
    assert_eq!(i32::from_sql(text("12")), Err(FieldConversionError::IncorrectType));
    assert_eq!(u64::from_sql(SqlValue::Boolean(true)), Err(FieldConversionError::IncorrectType));
    assert_eq!(i8::from_sql(SqlValue::Null), Err(FieldConversionError::IncorrectType));
    assert_eq!(bool::from_sql(SqlValue::Signed8(1)), Err(FieldConversionError::IncorrectType));
    assert_eq!(bool::from_sql(SqlValue::Null), Err(FieldConversionError::IncorrectType));
    assert_eq!(String::from_sql(SqlValue::Unsigned8(1)), Err(FieldConversionError::IncorrectType));
    assert_eq!(String::from_sql(SqlValue::Null), Err(FieldConversionError::IncorrectType));
    let one = Float32::new(1.0f32.to_bits(), String::from("1"));
    assert_eq!(i32::from_sql(SqlValue::Float32(one)), Err(FieldConversionError::IncorrectType));
    let one = Float32::new(1.0f32.to_bits(), String::from("1"));
    assert_eq!(Float64::from_sql(SqlValue::Float32(one)), Err(FieldConversionError::IncorrectType));
    let one = Float64::new(1.0f64.to_bits(), String::from("1"));
    assert_eq!(Float32::from_sql(SqlValue::Float64(one)), Err(FieldConversionError::IncorrectType));
    assert_eq!(Float32::from_sql(SqlValue::Signed8(1)), Err(FieldConversionError::IncorrectType));
}

#[test]
fn integers_render_in_decimal() {
    assert_eq!(SqlValue::Signed8(-128).to_string(), "-128");
    assert_eq!(SqlValue::Signed16(0).to_string(), "0");
    assert_eq!(SqlValue::Signed32(-10).to_string(), "-10");
    assert_eq!(SqlValue::Signed64(1_000_000_007).to_string(), "1000000007");
    assert_eq!(SqlValue::Signed128(i128::MIN).to_string(), i128::MIN.to_string());
    assert_eq!(SqlValue::Signed128(i128::MAX).to_string(), i128::MAX.to_string());
    assert_eq!(SqlValue::Unsigned8(9).to_string(), "9");
    assert_eq!(SqlValue::Unsigned16(10).to_string(), "10");
    assert_eq!(SqlValue::Unsigned32(4_294_967_295).to_string(), "4294967295");
    assert_eq!(SqlValue::Unsigned64(100).to_string(), "100");
    assert_eq!(SqlValue::Unsigned128(u128::MAX).to_string(), u128::MAX.to_string());
}

#[test]
fn other_values_render_as_sql_literals() {
    assert_eq!(SqlValue::Boolean(true).to_string(), "true");
    assert_eq!(SqlValue::Boolean(false).to_string(), "false");
    assert_eq!(SqlValue::Null.to_string(), "NULL");
    assert_eq!(text("worm").to_string(), "'worm'");
    assert_eq!(text("").to_string(), "''");
    let number = Float32::new(1.5f32.to_bits(), format!("{}", 1.5f32));
    assert_eq!(SqlValue::Float32(number).to_string(), "1.5");
    let number = Float64::new((-0.25f64).to_bits(), format!("{}", -0.25f64));
    assert_eq!(SqlValue::Float64(number).to_string(), "-0.25");
}

#[test]
fn a_quote_in_a_text_is_doubled() {
    assert_eq!(text("O'Brien").to_string(), "'O''Brien'");
    assert_eq!(text("'").to_string(), "''''");
    assert_eq!(text("''").to_string(), "''''''");
    assert_eq!(text("it's 5 o'clock").to_string(), "'it''s 5 o''clock'");
    assert_eq!(text("say \"hi\"").to_string(), "'say \"hi\"'");
    assert_eq!(text("a'; DROP TABLE t; --").to_string(), "'a''; DROP TABLE t; --'");
}
