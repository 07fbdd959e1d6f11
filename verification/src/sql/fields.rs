//! The conversion between native scalar types and SQL values.

use vstd::prelude::*;
use crate::errors::FieldConversionError;
use crate::sql::floats::Float32;
use crate::sql::floats::Float32View;
use crate::sql::floats::Float64;
use crate::sql::floats::Float64View;
use crate::sql::values::SqlValue;
use crate::sql::values::SqlValueView;
use crate::sql::values::ValueFamily;

verus! {

/// A type which can be converted from/to a raw SQL literal.
///
/// `decoded` and `encoded` say what the two conversions compute, over the
/// views of the values. The three laws hold of every implementation.
pub trait RecordField: Sized + View {
    /// The family of SQL values that convert to the type.
    spec fn family() -> ValueFamily;

    /// For an integer type, the least and the greatest number that it holds.
    spec fn bounds() -> Option<(int, int)>;

    /// What `from_sql` returns for a value.
    spec fn decoded(value: SqlValueView) -> Result<Self::V, FieldConversionError>;

    /// What `into_sql` returns for a native value.
    spec fn encoded(native: Self::V) -> SqlValueView;

    /// Creates a new instance of the type from a provided [SqlValue].
    fn from_sql(sql_value: SqlValue) -> (result: Result<Self, FieldConversionError>)
        ensures
            match result {
                Ok(native) => Self::decoded(sql_value@) == Ok::<Self::V, FieldConversionError>(
                    native@,
                ),
                Err(error) => Self::decoded(sql_value@) == Err::<Self::V, FieldConversionError>(
                    error,
                ),
            },
    ;

    /// Creates a [SqlValue] from an instance of the type.
    fn into_sql(self) -> (sql_value: SqlValue)
        ensures
            sql_value@ == Self::encoded(self@),
    ;

    /// A native value that is converted to a SQL value and back is the
    /// native value again.
    proof fn law_round_trip(native: Self::V)
        ensures
            Self::decoded(Self::encoded(native)) == Ok::<Self::V, FieldConversionError>(native),
    ;

    /// A value converts with `IncorrectType` if it is of another family than
    /// the type, and only then.
    proof fn law_incorrect_type(value: SqlValueView)
        ensures
            Self::decoded(value) == Err::<Self::V, FieldConversionError>(
                FieldConversionError::IncorrectType,
            ) <==> value.family() != Self::family(),
    ;

    /// A value converts with `ValueOutOfBounds` if it carries an integer
    /// that an integer type does not hold, and only then.
    proof fn law_value_out_of_bounds(value: SqlValueView)
        ensures
            Self::decoded(value) == Err::<Self::V, FieldConversionError>(
                FieldConversionError::ValueOutOfBounds,
            ) <==> is_out_of_bounds(value, Self::family(), Self::bounds()),
    ;
}

/// Whether a value carries an integer outside the bounds of an integer type.
pub open spec fn is_out_of_bounds(
    value: SqlValueView,
    family: ValueFamily,
    bounds: Option<(int, int)>,
) -> bool {
    &&& family == ValueFamily::Integer
    &&& value.integer() matches Some(carried)
    &&& bounds matches Some(range)
    &&& !(range.0 <= carried <= range.1)
}

/// What reading a value as an integer between `min` and `max` comes to: the
/// integer that the value carries, `ValueOutOfBounds` if that integer is not
/// in the range, `IncorrectType` if the value is no integer.
pub open spec fn integer_in_range(value: SqlValueView, min: int, max: int) -> Result<
    int,
    FieldConversionError,
> {
    match value.integer() {
        None => Err(FieldConversionError::IncorrectType),
        Some(carried) => if min <= carried <= max {
            Ok(carried)
        } else {
            Err(FieldConversionError::ValueOutOfBounds)
        },
    }
}

/// Reads a value as a signed integer between `min` and `max`.
pub fn signed_in_range(value: &SqlValue, min: i128, max: i128) -> (result: Result<
    i128,
    FieldConversionError,
>)
    ensures
        match result {
            Ok(carried) => integer_in_range(value@, min as int, max as int) == Ok::<
                int,
                FieldConversionError,
            >(carried as int),
            Err(error) => integer_in_range(value@, min as int, max as int) == Err::<
                int,
                FieldConversionError,
            >(error),
        },
{
    let carried: i128 = match value {
        SqlValue::Signed8(i) => *i as i128,
        SqlValue::Signed16(i) => *i as i128,
        SqlValue::Signed32(i) => *i as i128,
        SqlValue::Signed64(i) => *i as i128,
        SqlValue::Signed128(i) => *i,
        SqlValue::Unsigned8(u) => *u as i128,
        SqlValue::Unsigned16(u) => *u as i128,
        SqlValue::Unsigned32(u) => *u as i128,
        SqlValue::Unsigned64(u) => *u as i128,
        SqlValue::Unsigned128(u) => {
            if *u > i128::MAX as u128 {
                return Err(FieldConversionError::ValueOutOfBounds);
            }
            *u as i128
        },
        _ => {
            return Err(FieldConversionError::IncorrectType);
        },
    };
    if min <= carried && carried <= max {
        Ok(carried)
    } else {
        Err(FieldConversionError::ValueOutOfBounds)
    }
}

/// Reads a value as an unsigned integer that is at most `max`.
pub fn unsigned_in_range(value: &SqlValue, max: u128) -> (result: Result<
    u128,
    FieldConversionError,
>)
    ensures
        match result {
            Ok(carried) => integer_in_range(value@, 0, max as int) == Ok::<
                int,
                FieldConversionError,
            >(carried as int),
            Err(error) => integer_in_range(value@, 0, max as int) == Err::<
                int,
                FieldConversionError,
            >(error),
        },
{
    let signed: i128 = match value {
        SqlValue::Signed8(i) => *i as i128,
        SqlValue::Signed16(i) => *i as i128,
        SqlValue::Signed32(i) => *i as i128,
        SqlValue::Signed64(i) => *i as i128,
        SqlValue::Signed128(i) => *i,
        SqlValue::Unsigned8(u) => *u as i128,
        SqlValue::Unsigned16(u) => *u as i128,
        SqlValue::Unsigned32(u) => *u as i128,
        SqlValue::Unsigned64(u) => *u as i128,
        SqlValue::Unsigned128(u) => {
            return if *u <= max {
                Ok(*u)
            } else {
                Err(FieldConversionError::ValueOutOfBounds)
            };
        },
        _ => {
            return Err(FieldConversionError::IncorrectType);
        },
    };
    if signed < 0 {
        Err(FieldConversionError::ValueOutOfBounds)
    } else if signed as u128 <= max {
        Ok(signed as u128)
    } else {
        Err(FieldConversionError::ValueOutOfBounds)
    }
}

impl RecordField for bool {
    open spec fn family() -> ValueFamily {
        ValueFamily::Boolean
    }

    open spec fn bounds() -> Option<(int, int)> {
        None
    }

    open spec fn decoded(value: SqlValueView) -> Result<bool, FieldConversionError> {
        match value {
            SqlValueView::Boolean(b) => Ok(b),
            _ => Err(FieldConversionError::IncorrectType),
        }
    }

    open spec fn encoded(native: bool) -> SqlValueView {
        SqlValueView::Boolean(native)
    }

    fn from_sql(sql_value: SqlValue) -> (result: Result<Self, FieldConversionError>) {
        if let SqlValue::Boolean(b) = sql_value {
            Ok(b)
        } else {
            Err(FieldConversionError::IncorrectType)
        }
    }

    fn into_sql(self) -> (sql_value: SqlValue) {
        SqlValue::Boolean(self)
    }

    proof fn law_round_trip(native: bool) {
    }

    proof fn law_incorrect_type(value: SqlValueView) {
    }

    proof fn law_value_out_of_bounds(value: SqlValueView) {
    }
}

impl RecordField for String {
    open spec fn family() -> ValueFamily {
        ValueFamily::Text
    }

    open spec fn bounds() -> Option<(int, int)> {
        None
    }

    open spec fn decoded(value: SqlValueView) -> Result<Seq<char>, FieldConversionError> {
        match value {
            SqlValueView::String(s) => Ok(s),
            _ => Err(FieldConversionError::IncorrectType),
        }
    }

    open spec fn encoded(native: Seq<char>) -> SqlValueView {
        SqlValueView::String(native)
    }

    fn from_sql(sql_value: SqlValue) -> (result: Result<Self, FieldConversionError>) {
        if let SqlValue::String(string) = sql_value {
            Ok(string)
        } else {
            Err(FieldConversionError::IncorrectType)
        }
    }

    fn into_sql(self) -> (sql_value: SqlValue) {
        SqlValue::String(self)
    }

    proof fn law_round_trip(native: Seq<char>) {
    }

    proof fn law_incorrect_type(value: SqlValueView) {
    }

    proof fn law_value_out_of_bounds(value: SqlValueView) {
    }
}

impl RecordField for Float32 {
    open spec fn family() -> ValueFamily {
        ValueFamily::Float32
    }

    open spec fn bounds() -> Option<(int, int)> {
        None
    }

    open spec fn decoded(value: SqlValueView) -> Result<Float32View, FieldConversionError> {
        match value {
            SqlValueView::Float32(f) => Ok(f),
            _ => Err(FieldConversionError::IncorrectType),
        }
    }

    open spec fn encoded(native: Float32View) -> SqlValueView {
        SqlValueView::Float32(native)
    }

    fn from_sql(sql_value: SqlValue) -> (result: Result<Self, FieldConversionError>) {
        if let SqlValue::Float32(f) = sql_value {
            Ok(f)
        } else {
            Err(FieldConversionError::IncorrectType)
        }
    }

    fn into_sql(self) -> (sql_value: SqlValue) {
        SqlValue::Float32(self)
    }

    proof fn law_round_trip(native: Float32View) {
    }

    proof fn law_incorrect_type(value: SqlValueView) {
    }

    proof fn law_value_out_of_bounds(value: SqlValueView) {
    }
}

impl RecordField for Float64 {
    open spec fn family() -> ValueFamily {
        ValueFamily::Float64
    }

    open spec fn bounds() -> Option<(int, int)> {
        None
    }

    open spec fn decoded(value: SqlValueView) -> Result<Float64View, FieldConversionError> {
        match value {
            SqlValueView::Float64(f) => Ok(f),
            _ => Err(FieldConversionError::IncorrectType),
        }
    }

    open spec fn encoded(native: Float64View) -> SqlValueView {
        SqlValueView::Float64(native)
    }

    fn from_sql(sql_value: SqlValue) -> (result: Result<Self, FieldConversionError>) {
        if let SqlValue::Float64(f) = sql_value {
            Ok(f)
        } else {
            Err(FieldConversionError::IncorrectType)
        }
    }

    fn into_sql(self) -> (sql_value: SqlValue) {
        SqlValue::Float64(self)
    }

    proof fn law_round_trip(native: Float64View) {
    }

    proof fn law_incorrect_type(value: SqlValueView) {
    }

    proof fn law_value_out_of_bounds(value: SqlValueView) {
    }
}

impl RecordField for i8 {
    open spec fn family() -> ValueFamily {
        ValueFamily::Integer
    }

    open spec fn bounds() -> Option<(int, int)> {
        Some((i8::MIN as int, i8::MAX as int))
    }

    open spec fn decoded(value: SqlValueView) -> Result<i8, FieldConversionError> {
        match integer_in_range(value, i8::MIN as int, i8::MAX as int) {
            Ok(carried) => Ok(carried as i8),
            Err(error) => Err(error),
        }
    }

    open spec fn encoded(native: i8) -> SqlValueView {
        SqlValueView::Signed128(native as i128)
    }

    fn from_sql(sql_value: SqlValue) -> (result: Result<Self, FieldConversionError>) {
        match signed_in_range(&sql_value, i8::MIN as i128, i8::MAX as i128) {
            Ok(carried) => Ok(carried as i8),
            Err(error) => Err(error),
        }
    }

    fn into_sql(self) -> (sql_value: SqlValue) {
        SqlValue::Signed128(self as i128)
    }

    proof fn law_round_trip(native: i8) {
    }

    proof fn law_incorrect_type(value: SqlValueView) {
    }

    proof fn law_value_out_of_bounds(value: SqlValueView) {
    }
}

impl RecordField for i16 {
    open spec fn family() -> ValueFamily {
        ValueFamily::Integer
    }

    open spec fn bounds() -> Option<(int, int)> {
        Some((i16::MIN as int, i16::MAX as int))
    }

    open spec fn decoded(value: SqlValueView) -> Result<i16, FieldConversionError> {
        match integer_in_range(value, i16::MIN as int, i16::MAX as int) {
            Ok(carried) => Ok(carried as i16),
            Err(error) => Err(error),
        }
    }

    open spec fn encoded(native: i16) -> SqlValueView {
        SqlValueView::Signed128(native as i128)
    }

    fn from_sql(sql_value: SqlValue) -> (result: Result<Self, FieldConversionError>) {
        match signed_in_range(&sql_value, i16::MIN as i128, i16::MAX as i128) {
            Ok(carried) => Ok(carried as i16),
            Err(error) => Err(error),
        }
    }

    fn into_sql(self) -> (sql_value: SqlValue) {
        SqlValue::Signed128(self as i128)
    }

    proof fn law_round_trip(native: i16) {
    }

    proof fn law_incorrect_type(value: SqlValueView) {
    }

    proof fn law_value_out_of_bounds(value: SqlValueView) {
    }
}

impl RecordField for i32 {
    open spec fn family() -> ValueFamily {
        ValueFamily::Integer
    }

    open spec fn bounds() -> Option<(int, int)> {
        Some((i32::MIN as int, i32::MAX as int))
    }

    open spec fn decoded(value: SqlValueView) -> Result<i32, FieldConversionError> {
        match integer_in_range(value, i32::MIN as int, i32::MAX as int) {
            Ok(carried) => Ok(carried as i32),
            Err(error) => Err(error),
        }
    }

    open spec fn encoded(native: i32) -> SqlValueView {
        SqlValueView::Signed128(native as i128)
    }

    fn from_sql(sql_value: SqlValue) -> (result: Result<Self, FieldConversionError>) {
        match signed_in_range(&sql_value, i32::MIN as i128, i32::MAX as i128) {
            Ok(carried) => Ok(carried as i32),
            Err(error) => Err(error),
        }
    }

    fn into_sql(self) -> (sql_value: SqlValue) {
        SqlValue::Signed128(self as i128)
    }

    proof fn law_round_trip(native: i32) {
    }

    proof fn law_incorrect_type(value: SqlValueView) {
    }

    proof fn law_value_out_of_bounds(value: SqlValueView) {
    }
}

impl RecordField for i64 {
    open spec fn family() -> ValueFamily {
        ValueFamily::Integer
    }

    open spec fn bounds() -> Option<(int, int)> {
        Some((i64::MIN as int, i64::MAX as int))
    }

    open spec fn decoded(value: SqlValueView) -> Result<i64, FieldConversionError> {
        match integer_in_range(value, i64::MIN as int, i64::MAX as int) {
            Ok(carried) => Ok(carried as i64),
            Err(error) => Err(error),
        }
    }

    open spec fn encoded(native: i64) -> SqlValueView {
        SqlValueView::Signed128(native as i128)
    }

    fn from_sql(sql_value: SqlValue) -> (result: Result<Self, FieldConversionError>) {
        match signed_in_range(&sql_value, i64::MIN as i128, i64::MAX as i128) {
            Ok(carried) => Ok(carried as i64),
            Err(error) => Err(error),
        }
    }

    fn into_sql(self) -> (sql_value: SqlValue) {
        SqlValue::Signed128(self as i128)
    }

    proof fn law_round_trip(native: i64) {
    }

    proof fn law_incorrect_type(value: SqlValueView) {
    }

    proof fn law_value_out_of_bounds(value: SqlValueView) {
    }
}

impl RecordField for i128 {
    open spec fn family() -> ValueFamily {
        ValueFamily::Integer
    }

    open spec fn bounds() -> Option<(int, int)> {
        Some((i128::MIN as int, i128::MAX as int))
    }

    open spec fn decoded(value: SqlValueView) -> Result<i128, FieldConversionError> {
        match integer_in_range(value, i128::MIN as int, i128::MAX as int) {
            Ok(carried) => Ok(carried as i128),
            Err(error) => Err(error),
        }
    }

    open spec fn encoded(native: i128) -> SqlValueView {
        SqlValueView::Signed128(native as i128)
    }

    fn from_sql(sql_value: SqlValue) -> (result: Result<Self, FieldConversionError>) {
        match signed_in_range(&sql_value, i128::MIN as i128, i128::MAX as i128) {
            Ok(carried) => Ok(carried),
            Err(error) => Err(error),
        }
    }

    fn into_sql(self) -> (sql_value: SqlValue) {
        SqlValue::Signed128(self)
    }

    proof fn law_round_trip(native: i128) {
    }

    proof fn law_incorrect_type(value: SqlValueView) {
    }

    proof fn law_value_out_of_bounds(value: SqlValueView) {
    }
}

impl RecordField for u8 {
    open spec fn family() -> ValueFamily {
        ValueFamily::Integer
    }

    open spec fn bounds() -> Option<(int, int)> {
        Some((u8::MIN as int, u8::MAX as int))
    }

    open spec fn decoded(value: SqlValueView) -> Result<u8, FieldConversionError> {
        match integer_in_range(value, u8::MIN as int, u8::MAX as int) {
            Ok(carried) => Ok(carried as u8),
            Err(error) => Err(error),
        }
    }

    open spec fn encoded(native: u8) -> SqlValueView {
        SqlValueView::Unsigned128(native as u128)
    }

    fn from_sql(sql_value: SqlValue) -> (result: Result<Self, FieldConversionError>) {
        match unsigned_in_range(&sql_value, u8::MAX as u128) {
            Ok(carried) => Ok(carried as u8),
            Err(error) => Err(error),
        }
    }

    fn into_sql(self) -> (sql_value: SqlValue) {
        SqlValue::Unsigned128(self as u128)
    }

    proof fn law_round_trip(native: u8) {
    }

    proof fn law_incorrect_type(value: SqlValueView) {
    }

    proof fn law_value_out_of_bounds(value: SqlValueView) {
    }
}

impl RecordField for u16 {
    open spec fn family() -> ValueFamily {
        ValueFamily::Integer
    }

    open spec fn bounds() -> Option<(int, int)> {
        Some((u16::MIN as int, u16::MAX as int))
    }

    open spec fn decoded(value: SqlValueView) -> Result<u16, FieldConversionError> {
        match integer_in_range(value, u16::MIN as int, u16::MAX as int) {
            Ok(carried) => Ok(carried as u16),
            Err(error) => Err(error),
        }
    }

    open spec fn encoded(native: u16) -> SqlValueView {
        SqlValueView::Unsigned128(native as u128)
    }

    fn from_sql(sql_value: SqlValue) -> (result: Result<Self, FieldConversionError>) {
        match unsigned_in_range(&sql_value, u16::MAX as u128) {
            Ok(carried) => Ok(carried as u16),
            Err(error) => Err(error),
        }
    }

    fn into_sql(self) -> (sql_value: SqlValue) {
        SqlValue::Unsigned128(self as u128)
    }

    proof fn law_round_trip(native: u16) {
    }

    proof fn law_incorrect_type(value: SqlValueView) {
    }

    proof fn law_value_out_of_bounds(value: SqlValueView) {
    }
}

impl RecordField for u32 {
    open spec fn family() -> ValueFamily {
        ValueFamily::Integer
    }

    open spec fn bounds() -> Option<(int, int)> {
        Some((u32::MIN as int, u32::MAX as int))
    }

    open spec fn decoded(value: SqlValueView) -> Result<u32, FieldConversionError> {
        match integer_in_range(value, u32::MIN as int, u32::MAX as int) {
            Ok(carried) => Ok(carried as u32),
            Err(error) => Err(error),
        }
    }

    open spec fn encoded(native: u32) -> SqlValueView {
        SqlValueView::Unsigned128(native as u128)
    }

    fn from_sql(sql_value: SqlValue) -> (result: Result<Self, FieldConversionError>) {
        match unsigned_in_range(&sql_value, u32::MAX as u128) {
            Ok(carried) => Ok(carried as u32),
            Err(error) => Err(error),
        }
    }

    fn into_sql(self) -> (sql_value: SqlValue) {
        SqlValue::Unsigned128(self as u128)
    }

    proof fn law_round_trip(native: u32) {
    }

    proof fn law_incorrect_type(value: SqlValueView) {
    }

    proof fn law_value_out_of_bounds(value: SqlValueView) {
    }
}

impl RecordField for u64 {
    open spec fn family() -> ValueFamily {
        ValueFamily::Integer
    }

    open spec fn bounds() -> Option<(int, int)> {
        Some((u64::MIN as int, u64::MAX as int))
    }

    open spec fn decoded(value: SqlValueView) -> Result<u64, FieldConversionError> {
        match integer_in_range(value, u64::MIN as int, u64::MAX as int) {
            Ok(carried) => Ok(carried as u64),
            Err(error) => Err(error),
        }
    }

    open spec fn encoded(native: u64) -> SqlValueView {
        SqlValueView::Unsigned128(native as u128)
    }

    fn from_sql(sql_value: SqlValue) -> (result: Result<Self, FieldConversionError>) {
        match unsigned_in_range(&sql_value, u64::MAX as u128) {
            Ok(carried) => Ok(carried as u64),
            Err(error) => Err(error),
        }
    }

    fn into_sql(self) -> (sql_value: SqlValue) {
        SqlValue::Unsigned128(self as u128)
    }

    proof fn law_round_trip(native: u64) {
    }

    proof fn law_incorrect_type(value: SqlValueView) {
    }

    proof fn law_value_out_of_bounds(value: SqlValueView) {
    }
}

impl RecordField for u128 {
    open spec fn family() -> ValueFamily {
        ValueFamily::Integer
    }

    open spec fn bounds() -> Option<(int, int)> {
        Some((u128::MIN as int, u128::MAX as int))
    }

    open spec fn decoded(value: SqlValueView) -> Result<u128, FieldConversionError> {
        match integer_in_range(value, u128::MIN as int, u128::MAX as int) {
            Ok(carried) => Ok(carried as u128),
            Err(error) => Err(error),
        }
    }

    open spec fn encoded(native: u128) -> SqlValueView {
        SqlValueView::Unsigned128(native as u128)
    }

    fn from_sql(sql_value: SqlValue) -> (result: Result<Self, FieldConversionError>) {
        match unsigned_in_range(&sql_value, u128::MAX as u128) {
            Ok(carried) => Ok(carried),
            Err(error) => Err(error),
        }
    }

    fn into_sql(self) -> (sql_value: SqlValue) {
        SqlValue::Unsigned128(self)
    }

    proof fn law_round_trip(native: u128) {
    }

    proof fn law_incorrect_type(value: SqlValueView) {
    }

    proof fn law_value_out_of_bounds(value: SqlValueView) {
    }
}

} // verus!
