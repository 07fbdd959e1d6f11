//! The native scalar types that a SQL value converts to and from, and a
//! value of any one of them.

use vstd::prelude::*;
use crate::errors::FieldConversionError;
use crate::sql::fields::RecordField;
use crate::sql::floats::Float32;
use crate::sql::floats::Float32View;
use crate::sql::floats::Float64;
use crate::sql::floats::Float64View;
use crate::sql::values::SqlValue;
use crate::sql::values::SqlValueView;
use crate::text::same_text;

verus! {

/// One of the native scalar types that a field of a struct can have.
#[derive(Debug, Clone, Copy, PartialEq, Eq, Structural)]
pub enum NativeType {
    Boolean,
    Float32,
    Float64,
    String,
    Signed8,
    Signed16,
    Signed32,
    Signed64,
    Signed128,
    Unsigned8,
    Unsigned16,
    Unsigned32,
    Unsigned64,
    Unsigned128,
}

/// A value of one of the native scalar types.
#[derive(Debug, PartialEq, Eq)]
pub enum NativeValue {
    Boolean(bool),
    Float32(Float32),
    Float64(Float64),
    String(String),
    Signed8(i8),
    Signed16(i16),
    Signed32(i32),
    Signed64(i64),
    Signed128(i128),
    Unsigned8(u8),
    Unsigned16(u16),
    Unsigned32(u32),
    Unsigned64(u64),
    Unsigned128(u128),
}

/// What a native value holds, with text as a sequence.
pub ghost enum NativeValueView {
    Boolean(bool),
    Float32(Float32View),
    Float64(Float64View),
    String(Seq<char>),
    Signed8(i8),
    Signed16(i16),
    Signed32(i32),
    Signed64(i64),
    Signed128(i128),
    Unsigned8(u8),
    Unsigned16(u16),
    Unsigned32(u32),
    Unsigned64(u64),
    Unsigned128(u128),
}

impl View for NativeValue {
    type V = NativeValueView;

    open spec fn view(&self) -> NativeValueView {
        match *self {
            NativeValue::Boolean(x) => NativeValueView::Boolean(x),
            NativeValue::Float32(x) => NativeValueView::Float32(x@),
            NativeValue::Float64(x) => NativeValueView::Float64(x@),
            NativeValue::String(x) => NativeValueView::String(x@),
            NativeValue::Signed8(x) => NativeValueView::Signed8(x),
            NativeValue::Signed16(x) => NativeValueView::Signed16(x),
            NativeValue::Signed32(x) => NativeValueView::Signed32(x),
            NativeValue::Signed64(x) => NativeValueView::Signed64(x),
            NativeValue::Signed128(x) => NativeValueView::Signed128(x),
            NativeValue::Unsigned8(x) => NativeValueView::Unsigned8(x),
            NativeValue::Unsigned16(x) => NativeValueView::Unsigned16(x),
            NativeValue::Unsigned32(x) => NativeValueView::Unsigned32(x),
            NativeValue::Unsigned64(x) => NativeValueView::Unsigned64(x),
            NativeValue::Unsigned128(x) => NativeValueView::Unsigned128(x),
        }
    }
}

/// The views of some native values, in their order.
pub open spec fn native_views(values: Seq<NativeValue>) -> Seq<NativeValueView> {
    values.map_values(|value: NativeValue| value@)
}

impl NativeValueView {
    /// The native type of the value.
    pub open spec fn native_type(self) -> NativeType {
        match self {
            NativeValueView::Boolean(_) => NativeType::Boolean,
            NativeValueView::Float32(_) => NativeType::Float32,
            NativeValueView::Float64(_) => NativeType::Float64,
            NativeValueView::String(_) => NativeType::String,
            NativeValueView::Signed8(_) => NativeType::Signed8,
            NativeValueView::Signed16(_) => NativeType::Signed16,
            NativeValueView::Signed32(_) => NativeType::Signed32,
            NativeValueView::Signed64(_) => NativeType::Signed64,
            NativeValueView::Signed128(_) => NativeType::Signed128,
            NativeValueView::Unsigned8(_) => NativeType::Unsigned8,
            NativeValueView::Unsigned16(_) => NativeType::Unsigned16,
            NativeValueView::Unsigned32(_) => NativeType::Unsigned32,
            NativeValueView::Unsigned64(_) => NativeType::Unsigned64,
            NativeValueView::Unsigned128(_) => NativeType::Unsigned128,
        }
    }

    /// The SQL value that the native value converts to.
    pub open spec fn encoded(self) -> SqlValueView {
        match self {
            NativeValueView::Boolean(x) => <bool as RecordField>::encoded(x),
            NativeValueView::Float32(x) => <Float32 as RecordField>::encoded(x),
            NativeValueView::Float64(x) => <Float64 as RecordField>::encoded(x),
            NativeValueView::String(x) => <String as RecordField>::encoded(x),
            NativeValueView::Signed8(x) => <i8 as RecordField>::encoded(x),
            NativeValueView::Signed16(x) => <i16 as RecordField>::encoded(x),
            NativeValueView::Signed32(x) => <i32 as RecordField>::encoded(x),
            NativeValueView::Signed64(x) => <i64 as RecordField>::encoded(x),
            NativeValueView::Signed128(x) => <i128 as RecordField>::encoded(x),
            NativeValueView::Unsigned8(x) => <u8 as RecordField>::encoded(x),
            NativeValueView::Unsigned16(x) => <u16 as RecordField>::encoded(x),
            NativeValueView::Unsigned32(x) => <u32 as RecordField>::encoded(x),
            NativeValueView::Unsigned64(x) => <u64 as RecordField>::encoded(x),
            NativeValueView::Unsigned128(x) => <u128 as RecordField>::encoded(x),
        }
    }
}

/// What reading a SQL value as the given native type comes to.
pub open spec fn native_decoded(native_type: NativeType, value: SqlValueView) -> Result<
    NativeValueView,
    FieldConversionError,
> {
    match native_type {
        NativeType::Boolean => match <bool as RecordField>::decoded(value) {
            Ok(x) => Ok(NativeValueView::Boolean(x)),
            Err(error) => Err(error),
        },
        NativeType::Float32 => match <Float32 as RecordField>::decoded(value) {
            Ok(x) => Ok(NativeValueView::Float32(x)),
            Err(error) => Err(error),
        },
        NativeType::Float64 => match <Float64 as RecordField>::decoded(value) {
            Ok(x) => Ok(NativeValueView::Float64(x)),
            Err(error) => Err(error),
        },
        NativeType::String => match <String as RecordField>::decoded(value) {
            Ok(x) => Ok(NativeValueView::String(x)),
            Err(error) => Err(error),
        },
        NativeType::Signed8 => match <i8 as RecordField>::decoded(value) {
            Ok(x) => Ok(NativeValueView::Signed8(x)),
            Err(error) => Err(error),
        },
        NativeType::Signed16 => match <i16 as RecordField>::decoded(value) {
            Ok(x) => Ok(NativeValueView::Signed16(x)),
            Err(error) => Err(error),
        },
        NativeType::Signed32 => match <i32 as RecordField>::decoded(value) {
            Ok(x) => Ok(NativeValueView::Signed32(x)),
            Err(error) => Err(error),
        },
        NativeType::Signed64 => match <i64 as RecordField>::decoded(value) {
            Ok(x) => Ok(NativeValueView::Signed64(x)),
            Err(error) => Err(error),
        },
        NativeType::Signed128 => match <i128 as RecordField>::decoded(value) {
            Ok(x) => Ok(NativeValueView::Signed128(x)),
            Err(error) => Err(error),
        },
        NativeType::Unsigned8 => match <u8 as RecordField>::decoded(value) {
            Ok(x) => Ok(NativeValueView::Unsigned8(x)),
            Err(error) => Err(error),
        },
        NativeType::Unsigned16 => match <u16 as RecordField>::decoded(value) {
            Ok(x) => Ok(NativeValueView::Unsigned16(x)),
            Err(error) => Err(error),
        },
        NativeType::Unsigned32 => match <u32 as RecordField>::decoded(value) {
            Ok(x) => Ok(NativeValueView::Unsigned32(x)),
            Err(error) => Err(error),
        },
        NativeType::Unsigned64 => match <u64 as RecordField>::decoded(value) {
            Ok(x) => Ok(NativeValueView::Unsigned64(x)),
            Err(error) => Err(error),
        },
        NativeType::Unsigned128 => match <u128 as RecordField>::decoded(value) {
            Ok(x) => Ok(NativeValueView::Unsigned128(x)),
            Err(error) => Err(error),
        },
    }
}

impl NativeType {
    /// The name of the native type in Rust.
    pub open spec fn name(self) -> Seq<char> {
        match self {
            NativeType::Boolean => "bool"@,
            NativeType::Float32 => "f32"@,
            NativeType::Float64 => "f64"@,
            NativeType::String => "String"@,
            NativeType::Signed8 => "i8"@,
            NativeType::Signed16 => "i16"@,
            NativeType::Signed32 => "i32"@,
            NativeType::Signed64 => "i64"@,
            NativeType::Signed128 => "i128"@,
            NativeType::Unsigned8 => "u8"@,
            NativeType::Unsigned16 => "u16"@,
            NativeType::Unsigned32 => "u32"@,
            NativeType::Unsigned64 => "u64"@,
            NativeType::Unsigned128 => "u128"@,
        }
    }

    /// The native type of the given name in Rust, if the name is that of
    /// one.
    pub fn named(name: &str) -> (native_type: Option<NativeType>)
        ensures
            match native_type {
                Some(native_type) => native_type.name() == name@,
                None => forall|native_type: NativeType| native_type.name() != name@,
            },
    {
        if same_text(name, "bool") {
            Some(NativeType::Boolean)
        } else if same_text(name, "f32") {
            Some(NativeType::Float32)
        } else if same_text(name, "f64") {
            Some(NativeType::Float64)
        } else if same_text(name, "String") {
            Some(NativeType::String)
        } else if same_text(name, "i8") {
            Some(NativeType::Signed8)
        } else if same_text(name, "i16") {
            Some(NativeType::Signed16)
        } else if same_text(name, "i32") {
            Some(NativeType::Signed32)
        } else if same_text(name, "i64") {
            Some(NativeType::Signed64)
        } else if same_text(name, "i128") {
            Some(NativeType::Signed128)
        } else if same_text(name, "u8") {
            Some(NativeType::Unsigned8)
        } else if same_text(name, "u16") {
            Some(NativeType::Unsigned16)
        } else if same_text(name, "u32") {
            Some(NativeType::Unsigned32)
        } else if same_text(name, "u64") {
            Some(NativeType::Unsigned64)
        } else if same_text(name, "u128") {
            Some(NativeType::Unsigned128)
        } else {
            None
        }
    }

    /// Reads a SQL value as this native type.
    pub fn from_sql(self, sql_value: SqlValue) -> (result: Result<NativeValue, FieldConversionError>)
        ensures
            match result {
                Ok(native) => native_decoded(self, sql_value@) == Ok::<
                    NativeValueView,
                    FieldConversionError,
                >(native@),
                Err(error) => native_decoded(self, sql_value@) == Err::<
                    NativeValueView,
                    FieldConversionError,
                >(error),
            },
    {
        match self {
            NativeType::Boolean => match <bool as RecordField>::from_sql(sql_value) {
                Ok(x) => Ok(NativeValue::Boolean(x)),
                Err(error) => Err(error),
            },
            NativeType::Float32 => match <Float32 as RecordField>::from_sql(sql_value) {
                Ok(x) => Ok(NativeValue::Float32(x)),
                Err(error) => Err(error),
            },
            NativeType::Float64 => match <Float64 as RecordField>::from_sql(sql_value) {
                Ok(x) => Ok(NativeValue::Float64(x)),
                Err(error) => Err(error),
            },
            NativeType::String => match <String as RecordField>::from_sql(sql_value) {
                Ok(x) => Ok(NativeValue::String(x)),
                Err(error) => Err(error),
            },
            NativeType::Signed8 => match <i8 as RecordField>::from_sql(sql_value) {
                Ok(x) => Ok(NativeValue::Signed8(x)),
                Err(error) => Err(error),
            },
            NativeType::Signed16 => match <i16 as RecordField>::from_sql(sql_value) {
                Ok(x) => Ok(NativeValue::Signed16(x)),
                Err(error) => Err(error),
            },
            NativeType::Signed32 => match <i32 as RecordField>::from_sql(sql_value) {
                Ok(x) => Ok(NativeValue::Signed32(x)),
                Err(error) => Err(error),
            },
            NativeType::Signed64 => match <i64 as RecordField>::from_sql(sql_value) {
                Ok(x) => Ok(NativeValue::Signed64(x)),
                Err(error) => Err(error),
            },
            NativeType::Signed128 => match <i128 as RecordField>::from_sql(sql_value) {
                Ok(x) => Ok(NativeValue::Signed128(x)),
                Err(error) => Err(error),
            },
            NativeType::Unsigned8 => match <u8 as RecordField>::from_sql(sql_value) {
                Ok(x) => Ok(NativeValue::Unsigned8(x)),
                Err(error) => Err(error),
            },
            NativeType::Unsigned16 => match <u16 as RecordField>::from_sql(sql_value) {
                Ok(x) => Ok(NativeValue::Unsigned16(x)),
                Err(error) => Err(error),
            },
            NativeType::Unsigned32 => match <u32 as RecordField>::from_sql(sql_value) {
                Ok(x) => Ok(NativeValue::Unsigned32(x)),
                Err(error) => Err(error),
            },
            NativeType::Unsigned64 => match <u64 as RecordField>::from_sql(sql_value) {
                Ok(x) => Ok(NativeValue::Unsigned64(x)),
                Err(error) => Err(error),
            },
            NativeType::Unsigned128 => match <u128 as RecordField>::from_sql(sql_value) {
                Ok(x) => Ok(NativeValue::Unsigned128(x)),
                Err(error) => Err(error),
            },
        }
    }
}

impl NativeValue {
    /// The native type of the value.
    pub fn native_type(&self) -> (native_type: NativeType)
        ensures
            native_type == self@.native_type(),
    {
        match self {
            NativeValue::Boolean(_) => NativeType::Boolean,
            NativeValue::Float32(_) => NativeType::Float32,
            NativeValue::Float64(_) => NativeType::Float64,
            NativeValue::String(_) => NativeType::String,
            NativeValue::Signed8(_) => NativeType::Signed8,
            NativeValue::Signed16(_) => NativeType::Signed16,
            NativeValue::Signed32(_) => NativeType::Signed32,
            NativeValue::Signed64(_) => NativeType::Signed64,
            NativeValue::Signed128(_) => NativeType::Signed128,
            NativeValue::Unsigned8(_) => NativeType::Unsigned8,
            NativeValue::Unsigned16(_) => NativeType::Unsigned16,
            NativeValue::Unsigned32(_) => NativeType::Unsigned32,
            NativeValue::Unsigned64(_) => NativeType::Unsigned64,
            NativeValue::Unsigned128(_) => NativeType::Unsigned128,
        }
    }

    /// The SQL value that the native value converts to.
    pub fn to_sql(&self) -> (sql_value: SqlValue)
        ensures
            sql_value@ == self@.encoded(),
    {
        match self {
            NativeValue::Boolean(x) => (*x).into_sql(),
            NativeValue::Float32(x) => Float32::new(x.bits(), x.literal().clone()).into_sql(),
            NativeValue::Float64(x) => Float64::new(x.bits(), x.literal().clone()).into_sql(),
            NativeValue::String(x) => x.clone().into_sql(),
            NativeValue::Signed8(x) => (*x).into_sql(),
            NativeValue::Signed16(x) => (*x).into_sql(),
            NativeValue::Signed32(x) => (*x).into_sql(),
            NativeValue::Signed64(x) => (*x).into_sql(),
            NativeValue::Signed128(x) => (*x).into_sql(),
            NativeValue::Unsigned8(x) => (*x).into_sql(),
            NativeValue::Unsigned16(x) => (*x).into_sql(),
            NativeValue::Unsigned32(x) => (*x).into_sql(),
            NativeValue::Unsigned64(x) => (*x).into_sql(),
            NativeValue::Unsigned128(x) => (*x).into_sql(),
        }
    }

    /// Converts the native value to a SQL value.
    pub fn into_sql(self) -> (sql_value: SqlValue)
        ensures
            sql_value@ == self@.encoded(),
    {
        match self {
            NativeValue::Boolean(x) => x.into_sql(),
            NativeValue::Float32(x) => x.into_sql(),
            NativeValue::Float64(x) => x.into_sql(),
            NativeValue::String(x) => x.into_sql(),
            NativeValue::Signed8(x) => x.into_sql(),
            NativeValue::Signed16(x) => x.into_sql(),
            NativeValue::Signed32(x) => x.into_sql(),
            NativeValue::Signed64(x) => x.into_sql(),
            NativeValue::Signed128(x) => x.into_sql(),
            NativeValue::Unsigned8(x) => x.into_sql(),
            NativeValue::Unsigned16(x) => x.into_sql(),
            NativeValue::Unsigned32(x) => x.into_sql(),
            NativeValue::Unsigned64(x) => x.into_sql(),
            NativeValue::Unsigned128(x) => x.into_sql(),
        }
    }
}

/// A value that is read as a native type is of that type.
pub proof fn lemma_decoded_has_native_type(native_type: NativeType, value: SqlValueView)
    ensures
        native_decoded(native_type, value) matches Ok(native) ==> native.native_type()
            == native_type,
{
}

/// A native value that is converted to a SQL value and read back as its own
/// type is the native value again.
pub proof fn lemma_native_round_trip(native: NativeValueView)
    ensures
        native_decoded(native.native_type(), native.encoded()) == Ok::<
            NativeValueView,
            FieldConversionError,
        >(native),
{
}

} // verus!
