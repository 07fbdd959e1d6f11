//! Raw SQL: the values a cell can hold, the native types they convert to, and
//! the rows they come in.

pub mod fields;
pub mod floats;
pub mod native;
pub mod rows;
pub mod values;

pub use self::fields::RecordField;
pub use self::rows::SqlRow;
pub use self::values::SqlValue;
use vstd::prelude::*;
use crate::errors::RowConversionError;

verus! {

/// A type that can be returned by a SQL query.
pub trait SqlResult: Sized {
    /// Converts a SQL row into an instance of the type.
    fn from_row(row: SqlRow) -> Result<Self, RowConversionError>;
}

impl SqlResult for () {
    /// A statement that returns nothing of interest: any row will do.
    fn from_row(row: SqlRow) -> (result: Result<Self, RowConversionError>)
        ensures
            result == Ok::<(), RowConversionError>(()),
    {
        Ok(())
    }
}

} // verus!
