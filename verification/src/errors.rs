//! The errors of the library, from the smallest scope to the widest: one
//! field, one row, one execution, and the errors that code generation ends in.

use vstd::prelude::*;
use vstd::std_specs::convert::FromSpecImpl;

verus! {

/// Why one SQL value could not be read as a native type.
#[derive(Debug, Clone, Copy, PartialEq, Eq, Structural)]
pub enum FieldConversionError {
    /// The value belongs to another family than the native type.
    IncorrectType,
    /// The value is an integer that the native type cannot represent.
    ValueOutOfBounds,
}

/// A failure of the executor to produce a row at all.
#[derive(Debug, PartialEq, Eq)]
pub enum RawRowConversionError {
    /// Whatever the executor reported, as text.
    Other { message: String },
}

/// What a raw row error holds, with its text as a sequence.
pub ghost enum RawRowConversionErrorView {
    Other { message: Seq<char> },
}

impl View for RawRowConversionError {
    type V = RawRowConversionErrorView;

    open spec fn view(&self) -> RawRowConversionErrorView {
        match *self {
            RawRowConversionError::Other { message } => RawRowConversionErrorView::Other {
                message: message@,
            },
        }
    }
}

/// Why one row could not be turned into a typed result.
#[derive(Debug, PartialEq, Eq)]
pub enum RowConversionError {
    /// The row ended before the named field got a value.
    MissingFieldValue { field_name: String },
    /// The value at the named field's position could not be converted.
    FieldConversion { field_name: String, error: FieldConversionError },
    /// The executor failed on this row before any field was read.
    Raw(RawRowConversionError),
}

/// What a row error holds, with its texts as sequences.
pub ghost enum RowConversionErrorView {
    MissingFieldValue { field_name: Seq<char> },
    FieldConversion { field_name: Seq<char>, error: FieldConversionError },
    Raw(RawRowConversionErrorView),
}

impl View for RowConversionError {
    type V = RowConversionErrorView;

    open spec fn view(&self) -> RowConversionErrorView {
        match *self {
            RowConversionError::MissingFieldValue { field_name } => {
                RowConversionErrorView::MissingFieldValue { field_name: field_name@ }
            },
            RowConversionError::FieldConversion { field_name, error } => {
                RowConversionErrorView::FieldConversion { field_name: field_name@, error }
            },
            RowConversionError::Raw(error) => RowConversionErrorView::Raw(error@),
        }
    }
}

impl From<RawRowConversionError> for RowConversionError {
    fn from(error: RawRowConversionError) -> (wrapped: RowConversionError) {
        RowConversionError::Raw(error)
    }
}

impl FromSpecImpl<RawRowConversionError> for RowConversionError {
    open spec fn obeys_from_spec() -> bool {
        true
    }

    open spec fn from_spec(error: RawRowConversionError) -> RowConversionError {
        RowConversionError::Raw(error)
    }
}

/// A connection that could not be opened.
#[derive(Debug, PartialEq, Eq)]
pub struct ConnectionError {
    connection_string: String,
}

impl View for ConnectionError {
    type V = Seq<char>;

    /// The connection string that was tried.
    closed spec fn view(&self) -> Seq<char> {
        self.connection_string@
    }
}

impl ConnectionError {
    /// The error for the connection string that was tried.
    pub fn new(connection_string: String) -> (error: ConnectionError)
        ensures
            error@ == connection_string@,
    {
        ConnectionError { connection_string }
    }

    /// The connection string that was tried.
    pub fn connection_string(&self) -> (s: &String)
        ensures
            s@ == self@,
    {
        &self.connection_string
    }
}

/// A statement that the executor could not run.
#[derive(Debug, PartialEq, Eq)]
pub enum SqlExecutionError {
    /// Whatever the executor reported, as text.
    Other { message: String },
}

/// Any failure of a connection: on opening it or on running a statement.
#[derive(Debug, PartialEq, Eq)]
pub enum WormError {
    Connection(ConnectionError),
    Execution(SqlExecutionError),
}

impl From<ConnectionError> for WormError {
    fn from(error: ConnectionError) -> (wrapped: WormError) {
        WormError::Connection(error)
    }
}

impl FromSpecImpl<ConnectionError> for WormError {
    open spec fn obeys_from_spec() -> bool {
        true
    }

    open spec fn from_spec(error: ConnectionError) -> WormError {
        WormError::Connection(error)
    }
}

impl From<SqlExecutionError> for WormError {
    fn from(error: SqlExecutionError) -> (wrapped: WormError) {
        WormError::Execution(error)
    }
}

impl FromSpecImpl<SqlExecutionError> for WormError {
    open spec fn obeys_from_spec() -> bool {
        true
    }

    open spec fn from_spec(error: SqlExecutionError) -> WormError {
        WormError::Execution(error)
    }
}

} // verus!
