//! Types that execute raw SQL within a DBMS.

use vstd::prelude::*;
use crate::errors::ConnectionError;
use crate::errors::RowConversionError;
use crate::errors::SqlExecutionError;
use crate::sql::SqlRow;

verus! {

/// A type which can execute SQL.
pub trait SqlExecutor: Sized {
    /// The iterator that is returned by the executor: a row, or why there
    /// is none, for each row of the result set, in the order of the result
    /// set.
    type ResultIter<'a>: Iterator<Item = Result<SqlRow, RowConversionError>> where Self: 'a;

    /// Creates a SqlExecutor with the provided connection string.
    fn connect(connection_string: &str) -> Result<Self, ConnectionError>;

    /// Executes the supplied script.
    fn execute_sql<'a>(&'a mut self, sql: &str) -> Result<Self::ResultIter<'a>, SqlExecutionError>;
}

} // verus!
