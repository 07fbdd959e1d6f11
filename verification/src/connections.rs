//! Types for interacting with a database.

use vstd::prelude::*;
use crate::errors::RowConversionError;
use crate::errors::SqlExecutionError;
use crate::errors::WormError;
use crate::executors::SqlExecutor;
use crate::results::QueryResults;
use crate::Script;
use crate::sql::SqlResult;
use crate::sql::SqlRow;

verus! {

/// An active connection with a database which automatically converts between
/// SQL types and Rust types.
pub struct Connection<E> where E: SqlExecutor {
    /// The executor which connects to the database.
    executor: E,
}

impl<E> View for Connection<E> where E: SqlExecutor {
    type V = E;

    /// The executor of the connection.
    closed spec fn view(&self) -> E {
        self.executor
    }
}

/// Whether `results` is what an execution comes to: the results over the
/// rows that the executor returned, or the error of the executor as an
/// error of the connection.
pub open spec fn results_of<T, I>(
    outcome: Result<I, SqlExecutionError>,
    results: Result<QueryResults<T, I>, WormError>,
) -> bool where T: SqlResult, I: Iterator<Item = Result<SqlRow, RowConversionError>> {
    match outcome {
        Ok(row_iter) => results matches Ok(results) && results.row_iter() == row_iter,
        Err(error) => results matches Err(WormError::Execution(wrapped)) && wrapped == error,
    }
}

/// Wraps what an executor returned for a statement.
pub fn query_results<T, I>(outcome: Result<I, SqlExecutionError>) -> (results: Result<
    QueryResults<T, I>,
    WormError,
>) where T: SqlResult, I: Iterator<Item = Result<SqlRow, RowConversionError>>
    ensures
        results_of(outcome, results),
{
    match outcome {
        Ok(row_iter) => Ok(QueryResults::new(row_iter)),
        Err(error) => Err(WormError::Execution(error)),
    }
}

impl<E> Connection<E> where E: SqlExecutor {
    /// Creates a new connection with the provided executor.
    pub fn new(executor: E) -> (connection: Self)
        ensures
            connection@ == executor,
    {
        Self { executor }
    }

    /// Executes a provided script: compiles it, has the executor run the
    /// SQL, and wraps what the executor returned.
    ///
    /// The executor of the connection is handed the text that the script
    /// compiled to, once, and is left as that call left it.
    pub fn execute<'a, S>(&'a mut self, script: S) -> (results: Result<
        QueryResults<S::Output, E::ResultIter<'a>>,
        WormError,
    >) where S: Script
        ensures
            exists|
                sql: String,
                handed: &str,
                executor: &mut E,
                outcome: Result<E::ResultIter<'a>, SqlExecutionError>,
            |
                {
                    &&& #[trigger] call_ensures(S::compile, (script,), sql)
                    &&& handed@ == sql@
                    &&& mut_ref_current(executor) == old(self)@
                    &&& mut_ref_future(executor) == final(self)@
                    &&& #[trigger] call_ensures(E::execute_sql, (executor, handed), outcome)
                    &&& results_of(outcome, results)
                },
    {
        let sql = script.compile();
        let outcome = self.executor.execute_sql(sql.as_str());
        query_results(outcome)
    }
}

} // verus!
