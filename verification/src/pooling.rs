//! Types that allow for database connection pooling: what a pool asks of
//! the manager of its connections.

use vstd::prelude::*;
use crate::connections::Connection;
use crate::errors::ConnectionError;
use crate::errors::RowConversionError;
use crate::errors::SqlExecutionError;
use crate::errors::WormError;
use crate::executors::SqlExecutor;
use crate::results::QueryResults;
use crate::sql::SqlResult;
use crate::sql::SqlRow;
use crate::Script;
use core::marker::PhantomData;

verus! {

/// The text of the statement by which a connection is tried.
pub const TEST_STATEMENT: &'static str = "SELECT 1;";

/// The statement by which a connection is tried.
pub struct TestScript {}

impl Script for TestScript {
    type Output = ();

    fn compile(self) -> (sql: String)
        ensures
            sql@ == TEST_STATEMENT@,
    {
        TEST_STATEMENT.to_owned()
    }
}

/// A type that is used to manage pooled [Connection] instances.
pub struct ConnectionManager<E> where E: SqlExecutor {
    connection_string: String,
    __: PhantomData<E>,
}

impl<E> View for ConnectionManager<E> where E: SqlExecutor {
    type V = Seq<char>;

    /// The connection string by which the manager opens connections.
    closed spec fn view(&self) -> Seq<char> {
        self.connection_string@
    }
}

/// What opening a connection comes to: a connection over the executor that
/// was opened, or the error of the opening as an error of the connection.
pub open spec fn connection_of<E: SqlExecutor>(
    opened: Result<E, ConnectionError>,
    connection: Result<Connection<E>, WormError>,
) -> bool {
    match opened {
        Ok(executor) => connection matches Ok(connection) && connection@ == executor,
        Err(error) => connection matches Err(WormError::Connection(wrapped)) && wrapped == error,
    }
}

/// Wraps what opening an executor came to.
pub fn opened_connection<E: SqlExecutor>(opened: Result<E, ConnectionError>) -> (connection: Result<
    Connection<E>,
    WormError,
>)
    ensures
        connection_of(opened, connection),
{
    match opened {
        Ok(executor) => Ok(Connection::new(executor)),
        Err(error) => Err(WormError::Connection(error)),
    }
}

/// Whether `valid` is what trying a connection comes to, given what the
/// executor returned for the test statement: rows of any kind make the
/// connection valid, and an error of the executor is the error of the trial.
pub open spec fn validity_of<I>(
    outcome: Result<I, SqlExecutionError>,
    valid: Result<(), WormError>,
) -> bool {
    match outcome {
        Ok(_) => valid == Ok::<(), WormError>(()),
        Err(error) => valid == Err::<(), WormError>(WormError::Execution(error)),
    }
}

/// What trying a connection comes to, given the results of the test
/// statement: the results themselves are of no interest, and an error is
/// passed on.
pub fn validity<T, I>(results: Result<QueryResults<T, I>, WormError>) -> (valid: Result<
    (),
    WormError,
>) where T: SqlResult, I: Iterator<Item = Result<SqlRow, RowConversionError>>
    ensures
        match results {
            Ok(_) => valid == Ok::<(), WormError>(()),
            Err(error) => valid == Err::<(), WormError>(error),
        },
{
    match results {
        Ok(_) => Ok(()),
        Err(error) => Err(error),
    }
}

impl<E> ConnectionManager<E> where E: SqlExecutor {
    /// The manager of the connections to the database of the given
    /// connection string.
    pub fn new(connection_string: String) -> (manager: Self)
        ensures
            manager@ == connection_string@,
    {
        Self { connection_string, __: PhantomData }
    }

    /// Opens a new connection.
    pub fn connect(&self) -> (connection: Result<Connection<E>, WormError>)
        ensures
            exists|connection_string: &str, opened: Result<E, ConnectionError>|
                {
                    &&& connection_string@ == self@
                    &&& #[trigger] call_ensures(E::connect, (connection_string,), opened)
                    &&& #[trigger] connection_of(opened, connection)
                },
    {
        let connection_string = self.connection_string.as_str();
        let opened = E::connect(connection_string);
        opened_connection(opened)
    }

    /// Tries a connection: it is valid if it runs the test statement, and
    /// else it fails with the error of the statement.
    ///
    /// The executor of the connection is handed the text of the test
    /// statement, once. What it returns for that decides: rows of any kind
    /// make the connection valid, and an error is passed on as an error of
    /// the execution. The executor is left as that call left it.
    pub fn is_valid<'a>(&self, conn: &'a mut Connection<E>) -> (valid: Result<(), WormError>)
        ensures
            exists|
                handed: &str,
                executor: &mut E,
                outcome: Result<E::ResultIter<'a>, SqlExecutionError>,
            |
                {
                    &&& handed@ == TEST_STATEMENT@
                    &&& mut_ref_current(executor) == old(conn)@
                    &&& mut_ref_future(executor) == final(conn)@
                    &&& #[trigger] call_ensures(E::execute_sql, (executor, handed), outcome)
                    &&& validity_of(outcome, valid)
                },
    {
        validity(conn.execute(TestScript {  }))
    }

    /// Whether a connection is known to be broken without trying it: never.
    pub fn has_broken(&self, conn: &mut Connection<E>) -> (broken: bool)
        ensures
            !broken,
            *final(conn) == *old(conn),
    {
        false
    }
}

} // verus!
