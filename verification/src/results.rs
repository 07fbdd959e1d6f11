//! Types that represent the results of executed queries.

use vstd::prelude::*;
use vstd::std_specs::iter::IteratorSpec;
use crate::errors::RowConversionError;
use crate::sql::SqlResult;
use crate::sql::SqlRow;
use core::marker::PhantomData;

verus! {

/// Whether `result` is what a raw row comes to as a `T`: a row that the
/// executor produced is handed to `T::from_row`, whose result it is; a
/// failure of the executor is passed on as it came.
pub open spec fn row_converted<T: SqlResult>(
    raw: Result<SqlRow, RowConversionError>,
    result: Result<T, RowConversionError>,
) -> bool {
    match raw {
        Ok(row) => call_ensures(T::from_row, (row,), result),
        Err(error) => result == Err::<T, RowConversionError>(error),
    }
}

/// Converts one raw row of an executor into a typed result.
pub fn convert_row<T: SqlResult>(raw: Result<SqlRow, RowConversionError>) -> (result: Result<
    T,
    RowConversionError,
>)
    ensures
        row_converted(raw, result),
{
    match raw {
        Ok(row) => T::from_row(row),
        Err(error) => Err(error),
    }
}

/// The results of a query: the raw rows of an executor, each converted when
/// it is asked for.
pub struct QueryResults<T, I> where
    T: SqlResult,
    I: Iterator<Item = Result<SqlRow, RowConversionError>>,
 {
    __: PhantomData<T>,
    row_iter: I,
}

impl<T, I> QueryResults<T, I> where
    T: SqlResult,
    I: Iterator<Item = Result<SqlRow, RowConversionError>>,
 {
    /// The raw rows of the executor, from the next one on.
    pub closed spec fn row_iter(&self) -> I {
        self.row_iter
    }

    /// The results over the raw rows that `row_iter` yields.
    pub fn new(row_iter: I) -> (results: Self)
        ensures
            results.row_iter() == row_iter,
    {
        Self { __: PhantomData, row_iter }
    }

    /// Takes the next raw row of the executor, if one is left, and converts
    /// it. A row that fails to convert gives its error in its place, and the
    /// rows behind it are still to come. There is no result without a row and
    /// no row without a result.
    pub fn next(&mut self) -> (item: Option<Result<T, RowConversionError>>)
        ensures
            item matches Some(result) ==> exists|raw: Result<SqlRow, RowConversionError>|
                row_converted(raw, result),
            final(self).row_iter().obeys_prophetic_iter_laws() == old(
                self,
            ).row_iter().obeys_prophetic_iter_laws(),
            old(self).row_iter().obeys_prophetic_iter_laws() ==> match item {
                Some(result) => {
                    &&& old(self).row_iter().remaining().len() > 0
                    &&& row_converted(old(self).row_iter().remaining()[0], result)
                    &&& final(self).row_iter().remaining() == old(
                        self,
                    ).row_iter().remaining().drop_first()
                },
                None => {
                    &&& old(self).row_iter().remaining().len() == 0
                    &&& final(self).row_iter().remaining() == old(self).row_iter().remaining()
                },
            },
    {
        match self.row_iter.next() {
            Some(raw) => Some(convert_row(raw)),
            None => None,
        }
    }
}

} // verus!
