//! A row of a result set, and the single pass over its values.

use vstd::prelude::*;
use vstd::std_specs::iter::IteratorSpec;
use crate::errors::RowConversionError;
use crate::errors::RowConversionErrorView;
use crate::sql::fields::RecordField;
use crate::sql::values::SqlValue;
use crate::sql::values::SqlValueView;

verus! {

/// The views of some values, in their order.
pub open spec fn value_views(values: Seq<SqlValue>) -> Seq<SqlValueView> {
    values.map_values(|value: SqlValue| value@)
}

/// A raw SQL row.
#[derive(Debug, PartialEq, Eq)]
pub struct SqlRow(Vec<SqlValue>);

impl View for SqlRow {
    type V = Seq<SqlValueView>;

    /// The values of the row, one per selected column, in the order of the
    /// columns.
    closed spec fn view(&self) -> Seq<SqlValueView> {
        value_views(self.0@)
    }
}

/// The one pass over the values of a row.
#[derive(Debug)]
pub struct SqlRowIter {
    values: std::vec::IntoIter<SqlValue>,
}

/// Takes the next item of an iterator. Of an iterator that obeys the laws of
/// iterators, it is the first of the items that were left, and the rest are
/// left.
fn next_item<I: Iterator>(iter: &mut I) -> (item: Option<I::Item>)
    ensures
        (*final(iter)).obeys_prophetic_iter_laws() == (*old(iter)).obeys_prophetic_iter_laws(),
        (*old(iter)).obeys_prophetic_iter_laws() ==> match item {
            Some(item) => {
                &&& (*old(iter)).remaining().len() > 0
                &&& item == (*old(iter)).remaining()[0]
                &&& (*final(iter)).remaining() == (*old(iter)).remaining().drop_first()
            },
            None => {
                &&& (*old(iter)).remaining().len() == 0
                &&& (*final(iter)).remaining() == (*old(iter)).remaining()
            },
        },
{
    iter.next()
}

/// What taking the value of the field `field_name` off the values that are
/// left comes to: `MissingFieldValue` if none is left, else the first of them
/// converted, or the reason why it does not convert, with the field's name.
pub open spec fn field_taken<T: RecordField>(
    values: Seq<SqlValueView>,
    field_name: Seq<char>,
) -> Result<T::V, RowConversionErrorView> {
    if values.len() == 0 {
        Err(RowConversionErrorView::MissingFieldValue { field_name })
    } else {
        match T::decoded(values[0]) {
            Ok(native) => Ok(native),
            Err(error) => Err(RowConversionErrorView::FieldConversion { field_name, error }),
        }
    }
}

impl SqlRow {
    /// The row of the given values.
    pub fn from_iter(values: Vec<SqlValue>) -> (row: SqlRow)
        ensures
            row@ == value_views(values@),
    {
        SqlRow(values)
    }

    /// The number of values in the row.
    pub fn len(&self) -> (len: usize)
        ensures
            len == self@.len(),
    {
        self.0.len()
    }

    /// Starts the one pass over the values of the row.
    pub fn into_iter(self) -> (values: SqlRowIter)
        ensures
            value_views(values.values().remaining()) == self@,
    {
        broadcast use vstd::std_specs::vec::axiom_spec_into_iter;

        SqlRowIter { values: self.0.into_iter() }
    }
}

impl SqlRowIter {
    /// The values of the row, from the next one on.
    pub closed spec fn values(&self) -> std::vec::IntoIter<SqlValue> {
        self.values
    }

    /// Takes the next value, if one is left.
    pub fn next(&mut self) -> (value: Option<SqlValue>)
        ensures
            match value {
                Some(value) => {
                    &&& old(self).values().remaining().len() > 0
                    &&& value == old(self).values().remaining()[0]
                    &&& final(self).values().remaining() == old(
                        self,
                    ).values().remaining().drop_first()
                },
                None => {
                    &&& old(self).values().remaining().len() == 0
                    &&& final(self).values().remaining() == old(self).values().remaining()
                },
            },
    {
        next_item(&mut self.values)
    }

    /// Takes the value of the field `field_name` and converts it to the
    /// field's type.
    pub fn take<T: RecordField>(&mut self, field_name: &str) -> (result: Result<
        T,
        RowConversionError,
    >)
        ensures
            match result {
                Ok(native) => field_taken::<T>(
                    value_views(old(self).values().remaining()),
                    field_name@,
                ) == Ok::<T::V, RowConversionErrorView>(native@),
                Err(error) => field_taken::<T>(
                    value_views(old(self).values().remaining()),
                    field_name@,
                ) == Err::<T::V, RowConversionErrorView>(error@),
            },
            final(self).values().remaining() == if old(self).values().remaining().len() == 0 {
                old(self).values().remaining()
            } else {
                old(self).values().remaining().drop_first()
            },
    {
        match self.next() {
            None => Err(RowConversionError::MissingFieldValue { field_name: field_name.to_owned() }),
            Some(value) => match T::from_sql(value) {
                Ok(native) => Ok(native),
                Err(error) => Err(
                    RowConversionError::FieldConversion {
                        field_name: field_name.to_owned(),
                        error,
                    },
                ),
            },
        }
    }
}

} // verus!
