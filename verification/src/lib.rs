//! SQL templates with `$name` parameters, typed SQL values and their
//! conversions to and from native scalar types, and the conversion of the
//! rows that a query returns into typed results.

pub mod codegen;
pub mod connections;
pub mod errors;
pub mod executors;
pub mod pooling;
pub mod results;
pub mod sql;
pub mod text;

use self::sql::SqlResult;
use vstd::prelude::*;

verus! {

/// A type that represents a templated script.
pub trait Script {
    /// The Rust type that rows returned by the script should be interpreted
    /// as.
    type Output: SqlResult;

    /// The SQL text of the current value of the script.
    fn compile(self) -> String;
}

} // verus!
