//! What the derives decide before any code is written out: where a script
//! lies, how its template compiles against the fields of a struct, and how a
//! result struct is read off a row.

pub mod attrs;
pub mod error;
pub mod laws;
pub mod model;
pub mod paths;
pub mod result;
pub mod script;
pub mod template;
