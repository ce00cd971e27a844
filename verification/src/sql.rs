//! The statements with which a relational store performs the effects.
//!
//! The persisted layout is one table of two columns: a text key that is
//! unique, and a binary value of any length.

use vstd::prelude::*;

verus! {

/// Creates the table unless it exists. Running it again changes nothing.
pub const ENSURE_SCHEMA: &'static str =
    "CREATE TABLE IF NOT EXISTS cached (key TEXT PRIMARY KEY, value BLOB);";

/// Reads the value stored under the key bound to the first parameter.
pub const LOOKUP: &'static str = "SELECT value FROM cached WHERE key = (?1)";

/// Writes a new row: the key bound to the first parameter, the value bound to
/// the second. The store refuses it when the key is taken.
pub const INSERT: &'static str = "INSERT INTO cached VALUES((?1), (?2))";

} // verus!
