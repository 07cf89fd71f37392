//! The values that cross the query protocol surface: statement parameters
//! and structured result sets. They are carried through this crate
//! unchanged; only the backing store interprets them.

use vstd::prelude::*;

verus! {

/// One statement parameter or result cell.
#[derive(Debug)]
pub enum Value {
    Null,
    Integer(i64),
    /// A floating-point value, carried as its IEEE-754 bit pattern; the
    /// backing store interprets the bits.
    Real(u64),
    Text(String),
    Blob(Vec<u8>),
}

/// One row of a result set.
#[derive(Debug)]
pub struct RowResult {
    pub values: Vec<Value>,
}

/// A structured result set: the column names, and the rows in order.
#[derive(Debug)]
pub struct QueryResult {
    pub columns: Vec<String>,
    pub rows: Vec<RowResult>,
}

} // verus!
