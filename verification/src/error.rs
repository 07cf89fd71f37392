//! The errors that the access-control and pool-resolution core can report.

use vstd::prelude::*;

verus! {

/// The outcome of a failed `open`, connection or query attempt.
///
/// The first two variants are produced by this crate itself; the last two
/// stand for failures of the backing store and are produced by pool and
/// connection implementations.
#[derive(Debug)]
pub enum SqliteError {
    /// The label is not in the calling component's allow-list.
    AccessDenied,
    /// The label is allowed, but neither an explicit store configuration nor
    /// a default pool resolves it.
    NoSuchStore,
    /// A pool could not produce a connection.
    InvalidConnection,
    /// A backend-defined failure, carried through unchanged.
    Io(String),
}

impl SqliteError {
    /// A short description of the error, for hosts that report it as text.
    pub fn message(&self) -> (r: String)
        ensures
            self is AccessDenied ==> r@ == "access to the database was denied"@,
            self is NoSuchStore ==> r@ == "no store is configured for the database"@,
            self is InvalidConnection ==> r@ == "the pool could not produce a connection"@,
            self is Io ==> r@ == self->Io_0@,
    {
        match self {
            SqliteError::AccessDenied => "access to the database was denied".to_owned(),
            SqliteError::NoSuchStore => "no store is configured for the database".to_owned(),
            SqliteError::InvalidConnection => "the pool could not produce a connection".to_owned(),
            SqliteError::Io(m) => m.clone(),
        }
    }
}

impl PartialEq for SqliteError {
    fn eq(&self, other: &SqliteError) -> (r: bool) {
        match (self, other) {
            (SqliteError::AccessDenied, SqliteError::AccessDenied) => true,
            (SqliteError::NoSuchStore, SqliteError::NoSuchStore) => true,
            (SqliteError::InvalidConnection, SqliteError::InvalidConnection) => true,
            (SqliteError::Io(m), SqliteError::Io(n)) => *m == *n,
            _ => false,
        }
    }
}

impl vstd::std_specs::cmp::PartialEqSpecImpl for SqliteError {
    open spec fn obeys_eq_spec() -> bool {
        true
    }

    open spec fn eq_spec(&self, other: &SqliteError) -> bool {
        match (self, other) {
            (SqliteError::AccessDenied, SqliteError::AccessDenied) => true,
            (SqliteError::NoSuchStore, SqliteError::NoSuchStore) => true,
            (SqliteError::InvalidConnection, SqliteError::InvalidConnection) => true,
            (SqliteError::Io(m), SqliteError::Io(n)) => m@ == n@,
            _ => false,
        }
    }
}

} // verus!
