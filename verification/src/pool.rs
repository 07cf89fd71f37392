//! Connection pools and connections.
//!
//! A `ConnectionPool` obtains a connection for one database, newly created
//! or reused; a `Connection` executes queries and batched statements.
//! External implementations satisfy these contracts; the built-in
//! `SimpleConnectionPool` is the trivial baseline that constructs a fresh
//! connection per call through a supplied factory.

use core::marker::PhantomData;

use vstd::prelude::*;

use crate::error::SqliteError;
use crate::values::QueryResult;
use crate::values::Value;

verus! {

/// Operations against one database. Failures other than the ones this
/// crate defines are backend-defined and pass through unchanged.
pub trait Connection {
    /// Execute one parameterized statement and return its result set, or a
    /// backend-defined error.
    fn query(&self, query: &str, parameters: Vec<Value>) -> Result<QueryResult, SqliteError>;

    /// Execute a sequence of statements without returning rows; any
    /// statement failure fails the whole batch.
    fn execute_batch(&self, statements: &str) -> Result<(), SqliteError>;
}

/// A pool of connections for one database. Implementations are free to
/// create, share or cache connections; a pool that cannot acquire the
/// underlying resource reports InvalidConnection.
pub trait ConnectionPool {
    type Conn: Connection;

    /// Get a connection from the pool.
    fn get_connection(&self) -> Result<Self::Conn, SqliteError>;
}

/// The outcome of one attempt through a simple pool: either a connection
/// the factory produced, or InvalidConnection after a factory failure.
pub open spec fn connection_outcome<C, F: Fn() -> Result<C, String>>(
    factory: F,
    r: Result<C, SqliteError>,
) -> bool {
    match r {
        Ok(connection) => call_ensures(factory, (), Result::<C, String>::Ok(connection)),
        Err(e) => e == SqliteError::InvalidConnection && (exists|message: String|
            call_ensures(factory, (), Result::<C, String>::Err(message))),
    }
}

/// A simple connection pool that always constructs a fresh connection
/// through the supplied factory and maps any factory failure to
/// InvalidConnection. It performs no reuse or lifecycle management: the
/// trivial baseline that richer pool implementations improve upon.
#[verifier::reject_recursive_types(C)]
pub struct SimpleConnectionPool<C, F> where F: Fn() -> Result<C, String> {
    factory: F,
    connections: PhantomData<C>,
}

impl<C, F> SimpleConnectionPool<C, F> where F: Fn() -> Result<C, String> {
    /// The connection factory supplied at construction.
    pub closed spec fn spec_factory(&self) -> F {
        self.factory
    }

    #[verifier::type_invariant]
    spec fn factory_callable(self) -> bool {
        call_requires(self.factory, ())
    }

    /// Create a new simple pool with the given connection factory. The
    /// factory must be callable unconditionally: every attempt invokes it.
    pub fn new(factory: F) -> (r: Self)
        requires
            call_requires(factory, ()),
        ensures
            r.spec_factory() == factory,
    {
        SimpleConnectionPool { factory, connections: PhantomData }
    }
}

impl<C: Connection, F> ConnectionPool for SimpleConnectionPool<C, F> where F: Fn() -> Result<
    C,
    String,
> {
    type Conn = C;

    /// Each call is one independent attempt through the factory: its
    /// connection on success, InvalidConnection on any factory failure.
    fn get_connection(&self) -> (r: Result<C, SqliteError>)
        ensures
            connection_outcome(self.spec_factory(), r),
    {
        proof {
            use_type_invariant(&*self);
        }
        match (self.factory)() {
            Ok(connection) => Ok(connection),
            Err(message) => {
                proof {
                    assert(call_ensures(
                        self.spec_factory(),
                        (),
                        Result::<C, String>::Err(message),
                    ));
                }
                Err(SqliteError::InvalidConnection)
            },
        }
    }
}

/// A factory that can only fail forces every attempt through the simple
/// pool to report InvalidConnection.
pub proof fn lemma_failing_factory<C, F: Fn() -> Result<C, String>>(
    factory: F,
    r: Result<C, SqliteError>,
)
    requires
        forall|fr: Result<C, String>| call_ensures(factory, (), fr) ==> fr is Err,
        connection_outcome(factory, r),
    ensures
        r == Result::<C, SqliteError>::Err(SqliteError::InvalidConnection),
{
}

/// A factory that can only succeed makes every attempt through the simple
/// pool yield one of its connections.
pub proof fn lemma_succeeding_factory<C, F: Fn() -> Result<C, String>>(
    factory: F,
    r: Result<C, SqliteError>,
)
    requires
        forall|fr: Result<C, String>| call_ensures(factory, (), fr) ==> fr is Ok,
        connection_outcome(factory, r),
    ensures
        r is Ok,
        call_ensures(factory, (), Result::<C, String>::Ok(r->Ok_0)),
{
}

} // verus!
