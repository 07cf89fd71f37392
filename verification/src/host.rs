//! The per-instance guard: the sole enforcement point between a component
//! and the shared connection pools.
//!
//! A guard is created fresh for each component instantiation and combines
//! that one component's allow-list with the application's shared pool
//! resolver. Every `open` checks the label against the allow-list before
//! any pool is looked up, so denial is independent of whether a pool
//! exists, and no resolver behavior can bypass the check.

use vstd::hash_set::StringHashSet;
use vstd::prelude::*;

use crate::error::SqliteError;
use crate::resolver::PoolResolver;
use crate::resolver::RuntimeConfigResolver;

verus! {

/// The state of one component instance: an immutable allow-list scoped to
/// exactly that component, and the application's pool resolver, shared but
/// neither owned nor mutated.
pub struct InstanceState<'a, R: RuntimeConfigResolver> {
    allowed_databases: Option<&'a StringHashSet>,
    get_connection_pool: &'a PoolResolver<R>,
}

impl<'a, R: RuntimeConfigResolver> InstanceState<'a, R> {
    /// The labels this instance's component may open.
    pub closed spec fn allowed(&self) -> Set<Seq<char>> {
        match self.allowed_databases {
            Some(set) => set@,
            None => Set::empty(),
        }
    }

    /// The application's pool resolver, as shared with this instance.
    pub closed spec fn pool_resolver(&self) -> PoolResolver<R> {
        *self.get_connection_pool
    }

    /// What `open` yields for a label: the access check comes first and is
    /// unconditional, then resolution decides between a pool and
    /// NoSuchStore.
    pub open spec fn spec_open(&self, label: Seq<char>) -> Result<R::Pool, SqliteError> {
        if !self.allowed().contains(label) {
            Result::Err(SqliteError::AccessDenied)
        } else {
            match self.pool_resolver().spec_resolve(label) {
                Some(pool) => Result::Ok(pool),
                None => Result::Err(SqliteError::NoSuchStore),
            }
        }
    }

    /// Create the guard for one component instance. `None` stands for a
    /// component with no policy entry, which is allowed nothing.
    pub fn new(
        allowed_databases: Option<&'a StringHashSet>,
        get_connection_pool: &'a PoolResolver<R>,
    ) -> (r: Self)
        ensures
            r.allowed() == (match allowed_databases {
                Some(set) => set@,
                None => Set::<Seq<char>>::empty(),
            }),
            r.pool_resolver() == *get_connection_pool,
    {
        InstanceState { allowed_databases, get_connection_pool }
    }

    /// Open the database named by `label`: AccessDenied when the label is
    /// outside the component's allow-list, NoSuchStore when it is allowed
    /// but nothing resolves it, and otherwise the resolved pool.
    pub fn open(&self, label: &str) -> (r: Result<&'a R::Pool, SqliteError>)
        ensures
            (match self.spec_open(label@) {
                Ok(pool) => r matches Ok(p) && *p == pool,
                Err(e) => r matches Err(f) && f == e,
            }),
    {
        let allowed = match self.allowed_databases {
            Some(set) => set.contains(label),
            None => false,
        };
        if !allowed {
            return Err(SqliteError::AccessDenied);
        }
        match self.get_connection_pool.resolve(label) {
            Some(pool) => Ok(pool),
            None => Err(SqliteError::NoSuchStore),
        }
    }
}

/// `open` reports AccessDenied exactly when the label is outside the
/// component's allow-list — whether or not any pool would resolve for it.
pub proof fn lemma_access_denied_iff<'a, R: RuntimeConfigResolver>(
    guard: InstanceState<'a, R>,
    label: Seq<char>,
)
    ensures
        guard.spec_open(label) == Result::Err::<R::Pool, SqliteError>(SqliteError::AccessDenied)
            <==> !guard.allowed().contains(label),
{
}

/// The core safety property: `open` yields a pool for a label exactly when
/// the label is in the component's allow-list and the shared resolver
/// produces a pool for it. There is no other path to a pool.
pub proof fn lemma_open_ok_iff<'a, R: RuntimeConfigResolver>(
    guard: InstanceState<'a, R>,
    label: Seq<char>,
)
    ensures
        guard.spec_open(label) is Ok <==> (guard.allowed().contains(label)
            && guard.pool_resolver().spec_resolve(label) is Some),
{
}

/// An allowed label with neither an explicit store configuration nor a
/// provider default is reported as NoSuchStore — not as AccessDenied.
pub proof fn lemma_allowed_without_store<'a, R: RuntimeConfigResolver>(
    guard: InstanceState<'a, R>,
    label: Seq<char>,
)
    requires
        guard.allowed().contains(label),
        !guard.pool_resolver().explicit_map().contains_key(label),
        guard.pool_resolver().provider().spec_default(label) is None,
    ensures
        guard.spec_open(label) == Result::Err::<R::Pool, SqliteError>(SqliteError::NoSuchStore),
{
}

} // verus!
