//! Access control and connection-pool resolution for component-scoped
//! databases.
//!
//! An application is configured once: each component's declared metadata
//! yields its allow-list of database labels (the access policy), and the
//! runtime configuration yields a table of explicitly configured connection
//! pools backed by a default-pool fallback (the pool resolver). Each
//! component instantiation then derives a narrow guard that checks every
//! `open` against the component's allow-list before any pool is looked up:
//! a component can obtain a connection for a label exactly when the label
//! is in its allow-list and the resolver produces a pool for it.

pub mod error;
pub mod host;
pub mod policy;
pub mod pool;
pub mod resolver;
pub mod values;

use vstd::hash_map::StringHashMap;
use vstd::hash_set::StringHashSet;
use vstd::prelude::*;

use crate::host::InstanceState;
use crate::policy::build_policy;
use crate::policy::policy_view;
use crate::policy::spec_policy;
use crate::policy::Component;
use crate::resolver::build_pool_table;
use crate::resolver::spec_config_labels;
use crate::resolver::PoolResolver;
use crate::resolver::RuntimeConfig;
use crate::resolver::RuntimeConfigResolver;
use crate::resolver::StoreConfig;

verus! {

/// The well-known metadata key under which a component declares its
/// allowed database labels.
pub const ALLOWED_DATABASES_KEY: &'static str = "databases";

/// The store configurations an optional runtime configuration carries.
pub open spec fn spec_store_configs(runtime_config: Option<RuntimeConfig>) -> Seq<
    (String, StoreConfig),
> {
    match runtime_config {
        Some(config) => config.store_configs@,
        None => Seq::empty(),
    }
}

/// The factor mediating every database operation of an application's
/// components: it builds the access policy and the pool resolver once per
/// application, and derives a narrow guard per component instance.
pub struct SqliteFactor<R: RuntimeConfigResolver> {
    runtime_config_resolver: R,
}

impl<R: RuntimeConfigResolver> SqliteFactor<R> {
    /// The host resolver this factor was created with.
    pub closed spec fn resolver(&self) -> R {
        self.runtime_config_resolver
    }

    /// Create a new `SqliteFactor`.
    pub fn new(runtime_config_resolver: R) -> (r: Self)
        ensures
            r.resolver() == runtime_config_resolver,
    {
        SqliteFactor { runtime_config_resolver }
    }

    /// Configure one application: build its access policy from the
    /// components' declared metadata, and its pool resolver from the
    /// runtime configuration. A factory failure aborts configuration as a
    /// whole, so no application runs in a partially configured state; with
    /// no store configurations, configuration always succeeds.
    pub fn configure_app(
        self,
        runtime_config: Option<RuntimeConfig>,
        components: &Vec<Component>,
    ) -> (r: Result<AppState<R>, String>)
        ensures
            (match r {
                Ok(app) => {
                    &&& app.allowed_databases() == spec_policy(components@)
                    &&& app.pool_resolver().explicit_map().dom() == spec_config_labels(
                        spec_store_configs(runtime_config),
                    )
                    &&& app.pool_resolver().provider() == self.resolver()
                },
                Err(_) => true,
            }),
            spec_store_configs(runtime_config).len() == 0 ==> r is Ok,
    {
        let explicit = match runtime_config {
            Some(config) => {
                match build_pool_table(&self.runtime_config_resolver, &config.store_configs) {
                    Ok(table) => table,
                    Err(message) => {
                        return Err(message);
                    },
                }
            },
            None => StringHashMap::new(),
        };
        proof {
            assert(explicit@.dom() =~= spec_config_labels(spec_store_configs(runtime_config)));
        }
        let allowed_databases = build_policy(components);
        Ok(
            AppState {
                allowed_databases,
                get_connection_pool: PoolResolver::new(explicit, self.runtime_config_resolver),
            },
        )
    }
}

/// The per-application state, built once at configuration time, immutable
/// thereafter, and shared read-only by all of the application's component
/// instances.
pub struct AppState<R: RuntimeConfigResolver> {
    /// Each component's allow-list of database labels.
    allowed_databases: StringHashMap<StringHashSet>,
    /// Resolution from database label to connection pool.
    get_connection_pool: PoolResolver<R>,
}

impl<R: RuntimeConfigResolver> AppState<R> {
    /// The access policy: component identity to its set of allowed labels.
    pub closed spec fn allowed_databases(&self) -> Map<Seq<char>, Set<Seq<char>>> {
        policy_view(self.allowed_databases)
    }

    /// The pool resolver shared by every instance of this application.
    pub closed spec fn pool_resolver(&self) -> PoolResolver<R> {
        self.get_connection_pool
    }

    /// The labels one component may open: its policy entry, or the empty
    /// set for a component without one.
    pub open spec fn spec_component_allowed(&self, component_id: Seq<char>) -> Set<Seq<char>> {
        if self.allowed_databases().contains_key(component_id) {
            self.allowed_databases()[component_id]
        } else {
            Set::empty()
        }
    }

    /// Derive the guard for one component instance: that component's
    /// allow-list combined with the application's shared pool resolver.
    pub fn prepare<'a>(&'a self, component_id: &str) -> (r: InstanceState<'a, R>)
        ensures
            r.allowed() == self.spec_component_allowed(component_id@),
            r.pool_resolver() == self.pool_resolver(),
    {
        let allowed_databases = self.allowed_databases.get(component_id);
        InstanceState::new(allowed_databases, &self.get_connection_pool)
    }
}

} // verus!
