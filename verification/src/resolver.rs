//! Pool-resolver construction and resolution.
//!
//! The runtime configuration supplies `(label, store configuration)` pairs;
//! a host-supplied resolver materializes a pool for each pair, keyed by the
//! configuration's store kind, and additionally may supply a default pool
//! for labels that have no explicit configuration. Resolution consults the
//! explicit table first and the default provider second, so explicit
//! configuration always takes precedence.

use vstd::hash_map::StringHashMap;
use vstd::prelude::*;

verus! {

/// One named store configuration from the runtime configuration: the store
/// kind that selects a pool factory, and the opaque key-value configuration
/// that factory consumes.
pub struct StoreConfig {
    pub type_: String,
    pub config: Vec<(String, String)>,
}

/// The structured runtime configuration: zero or more labelled store
/// configurations. A repeated label keeps the later entry.
pub struct RuntimeConfig {
    pub store_configs: Vec<(String, StoreConfig)>,
}

/// The host's capability for materializing connection pools: a factory
/// keyed by store kind for explicitly configured stores, and a default-pool
/// provider for labels with no explicit configuration.
///
/// Implementations own whatever pools they hand out as defaults, so that
/// repeated resolution of one label yields the same underlying pool.
pub trait RuntimeConfigResolver {
    type Pool;

    /// The default pool, if any, that this resolver supplies for a label
    /// with no explicit store configuration.
    spec fn spec_default(&self, label: Seq<char>) -> Option<Self::Pool>;

    /// Materialize a pool for one store configuration of the given kind.
    /// An error aborts application configuration.
    fn get_pool(&self, database_kind: &str, config: &Vec<(String, String)>) -> Result<
        Self::Pool,
        String,
    >;

    /// The default pool for a label, shared across calls.
    fn default_pool<'a>(&'a self, label: &str) -> (r: Option<&'a Self::Pool>)
        ensures
            (match r {
                Some(p) => self.spec_default(label@) == Some(*p),
                None => self.spec_default(label@) is None,
            }),
    ;
}

/// The labels that carry an explicit store configuration.
pub open spec fn spec_config_labels(configs: Seq<(String, StoreConfig)>) -> Set<Seq<char>>
    decreases configs.len(),
{
    if configs.len() == 0 {
        Set::empty()
    } else {
        spec_config_labels(configs.drop_last()).insert(configs.last().0@)
    }
}

/// Materialize the explicit pool table: one pool per configured label,
/// produced by the resolver's factory for that configuration's kind. A
/// factory failure aborts the whole construction, so no partial table is
/// ever produced.
pub fn build_pool_table<R: RuntimeConfigResolver>(
    resolver: &R,
    store_configs: &Vec<(String, StoreConfig)>,
) -> (r: Result<StringHashMap<R::Pool>, String>)
    ensures
        (match r {
            Ok(table) => table@.dom() == spec_config_labels(store_configs@),
            Err(_) => true,
        }),
        store_configs@.len() == 0 ==> r is Ok,
{
    let mut table = StringHashMap::<R::Pool>::new();
    proof {
        assert(table@.dom() =~= spec_config_labels(store_configs@.take(0)));
    }
    let mut i: usize = 0;
    while i < store_configs.len()
        invariant
            i <= store_configs.len(),
            table@.dom() == spec_config_labels(store_configs@.take(i as int)),
        decreases store_configs.len() - i,
    {
        let entry = &store_configs[i];
        let pool = match resolver.get_pool(entry.1.type_.as_str(), &entry.1.config) {
            Ok(pool) => pool,
            Err(message) => {
                return Err(message);
            },
        };
        table.insert(entry.0.clone(), pool);
        proof {
            assert(store_configs@.take(i as int + 1).drop_last() =~= store_configs@.take(
                i as int,
            ));
            assert(table@.dom() =~= spec_config_labels(store_configs@.take(i as int + 1)));
        }
        i += 1;
    }
    proof {
        assert(store_configs@.take(store_configs@.len() as int) =~= store_configs@);
    }
    Ok(table)
}

/// The pool resolver: the explicit pool table built from the runtime
/// configuration, composed with the host resolver's default-pool fallback.
pub struct PoolResolver<R: RuntimeConfigResolver> {
    explicit: StringHashMap<R::Pool>,
    provider: R,
}

impl<R: RuntimeConfigResolver> PoolResolver<R> {
    /// The explicitly configured pools, by label.
    pub closed spec fn explicit_map(&self) -> Map<Seq<char>, R::Pool> {
        self.explicit@
    }

    /// The host resolver whose defaults back the explicit table.
    pub closed spec fn provider(&self) -> R {
        self.provider
    }

    /// What resolution yields for a label: the explicitly configured pool
    /// when one exists, else the provider's default, if any.
    pub open spec fn spec_resolve(&self, label: Seq<char>) -> Option<R::Pool> {
        if self.explicit_map().contains_key(label) {
            Some(self.explicit_map()[label])
        } else {
            self.provider().spec_default(label)
        }
    }

    pub fn new(explicit: StringHashMap<R::Pool>, provider: R) -> (r: Self)
        ensures
            r.explicit_map() == explicit@,
            r.provider() == provider,
    {
        PoolResolver { explicit, provider }
    }

    /// Resolve a label to a connection pool. Repeated calls for one label
    /// yield the same pool, and never touch the default provider when the
    /// label is explicitly configured.
    pub fn resolve<'a>(&'a self, label: &str) -> (r: Option<&'a R::Pool>)
        ensures
            (match r {
                Some(p) => self.spec_resolve(label@) == Some(*p),
                None => self.spec_resolve(label@) is None,
            }),
    {
        match self.explicit.get(label) {
            Some(pool) => Some(pool),
            None => self.provider.default_pool(label),
        }
    }
}

/// Resolution for an explicitly configured label always yields the explicit
/// pool, never the provider's default — whatever default the provider would
/// supply for that label.
pub proof fn lemma_explicit_takes_precedence<R: RuntimeConfigResolver>(
    resolver: PoolResolver<R>,
    label: Seq<char>,
)
    requires
        resolver.explicit_map().contains_key(label),
    ensures
        resolver.spec_resolve(label) == Some(resolver.explicit_map()[label]),
{
}

/// A resolver for hosts that represent pools by plain copyable tokens, such
/// as indices into a host-side pool registry: one token is prepared per
/// store kind, and one optional fallback token serves as the default pool
/// for every label.
#[verifier::reject_recursive_types(P)]
pub struct TokenResolver<P: Copy> {
    kind_pools: StringHashMap<P>,
    fallback: Option<P>,
}

impl<P: Copy> TokenResolver<P> {
    /// The prepared pool tokens, by store kind.
    pub closed spec fn kind_map(&self) -> Map<Seq<char>, P> {
        self.kind_pools@
    }

    /// The shared fallback token, if one was set.
    pub closed spec fn fallback_pool(&self) -> Option<P> {
        self.fallback
    }

    pub fn new() -> (r: Self)
        ensures
            r.kind_map() == Map::<Seq<char>, P>::empty(),
            r.fallback_pool() is None,
    {
        TokenResolver { kind_pools: StringHashMap::new(), fallback: None }
    }

    /// Prepare the pool token that serves store configurations of a kind.
    pub fn register_kind(&mut self, kind: String, pool: P)
        ensures
            final(self).kind_map() == old(self).kind_map().insert(kind@, pool),
            final(self).fallback_pool() == old(self).fallback_pool(),
    {
        self.kind_pools.insert(kind, pool);
    }

    /// Set the shared fallback token that serves as the default pool for
    /// every label.
    pub fn set_fallback(&mut self, pool: P)
        ensures
            final(self).kind_map() == old(self).kind_map(),
            final(self).fallback_pool() == Some(pool),
    {
        self.fallback = Some(pool);
    }
}

impl<P: Copy> RuntimeConfigResolver for TokenResolver<P> {
    type Pool = P;

    open spec fn spec_default(&self, label: Seq<char>) -> Option<P> {
        self.fallback_pool()
    }

    fn get_pool(&self, database_kind: &str, config: &Vec<(String, String)>) -> (r: Result<
        P,
        String,
    >)
        ensures
            (match r {
                Ok(p) => self.kind_map().contains_key(database_kind@) && p == self.kind_map()[
                    database_kind@
                ],
                Err(_) => !self.kind_map().contains_key(database_kind@),
            }),
    {
        match self.kind_pools.get(database_kind) {
            Some(pool) => Ok(*pool),
            None => Err("no pool is prepared for the store kind".to_owned()),
        }
    }

    fn default_pool<'a>(&'a self, label: &str) -> (r: Option<&'a P>) {
        match &self.fallback {
            Some(pool) => Some(pool),
            None => None,
        }
    }
}

} // verus!
