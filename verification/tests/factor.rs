use factor_sqlite::error::SqliteError;
use factor_sqlite::host::InstanceState;
use factor_sqlite::policy::build_policy;
use factor_sqlite::policy::Component;
use factor_sqlite::pool::Connection;
use factor_sqlite::pool::ConnectionPool;
use factor_sqlite::pool::SimpleConnectionPool;
use factor_sqlite::resolver::build_pool_table;
use factor_sqlite::resolver::PoolResolver;
use factor_sqlite::resolver::RuntimeConfig;
use factor_sqlite::resolver::StoreConfig;
use factor_sqlite::resolver::TokenResolver;
use factor_sqlite::values::QueryResult;
use factor_sqlite::values::RowResult;
use factor_sqlite::values::Value;
use factor_sqlite::SqliteFactor;

fn component(id: &str, allowed: Option<Vec<&str>>) -> Component {
    Component {
        id: id.to_owned(),
        allowed_databases: allowed.map(|labels| {
            labels.into_iter().map(|label| label.to_owned()).collect()
        }),
    }
}

fn store_config(label: &str, kind: &str) -> (String, StoreConfig) {
    (label.to_owned(), StoreConfig { type_: kind.to_owned(), config: Vec::new() })
}

#[test]
fn allow_lists_gate_every_open() {
    let mut resolver = TokenResolver::new();
    resolver.register_kind("test".to_owned(), 11u64);
    let factor = SqliteFactor::new(resolver);
    let runtime_config = RuntimeConfig { store_configs: vec![store_config("default", "test")] };
    let components = vec![
        component("a", Some(vec!["default", "logs"])),
        component("b", None),
    ];
    let app = factor.configure_app(Some(runtime_config), &components).unwrap();

    let guard_a = app.prepare("a");
    assert_eq!(guard_a.open("default").copied().unwrap(), 11);
    assert_eq!(guard_a.open("logs").unwrap_err(), SqliteError::NoSuchStore);
    assert_eq!(guard_a.open("forbidden").unwrap_err(), SqliteError::AccessDenied);

    let guard_b = app.prepare("b");
    assert_eq!(guard_b.open("default").unwrap_err(), SqliteError::AccessDenied);
}

#[test]
fn denial_is_independent_of_pool_existence() {
    let mut resolver = TokenResolver::new();
    resolver.set_fallback(3u64);
    let factor = SqliteFactor::new(resolver);
    let components = vec![component("quiet", Some(vec![]))];
    let app = factor.configure_app(None, &components).unwrap();

    // Every label resolves to the fallback pool, yet the component with an
    // empty allow-list is denied each of them.
    let guard = app.prepare("quiet");
    assert_eq!(guard.open("default").unwrap_err(), SqliteError::AccessDenied);
    assert_eq!(guard.open("anything").unwrap_err(), SqliteError::AccessDenied);

    // A component the policy never saw is denied as well.
    let ghost_guard = app.prepare("unknown");
    assert_eq!(ghost_guard.open("default").unwrap_err(), SqliteError::AccessDenied);
}

#[test]
fn default_provider_serves_allowed_labels() {
    let mut resolver = TokenResolver::new();
    resolver.set_fallback(7u64);
    let factor = SqliteFactor::new(resolver);
    let components = vec![component("cache-user", Some(vec!["cache"]))];
    let app = factor.configure_app(None, &components).unwrap();

    let guard = app.prepare("cache-user");
    assert_eq!(guard.open("cache").copied().unwrap(), 7);
    assert_eq!(guard.open("other").unwrap_err(), SqliteError::AccessDenied);
}

#[test]
fn explicit_config_beats_default() {
    let mut resolver = TokenResolver::new();
    resolver.register_kind("test".to_owned(), 1u64);
    resolver.set_fallback(2u64);
    let factor = SqliteFactor::new(resolver);
    let runtime_config = RuntimeConfig { store_configs: vec![store_config("dual", "test")] };
    let components = vec![component("a", Some(vec!["dual", "other"]))];
    let app = factor.configure_app(Some(runtime_config), &components).unwrap();

    let guard = app.prepare("a");
    // The explicitly configured label gets the explicit pool, never the
    // fallback; a label without explicit configuration falls back.
    assert_eq!(guard.open("dual").copied().unwrap(), 1);
    assert_eq!(guard.open("other").copied().unwrap(), 2);
}

#[test]
fn later_store_config_for_a_label_wins() {
    let mut resolver = TokenResolver::new();
    resolver.register_kind("first".to_owned(), 21u64);
    resolver.register_kind("second".to_owned(), 22u64);
    let factor = SqliteFactor::new(resolver);
    let runtime_config = RuntimeConfig {
        store_configs: vec![store_config("db", "first"), store_config("db", "second")],
    };
    let components = vec![component("a", Some(vec!["db"]))];
    let app = factor.configure_app(Some(runtime_config), &components).unwrap();

    assert_eq!(app.prepare("a").open("db").copied().unwrap(), 22);
}

#[test]
fn pool_resolver_composes_table_and_default() {
    let mut stock = TokenResolver::new();
    stock.register_kind("test".to_owned(), 31u64);
    let configs = vec![store_config("books", "test")];
    let table = build_pool_table(&stock, &configs).unwrap();

    let mut provider = TokenResolver::new();
    provider.set_fallback(32u64);
    let resolver = PoolResolver::new(table, provider);
    assert_eq!(resolver.resolve("books").copied(), Some(31));
    assert_eq!(resolver.resolve("music").copied(), Some(32));

    let allowed = build_policy(&vec![component("a", Some(vec!["books"]))]);
    let guard = InstanceState::new(allowed.get("a"), &resolver);
    assert_eq!(guard.open("books").copied().unwrap(), 31);
    assert_eq!(guard.open("music").unwrap_err(), SqliteError::AccessDenied);

    let bare_guard = InstanceState::new(None, &resolver);
    assert_eq!(bare_guard.open("books").unwrap_err(), SqliteError::AccessDenied);
}

#[test]
fn empty_pool_table_resolves_nothing() {
    let provider: TokenResolver<u64> = TokenResolver::new();
    let table = build_pool_table(&provider, &Vec::new()).unwrap();
    let resolver = PoolResolver::new(table, provider);
    assert!(resolver.resolve("anything").is_none());
}

#[test]
fn unknown_store_kind_aborts_configuration() {
    let resolver: TokenResolver<u64> = TokenResolver::new();
    let factor = SqliteFactor::new(resolver);
    let runtime_config = RuntimeConfig { store_configs: vec![store_config("default", "nope")] };
    let components = vec![component("a", Some(vec!["default"]))];
    assert!(factor.configure_app(Some(runtime_config), &components).is_err());
}

#[test]
fn policy_building_is_idempotent() {
    let components = vec![
        component("a", Some(vec!["default", "logs", "default"])),
        component("b", None),
        component("c", Some(vec![])),
    ];
    let first = build_policy(&components);
    let second = build_policy(&components);

    for id in ["a", "b", "c"] {
        let from_first = first.get(id).unwrap();
        let from_second = second.get(id).unwrap();
        for label in ["default", "logs", "cache"] {
            assert_eq!(from_first.contains(label), from_second.contains(label));
        }
    }
    assert!(first.get("a").unwrap().contains("default"));
    assert!(first.get("a").unwrap().contains("logs"));
    assert!(!first.get("a").unwrap().contains("cache"));
    assert!(!first.get("b").unwrap().contains("default"));
    assert!(!first.get("c").unwrap().contains("default"));
    assert!(first.get("d").is_none());
}

#[derive(Debug)]
struct CannedConnection {
    answer: i64,
}

impl Connection for CannedConnection {
    fn query(&self, _query: &str, _parameters: Vec<Value>) -> Result<QueryResult, SqliteError> {
        Ok(QueryResult {
            columns: vec!["answer".to_owned()],
            rows: vec![RowResult { values: vec![Value::Integer(self.answer)] }],
        })
    }

    fn execute_batch(&self, _statements: &str) -> Result<(), SqliteError> {
        Ok(())
    }
}

#[test]
fn simple_pool_creates_a_fresh_connection_per_call() {
    let pool = SimpleConnectionPool::new(|| -> Result<CannedConnection, String> {
        Ok(CannedConnection { answer: 42 })
    });
    for _ in 0..3 {
        let connection = pool.get_connection().unwrap();
        let result = connection.query("select answer", Vec::new()).unwrap();
        assert_eq!(result.columns.len(), 1);
        assert!(matches!(result.rows[0].values[0], Value::Integer(42)));
        connection.execute_batch("begin; commit;").unwrap();
    }
}

#[test]
fn failing_factory_makes_every_call_invalid_connection() {
    let pool = SimpleConnectionPool::new(|| -> Result<CannedConnection, String> {
        Err("backend unreachable".to_owned())
    });
    for _ in 0..3 {
        assert_eq!(pool.get_connection().unwrap_err(), SqliteError::InvalidConnection);
    }
}

#[test]
fn error_equality_and_messages() {
    assert_eq!(SqliteError::AccessDenied, SqliteError::AccessDenied);
    assert_ne!(SqliteError::AccessDenied, SqliteError::NoSuchStore);
    assert_ne!(SqliteError::NoSuchStore, SqliteError::InvalidConnection);
    assert_eq!(SqliteError::Io("a".to_owned()), SqliteError::Io("a".to_owned()));
    assert_ne!(SqliteError::Io("a".to_owned()), SqliteError::Io("b".to_owned()));
    assert_ne!(SqliteError::Io("a".to_owned()), SqliteError::AccessDenied);

    assert_eq!(SqliteError::Io("backend".to_owned()).message(), "backend");
    assert!(!SqliteError::AccessDenied.message().is_empty());
    assert!(!SqliteError::NoSuchStore.message().is_empty());
    assert!(!SqliteError::InvalidConnection.message().is_empty());
}

#[test]
fn metadata_key_names_databases() {
    assert_eq!(factor_sqlite::ALLOWED_DATABASES_KEY, "databases");
}
