use pg_connector::cache::{PreparedStatement, StatementCache};
use pg_connector::connection_url::PostgresUrl;
use pg_connector::error::ErrorKind;
use pg_connector::session::{session_initialization, set_search_path_clause, PostgreSql};
use url::Url;

fn stmt(id: u64, n_params: usize) -> PreparedStatement {
    PreparedStatement { id, n_params, columns: Vec::new() }
}

fn session(conn: &str) -> PostgreSql {
    let url = PostgresUrl::new(Url::parse(conn).unwrap()).unwrap();
    PostgreSql::new(&url)
}

#[test]
fn bind_limit_is_enforced_without_io() {
    let s = session("postgresql://localhost/db");
    assert!(s.check_bind_variables_len(32767).is_ok());
    let err = s.check_bind_variables_len(32768).unwrap_err();
    match err.kind {
        ErrorKind::QueryInvalidInput(m) => assert_eq!(
            "too many bind variables in prepared statement, expected maximum of 32767, received 32768",
            m
        ),
        other => panic!("expected QueryInvalidInput, got {:?}", other),
    }
}

#[test]
fn parameter_count_mismatch_is_rejected() {
    let s = session("postgresql://localhost/db");
    assert!(s.verify_parameter_count(2, 2).is_ok());
    let err = s.verify_parameter_count(1, 2).unwrap_err();
    match err.kind {
        ErrorKind::IncorrectNumberOfParameters { expected, actual } => {
            assert_eq!(1, expected);
            assert_eq!(2, actual);
        }
        other => panic!("expected IncorrectNumberOfParameters, got {:?}", other),
    }
}

#[test]
fn connection_closed_marks_session_unhealthy() {
    let mut s = session("postgresql://localhost/db");
    assert!(s.is_healthy());
    s.record_io_result(false);
    assert!(s.is_healthy());
    s.record_io_result(true);
    assert!(!s.is_healthy());
    s.record_io_result(false);
    assert!(!s.is_healthy());
}

#[test]
fn server_reset_only_in_pooler_mode() {
    let s = session("postgresql://localhost/db");
    assert_eq!(None, s.server_reset_command());
    assert!(!s.requires_isolation_first());

    let s = session("postgresql://localhost/db?pgbouncer=true");
    assert_eq!(Some("DEALLOCATE ALL"), s.server_reset_command());
    assert_eq!(0, s.statement_cache.capacity());
}

#[test]
fn search_path_is_quoted_verbatim() {
    assert_eq!("SET search_path = \"musti-test\";\n", set_search_path_clause(Some("musti-test")));
    assert_eq!("", set_search_path_clause(None));

    let batch = session_initialization(Some("musti-test"));
    assert!(batch.contains("SET search_path = \"musti-test\";\n"));
    assert!(batch.contains("SET NAMES 'UTF8';"));

    let batch = session_initialization(None);
    assert!(!batch.contains("search_path"));
    assert!(batch.contains("SET NAMES 'UTF8';"));
}

#[test]
fn cache_hits_promote_and_overflow_evicts_lru() {
    let mut cache = StatementCache::new(2);
    cache.insert("a".to_string(), stmt(1, 0));
    cache.insert("b".to_string(), stmt(2, 0));
    assert_eq!(2, cache.len());

    // Touch "a" so that "b" becomes least recently used.
    let hit = cache.get("a").unwrap();
    assert_eq!(1, hit.id);

    cache.insert("c".to_string(), stmt(3, 0));
    assert_eq!(2, cache.len());
    assert!(cache.get("b").is_none());
    assert_eq!(1, cache.get("a").unwrap().id);
    assert_eq!(3, cache.get("c").unwrap().id);
}

#[test]
fn cache_replaces_existing_key() {
    let mut cache = StatementCache::new(2);
    cache.insert("a".to_string(), stmt(1, 0));
    cache.insert("a".to_string(), stmt(9, 3));
    assert_eq!(1, cache.len());
    let hit = cache.get("a").unwrap();
    assert_eq!(9, hit.id);
    assert_eq!(3, hit.n_params);
}

#[test]
fn zero_capacity_cache_never_retains() {
    let mut cache = StatementCache::new(0);
    cache.insert("a".to_string(), stmt(1, 0));
    assert_eq!(0, cache.len());
    assert!(cache.get("a").is_none());
}
