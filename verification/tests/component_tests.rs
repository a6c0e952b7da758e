use pg_connector::error::{map_sqlstate, Error, ErrorKind};
use pg_connector::params::{SslAcceptMode, SslParams};
use pg_connector::result_set::{collect_rows, version_from, ResultSet, Value};
use pg_connector::text::{first_quoted, parse_u64, u64_to_string};
use pg_connector::transaction::{
    begin_statements, isolation_level_statement, ActiveGauge, IsolationLevel, OwnedTransaction,
    TransactionOptions, TxState,
};

#[test]
fn decimal_parsing_and_rendering() {
    assert_eq!(Some(420), parse_u64("420"));
    assert_eq!(Some(0), parse_u64("0"));
    assert_eq!(None, parse_u64(""));
    assert_eq!(None, parse_u64("12a"));
    assert_eq!(None, parse_u64("-1"));
    assert_eq!(Some(u64::MAX), parse_u64("18446744073709551615"));
    assert_eq!(None, parse_u64("18446744073709551616"));
    assert_eq!("0", u64_to_string(0));
    assert_eq!("32767", u64_to_string(32767));
    assert_eq!("18446744073709551615", u64_to_string(u64::MAX));
}

#[test]
fn first_quoted_segment_is_extracted() {
    assert_eq!(Some("x".to_string()), first_quoted("database \"x\" does not exist"));
    assert_eq!(Some("".to_string()), first_quoted("\"\""));
    assert_eq!(None, first_quoted("no quotes here"));
    assert_eq!(None, first_quoted("only one \" quote"));
}

#[test]
fn sqlstate_mapping_keeps_names() {
    match map_sqlstate("3D000", "database \"this_does_not_exist\" does not exist") {
        Some(ErrorKind::DatabaseDoesNotExist { db_name }) => {
            assert_eq!("this_does_not_exist", db_name)
        }
        other => panic!("expected DatabaseDoesNotExist, got {:?}", other),
    }
    match map_sqlstate("28P01", "password authentication failed for user \"WRONG\"") {
        Some(ErrorKind::AuthenticationFailed { user }) => assert_eq!("WRONG", user),
        other => panic!("expected AuthenticationFailed, got {:?}", other),
    }
    assert_eq!(None, map_sqlstate("42601", "syntax error"));
}

#[test]
fn server_details_are_preserved() {
    let e = Error::with_server_details(
        ErrorKind::DatabaseDoesNotExist { db_name: "d".to_string() },
        "3D000".to_string(),
        "database \"d\" does not exist".to_string(),
    );
    assert_eq!(Some("3D000"), e.original_code());
    assert_eq!(Some("database \"d\" does not exist"), e.original_message());
}

#[test]
fn snapshot_isolation_is_rejected() {
    let err = isolation_level_statement(IsolationLevel::Snapshot).unwrap_err();
    assert!(matches!(err.kind, ErrorKind::InvalidIsolationLevel(l) if l == "SNAPSHOT"));
    assert_eq!(
        "SET TRANSACTION ISOLATION LEVEL SERIALIZABLE",
        isolation_level_statement(IsolationLevel::Serializable).unwrap()
    );
    assert_eq!(
        "SET TRANSACTION ISOLATION LEVEL READ COMMITTED",
        isolation_level_statement(IsolationLevel::ReadCommitted).unwrap()
    );
}

#[test]
fn begin_orders_isolation_around_begin() {
    let opts = TransactionOptions { isolation_level: None, isolation_first: false };
    let (stmts, err) = begin_statements("BEGIN", &opts, false);
    assert!(err.is_none());
    assert_eq!(vec!["BEGIN".to_string()], stmts);

    let opts = TransactionOptions {
        isolation_level: Some(IsolationLevel::Serializable),
        isolation_first: false,
    };
    let (stmts, err) = begin_statements("BEGIN", &opts, false);
    assert!(err.is_none());
    assert_eq!(
        vec!["BEGIN".to_string(), "SET TRANSACTION ISOLATION LEVEL SERIALIZABLE".to_string()],
        stmts
    );

    let opts = TransactionOptions {
        isolation_level: Some(IsolationLevel::Serializable),
        isolation_first: true,
    };
    let (stmts, err) = begin_statements("BEGIN", &opts, true);
    assert!(err.is_none());
    assert_eq!(
        vec![
            "SET TRANSACTION ISOLATION LEVEL SERIALIZABLE".to_string(),
            "BEGIN".to_string(),
            "DEALLOCATE ALL".to_string(),
        ],
        stmts
    );

    let opts = TransactionOptions {
        isolation_level: Some(IsolationLevel::Snapshot),
        isolation_first: false,
    };
    let (stmts, err) = begin_statements("BEGIN", &opts, false);
    assert_eq!(vec!["BEGIN".to_string()], stmts);
    assert!(matches!(err.unwrap().kind, ErrorKind::InvalidIsolationLevel(_)));
}

#[test]
fn gauge_returns_to_prior_value() {
    let mut gauge = ActiveGauge::new();
    let mut tx = OwnedTransaction::new(&mut gauge);
    assert_eq!(TxState::Active, tx.state);
    assert_eq!(1, gauge.count);
    assert_eq!("COMMIT", tx.commit(&mut gauge));
    assert_eq!(TxState::Committed, tx.state);
    assert_eq!(0, gauge.count);

    let mut tx = OwnedTransaction::new(&mut gauge);
    assert_eq!(1, gauge.count);
    assert_eq!("ROLLBACK", tx.rollback(&mut gauge));
    assert_eq!(TxState::RolledBack, tx.state);
    assert_eq!(0, gauge.count);
}

#[test]
fn tls_material_resolution() {
    let params = SslParams {
        certificate_file: Some("/root.pem".to_string()),
        identity_file: None,
        identity_password: None,
        ssl_accept_mode: SslAcceptMode::AcceptInvalidCerts,
    };
    let auth = params.into_auth(Some(Ok(vec![1, 2, 3])), None).unwrap();
    assert_eq!(Some(vec![1, 2, 3]), auth.certificate_pem);
    assert_eq!(None, auth.identity_bundle);
    assert_eq!("", auth.identity_password);
    assert!(auth.accept_invalid_certs);

    let params = SslParams {
        certificate_file: Some("/root.pem".to_string()),
        identity_file: Some("/id.p12".to_string()),
        identity_password: Some("secret".to_string()),
        ssl_accept_mode: SslAcceptMode::Strict,
    };
    match params.into_auth(Some(Err("missing".to_string())), Some(Ok(vec![4]))) {
        Err(err) => match err.kind {
            ErrorKind::TlsError { message } => {
                assert_eq!("cert file not found (missing)", message)
            }
            other => panic!("expected TlsError, got {:?}", other),
        },
        Ok(_) => panic!("a failed certificate read must be an error"),
    }

    let params = SslParams {
        certificate_file: None,
        identity_file: Some("/id.p12".to_string()),
        identity_password: Some("secret".to_string()),
        ssl_accept_mode: SslAcceptMode::Strict,
    };
    match params.into_auth(None, Some(Err("gone".to_string()))) {
        Err(err) => match err.kind {
            ErrorKind::TlsError { message } => {
                assert_eq!("identity file not found (gone)", message)
            }
            other => panic!("expected TlsError, got {:?}", other),
        },
        Ok(_) => panic!("a failed identity read must be an error"),
    }
    let params = SslParams {
        certificate_file: None,
        identity_file: Some("/id.p12".to_string()),
        identity_password: Some("secret".to_string()),
        ssl_accept_mode: SslAcceptMode::Strict,
    };
    let auth = params.into_auth(None, Some(Ok(vec![4]))).unwrap();
    assert_eq!("secret", auth.identity_password);
    assert!(!auth.accept_invalid_certs);
}

#[test]
fn version_is_read_from_first_row() {
    let rs = ResultSet::new(
        vec!["version".to_string()],
        vec![vec![Value::Text("PostgreSQL 14.1".to_string())]],
    );
    assert_eq!(Some("PostgreSQL 14.1".to_string()), version_from(&rs));

    let rs = ResultSet::new(vec!["other".to_string()], vec![vec![Value::Int64(1)]]);
    assert_eq!(None, version_from(&rs));

    let rs = ResultSet::new(vec!["version".to_string()], Vec::new());
    assert_eq!(None, version_from(&rs));
}

#[test]
fn row_collection_stops_at_first_error() {
    let rows = collect_rows(vec![
        Ok(vec![Value::Int32(1)]),
        Ok(vec![Value::Null]),
    ])
    .unwrap();
    assert_eq!(2, rows.len());
    assert_eq!(vec![Value::Int32(1)], rows[0]);

    let err = collect_rows(vec![
        Ok(vec![Value::Int32(1)]),
        Err(Error::new(ErrorKind::ConnectionClosed)),
        Err(Error::new(ErrorKind::SocketTimeout)),
    ])
    .unwrap_err();
    assert!(matches!(err.kind, ErrorKind::ConnectionClosed));
}
