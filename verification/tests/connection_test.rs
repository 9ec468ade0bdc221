use rbatis::connection::{exchange, BackendMessage, FrontendMessage, PgConnection, TransactionStatus};
use rbatis::error::Error;
use rbatis::value::Value;

#[test]
fn exchange_rewrites_placeholders() {
    assert_eq!(exchange("a=? and b=?"), "a=$1 and b=$2");
    assert_eq!(exchange("no placeholders"), "no placeholders");
    assert_eq!(exchange("?"), "$1");
    assert_eq!(exchange("???"), "$1$2$3");
}

#[test]
fn wait_ready_drains_every_ack_and_takes_last_status() {
    let mut conn = PgConnection::new(4, None);
    conn.queue_simple_query("begin");
    conn.queue_simple_query("update t set a=1");
    conn.queue_simple_query("commit");
    assert_eq!(conn.pending_count(), 3);
    conn.push_incoming(BackendMessage::CommandComplete(0));
    conn.push_incoming(BackendMessage::ReadyForQuery(TransactionStatus::InTransaction));
    conn.push_incoming(BackendMessage::ReadyForQuery(TransactionStatus::InTransaction));
    conn.push_incoming(BackendMessage::CommandComplete(1));
    conn.push_incoming(BackendMessage::ReadyForQuery(TransactionStatus::Idle));
    assert!(conn.wait_until_ready().is_ok());
    assert_eq!(conn.pending_count(), 0);
    assert_eq!(conn.transaction_status(), TransactionStatus::Idle);
}

#[test]
fn rows_affected_sums_every_command_completion() {
    // one simple query can carry several statements; their counts add up
    let mut conn = PgConnection::new(4, None);
    conn.push_incoming(BackendMessage::CommandComplete(2));
    conn.push_incoming(BackendMessage::CommandComplete(3));
    conn.push_incoming(BackendMessage::ReadyForQuery(TransactionStatus::Idle));
    let r = conn.exec("insert into a values (1); insert into a values (2);", vec![]).unwrap();
    assert_eq!(r.rows_affected, 5);
}

#[test]
fn rows_affected_saturates_at_the_top() {
    let mut conn = PgConnection::new(4, None);
    conn.push_incoming(BackendMessage::CommandComplete(u64::MAX));
    conn.push_incoming(BackendMessage::CommandComplete(7));
    conn.push_incoming(BackendMessage::ReadyForQuery(TransactionStatus::Idle));
    let r = conn.exec("update t set a=1", vec![]).unwrap();
    assert_eq!(r.rows_affected, u64::MAX);
}

#[test]
fn wait_ready_fails_when_stream_ends_early() {
    let mut conn = PgConnection::new(4, None);
    conn.queue_simple_query("select 1");
    conn.push_incoming(BackendMessage::CommandComplete(0));
    let r = conn.wait_until_ready();
    match r {
        Err(Error::Connection(_)) => {}
        other => panic!("expected a connection error, got {:?}", other),
    }
    assert!(conn.pending_count() > 0);
}

#[test]
fn simple_path_never_touches_the_cache() {
    let mut conn = PgConnection::new(4, None);
    conn.push_incoming(BackendMessage::CommandComplete(1));
    conn.push_incoming(BackendMessage::ReadyForQuery(TransactionStatus::Idle));
    let r = conn.exec("DELETE FROM t WHERE id=1", vec![]).unwrap();
    assert_eq!(r.rows_affected, 1);
    assert_eq!(conn.cached_statements_size(), 0);
    let out = conn.take_outgoing();
    assert_eq!(out.len(), 1);
    match &out[0] {
        FrontendMessage::Query(q) => assert_eq!(q, "DELETE FROM t WHERE id=1"),
        other => panic!("expected a simple query, got {:?}", other),
    }
}

#[test]
fn prepared_path_prepares_once_then_reuses() {
    let mut conn = PgConnection::new(4, None);
    conn.push_incoming(BackendMessage::CommandComplete(1));
    conn.push_incoming(BackendMessage::ReadyForQuery(TransactionStatus::Idle));
    let r = conn.exec("DELETE FROM t WHERE id=?", vec![Value::I32(1)]).unwrap();
    assert_eq!(r.rows_affected, 1);
    assert!(r.last_insert_id.is_null());
    assert_eq!(conn.cached_statements_size(), 1);
    let out = conn.take_outgoing();
    assert_eq!(out.len(), 2);
    match &out[0] {
        FrontendMessage::Parse { statement_id, sql } => {
            assert_eq!(*statement_id, 1);
            assert_eq!(sql, "DELETE FROM t WHERE id=$1");
        }
        other => panic!("expected a parse message, got {:?}", other),
    }
    match &out[1] {
        FrontendMessage::Execute { statement_id, args } => {
            assert_eq!(*statement_id, 1);
            assert_eq!(args.len(), 1);
        }
        other => panic!("expected an execute message, got {:?}", other),
    }

    conn.push_incoming(BackendMessage::CommandComplete(1));
    conn.push_incoming(BackendMessage::ReadyForQuery(TransactionStatus::Idle));
    conn.exec("DELETE FROM t WHERE id=?", vec![Value::I32(2)]).unwrap();
    assert_eq!(conn.cached_statements_size(), 1);
    let out = conn.take_outgoing();
    assert_eq!(out.len(), 1);
    match &out[0] {
        FrontendMessage::Execute { statement_id, .. } => assert_eq!(*statement_id, 1),
        other => panic!("expected an execute message, got {:?}", other),
    }
}

#[test]
fn full_cache_evicts_the_least_recently_used_statement() {
    let mut conn = PgConnection::new(1, None);
    conn.push_incoming(BackendMessage::CommandComplete(0));
    conn.push_incoming(BackendMessage::ReadyForQuery(TransactionStatus::Idle));
    conn.exec("insert into a values (?)", vec![Value::I32(1)]).unwrap();
    assert_eq!(conn.cached_statements_size(), 1);
    conn.take_outgoing();

    conn.push_incoming(BackendMessage::CloseComplete);
    conn.push_incoming(BackendMessage::ReadyForQuery(TransactionStatus::Idle));
    conn.push_incoming(BackendMessage::CommandComplete(0));
    conn.push_incoming(BackendMessage::ReadyForQuery(TransactionStatus::Idle));
    conn.exec("insert into b values (?)", vec![Value::I32(2)]).unwrap();
    assert_eq!(conn.cached_statements_size(), 1);
    let out = conn.take_outgoing();
    assert_eq!(out.len(), 4);
    match &out[0] {
        FrontendMessage::Close { statement_id } => assert_eq!(*statement_id, 1),
        other => panic!("expected a close message, got {:?}", other),
    }
    assert!(matches!(out[1], FrontendMessage::Sync));
    match &out[2] {
        FrontendMessage::Parse { statement_id, .. } => assert_eq!(*statement_id, 2),
        other => panic!("expected a parse message, got {:?}", other),
    }
    assert!(matches!(out[3], FrontendMessage::Execute { .. }));
}

#[test]
fn eviction_starvation_is_a_cache_eviction_error() {
    let mut conn = PgConnection::new(1, None);
    conn.push_incoming(BackendMessage::CommandComplete(0));
    conn.push_incoming(BackendMessage::ReadyForQuery(TransactionStatus::Idle));
    conn.exec("insert into a values (?)", vec![Value::I32(1)]).unwrap();
    let r = conn.exec("insert into b values (?)", vec![Value::I32(2)]);
    match r {
        Err(Error::CacheEviction(_)) => {}
        other => panic!("expected a cache-eviction error, got {:?}", other),
    }
}

#[test]
fn server_errors_pass_through_unchanged() {
    let mut conn = PgConnection::new(4, None);
    conn.push_incoming(BackendMessage::ErrorResponse("table t already exists".to_string()));
    conn.push_incoming(BackendMessage::ReadyForQuery(TransactionStatus::Idle));
    let r = conn.exec("CREATE TABLE t (a TEXT);", vec![]);
    match r {
        Err(Error::Server(m)) => assert_eq!(m, "table t already exists"),
        other => panic!("expected a server error, got {:?}", other),
    }
    assert_eq!(conn.pending_count(), 0);
}

#[test]
fn get_values_projects_rows_over_columns() {
    let mut conn = PgConnection::new(4, None);
    conn.push_incoming(BackendMessage::RowDescription(vec![
        "sql".to_string(),
        "count".to_string(),
    ]));
    conn.push_incoming(BackendMessage::DataRow(vec![
        Value::String("select 1".to_string()),
        Value::U64(7),
    ]));
    conn.push_incoming(BackendMessage::CommandComplete(1));
    conn.push_incoming(BackendMessage::ReadyForQuery(TransactionStatus::Idle));
    let rows = conn.get_values("select * from mock_table", vec![]).unwrap();
    assert_eq!(rows.len(), 1);
    match &rows[0] {
        Value::Mapping(pairs) => {
            assert_eq!(pairs.len(), 2);
            assert_eq!(pairs[0].0.as_str(), Some("sql"));
            assert_eq!(pairs[1].0.as_str(), Some("count"));
            match &pairs[1].1 {
                Value::U64(n) => assert_eq!(*n, 7),
                other => panic!("expected a count, got {:?}", other),
            }
        }
        other => panic!("expected a row map, got {:?}", other),
    }
}

#[test]
fn clear_cached_statements_closes_each_entry() {
    let mut conn = PgConnection::new(4, None);
    conn.push_incoming(BackendMessage::CommandComplete(0));
    conn.push_incoming(BackendMessage::ReadyForQuery(TransactionStatus::Idle));
    conn.exec("insert into a values (?)", vec![Value::I32(1)]).unwrap();
    conn.push_incoming(BackendMessage::CommandComplete(0));
    conn.push_incoming(BackendMessage::ReadyForQuery(TransactionStatus::Idle));
    conn.exec("insert into b values (?)", vec![Value::I32(2)]).unwrap();
    conn.take_outgoing();
    assert_eq!(conn.cached_statements_size(), 2);

    conn.push_incoming(BackendMessage::CloseComplete);
    conn.push_incoming(BackendMessage::CloseComplete);
    conn.push_incoming(BackendMessage::ReadyForQuery(TransactionStatus::Idle));
    assert!(conn.clear_cached_statements().is_ok());
    assert_eq!(conn.cached_statements_size(), 0);
    let out = conn.take_outgoing();
    assert_eq!(out.len(), 3);
    assert!(matches!(out[0], FrontendMessage::Close { statement_id: 1 }));
    assert!(matches!(out[1], FrontendMessage::Close { statement_id: 2 }));
    assert!(matches!(out[2], FrontendMessage::Sync));
}

#[test]
fn close_is_idempotent() {
    let mut conn = PgConnection::new(4, Some(140005));
    assert_eq!(conn.server_version_num(), Some(140005));
    conn.close();
    conn.close();
    let out = conn.take_outgoing();
    assert_eq!(out.len(), 1);
    assert!(matches!(out[0], FrontendMessage::Terminate));
}

#[test]
fn ping_uses_the_simple_path() {
    let mut conn = PgConnection::new(4, None);
    conn.push_incoming(BackendMessage::CommandComplete(0));
    conn.push_incoming(BackendMessage::ReadyForQuery(TransactionStatus::Idle));
    assert!(conn.ping().is_ok());
    let out = conn.take_outgoing();
    match &out[0] {
        FrontendMessage::Query(q) => assert_eq!(q, "/* RBDC ping */"),
        other => panic!("expected a simple query, got {:?}", other),
    }
}
