use rbatis::connection::{BackendMessage, FrontendMessage, PgConnection, TransactionStatus};
use rbatis::error::Error;
use rbatis::executor::{NoLog, RBatisConnExecutor, Rbatis, SqlIntercept};
use rbatis::table_sync::{build_alter_sql, build_create_table_sql, type_str, SqliteTableSync};
use rbatis::value::Value;

struct NoIntercept;

impl SqlIntercept for NoIntercept {
    fn do_intercept(
        &self,
        _sql: &mut String,
        _args: &mut Vec<Value>,
        _is_prepared: bool,
    ) -> Result<(), Error> {
        Ok(())
    }
}

fn executor(conn: PgConnection) -> RBatisConnExecutor<NoIntercept, NoLog> {
    RBatisConnExecutor { conn, rb: Rbatis::new(NoLog) }
}

fn columns() -> Vec<(Value, Value)> {
    vec![
        (Value::String("id".to_string()), Value::I32(0)),
        (Value::String("name".to_string()), Value::String("x".to_string())),
    ]
}

#[test]
fn type_str_maps_variants() {
    assert_eq!(type_str(&Value::Null), "NULL");
    assert_eq!(type_str(&Value::Bool(true)), "BOOLEAN");
    assert_eq!(type_str(&Value::I32(1)), "INTEGER");
    assert_eq!(type_str(&Value::I64(1)), "INT8");
    assert_eq!(type_str(&Value::String("x".to_string())), "TEXT");
    assert_eq!(type_str(&Value::Binary(vec![])), "BLOB");
    let ext = |tag: &str| Value::Ext(tag.to_string(), Box::new(Value::Null));
    assert_eq!(type_str(&ext("Date")), "TEXT");
    assert_eq!(type_str(&ext("Timestamp")), "INT8");
    assert_eq!(type_str(&ext("Decimal")), "NUMERIC");
    assert_eq!(type_str(&ext("Json")), "BLOB");
    assert_eq!(type_str(&ext("Uuid")), "TEXT");
    assert_eq!(type_str(&ext("Other")), "NULL");
}

#[test]
fn create_table_text_is_exact() {
    let sql = build_create_table_sql(&columns(), "mock_table");
    assert_eq!(
        sql,
        "CREATE TABLE mock_table (id INTEGER PRIMARY KEY NOT NULL ,name TEXT);"
    );
    let sql = build_create_table_sql(&vec![], "empty");
    assert_eq!(sql, "CREATE TABLE empty ();");
}

#[test]
fn alter_table_text_is_exact() {
    let sql = build_alter_sql("t", &Value::String("name".to_string()), &Value::String("x".to_string()));
    assert_eq!(sql, "alter table t add name TEXT ;");
    let sql = build_alter_sql("t", &Value::String("id".to_string()), &Value::I32(0));
    assert_eq!(sql, "alter table t add id INTEGER  PRIMARY KEY NOT NULL;");
}

#[test]
fn sync_creates_the_table() {
    let mut conn = PgConnection::new(4, None);
    conn.push_incoming(BackendMessage::CommandComplete(0));
    conn.push_incoming(BackendMessage::ReadyForQuery(TransactionStatus::Idle));
    let table = Value::Mapping(columns());
    let sync = SqliteTableSync::default();
    assert!(sync.sync(executor(conn), table, "mock_table").is_ok());
}

#[test]
fn sync_unwraps_extension_tables() {
    let mut conn = PgConnection::new(4, None);
    conn.push_incoming(BackendMessage::CommandComplete(0));
    conn.push_incoming(BackendMessage::ReadyForQuery(TransactionStatus::Idle));
    let table = Value::Ext("MockTable".to_string(), Box::new(Value::Mapping(columns())));
    let sync = SqliteTableSync::default();
    assert!(sync.sync(executor(conn), table, "mock_table").is_ok());
}

#[test]
fn sync_falls_back_to_alter_when_the_table_exists() {
    let mut conn = PgConnection::new(4, None);
    // the create statement is refused
    conn.push_incoming(BackendMessage::ErrorResponse(
        "table mock_table already exists".to_string(),
    ));
    conn.push_incoming(BackendMessage::ReadyForQuery(TransactionStatus::Idle));
    // the first alter is a duplicate, the second succeeds
    conn.push_incoming(BackendMessage::ErrorResponse("duplicate column: id".to_string()));
    conn.push_incoming(BackendMessage::ReadyForQuery(TransactionStatus::Idle));
    conn.push_incoming(BackendMessage::CommandComplete(0));
    conn.push_incoming(BackendMessage::ReadyForQuery(TransactionStatus::Idle));
    let sync = SqliteTableSync::default();
    let r = sync.sync(executor(conn), Value::Mapping(columns()), "mock_table");
    assert!(r.is_ok());
}

#[test]
fn sync_refuses_non_table_values() {
    let sync = SqliteTableSync::default();
    let r = sync.sync(executor(PgConnection::new(4, None)), Value::I32(1), "t");
    match r {
        Err(Error::Decode(m)) => assert_eq!(m, "table not is an struct or map!"),
        other => panic!("expected a decode error, got {:?}", other),
    }
}

#[test]
fn alter_failures_other_than_duplicates_end_the_sync() {
    let mut conn = PgConnection::new(4, None);
    conn.push_incoming(BackendMessage::ErrorResponse(
        "table mock_table already exists".to_string(),
    ));
    conn.push_incoming(BackendMessage::ReadyForQuery(TransactionStatus::Idle));
    // the first alter is refused for another reason: the sync ends there
    conn.push_incoming(BackendMessage::ErrorResponse("disk full".to_string()));
    conn.push_incoming(BackendMessage::ReadyForQuery(TransactionStatus::Idle));
    let sync = SqliteTableSync::default();
    let r = sync.sync(executor(conn), Value::Mapping(columns()), "mock_table");
    match r {
        Err(Error::Server(m)) => assert_eq!(m, "disk full"),
        other => panic!("expected the alter failure through, got {:?}", other),
    }
}

#[test]
fn sync_surfaces_other_server_errors() {
    let mut conn = PgConnection::new(4, None);
    conn.push_incoming(BackendMessage::ErrorResponse("permission denied".to_string()));
    conn.push_incoming(BackendMessage::ReadyForQuery(TransactionStatus::Idle));
    let sync = SqliteTableSync::default();
    let r = sync.sync(executor(conn), Value::Mapping(columns()), "t");
    match r {
        Err(Error::Server(m)) => assert_eq!(m, "permission denied"),
        other => panic!("expected the server error through, got {:?}", other),
    }
}

#[test]
fn the_create_statement_takes_the_simple_path() {
    let expected = build_create_table_sql(&columns(), "mock_table");
    let mut conn = PgConnection::new(4, None);
    conn.push_incoming(BackendMessage::CommandComplete(0));
    conn.push_incoming(BackendMessage::ReadyForQuery(TransactionStatus::Idle));
    conn.exec(&expected, vec![]).unwrap();
    assert_eq!(conn.cached_statements_size(), 0);
    let out = conn.take_outgoing();
    assert!(matches!(&out[0], FrontendMessage::Query(q) if *q == expected));
}
