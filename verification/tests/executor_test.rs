use rbatis::connection::{BackendMessage, FrontendMessage, PgConnection, TransactionStatus};
use rbatis::error::Error;
use rbatis::executor::{
    ConnectionBroker, Executor, LogSink, NoLog, RBatisConnExecutor, RBatisTxExecutor, Rbatis,
    RbatisRef, SingleConnectionBroker, SqlIntercept,
};
use rbatis::value::Value;

struct NoIntercept;

impl SqlIntercept for NoIntercept {
    fn do_intercept(
        &self,
        _sql: &mut String,
        _args: &mut Vec<Value>,
        _is_prepared: bool,
    ) -> Result<(), Error> {
        Ok(())
    }
}

struct Veto;

impl SqlIntercept for Veto {
    fn do_intercept(
        &self,
        _sql: &mut String,
        _args: &mut Vec<Value>,
        _is_prepared: bool,
    ) -> Result<(), Error> {
        Err(Error::InterceptorVeto("not allowed".to_string()))
    }
}

struct Rewrite;

impl SqlIntercept for Rewrite {
    fn do_intercept(
        &self,
        sql: &mut String,
        _args: &mut Vec<Value>,
        is_prepared: bool,
    ) -> Result<(), Error> {
        assert!(!is_prepared);
        *sql = "select 2".to_string();
        Ok(())
    }
}

struct Recorder;

impl LogSink for Recorder {
    fn is_enabled(&self) -> bool {
        true
    }

    fn info(&mut self, _task_id: u64, message: &str) {
        assert!(!message.is_empty());
    }

    fn error(&mut self, _task_id: u64, message: &str) {
        assert!(!message.is_empty());
    }
}

fn conn_with_one_round() -> PgConnection {
    let mut conn = PgConnection::new(4, None);
    conn.push_incoming(BackendMessage::CommandComplete(1));
    conn.push_incoming(BackendMessage::ReadyForQuery(TransactionStatus::Idle));
    conn
}

#[test]
fn conn_executor_exec_simple_path() {
    let mut ex = RBatisConnExecutor {
        conn: conn_with_one_round(),
        rb: Rbatis::<NoIntercept, NoLog>::new(NoLog),
    };
    let r = ex.exec("DELETE FROM t WHERE id=1", vec![]).unwrap();
    assert_eq!(r.rows_affected, 1);
    assert_eq!(ex.conn.cached_statements_size(), 0);
    let out = ex.conn.take_outgoing();
    assert_eq!(out.len(), 1);
    assert!(matches!(&out[0], FrontendMessage::Query(q) if q == "DELETE FROM t WHERE id=1"));
}

#[test]
fn conn_executor_exec_prepared_path() {
    let mut ex = RBatisConnExecutor {
        conn: conn_with_one_round(),
        rb: Rbatis::<NoIntercept, NoLog>::new(NoLog),
    };
    let r = ex.exec("DELETE FROM t WHERE id=?", vec![Value::I32(1)]).unwrap();
    assert_eq!(r.rows_affected, 1);
    assert_eq!(ex.conn.cached_statements_size(), 1);
    let out = ex.conn.take_outgoing();
    assert_eq!(out.len(), 2);
    assert!(matches!(&out[0], FrontendMessage::Parse { .. }));
    assert!(matches!(&out[1], FrontendMessage::Execute { .. }));
}

#[test]
fn conn_executor_fetch_builds_row_maps() {
    let mut conn = PgConnection::new(4, None);
    conn.push_incoming(BackendMessage::RowDescription(vec!["a".to_string()]));
    conn.push_incoming(BackendMessage::DataRow(vec![Value::I32(5)]));
    conn.push_incoming(BackendMessage::CommandComplete(1));
    conn.push_incoming(BackendMessage::ReadyForQuery(TransactionStatus::Idle));
    let mut ex = RBatisConnExecutor { conn, rb: Rbatis::<NoIntercept, Recorder>::new(Recorder) };
    let v = ex.fetch("select a from t", vec![]).unwrap();
    match v {
        Value::Array(rows) => {
            assert_eq!(rows.len(), 1);
            assert!(matches!(&rows[0], Value::Mapping(_)));
        }
        other => panic!("expected an array of rows, got {:?}", other),
    }
}

#[test]
fn interceptor_veto_stops_the_call() {
    let mut rb = Rbatis::<Veto, NoLog>::new(NoLog);
    rb.sql_intercepts.push(Veto);
    let mut ex = RBatisConnExecutor { conn: PgConnection::new(4, None), rb };
    let r = ex.exec("delete from t", vec![]);
    match r {
        Err(Error::InterceptorVeto(m)) => assert_eq!(m, "not allowed"),
        other => panic!("expected a veto, got {:?}", other),
    }
    assert!(ex.conn.take_outgoing().is_empty());
}

#[test]
fn interceptor_can_rewrite_the_statement() {
    let mut rb = Rbatis::<Rewrite, NoLog>::new(NoLog);
    rb.sql_intercepts.push(Rewrite);
    let mut ex = RBatisConnExecutor { conn: conn_with_one_round(), rb };
    ex.exec("select 1", vec![]).unwrap();
    let out = ex.conn.take_outgoing();
    assert!(matches!(&out[0], FrontendMessage::Query(q) if q == "select 2"));
}

#[test]
fn begin_turns_a_connection_into_a_transaction() {
    let mut conn = PgConnection::new(4, None);
    conn.push_incoming(BackendMessage::CommandComplete(0));
    conn.push_incoming(BackendMessage::ReadyForQuery(TransactionStatus::InTransaction));
    let ex = RBatisConnExecutor { conn, rb: Rbatis::<NoIntercept, NoLog>::new(NoLog) };
    let tx = ex.begin().unwrap();
    assert!(!tx.done);
    assert_eq!(tx.conn.transaction_status(), TransactionStatus::InTransaction);
}

#[test]
fn commit_flips_done_only_on_success() {
    let mut tx = RBatisTxExecutor {
        tx_id: 9,
        conn: PgConnection::new(4, None),
        rb: Rbatis::<NoIntercept, NoLog>::new(NoLog),
        done: false,
    };
    // the stream has no acknowledgement yet: the commit fails, the
    // transaction stays active and retryable
    let first = tx.commit().unwrap();
    assert!(!first);
    assert!(!tx.done);
    // feed the acknowledgement and retry
    tx.conn.push_incoming(BackendMessage::CommandComplete(0));
    tx.conn.push_incoming(BackendMessage::ReadyForQuery(TransactionStatus::Idle));
    let second = tx.commit().unwrap();
    assert!(second);
    assert!(tx.done);
}

#[test]
fn commit_on_a_finished_transaction_is_refused_without_protocol_traffic() {
    let mut tx = RBatisTxExecutor {
        tx_id: 9,
        conn: PgConnection::new(4, None),
        rb: Rbatis::<NoIntercept, NoLog>::new(NoLog),
        done: true,
    };
    let r = tx.commit();
    assert!(matches!(r, Err(Error::TransactionState)));
    assert!(tx.conn.take_outgoing().is_empty());
    let r = tx.exec("delete from t", vec![]);
    assert!(matches!(r, Err(Error::TransactionState)));
    let r = tx.fetch("select 1", vec![]);
    assert!(matches!(r, Err(Error::TransactionState)));
    assert!(tx.conn.take_outgoing().is_empty());
}

#[test]
fn rollback_flips_done_on_success() {
    let mut conn = PgConnection::new(4, None);
    conn.push_incoming(BackendMessage::CommandComplete(0));
    conn.push_incoming(BackendMessage::ReadyForQuery(TransactionStatus::Idle));
    let mut tx = RBatisTxExecutor {
        tx_id: 1,
        conn,
        rb: Rbatis::<NoIntercept, NoLog>::new(NoLog),
        done: false,
    };
    assert!(tx.rollback().unwrap());
    assert!(tx.done);
    let out = tx.conn.take_outgoing();
    assert!(matches!(&out[0], FrontendMessage::Query(q) if q == "rollback"));
}

#[test]
fn driver_type_reports_the_linked_driver() {
    let mut rb = Rbatis::<NoIntercept, NoLog>::new(NoLog);
    assert!(matches!(rb.driver_type(), Err(Error::Connection(_))));
    rb.driver_name = Some("test".to_string());
    assert_eq!(rb.driver_type().unwrap(), "test");
    let ex = RBatisConnExecutor { conn: PgConnection::new(4, None), rb };
    assert_eq!(RbatisRef::driver_type(&ex).unwrap(), "test");
    assert!(ex.get_rbatis().driver_name.is_some());
}

#[test]
fn executor_trait_dispatches_uniformly() {
    fn run<I: SqlIntercept, L: LogSink, E: Executor<I, L>>(e: &mut E) -> u64 {
        e.exec("delete from t", vec![]).unwrap().rows_affected
    }
    let mut ex = RBatisConnExecutor {
        conn: conn_with_one_round(),
        rb: Rbatis::<NoIntercept, NoLog>::new(NoLog),
    };
    assert_eq!(run(&mut ex), 1);
    let mut tx = RBatisTxExecutor {
        tx_id: 1,
        conn: conn_with_one_round(),
        rb: Rbatis::<NoIntercept, NoLog>::new(NoLog),
        done: false,
    };
    assert_eq!(run(&mut tx), 1);
}

#[test]
fn pooled_handle_leases_a_connection_per_call() {
    let mut conn = PgConnection::new(4, None);
    conn.push_incoming(BackendMessage::CommandComplete(2));
    conn.push_incoming(BackendMessage::ReadyForQuery(TransactionStatus::Idle));
    let mut broker = SingleConnectionBroker::new(conn);
    let mut rb = Rbatis::<NoIntercept, NoLog>::new(NoLog);
    let r = rb.exec(&mut broker, "update t set a=1", vec![]).unwrap();
    assert_eq!(r.rows_affected, 2);
    // the lease went back: a second call gets the connection again
    let leased = broker.acquire().unwrap();
    assert_eq!(leased.pending_count(), 0);
}
