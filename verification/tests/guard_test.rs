use rbatis::connection::{BackendMessage, PgConnection, TransactionStatus};
use rbatis::error::Error;
use rbatis::executor::{NoLog, RBatisTxExecutor, Rbatis, SqlIntercept};
use rbatis::value::Value;

struct NoIntercept;

impl SqlIntercept for NoIntercept {
    fn do_intercept(
        &self,
        _sql: &mut String,
        _args: &mut Vec<Value>,
        _is_prepared: bool,
    ) -> Result<(), Error> {
        Ok(())
    }
}

type Tx = RBatisTxExecutor<NoIntercept, NoLog>;

fn fresh_tx(tx_id: i64) -> Tx {
    RBatisTxExecutor {
        tx_id,
        conn: PgConnection::new(4, None),
        rb: Rbatis::new(NoLog),
        done: false,
    }
}

#[test]
fn released_guard_hands_the_same_transaction_to_the_deferred_action() {
    let (sender, receiver) = flume::unbounded::<Tx>();
    let guard = fresh_tx(42).defer_async(sender);
    // release without commit or rollback: the transaction goes to the
    // disposal channel, exactly once
    assert!(guard.release());
    let received = receiver.try_recv().unwrap();
    assert_eq!(received.tx_id, 42);
    assert!(!received.done);
    // nothing else ever arrives
    assert!(receiver.try_recv().is_err());
}

#[test]
fn taking_the_transaction_out_leaves_nothing_to_send() {
    let (sender, receiver) = flume::unbounded::<Tx>();
    let mut guard = fresh_tx(7).defer_async(sender);
    let taken = guard.take_for_disposal();
    assert_eq!(taken.unwrap().tx_id, 7);
    assert!(guard.take_for_disposal().is_none());
    assert!(!guard.release());
    assert!(receiver.try_recv().is_err());
}

#[test]
fn release_without_a_receiver_is_a_quiet_no_op() {
    let (sender, receiver) = flume::unbounded::<Tx>();
    drop(receiver);
    let guard = fresh_tx(1).defer_async(sender);
    // no deferred action was registered: the send is a no-op and the
    // transaction is discarded, by design
    assert!(guard.release());
}

#[test]
fn guard_forwards_to_the_inner_transaction() {
    let (sender, _receiver) = flume::unbounded::<Tx>();
    let mut tx = fresh_tx(3);
    tx.conn.push_incoming(BackendMessage::CommandComplete(1));
    tx.conn.push_incoming(BackendMessage::ReadyForQuery(TransactionStatus::Idle));
    let mut guard = tx.defer_async(sender);
    let r = guard.exec("delete from t where id=1", vec![]).unwrap();
    assert_eq!(r.rows_affected, 1);
    guard
        .tx
        .as_mut()
        .unwrap()
        .conn
        .push_incoming(BackendMessage::CommandComplete(0));
    guard
        .tx
        .as_mut()
        .unwrap()
        .conn
        .push_incoming(BackendMessage::ReadyForQuery(TransactionStatus::Idle));
    assert!(guard.commit().unwrap());
    // committed: the guard still holds the finished transaction, and a
    // second commit is refused
    assert!(matches!(guard.commit(), Err(Error::TransactionState)));
}

#[test]
fn guard_with_taken_transaction_refuses_every_verb() {
    let (sender, _receiver) = flume::unbounded::<Tx>();
    let mut guard = fresh_tx(5).defer_async(sender);
    let conn = guard.take_for_disposal().unwrap().take_conn();
    assert_eq!(conn.cached_statements_size(), 0);
    // rebuild a guard that holds nothing
    let (sender2, _receiver2) = flume::unbounded::<Tx>();
    let mut empty = rbatis::executor::RBatisTxExecutorGuard::<NoIntercept, NoLog> {
        tx: None,
        sender: sender2,
    };
    assert!(matches!(empty.begin(), Err(Error::TransactionState)));
    assert!(matches!(empty.commit(), Err(Error::TransactionState)));
    assert!(matches!(empty.rollback(), Err(Error::TransactionState)));
    assert!(matches!(empty.exec("x", vec![]), Err(Error::TransactionState)));
    assert!(matches!(empty.fetch("x", vec![]), Err(Error::TransactionState)));
    assert!(empty.take_conn().is_none());
}

#[test]
fn release_never_blocks_on_a_full_bounded_channel() {
    // a full bounded channel with a live receiver: the send is refused
    // rather than awaited, so releasing the guard never stalls
    let (sender, receiver) = flume::bounded::<Tx>(0);
    let guard = fresh_tx(9).defer_async(sender);
    assert!(guard.release());
    assert!(receiver.try_recv().is_err());
}

#[test]
fn deferred_consumer_drains_exactly_one_handoff() {
    let (sender, receiver) = flume::unbounded::<Tx>();
    let guard = fresh_tx(11).defer_async(sender);
    assert!(guard.release());
    // the sender is gone once release consumed the guard, so draining
    // the channel sees exactly the one handoff and then disconnection
    let mut seen = 0u32;
    while let Ok(tx) = receiver.recv() {
        assert_eq!(tx.tx_id, 11);
        seen += 1;
    }
    assert_eq!(seen, 1);
}
