use vstd::prelude::*;
use crate::connection::{
    spec_run, ExecResult, PgConnection, RunOutcome, spec_values_ok,
};
use crate::error::Error;
use crate::value::{arr_to_string, u64_to_string, Value};

verus! {

/// flume's sending half, used for the guard's deferred-disposal channel.
#[verifier::external_type_specification]
#[verifier::external_body]
#[verifier::reject_recursive_types(T)]
pub struct ExSender<T>(flume::Sender<T>);

/// Relies on flume::Sender::try_send: the message is queued for the
/// channel's receiver without ever blocking the caller, or comes back
/// unchanged when the channel is full or every receiver is gone.
/// Delivery to at most one receiver is flume's concern.
#[verifier::external_body]
fn channel_send<T>(sender: &flume::Sender<T>, message: T) -> (r: Result<(), T>)
    ensures
        r matches Err(m) ==> m == message,
{
    match sender.try_send(message) {
        Ok(()) => Ok(()),
        Err(flume::TrySendError::Full(m)) => Err(m),
        Err(flume::TrySendError::Disconnected(m)) => Err(m),
    }
}

/// An interceptor may rewrite the statement text or the argument list in
/// place, or veto the call, before any work is done. Implementations
/// come from the library's users.
pub trait SqlIntercept {
    fn do_intercept(&self, sql: &mut String, args: &mut Vec<Value>, is_prepared: bool) -> Result<
        (),
        Error,
    >;
}

/// A sink for the correlated request/outcome log records. Implementations
/// come from the library's users.
pub trait LogSink {
    fn is_enabled(&self) -> bool;

    fn info(&mut self, task_id: u64, message: &str);

    fn error(&mut self, task_id: u64, message: &str);
}

/// A sink that drops every record and reports logging disabled.
#[derive(Clone, Copy, Debug, Default, PartialEq, Eq, Structural)]
pub struct NoLog;

impl LogSink for NoLog {
    fn is_enabled(&self) -> bool {
        false
    }

    fn info(&mut self, task_id: u64, message: &str) {
        let _ = task_id;
        let _ = message;
    }

    fn error(&mut self, task_id: u64, message: &str) {
        let _ = task_id;
        let _ = message;
    }
}

/// The driver's shared configuration: the ordered interceptor chain, the
/// log sink, the correlation-id sequence, and the driver scheme name.
pub struct Rbatis<I: SqlIntercept, L: LogSink> {
    /// interceptors, run in order before every call
    pub sql_intercepts: Vec<I>,
    /// log sink for correlated records
    pub log_plugin: L,
    /// correlation-id sequence; each call takes the next value
    pub task_id_seq: u64,
    /// the connected driver's scheme name, once a driver is linked
    pub driver_name: Option<String>,
}

impl<I: SqlIntercept, L: LogSink> Rbatis<I, L> {
    /// The next correlation id to hand out.
    pub open spec fn spec_task_seq(&self) -> u64 {
        self.task_id_seq
    }

    /// A configuration with no interceptors and the given sink.
    pub fn new(log_plugin: L) -> (r: Self)
        ensures
            r.sql_intercepts@.len() == 0,
            r.spec_task_seq() == 0,
            r.driver_name is None,
    {
        Rbatis { sql_intercepts: Vec::new(), log_plugin, task_id_seq: 0, driver_name: None }
    }

    /// Take the next correlation id; the sequence wraps at the top.
    pub fn new_task_id(&mut self) -> (r: u64)
        ensures
            r == old(self).spec_task_seq(),
            final(self).spec_task_seq() == if old(self).spec_task_seq() == u64::MAX {
                0u64
            } else {
                (old(self).spec_task_seq() + 1) as u64
            },
            final(self).sql_intercepts == old(self).sql_intercepts,
            final(self).log_plugin == old(self).log_plugin,
            final(self).driver_name == old(self).driver_name,
    {
        let id = self.task_id_seq;
        self.task_id_seq = if self.task_id_seq == u64::MAX {
            0
        } else {
            self.task_id_seq + 1
        };
        id
    }

    /// The linked driver's scheme name, or a connection error when no
    /// driver was linked.
    pub fn driver_type(&self) -> (r: Result<&str, Error>)
        ensures
            self.driver_name matches Some(n) ==> r matches Ok(s) && s@ == n@,
            self.driver_name is None ==> (r matches Err(e) && e is Connection),
    {
        match &self.driver_name {
            Some(name) => Ok(name.as_str()),
            None => Err(Error::Connection("no driver is linked".to_owned())),
        }
    }
}

/// Read access to the shared configuration.
pub trait RbatisRef<I: SqlIntercept, L: LogSink>: Sized {
    /// Whether a configuration is reachable right now.
    spec fn has_rbatis(&self) -> bool;

    fn get_rbatis(&self) -> (r: &Rbatis<I, L>)
        requires
            self.has_rbatis(),
    ;

    fn driver_type(&self) -> (r: Result<String, Error>)
        requires
            self.has_rbatis(),
    {
        match self.get_rbatis().driver_type() {
            Ok(name) => Ok(name.to_owned()),
            Err(e) => Err(e),
        }
    }
}

/// The uniform capability set: execute a statement, or fetch its rows.
pub trait Executor<I: SqlIntercept, L: LogSink>: RbatisRef<I, L> {
    /// Whether the implementer can accept a call right now.
    spec fn exec_ready(&self) -> bool;

    fn exec(&mut self, sql: &str, args: Vec<Value>) -> (r: Result<ExecResult, Error>)
        requires
            old(self).exec_ready(),
            sql@.len() < usize::MAX,
    ;

    fn fetch(&mut self, sql: &str, args: Vec<Value>) -> (r: Result<Value, Error>)
        requires
            old(self).exec_ready(),
            sql@.len() < usize::MAX,
    ;
}

/// An executor over one exclusively owned raw connection.
pub struct RBatisConnExecutor<I: SqlIntercept, L: LogSink> {
    pub conn: PgConnection,
    pub rb: Rbatis<I, L>,
}

/// The per-call pipeline around a statement execution, shared by every
/// executor: run the interceptor chain over text, arguments and the
/// prepared flag (true exactly when the incoming argument list is
/// non-empty); log the correlated request; run the statement; log its
/// outcome under the same correlation id without changing it.
///
/// With an empty interceptor chain the statement reaches the connection
/// unchanged, so everything the connection's contract pins down — path
/// selection, cache traffic, the result — carries over verbatim. With
/// interceptors the rewritten text and arguments decide, and only the
/// connection-level contract of the rewritten call holds.
fn run_pipeline<I: SqlIntercept, L: LogSink>(
    conn: &mut PgConnection,
    rb: &mut Rbatis<I, L>,
    task_id: u64,
    sql: &str,
    args: Vec<Value>,
    fetch_rows: bool,
) -> (r: Result<(Option<ExecResult>, Option<Vec<Value>>), Error>)
    requires
        old(conn).wf(),
        sql@.len() < usize::MAX,
        old(conn).pending() < usize::MAX,
        old(conn).next_id() < u64::MAX,
    ensures
        final(conn).wf(),
        final(rb).sql_intercepts == old(rb).sql_intercepts,
        final(rb).spec_task_seq() == old(rb).spec_task_seq(),
        final(rb).driver_name == old(rb).driver_name,
        r matches Ok(out) ==> (if fetch_rows {
            out.0 is None && (out.1 matches Some(vals) && forall|i: int|
                0 <= i < vals@.len() ==> (#[trigger] vals@[i]) is Mapping)
        } else {
            out.0 matches Some(res) && res.last_insert_id is Null && out.1 is None
        }),
        old(rb).sql_intercepts@.len() == 0 ==> {
            &&& final(conn).state() == spec_run(old(conn).state(), sql@, args@).0
            &&& match spec_run(old(conn).state(), sql@, args@).1 {
                RunOutcome::EvictionStarved => r matches Err(e) && e is CacheEviction,
                RunOutcome::EvictionError(t) => r matches Err(e) && (e matches
                    Error::CacheEviction(m) && m@ == t),
                RunOutcome::Starved => r matches Err(e) && e is Connection,
                RunOutcome::Done(round) => match round.error {
                    Some(t) => r matches Err(e) && (e matches Error::Server(m) && m@ == t),
                    None => r matches Ok(out) && (if fetch_rows {
                        out.1 matches Some(vals) && spec_values_ok(
                            vals@,
                            round.columns,
                            round.rows,
                        )
                    } else {
                        out.0 matches Some(res) && res.rows_affected == round.affected
                            && res.last_insert_id is Null
                    }),
                },
            }
        },
{
    let ghost conn0 = conn.state();
    let mut sql2 = sql.to_owned();
    let mut args2 = args;
    let is_prepared = args2.len() > 0;
    let mut idx: usize = 0;
    while idx < rb.sql_intercepts.len()
        invariant
            rb.sql_intercepts == old(rb).sql_intercepts,
            rb.log_plugin == old(rb).log_plugin,
            rb.spec_task_seq() == old(rb).spec_task_seq(),
            rb.driver_name == old(rb).driver_name,
            conn == old(conn),
            old(conn).wf(),
            old(rb).sql_intercepts@.len() == 0 ==> sql2@ == sql@ && args2@ == args@,
            idx <= rb.sql_intercepts@.len(),
        decreases rb.sql_intercepts@.len() - idx,
    {
        let intercepted = rb.sql_intercepts[idx].do_intercept(&mut sql2, &mut args2, is_prepared);
        if let Err(e) = intercepted {
            return Err(e);
        }
        idx = idx + 1;
    }
    let statement_len = sql2.as_str().unicode_len();
    if statement_len == usize::MAX {
        return Err(Error::Protocol("the statement text is too long".to_owned()));
    }
    let enabled = rb.log_plugin.is_enabled();
    let args3 = if enabled {
        let packed = arr_to_string(args2);
        let mut message = if fetch_rows {
            "Fetch  ==> ".to_owned()
        } else {
            "Exec   ==> ".to_owned()
        };
        message.append(sql2.as_str());
        message.append("\n[rbatis]                      Args   ==> ");
        message.append(packed.1.as_str());
        rb.log_plugin.info(task_id, message.as_str());
        packed.0
    } else {
        args2
    };
    if fetch_rows {
        let result = conn.get_values(sql2.as_str(), args3);
        match result {
            Ok(vals) => {
                if enabled {
                    let mut message = "ReturnRows <== ".to_owned();
                    message.append(u64_to_string(vals.len() as u64).as_str());
                    rb.log_plugin.info(task_id, message.as_str());
                }
                Ok((None, Some(vals)))
            },
            Err(e) => {
                if enabled {
                    let mut message = "ReturnErr  <== ".to_owned();
                    message.append(e.message().as_str());
                    rb.log_plugin.error(task_id, message.as_str());
                }
                Err(e)
            },
        }
    } else {
        let result = conn.exec(sql2.as_str(), args3);
        match result {
            Ok(res) => {
                if enabled {
                    let mut message = "RowsAffected <== ".to_owned();
                    message.append(u64_to_string(res.rows_affected).as_str());
                    rb.log_plugin.info(task_id, message.as_str());
                }
                Ok((Some(res), None))
            },
            Err(e) => {
                if enabled {
                    let mut message = "ReturnErr  <== ".to_owned();
                    message.append(e.message().as_str());
                    rb.log_plugin.error(task_id, message.as_str());
                }
                Err(e)
            },
        }
    }
}

impl<I: SqlIntercept, L: LogSink> RBatisConnExecutor<I, L> {
    /// Execute one statement through the per-call pipeline.
    pub fn exec(&mut self, sql: &str, args: Vec<Value>) -> (r: Result<ExecResult, Error>)
        requires
            old(self).conn.wf(),
            sql@.len() < usize::MAX,
            old(self).conn.pending() < usize::MAX,
            old(self).conn.next_id() < u64::MAX,
        ensures
            final(self).conn.wf(),
            final(self).rb.sql_intercepts == old(self).rb.sql_intercepts,
            old(self).rb.sql_intercepts@.len() == 0 ==> {
                &&& final(self).conn.state() == spec_run(old(self).conn.state(), sql@, args@).0
                &&& match spec_run(old(self).conn.state(), sql@, args@).1 {
                    RunOutcome::EvictionStarved => r matches Err(e) && e is CacheEviction,
                    RunOutcome::EvictionError(t) => r matches Err(e) && (e matches
                        Error::CacheEviction(m) && m@ == t),
                    RunOutcome::Starved => r matches Err(e) && e is Connection,
                    RunOutcome::Done(round) => match round.error {
                        Some(t) => r matches Err(e) && (e matches Error::Server(m) && m@ == t),
                        None => r matches Ok(res) && res.rows_affected == round.affected
                            && res.last_insert_id is Null,
                    },
                }
            },
    {
        let task_id = self.rb.new_task_id();
        let piped = run_pipeline(&mut self.conn, &mut self.rb, task_id, sql, args, false);
        match piped {
            Ok((Some(res), _)) => Ok(res),
            Ok((None, _)) => Err(Error::Protocol("the pipeline lost its result".to_owned())),
            Err(e) => Err(e),
        }
    }

    /// Fetch the rows of one statement through the per-call pipeline, as
    /// an array of column-to-value maps.
    pub fn fetch(&mut self, sql: &str, args: Vec<Value>) -> (r: Result<Value, Error>)
        requires
            old(self).conn.wf(),
            sql@.len() < usize::MAX,
            old(self).conn.pending() < usize::MAX,
            old(self).conn.next_id() < u64::MAX,
        ensures
            final(self).conn.wf(),
            final(self).rb.sql_intercepts == old(self).rb.sql_intercepts,
            old(self).rb.sql_intercepts@.len() == 0 ==> {
                &&& final(self).conn.state() == spec_run(old(self).conn.state(), sql@, args@).0
                &&& match spec_run(old(self).conn.state(), sql@, args@).1 {
                    RunOutcome::EvictionStarved => r matches Err(e) && e is CacheEviction,
                    RunOutcome::EvictionError(t) => r matches Err(e) && (e matches
                        Error::CacheEviction(m) && m@ == t),
                    RunOutcome::Starved => r matches Err(e) && e is Connection,
                    RunOutcome::Done(round) => match round.error {
                        Some(t) => r matches Err(e) && (e matches Error::Server(m) && m@ == t),
                        None => r matches Ok(v) && (v matches Value::Array(vals)
                            && spec_values_ok(vals@, round.columns, round.rows)),
                    },
                }
            },
    {
        let task_id = self.rb.new_task_id();
        let piped = run_pipeline(&mut self.conn, &mut self.rb, task_id, sql, args, true);
        match piped {
            Ok((_, Some(vals))) => Ok(Value::Array(vals)),
            Ok((_, None)) => Err(Error::Protocol("the pipeline lost its rows".to_owned())),
            Err(e) => Err(e),
        }
    }

    /// Open a transaction on the owned connection, turning this executor
    /// into a transaction executor.
    pub fn begin(self) -> (r: Result<RBatisTxExecutor<I, L>, Error>)
        requires
            self.conn.wf(),
            self.conn.pending() < usize::MAX,
            self.conn.next_id() < u64::MAX,
        ensures
            r matches Ok(tx) ==> {
                &&& tx.conn.state() == spec_run(self.conn.state(), "begin"@, Seq::empty()).0
                &&& tx.conn.wf()
                &&& !tx.done
                &&& tx.rb.sql_intercepts == self.rb.sql_intercepts
            },
            r is Ok <==> (spec_run(self.conn.state(), "begin"@, Seq::empty()).1 matches
                RunOutcome::Done(round) && round.error is None),
    {
        let mut this = self;
        let task_id = this.rb.new_task_id();
        let opened = this.conn.begin();
        match opened {
            Ok(_) => Ok(
                RBatisTxExecutor {
                    tx_id: task_id as i64,
                    conn: this.conn,
                    rb: this.rb,
                    done: false,
                },
            ),
            Err(e) => Err(e),
        }
    }
}

impl<I: SqlIntercept, L: LogSink> RbatisRef<I, L> for RBatisConnExecutor<I, L> {
    open spec fn has_rbatis(&self) -> bool {
        true
    }

    fn get_rbatis(&self) -> &Rbatis<I, L> {
        &self.rb
    }
}

impl<I: SqlIntercept, L: LogSink> Executor<I, L> for RBatisConnExecutor<I, L> {
    open spec fn exec_ready(&self) -> bool {
        &&& self.conn.wf()
        &&& self.conn.pending() < usize::MAX
        &&& self.conn.next_id() < u64::MAX
    }

    fn exec(&mut self, sql: &str, args: Vec<Value>) -> Result<ExecResult, Error> {
        RBatisConnExecutor::exec(self, sql, args)
    }

    fn fetch(&mut self, sql: &str, args: Vec<Value>) -> Result<Value, Error> {
        RBatisConnExecutor::fetch(self, sql, args)
    }
}

/// An executor bound to one open transaction. `done` marks the Finished
/// state: a committed or rolled-back transaction accepts no further
/// work.
pub struct RBatisTxExecutor<I: SqlIntercept, L: LogSink> {
    /// correlation id of the transaction
    pub tx_id: i64,
    /// the exclusively owned connection
    pub conn: PgConnection,
    /// shared configuration
    pub rb: Rbatis<I, L>,
    /// Finished flag: set only by a successful commit or rollback
    pub done: bool,
}


/// What executing one statement on a transaction leaves behind: a
/// Finished transaction refuses the call untouched; an Active one with
/// an empty interceptor chain behaves exactly as the connection-level
/// run of the statement.
pub open spec fn spec_tx_exec_post<I: SqlIntercept, L: LogSink>(
    t: RBatisTxExecutor<I, L>,
    t2: RBatisTxExecutor<I, L>,
    r: Result<ExecResult, Error>,
    sql: Seq<char>,
    args: Seq<Value>,
) -> bool {
    &&& t2.conn.wf()
    &&& t2.done == t.done
    &&& t2.tx_id == t.tx_id
    &&& t2.rb.sql_intercepts == t.rb.sql_intercepts
    &&& (t.done ==> (r matches Err(e) && e is TransactionState && t2.conn.state()
        == t.conn.state()))
    &&& ((!t.done && t.rb.sql_intercepts@.len() == 0) ==> {
        &&& t2.conn.state() == spec_run(t.conn.state(), sql, args).0
        &&& match spec_run(t.conn.state(), sql, args).1 {
            RunOutcome::EvictionStarved => r matches Err(e) && e is CacheEviction,
            RunOutcome::EvictionError(m0) => r matches Err(e) && (e matches Error::CacheEviction(
                m,
            ) && m@ == m0),
            RunOutcome::Starved => r matches Err(e) && e is Connection,
            RunOutcome::Done(round) => match round.error {
                Some(m0) => r matches Err(e) && (e matches Error::Server(m) && m@ == m0),
                None => r matches Ok(res) && res.rows_affected == round.affected
                    && res.last_insert_id is Null,
            },
        }
    })
}

/// What fetching rows on a transaction leaves behind, mirroring
/// `spec_tx_exec_post` with the projected rows as the result.
pub open spec fn spec_tx_fetch_post<I: SqlIntercept, L: LogSink>(
    t: RBatisTxExecutor<I, L>,
    t2: RBatisTxExecutor<I, L>,
    r: Result<Value, Error>,
    sql: Seq<char>,
    args: Seq<Value>,
) -> bool {
    &&& t2.conn.wf()
    &&& t2.done == t.done
    &&& t2.tx_id == t.tx_id
    &&& t2.rb.sql_intercepts == t.rb.sql_intercepts
    &&& (t.done ==> (r matches Err(e) && e is TransactionState && t2.conn.state()
        == t.conn.state()))
    &&& ((!t.done && t.rb.sql_intercepts@.len() == 0) ==> {
        &&& t2.conn.state() == spec_run(t.conn.state(), sql, args).0
        &&& match spec_run(t.conn.state(), sql, args).1 {
            RunOutcome::EvictionStarved => r matches Err(e) && e is CacheEviction,
            RunOutcome::EvictionError(m0) => r matches Err(e) && (e matches Error::CacheEviction(
                m,
            ) && m@ == m0),
            RunOutcome::Starved => r matches Err(e) && e is Connection,
            RunOutcome::Done(round) => match round.error {
                Some(m0) => r matches Err(e) && (e matches Error::Server(m) && m@ == m0),
                None => r matches Ok(v) && (v matches Value::Array(vals) && spec_values_ok(
                    vals@,
                    round.columns,
                    round.rows,
                )),
            },
        }
    })
}

/// What a successful or failed commit or rollback leaves behind: on a
/// Finished transaction nothing happens and the call is refused; on an
/// Active one the verb runs on the connection, and `done` flips exactly
/// when the verb succeeded.
pub open spec fn spec_tx_verb_post<I: SqlIntercept, L: LogSink>(
    t: RBatisTxExecutor<I, L>,
    t2: RBatisTxExecutor<I, L>,
    r: Result<bool, Error>,
    verb: Seq<char>,
) -> bool {
    if t.done {
        &&& r matches Err(e) && e is TransactionState
        &&& t2.conn.state() == t.conn.state()
        &&& t2.done == t.done
        &&& t2.tx_id == t.tx_id
    } else {
        let run = spec_run(t.conn.state(), verb, Seq::empty());
        let succeeded = run.1 matches RunOutcome::Done(round) && round.error is None;
        &&& t2.conn.state() == run.0
        &&& t2.done == succeeded
        &&& t2.tx_id == t.tx_id
        &&& r matches Ok(b) && b == succeeded
    }
}

impl<I: SqlIntercept, L: LogSink> RBatisTxExecutor<I, L> {
    /// Execute one statement inside the transaction. A Finished
    /// transaction refuses the call without queueing anything.
    pub fn exec(&mut self, sql: &str, args: Vec<Value>) -> (r: Result<ExecResult, Error>)
        requires
            old(self).conn.wf(),
            sql@.len() < usize::MAX,
            old(self).conn.pending() < usize::MAX,
            old(self).conn.next_id() < u64::MAX,
        ensures
            spec_tx_exec_post(*old(self), *final(self), r, sql@, args@),
    {
        if self.done {
            return Err(Error::TransactionState);
        }
        let piped = run_pipeline(
            &mut self.conn,
            &mut self.rb,
            self.tx_id as u64,
            sql,
            args,
            false,
        );
        match piped {
            Ok((Some(res), _)) => Ok(res),
            Ok((None, _)) => Err(Error::Protocol("the pipeline lost its result".to_owned())),
            Err(e) => Err(e),
        }
    }

    /// Fetch rows inside the transaction. A Finished transaction refuses
    /// the call without queueing anything.
    pub fn fetch(&mut self, sql: &str, args: Vec<Value>) -> (r: Result<Value, Error>)
        requires
            old(self).conn.wf(),
            sql@.len() < usize::MAX,
            old(self).conn.pending() < usize::MAX,
            old(self).conn.next_id() < u64::MAX,
        ensures
            spec_tx_fetch_post(*old(self), *final(self), r, sql@, args@),
    {
        if self.done {
            return Err(Error::TransactionState);
        }
        let piped = run_pipeline(
            &mut self.conn,
            &mut self.rb,
            self.tx_id as u64,
            sql,
            args,
            true,
        );
        match piped {
            Ok((_, Some(vals))) => Ok(Value::Array(vals)),
            Ok((_, None)) => Err(Error::Protocol("the pipeline lost its rows".to_owned())),
            Err(e) => Err(e),
        }
    }

    /// Open a nested transaction block; the connection layer decides
    /// what nesting means.
    pub fn begin(self) -> (r: Result<Self, Error>)
        requires
            self.conn.wf(),
            self.conn.pending() < usize::MAX,
            self.conn.next_id() < u64::MAX,
        ensures
            r matches Ok(tx) ==> {
                &&& tx.conn.state() == spec_run(self.conn.state(), "begin"@, Seq::empty()).0
                &&& tx.conn.wf()
                &&& tx.done == self.done
                &&& tx.tx_id == self.tx_id
            },
            r is Ok <==> (spec_run(self.conn.state(), "begin"@, Seq::empty()).1 matches
                RunOutcome::Done(round) && round.error is None),
    {
        let mut this = self;
        let opened = this.conn.begin();
        match opened {
            Ok(_) => Ok(this),
            Err(e) => Err(e),
        }
    }

    /// Commit the transaction. A Finished transaction is refused with a
    /// transaction-state error and no protocol message; otherwise `done`
    /// flips exactly when the commit verb succeeded, so a failed commit
    /// leaves the transaction Active and retryable.
    pub fn commit(&mut self) -> (r: Result<bool, Error>)
        requires
            old(self).conn.wf(),
            old(self).conn.pending() < usize::MAX,
            old(self).conn.next_id() < u64::MAX,
        ensures
            final(self).conn.wf(),
            final(self).rb.sql_intercepts == old(self).rb.sql_intercepts,
            spec_tx_verb_post(*old(self), *final(self), r, "commit"@),
    {
        if self.done {
            return Err(Error::TransactionState);
        }
        let committed = self.conn.commit();
        if let Ok(_) = committed {
            self.done = true;
        }
        Ok(self.done)
    }

    /// Roll the transaction back. A Finished transaction is refused with
    /// a transaction-state error and no protocol message; otherwise
    /// `done` flips exactly when the rollback verb succeeded.
    pub fn rollback(&mut self) -> (r: Result<bool, Error>)
        requires
            old(self).conn.wf(),
            old(self).conn.pending() < usize::MAX,
            old(self).conn.next_id() < u64::MAX,
        ensures
            final(self).conn.wf(),
            final(self).rb.sql_intercepts == old(self).rb.sql_intercepts,
            spec_tx_verb_post(*old(self), *final(self), r, "rollback"@),
    {
        if self.done {
            return Err(Error::TransactionState);
        }
        let rolled = self.conn.rollback();
        if let Ok(_) = rolled {
            self.done = true;
        }
        Ok(self.done)
    }

    /// Release the owned connection, consuming the transaction.
    pub fn take_conn(self) -> (r: PgConnection)
        ensures
            r == self.conn,
    {
        self.conn
    }

    /// Wrap this transaction in a guard that hands it to `sender` on
    /// release. The consumer draining that channel runs the deferred
    /// action; creating the channel and its background consumer is the
    /// caller's I/O-side work.
    pub fn defer_async(self, sender: flume::Sender<RBatisTxExecutor<I, L>>) -> (r:
        RBatisTxExecutorGuard<I, L>)
        ensures
            r.tx == Some(self),
            r.sender == sender,
    {
        RBatisTxExecutorGuard { tx: Some(self), sender }
    }
}

impl<I: SqlIntercept, L: LogSink> RbatisRef<I, L> for RBatisTxExecutor<I, L> {
    open spec fn has_rbatis(&self) -> bool {
        true
    }

    fn get_rbatis(&self) -> &Rbatis<I, L> {
        &self.rb
    }
}

impl<I: SqlIntercept, L: LogSink> Executor<I, L> for RBatisTxExecutor<I, L> {
    open spec fn exec_ready(&self) -> bool {
        &&& self.conn.wf()
        &&& self.conn.pending() < usize::MAX
        &&& self.conn.next_id() < u64::MAX
    }

    fn exec(&mut self, sql: &str, args: Vec<Value>) -> Result<ExecResult, Error> {
        RBatisTxExecutor::exec(self, sql, args)
    }

    fn fetch(&mut self, sql: &str, args: Vec<Value>) -> Result<Value, Error> {
        RBatisTxExecutor::fetch(self, sql, args)
    }
}

/// A guard over an optional transaction plus a disposal-channel sender.
/// Releasing the guard hands the transaction it still holds to the
/// channel, exactly once, so a registered deferred action runs whatever
/// way the owning scope exits.
#[verifier::reject_recursive_types(I)]
#[verifier::reject_recursive_types(L)]
pub struct RBatisTxExecutorGuard<I: SqlIntercept, L: LogSink> {
    /// the guarded transaction, present until taken or released
    pub tx: Option<RBatisTxExecutor<I, L>>,
    /// sending half of the deferred-disposal channel
    pub sender: flume::Sender<RBatisTxExecutor<I, L>>,
}

impl<I: SqlIntercept, L: LogSink> RBatisTxExecutorGuard<I, L> {
    /// Re-open the inner transaction: take it, begin on it, put the
    /// result back. Refused when the transaction was already taken; a
    /// failed begin leaves the guard empty.
    pub fn begin(&mut self) -> (r: Result<(), Error>)
        requires
            old(self).tx matches Some(t) ==> t.conn.wf() && t.conn.pending() < usize::MAX
                && t.conn.next_id() < u64::MAX,
        ensures
            old(self).tx is None ==> (r matches Err(e) && e is TransactionState
                && final(self).tx is None),
            old(self).tx matches Some(t) ==> {
                let run = spec_run(t.conn.state(), "begin"@, Seq::empty());
                let succeeded = run.1 matches RunOutcome::Done(round) && round.error is None;
                &&& r is Ok <==> succeeded
                &&& succeeded ==> (final(self).tx matches Some(t2) && t2.conn.state() == run.0
                    && t2.done == t.done && t2.tx_id == t.tx_id)
                &&& !succeeded ==> final(self).tx is None
            },
    {
        let present = self.tx.take();
        match present {
            None => Err(Error::TransactionState),
            Some(t) => {
                match t.begin() {
                    Ok(t2) => {
                        self.tx = Some(t2);
                        Ok(())
                    },
                    Err(e) => Err(e),
                }
            },
        }
    }

    /// Commit the inner transaction. Refused when it was already taken.
    pub fn commit(&mut self) -> (r: Result<bool, Error>)
        requires
            old(self).tx matches Some(t) ==> t.conn.wf() && t.conn.pending() < usize::MAX
                && t.conn.next_id() < u64::MAX,
        ensures
            old(self).tx is None ==> (r matches Err(e) && e is TransactionState
                && final(self).tx is None),
            old(self).tx matches Some(t) ==> final(self).tx matches Some(t2) && spec_tx_verb_post(
                t,
                t2,
                r,
                "commit"@,
            ),
    {
        match &mut self.tx {
            None => Err(Error::TransactionState),
            Some(t) => t.commit(),
        }
    }

    /// Roll the inner transaction back. Refused when it was already
    /// taken.
    pub fn rollback(&mut self) -> (r: Result<bool, Error>)
        requires
            old(self).tx matches Some(t) ==> t.conn.wf() && t.conn.pending() < usize::MAX
                && t.conn.next_id() < u64::MAX,
        ensures
            old(self).tx is None ==> (r matches Err(e) && e is TransactionState
                && final(self).tx is None),
            old(self).tx matches Some(t) ==> final(self).tx matches Some(t2) && spec_tx_verb_post(
                t,
                t2,
                r,
                "rollback"@,
            ),
    {
        match &mut self.tx {
            None => Err(Error::TransactionState),
            Some(t) => t.rollback(),
        }
    }

    /// Take the inner transaction's connection out, if the transaction
    /// is still here; the disposal channel then never sees it.
    pub fn take_conn(self) -> (r: Option<PgConnection>)
        ensures
            self.tx is None ==> r is None,
            self.tx matches Some(t) ==> r == Some(t.conn),
    {
        match self.tx {
            None => None,
            Some(t) => Some(t.take_conn()),
        }
    }

    /// Execute a statement on the inner transaction; refused when it was
    /// already taken.
    pub fn exec(&mut self, sql: &str, args: Vec<Value>) -> (r: Result<ExecResult, Error>)
        requires
            sql@.len() < usize::MAX,
            old(self).tx matches Some(t) ==> t.conn.wf() && t.conn.pending() < usize::MAX
                && t.conn.next_id() < u64::MAX,
        ensures
            old(self).tx is None ==> (r matches Err(e) && e is TransactionState
                && final(self).tx is None),
            old(self).tx matches Some(t) ==> (final(self).tx matches Some(t2)
                && spec_tx_exec_post(t, t2, r, sql@, args@)),
    {
        match &mut self.tx {
            None => Err(Error::TransactionState),
            Some(t) => t.exec(sql, args),
        }
    }

    /// Fetch rows on the inner transaction; refused when it was already
    /// taken.
    pub fn fetch(&mut self, sql: &str, args: Vec<Value>) -> (r: Result<Value, Error>)
        requires
            sql@.len() < usize::MAX,
            old(self).tx matches Some(t) ==> t.conn.wf() && t.conn.pending() < usize::MAX
                && t.conn.next_id() < u64::MAX,
        ensures
            old(self).tx is None ==> (r matches Err(e) && e is TransactionState
                && final(self).tx is None),
            old(self).tx matches Some(t) ==> (final(self).tx matches Some(t2)
                && spec_tx_fetch_post(t, t2, r, sql@, args@)),
    {
        match &mut self.tx {
            None => Err(Error::TransactionState),
            Some(t) => t.fetch(sql, args),
        }
    }

    /// Take the transaction out for disposal: afterwards the guard holds
    /// none, so a second release has nothing left to send. What comes
    /// out is exactly the transaction the guard held.
    pub fn take_for_disposal(&mut self) -> (r: Option<RBatisTxExecutor<I, L>>)
        ensures
            r == old(self).tx,
            final(self).tx is None,
            final(self).sender == old(self).sender,
    {
        self.tx.take()
    }

    /// Release the guard: if it still holds its transaction, that exact
    /// transaction is handed to the disposal channel, once. The send
    /// never blocks the releasing context: with no receiver registered,
    /// or a bounded channel already full, it is a no-op and the
    /// transaction is discarded, by design. Destructors stay outside the
    /// verifier, so release is explicit; the result says whether a
    /// transaction was handed over.
    pub fn release(self) -> (r: bool)
        ensures
            r == (self.tx is Some),
    {
        let mut this = self;
        let held = this.take_for_disposal();
        match held {
            None => false,
            Some(tx) => {
                let _ = channel_send(&this.sender, tx);
                true
            },
        }
    }
}

impl<I: SqlIntercept, L: LogSink> RbatisRef<I, L> for RBatisTxExecutorGuard<I, L> {
    open spec fn has_rbatis(&self) -> bool {
        self.tx is Some
    }

    fn get_rbatis(&self) -> &Rbatis<I, L> {
        match &self.tx {
            Some(t) => &t.rb,
            None => vstd::pervasive::unreached(),
        }
    }
}

impl<I: SqlIntercept, L: LogSink> Executor<I, L> for RBatisTxExecutorGuard<I, L> {
    open spec fn exec_ready(&self) -> bool {
        self.tx matches Some(t) ==> {
            &&& t.conn.wf()
            &&& t.conn.pending() < usize::MAX
            &&& t.conn.next_id() < u64::MAX
        }
    }

    fn exec(&mut self, sql: &str, args: Vec<Value>) -> Result<ExecResult, Error> {
        RBatisTxExecutorGuard::exec(self, sql, args)
    }

    fn fetch(&mut self, sql: &str, args: Vec<Value>) -> Result<Value, Error> {
        RBatisTxExecutorGuard::fetch(self, sql, args)
    }
}


/// The pooling collaborator: hands out one usable connection per
/// borrower and takes it back on release. Pool policy itself is outside
/// the core; this interface is what the core asks of it.
pub trait ConnectionBroker {
    spec fn wf(&self) -> bool;

    /// Lease a connection. A usable lease is well-formed with room in
    /// its counters.
    fn acquire(&mut self) -> (r: Result<PgConnection, Error>)
        requires
            old(self).wf(),
        ensures
            final(self).wf(),
            r matches Ok(c) ==> c.wf() && c.pending() < usize::MAX && c.next_id() < u64::MAX,
    ;

    /// Return a leased connection; only well-formed connections come
    /// back, the pipeline keeps them so.
    fn release(&mut self, conn: PgConnection) -> (r: ())
        requires
            old(self).wf(),
            conn.wf(),
        ensures
            final(self).wf(),
    ;
}

/// The smallest broker: one slot, one borrower at a time. A returned
/// connection is kept only while its counters still have room.
pub struct SingleConnectionBroker {
    slot: Option<PgConnection>,
}

impl SingleConnectionBroker {
    /// The slot never holds an unusable connection.
    pub closed spec fn inv(&self) -> bool {
        self.slot matches Some(c) ==> c.wf() && c.pending() < usize::MAX && c.next_id()
            < u64::MAX
    }

    /// A broker holding one fresh connection.
    pub fn new(conn: PgConnection) -> (r: Self)
        requires
            conn.wf(),
            conn.pending() < usize::MAX,
            conn.next_id() < u64::MAX,
        ensures
            r.wf(),
    {
        SingleConnectionBroker { slot: Some(conn) }
    }
}

impl ConnectionBroker for SingleConnectionBroker {
    open spec fn wf(&self) -> bool {
        self.inv()
    }

    fn acquire(&mut self) -> (r: Result<PgConnection, Error>) {
        match self.slot.take() {
            Some(conn) => Ok(conn),
            None => Err(Error::Connection("the connection is already leased".to_owned())),
        }
    }

    fn release(&mut self, conn: PgConnection) -> (r: ()) {
        if conn.has_pending_capacity() && conn.has_statement_ids() {
            self.slot = Some(conn);
        }
    }
}

impl<I: SqlIntercept, L: LogSink> Rbatis<I, L> {
    /// Execute one statement on a connection leased from the broker for
    /// just this call: the per-call pipeline runs on whatever connection
    /// the broker handed out, and the lease goes straight back.
    pub fn exec<B: ConnectionBroker>(
        &mut self,
        broker: &mut B,
        sql: &str,
        args: Vec<Value>,
    ) -> (r: Result<ExecResult, Error>)
        requires
            old(broker).wf(),
            sql@.len() < usize::MAX,
        ensures
            final(broker).wf(),
            final(self).sql_intercepts == old(self).sql_intercepts,
            final(self).driver_name == old(self).driver_name,
            r matches Ok(res) ==> res.last_insert_id is Null,
    {
        let mut conn = broker.acquire()?;
        let task_id = self.new_task_id();
        let piped = run_pipeline(&mut conn, self, task_id, sql, args, false);
        broker.release(conn);
        match piped {
            Ok((Some(res), _)) => Ok(res),
            Ok((None, _)) => Err(Error::Protocol("the pipeline lost its result".to_owned())),
            Err(e) => Err(e),
        }
    }

    /// Fetch one statement's rows on a connection leased from the
    /// broker for just this call.
    pub fn fetch<B: ConnectionBroker>(
        &mut self,
        broker: &mut B,
        sql: &str,
        args: Vec<Value>,
    ) -> (r: Result<Value, Error>)
        requires
            old(broker).wf(),
            sql@.len() < usize::MAX,
        ensures
            final(broker).wf(),
            final(self).sql_intercepts == old(self).sql_intercepts,
            final(self).driver_name == old(self).driver_name,
            r matches Ok(v) ==> (v matches Value::Array(vals) && forall|i: int|
                0 <= i < vals@.len() ==> (#[trigger] vals@[i]) is Mapping),
    {
        let mut conn = broker.acquire()?;
        let task_id = self.new_task_id();
        let piped = run_pipeline(&mut conn, self, task_id, sql, args, true);
        broker.release(conn);
        match piped {
            Ok((_, Some(vals))) => Ok(Value::Array(vals)),
            Ok((_, None)) => Err(Error::Protocol("the pipeline lost its rows".to_owned())),
            Err(e) => Err(e),
        }
    }
}

} // verus!
