use vstd::prelude::*;
use crate::error::Error;
use crate::statement_cache::{spec_key_index, spec_touch, CacheEntry, CachedStatement, StatementCache};
use crate::value::{spec_nat_digits, u64_to_string, Value};

verus! {

/// Transaction status carried by every ready-for-query acknowledgement.
#[derive(Clone, Copy, Debug, PartialEq, Eq, Structural)]
pub enum TransactionStatus {
    /// not inside a transaction
    Idle,
    /// inside a transaction
    InTransaction,
    /// inside a failed transaction block
    Failed,
}

/// A decoded message from the server. Byte-level framing is out of
/// scope: the transport hands the connection already-decoded messages.
#[derive(Debug)]
pub enum BackendMessage {
    /// one queued round trip is complete; carries the transaction status
    ReadyForQuery(TransactionStatus),
    /// a parse request was accepted
    ParseComplete,
    /// column names of the rows that follow
    RowDescription(Vec<String>),
    /// one row of values
    DataRow(Vec<Value>),
    /// a statement finished; carries the rows-affected count
    CommandComplete(u64),
    /// a close request was honoured
    CloseComplete,
    /// the server reports a statement-level error
    ErrorResponse(String),
}

/// A message queued for the server. The transport drains these in order.
#[derive(Debug)]
pub enum FrontendMessage {
    /// an unprepared, parameter-less statement
    Query(String),
    /// prepare `sql` under the given remote identifier
    Parse { statement_id: u64, sql: String },
    /// run the prepared statement with the given arguments
    Execute { statement_id: u64, args: Vec<Value> },
    /// forget the prepared statement with the given identifier
    Close { statement_id: u64 },
    /// close the current pipeline segment; the server answers with a
    /// ready-for-query acknowledgement
    Sync,
    /// graceful termination notice
    Terminate,
}

/// What an outgoing message says, with text and arguments as their
/// mathematical views; contracts speak of these.
pub enum FrontendView {
    Query(Seq<char>),
    Parse { statement_id: u64, sql: Seq<char> },
    Execute { statement_id: u64, args: Seq<Value> },
    Close { statement_id: u64 },
    Sync,
    Terminate,
}

/// View of one outgoing message.
pub open spec fn frontend_view(m: FrontendMessage) -> FrontendView {
    match m {
        FrontendMessage::Query(q) => FrontendView::Query(q@),
        FrontendMessage::Parse { statement_id, sql } => FrontendView::Parse {
            statement_id,
            sql: sql@,
        },
        FrontendMessage::Execute { statement_id, args } => FrontendView::Execute {
            statement_id,
            args: args@,
        },
        FrontendMessage::Close { statement_id } => FrontendView::Close { statement_id },
        FrontendMessage::Sync => FrontendView::Sync,
        FrontendMessage::Terminate => FrontendView::Terminate,
    }
}

/// Positional placeholder exchange from index `i` on: each `?` becomes
/// `$n`, with `n` counting from `next` upward.
pub open spec fn spec_exchange_from(s: Seq<char>, i: int, next: int) -> Seq<char>
    decreases s.len() - i when 0 <= i <= s.len()
{
    if i >= s.len() {
        Seq::empty()
    } else if s[i] == '?' {
        seq!['$'] + spec_nat_digits(next) + spec_exchange_from(s, i + 1, next + 1)
    } else {
        seq![s[i]] + spec_exchange_from(s, i + 1, next)
    }
}

/// The normalized statement text: `?` placeholders rewritten to `$1`,
/// `$2`, ... in order.
pub open spec fn spec_exchange(s: Seq<char>) -> Seq<char> {
    spec_exchange_from(s, 0, 1)
}

/// Rewrite `?` placeholders to `$1`, `$2`, ... This is also the text a
/// prepared statement is cached under.
pub fn exchange(sql: &str) -> (r: String)
    requires
        sql@.len() < usize::MAX,
    ensures
        r@ == spec_exchange(sql@),
{
    let len = sql.unicode_len();
    let mut out = String::new();
    let mut i: usize = 0;
    let mut next: usize = 1;
    proof {
        assert(out@ + spec_exchange_from(sql@, 0, 1) =~= spec_exchange_from(sql@, 0, 1));
    }
    while i < len
        invariant
            len == sql@.len(),
            len < usize::MAX,
            i <= len,
            1 <= next <= i + 1,
            out@ + spec_exchange_from(sql@, i as int, next as int) == spec_exchange(sql@),
        decreases len - i,
    {
        let ghost pre = out@;
        let c = sql.get_char(i);
        if c == '?' {
            out.append("$");
            proof {
                reveal_strlit("$");
                assert("$"@ =~= seq!['$']);
            }
            let digits = u64_to_string(next as u64);
            out.append(digits.as_str());
            next = next + 1;
        } else {
            let piece = sql.substring_char(i, i + 1);
            out.append(piece);
            proof {
                assert(piece@ =~= seq![sql@[i as int]]);
            }
        }
        proof {
            assert(out@ + spec_exchange_from(sql@, i + 1, next as int) =~= pre
                + spec_exchange_from(sql@, i as int, if sql@[i as int] == '?' {
                next - 1
            } else {
                next as int
            }));
        }
        i = i + 1;
    }
    proof {
        assert(out@ + spec_exchange_from(sql@, len as int, next as int) =~= out@);
    }
    out
}

/// Drain acknowledgements from the front of `inbox` until `pending`
/// reaches zero: every ready-for-query message counts down and updates
/// the status; everything else is consumed and ignored. `None` means
/// the inbox ran dry first.
pub open spec fn spec_drain(
    inbox: Seq<BackendMessage>,
    pending: nat,
    status: TransactionStatus,
) -> Option<(Seq<BackendMessage>, TransactionStatus)>
    decreases inbox.len(),
{
    if pending == 0 {
        Some((inbox, status))
    } else if inbox.len() == 0 {
        None
    } else {
        match inbox[0] {
            BackendMessage::ReadyForQuery(s) => spec_drain(
                inbox.drop_first(),
                (pending - 1) as nat,
                s,
            ),
            _ => spec_drain(inbox.drop_first(), pending, status),
        }
    }
}

/// Number of ready-for-query acknowledgements in `s`.
pub open spec fn spec_ack_count(s: Seq<BackendMessage>) -> nat
    decreases s.len(),
{
    if s.len() == 0 {
        0
    } else {
        spec_ack_count(s.drop_first()) + if s[0] is ReadyForQuery {
            1nat
        } else {
            0nat
        }
    }
}


/// The result of an execution round trip, read from the inbox up to and
/// including the first ready-for-query acknowledgement: the rest of the
/// inbox, the acknowledged status, the rows-affected counts of all
/// command completions summed (saturating at the top; a round may hold
/// several when one simple query carried several statements), the first
/// server error if any, the last row description, and the data rows, in
/// order.
pub struct Round {
    pub rest: Seq<BackendMessage>,
    pub status: TransactionStatus,
    pub affected: u64,
    pub error: Option<Seq<char>>,
    pub columns: Seq<Seq<char>>,
    pub rows: Seq<Seq<Value>>,
}

/// Sum two counts, stopping at the largest representable value.
pub open spec fn spec_saturating_add_u64(a: int, b: int) -> u64 {
    if a + b > u64::MAX {
        u64::MAX as u64
    } else {
        (a + b) as u64
    }
}

/// Read one round: consume messages until the first acknowledgement.
/// `None` means the inbox ran dry before the acknowledgement.
pub open spec fn spec_round(
    inbox: Seq<BackendMessage>,
    affected: u64,
    columns: Seq<Seq<char>>,
    rows: Seq<Seq<Value>>,
    error: Option<Seq<char>>,
) -> Option<Round>
    decreases inbox.len(),
{
    if inbox.len() == 0 {
        None
    } else {
        match inbox[0] {
            BackendMessage::ReadyForQuery(s) => Some(
                Round {
                    rest: inbox.drop_first(),
                    status: s,
                    affected,
                    error,
                    columns,
                    rows,
                },
            ),
            BackendMessage::CommandComplete(n) => spec_round(
                inbox.drop_first(),
                spec_saturating_add_u64(affected as int, n as int),
                columns,
                rows,
                error,
            ),
            BackendMessage::RowDescription(cols) => spec_round(
                inbox.drop_first(),
                affected,
                cols@.map_values(|c: String| c@),
                rows,
                error,
            ),
            BackendMessage::DataRow(vals) => spec_round(
                inbox.drop_first(),
                affected,
                columns,
                rows.push(vals@),
                error,
            ),
            BackendMessage::ErrorResponse(e) => spec_round(
                inbox.drop_first(),
                affected,
                columns,
                rows,
                if error is Some {
                    error
                } else {
                    Some(e@)
                },
            ),
            _ => spec_round(inbox.drop_first(), affected, columns, rows, error),
        }
    }
}

/// Reading a round from the start of an inbox.
pub open spec fn spec_round0(inbox: Seq<BackendMessage>) -> Option<Round> {
    spec_round(inbox, 0, Seq::empty(), Seq::empty(), None)
}

/// What one execution round trip produced.
pub struct RoundOutcome {
    /// rows-affected counts of the round's command completions, summed
    pub affected: u64,
    /// column names from the last row description
    pub columns: Vec<String>,
    /// the data rows, in arrival order
    pub rows: Vec<Vec<Value>>,
    /// the first server-reported error, if any
    pub error: Option<String>,
}



/// The view of an optional error text.
pub open spec fn opt_text_view(o: Option<String>) -> Option<Seq<char>> {
    match o {
        Some(s) => Some(s@),
        None => None,
    }
}

/// What one statement execution affected, per the server's report.
#[derive(Debug)]
pub struct ExecResult {
    /// rows affected by the statement
    pub rows_affected: u64,
    /// last inserted identifier, possibly null
    pub last_insert_id: Value,
}


/// Whether `pairs` projects one data row under the given columns: each
/// column name paired with the row's value at the same position, and a
/// null where the row is shorter than the description.
pub open spec fn spec_row_pairs_ok(
    pairs: Seq<(Value, Value)>,
    cols: Seq<Seq<char>>,
    vals: Seq<Value>,
) -> bool {
    &&& pairs.len() == cols.len()
    &&& forall|j: int|
        0 <= j < cols.len() ==> {
            &&& (#[trigger] pairs[j]).0 matches Value::String(s) && s@ == cols[j]
            &&& pairs[j].1 == if j < vals.len() {
                vals[j]
            } else {
                Value::Null
            }
        }
}

/// Whether `out` is the row set of a round: one map value per data row,
/// pairing the described columns with the row's values in order.
pub open spec fn spec_values_ok(out: Seq<Value>, cols: Seq<Seq<char>>, rows: Seq<Seq<Value>>) -> bool {
    &&& out.len() == rows.len()
    &&& forall|i: int|
        0 <= i < rows.len() ==> ((#[trigger] out[i]) matches Value::Mapping(pairs)
            && spec_row_pairs_ok(pairs@, cols, rows[i]))
}

/// The connection's whole observable state, for specifications.
#[verifier::ext_equal]
pub struct ConnView {
    pub inbox: Seq<BackendMessage>,
    pub outbox: Seq<FrontendView>,
    pub pending: nat,
    pub status: TransactionStatus,
    pub cache: Seq<CacheEntry>,
    pub lookups: nat,
    pub cap: usize,
    pub next_id: u64,
}

/// How running one statement can end.
pub enum RunOutcome {
    /// the inbox ran dry during the cache-eviction round
    EvictionStarved,
    /// the server failed the cache-eviction round
    EvictionError(Seq<char>),
    /// the inbox ran dry during the statement's own round
    Starved,
    /// the statement's round completed (it may carry a server error)
    Done(Round),
}

/// Finish a queued round: read it from the inbox.
pub open spec fn spec_finish_round(c: ConnView) -> (ConnView, RunOutcome) {
    match spec_round0(c.inbox) {
        None => (ConnView { inbox: Seq::empty(), ..c }, RunOutcome::Starved),
        Some(round) => (
            ConnView {
                inbox: round.rest,
                pending: (c.pending - 1) as nat,
                status: round.status,
                ..c
            },
            RunOutcome::Done(round),
        ),
    }
}

/// Prepare `key` under a fresh identifier and execute it, pipelined as
/// one round; on success the statement is admitted to the cache with
/// the columns the round described.
pub open spec fn spec_prepare_exec(c: ConnView, key: Seq<char>, params: Seq<Value>) -> (
    ConnView,
    RunOutcome,
) {
    let id = c.next_id;
    let c2 = ConnView {
        next_id: (c.next_id + 1) as u64,
        outbox: c.outbox + seq![
            FrontendView::Parse { statement_id: id, sql: key },
            FrontendView::Execute { statement_id: id, args: params },
        ],
        pending: c.pending + 1,
        ..c
    };
    match spec_round0(c2.inbox) {
        None => (ConnView { inbox: Seq::empty(), ..c2 }, RunOutcome::Starved),
        Some(round) => {
            let c3 = ConnView {
                inbox: round.rest,
                pending: (c2.pending - 1) as nat,
                status: round.status,
                ..c2
            };
            match round.error {
                Some(_) => (c3, RunOutcome::Done(round)),
                None => (
                    ConnView {
                        cache: if c.cap > 0 {
                            c3.cache.push((key, id, round.columns))
                        } else {
                            c3.cache
                        },
                        ..c3
                    },
                    RunOutcome::Done(round),
                ),
            }
        },
    }
}

/// Run one statement against the connection state: empty parameters take
/// the simple-query path and never touch the cache; parameters take the
/// prepared path with exactly one cache lookup, evicting the least
/// recently used entry first when the cache is full.
pub open spec fn spec_run(c: ConnView, sql: Seq<char>, params: Seq<Value>) -> (
    ConnView,
    RunOutcome,
) {
    let key = spec_exchange(sql);
    if params.len() == 0 {
        spec_finish_round(
            ConnView {
                outbox: c.outbox.push(FrontendView::Query(key)),
                pending: c.pending + 1,
                ..c
            },
        )
    } else {
        let c1 = ConnView { lookups: c.lookups + 1, ..c };
        let j = spec_key_index(c.cache, key);
        if j >= 0 {
            let id = c.cache[j].1;
            spec_finish_round(
                ConnView {
                    cache: spec_touch(c.cache, j),
                    outbox: c1.outbox.push(
                        FrontendView::Execute { statement_id: id, args: params },
                    ),
                    pending: c1.pending + 1,
                    ..c1
                },
            )
        } else if c.cap > 0 && c.cache.len() >= c.cap {
            let evicted = c.cache[0].1;
            let c2 = ConnView {
                cache: c.cache.drop_first(),
                outbox: c1.outbox + seq![
                    FrontendView::Close { statement_id: evicted },
                    FrontendView::Sync,
                ],
                pending: c1.pending + 1,
                ..c1
            };
            match spec_round0(c2.inbox) {
                None => (ConnView { inbox: Seq::empty(), ..c2 }, RunOutcome::EvictionStarved),
                Some(evround) => {
                    let c3 = ConnView {
                        inbox: evround.rest,
                        pending: (c2.pending - 1) as nat,
                        status: evround.status,
                        ..c2
                    };
                    match evround.error {
                        Some(t) => (c3, RunOutcome::EvictionError(t)),
                        None => spec_prepare_exec(c3, key, params),
                    }
                },
            }
        } else {
            spec_prepare_exec(c1, key, params)
        }
    }
}

/// Whether `r` reports `round` correctly for a statement execution: a
/// server error passes through unchanged, and a clean round yields the
/// outcome's data.
pub open spec fn spec_outcome_ok(r: Result<RoundOutcome, Error>, o: RunOutcome) -> bool {
    match o {
        RunOutcome::EvictionStarved => r matches Err(e) && e is CacheEviction,
        RunOutcome::EvictionError(t) => r matches Err(e) && (e matches Error::CacheEviction(m)
            && m@ == t),
        RunOutcome::Starved => r matches Err(e) && e is Connection,
        RunOutcome::Done(round) => match round.error {
            Some(t) => r matches Err(e) && (e matches Error::Server(m) && m@ == t),
            None => r matches Ok(out) && {
                &&& out.affected == round.affected
                &&& out.columns@.map_values(|c: String| c@) == round.columns
                &&& out.rows@.map_values(|v: Vec<Value>| v@) == round.rows
                &&& out.error is None
            },
        },
    }
}

/// One pipelined protocol connection: it owns the statement cache,
/// counts outstanding acknowledgements, and tracks transaction status.
/// It is deliberately free of I/O: the transport feeds decoded server
/// messages into the inbox and drains the outbox, and exactly one
/// logical caller at a time interprets the inbox.
pub struct PgConnection {
    /// decoded messages from the server, oldest first
    inbox: Vec<BackendMessage>,
    /// messages queued for the server, oldest first
    outbox: Vec<FrontendMessage>,
    /// sequence for statement identifiers
    next_statement_id: u64,
    /// prepared statements by normalized text
    cache_statement: StatementCache,
    /// ready-for-query acknowledgements not yet drained
    pending_ready_for_query_count: usize,
    /// status from the last drained acknowledgement
    transaction_status: TransactionStatus,
    /// server version in `libpq` format, when the handshake learned it
    server_version: Option<u32>,
    /// whether a termination notice was already queued
    terminated: bool,
}

impl PgConnection {
    /// Undrained server messages.
    pub closed spec fn inbox(&self) -> Seq<BackendMessage> {
        self.inbox@
    }

    /// Messages queued for the transport.
    pub closed spec fn outbox(&self) -> Seq<FrontendView> {
        self.outbox@.map_values(|m: FrontendMessage| frontend_view(m))
    }

    /// Acknowledgements still owed by the server.
    pub closed spec fn pending(&self) -> nat {
        self.pending_ready_for_query_count as nat
    }

    /// Status from the last drained acknowledgement.
    pub closed spec fn status(&self) -> TransactionStatus {
        self.transaction_status
    }

    /// The statement cache's entries, least recently used first.
    pub closed spec fn cache(&self) -> Seq<CacheEntry> {
        self.cache_statement@
    }

    /// How many cache lookups were ever made.
    pub closed spec fn cache_lookups(&self) -> nat {
        self.cache_statement.spec_lookups()
    }

    /// The statement cache's capacity.
    pub closed spec fn cache_capacity(&self) -> usize {
        self.cache_statement.spec_capacity()
    }

    /// Next unused statement identifier.
    pub closed spec fn next_id(&self) -> u64 {
        self.next_statement_id
    }

    /// The server version, if known.
    pub closed spec fn spec_server_version(&self) -> Option<u32> {
        self.server_version
    }

    /// Whether a termination notice was already queued.
    pub closed spec fn spec_terminated(&self) -> bool {
        self.terminated
    }

    /// The connection's whole observable state.
    pub open spec fn state(&self) -> ConnView {
        ConnView {
            inbox: self.inbox(),
            outbox: self.outbox(),
            pending: self.pending(),
            status: self.status(),
            cache: self.cache(),
            lookups: self.cache_lookups(),
            cap: self.cache_capacity(),
            next_id: self.next_id(),
        }
    }

    /// Well-formed: the cache is within capacity with distinct keys.
    pub open spec fn wf(&self) -> bool {
        &&& self.cache().len() <= self.cache_capacity()
        &&& forall|a: int, b: int|
            0 <= a < b < self.cache().len() ==> (#[trigger] self.cache()[a]).0 != (
            #[trigger] self.cache()[b]).0
    }

    /// A fresh connection: nothing pending, idle, empty cache of the
    /// given capacity.
    pub fn new(cache_capacity: usize, server_version: Option<u32>) -> (r: Self)
        ensures
            r.inbox() =~= Seq::<BackendMessage>::empty(),
            r.outbox() =~= Seq::<FrontendView>::empty(),
            r.pending() == 0,
            r.status() == TransactionStatus::Idle,
            r.cache() =~= Seq::<CacheEntry>::empty(),
            r.cache_lookups() == 0,
            r.cache_capacity() == cache_capacity,
            r.next_id() == 1,
            r.spec_server_version() == server_version,
            !r.spec_terminated(),
            r.wf(),
    {
        PgConnection {
            inbox: Vec::new(),
            outbox: Vec::new(),
            next_statement_id: 1,
            cache_statement: StatementCache::new(cache_capacity),
            pending_ready_for_query_count: 0,
            transaction_status: TransactionStatus::Idle,
            server_version,
            terminated: false,
        }
    }

    /// The version number of the server in `libpq` format.
    pub fn server_version_num(&self) -> (r: Option<u32>)
        ensures
            r == self.spec_server_version(),
    {
        self.server_version
    }

    /// Hand one decoded server message to the connection. The transport
    /// glue calls this; the connection itself never reads a socket.
    pub fn push_incoming(&mut self, message: BackendMessage) -> (r: ())
        ensures
            final(self).inbox() == old(self).inbox().push(message),
            final(self).outbox() == old(self).outbox(),
            final(self).pending() == old(self).pending(),
            final(self).status() == old(self).status(),
            final(self).cache() == old(self).cache(),
            final(self).cache_lookups() == old(self).cache_lookups(),
            final(self).cache_capacity() == old(self).cache_capacity(),
            final(self).next_id() == old(self).next_id(),
            final(self).spec_server_version() == old(self).spec_server_version(),
            final(self).spec_terminated() == old(self).spec_terminated(),
            final(self).wf() == old(self).wf(),
    {
        self.inbox.push(message);
    }

    /// Take every queued outgoing message, oldest first. The transport
    /// glue writes them to the wire.
    pub fn take_outgoing(&mut self) -> (r: Vec<FrontendMessage>)
        ensures
            r@.map_values(|m: FrontendMessage| frontend_view(m)) == old(self).outbox(),
            final(self).outbox() =~= Seq::<FrontendView>::empty(),
            final(self).inbox() == old(self).inbox(),
            final(self).pending() == old(self).pending(),
            final(self).status() == old(self).status(),
            final(self).cache() == old(self).cache(),
            final(self).cache_lookups() == old(self).cache_lookups(),
            final(self).cache_capacity() == old(self).cache_capacity(),
            final(self).next_id() == old(self).next_id(),
            final(self).spec_server_version() == old(self).spec_server_version(),
            final(self).spec_terminated() == old(self).spec_terminated(),
            final(self).wf() == old(self).wf(),
    {
        let mut drained: Vec<FrontendMessage> = Vec::new();
        core::mem::swap(&mut drained, &mut self.outbox);
        drained
    }

    /// Queue a simple, unprepared statement to run the next time the
    /// pipeline is drained. One more acknowledgement becomes due.
    pub fn queue_simple_query(&mut self, query: &str) -> (r: ())
        requires
            old(self).pending() < usize::MAX,
        ensures
            final(self).pending() == old(self).pending() + 1,
            final(self).outbox() == old(self).outbox().push(FrontendView::Query(query@)),
            final(self).inbox() == old(self).inbox(),
            final(self).status() == old(self).status(),
            final(self).cache() == old(self).cache(),
            final(self).cache_lookups() == old(self).cache_lookups(),
            final(self).cache_capacity() == old(self).cache_capacity(),
            final(self).next_id() == old(self).next_id(),
            final(self).spec_server_version() == old(self).spec_server_version(),
            final(self).spec_terminated() == old(self).spec_terminated(),
            final(self).wf() == old(self).wf(),
    {
        self.pending_ready_for_query_count = self.pending_ready_for_query_count + 1;
        self.outbox.push(FrontendMessage::Query(query.to_owned()));
    }

    /// Drain every outstanding acknowledgement, taking the transaction
    /// status from the last one. This is the ready-for-query barrier:
    /// afterwards nothing is pending. It fails fatally when the inbox
    /// ends before all acknowledgements arrived.
    pub fn wait_until_ready(&mut self) -> (r: Result<(), Error>)
        ensures
            final(self).outbox() == old(self).outbox(),
            final(self).cache() == old(self).cache(),
            final(self).cache_lookups() == old(self).cache_lookups(),
            final(self).cache_capacity() == old(self).cache_capacity(),
            final(self).next_id() == old(self).next_id(),
            final(self).spec_server_version() == old(self).spec_server_version(),
            final(self).spec_terminated() == old(self).spec_terminated(),
            final(self).wf() == old(self).wf(),
            match spec_drain(old(self).inbox(), old(self).pending(), old(self).status()) {
                Some((rest, st)) => {
                    &&& r is Ok
                    &&& final(self).pending() == 0
                    &&& final(self).inbox() == rest
                    &&& final(self).status() == st
                },
                None => {
                    &&& r matches Err(e) && e is Connection
                    &&& final(self).inbox().len() == 0
                    &&& final(self).pending() > 0
                },
            },
    {
        let ghost inbox0 = self.inbox();
        let ghost pending0 = self.pending();
        let ghost status0 = self.status();
        while self.pending_ready_for_query_count > 0
            invariant
                spec_drain(inbox0, pending0, status0) == spec_drain(
                    self.inbox(),
                    self.pending(),
                    self.status(),
                ),
                self.outbox() == old(self).outbox(),
                self.cache() == old(self).cache(),
                self.cache_lookups() == old(self).cache_lookups(),
                self.cache_capacity() == old(self).cache_capacity(),
                self.next_id() == old(self).next_id(),
                self.spec_server_version() == old(self).spec_server_version(),
                self.spec_terminated() == old(self).spec_terminated(),
                self.wf() == old(self).wf(),
                inbox0 == old(self).inbox(),
                pending0 == old(self).pending(),
                status0 == old(self).status(),
            decreases self.inbox().len() + 1,
        {
            if self.inbox.len() == 0 {
                return Err(
                    Error::Connection(
                        "the stream ended before every acknowledgement arrived".to_owned(),
                    ),
                );
            }
            let ghost pre_inbox = self.inbox();
            let message = self.inbox.remove(0);
            proof {
                assert(self.inbox() =~= pre_inbox.drop_first());
            }
            if let BackendMessage::ReadyForQuery(s) = message {
                self.pending_ready_for_query_count = self.pending_ready_for_query_count - 1;
                self.transaction_status = s;
            }
        }
        Ok(())
    }

    /// Read one execution round from the inbox, consuming messages up to
    /// and including its acknowledgement.
    fn read_round(&mut self) -> (r: Result<RoundOutcome, Error>)
        requires
            old(self).pending() > 0,
        ensures
            final(self).outbox() == old(self).outbox(),
            final(self).cache() == old(self).cache(),
            final(self).cache_lookups() == old(self).cache_lookups(),
            final(self).cache_capacity() == old(self).cache_capacity(),
            final(self).next_id() == old(self).next_id(),
            final(self).spec_server_version() == old(self).spec_server_version(),
            final(self).spec_terminated() == old(self).spec_terminated(),
            final(self).wf() == old(self).wf(),
            match spec_round0(old(self).inbox()) {
                None => {
                    &&& r matches Err(e) && e is Connection
                    &&& final(self).inbox().len() == 0
                    &&& final(self).pending() == old(self).pending()
                    &&& final(self).status() == old(self).status()
                },
                Some(round) => {
                    &&& r matches Ok(out) && ({
                        &&& out.affected == round.affected
                        &&& out.columns@.map_values(|c: String| c@) == round.columns
                        &&& out.rows@.map_values(|v: Vec<Value>| v@) == round.rows
                        &&& opt_text_view(out.error) == round.error
                    })
                    &&& final(self).inbox() == round.rest
                    &&& final(self).pending() == old(self).pending() - 1
                    &&& final(self).status() == round.status
                },
            },
    {
        let ghost inbox0 = self.inbox();
        let mut affected: u64 = 0;
        let mut columns: Vec<String> = Vec::new();
        let mut rows: Vec<Vec<Value>> = Vec::new();
        let mut error: Option<String> = None;
        proof {
            assert(columns@.map_values(|c: String| c@) =~= Seq::<Seq<char>>::empty());
            assert(rows@.map_values(|v: Vec<Value>| v@) =~= Seq::<Seq<Value>>::empty());
        }
        loop
            invariant
                inbox0 == old(self).inbox(),
                old(self).pending() > 0,
                self.pending() == old(self).pending(),
                self.status() == old(self).status(),
                self.outbox() == old(self).outbox(),
                self.cache() == old(self).cache(),
                self.cache_lookups() == old(self).cache_lookups(),
                self.cache_capacity() == old(self).cache_capacity(),
                self.next_id() == old(self).next_id(),
                self.spec_server_version() == old(self).spec_server_version(),
                self.spec_terminated() == old(self).spec_terminated(),
                self.wf() == old(self).wf(),
                spec_round0(inbox0) == spec_round(
                    self.inbox(),
                    affected,
                    columns@.map_values(|c: String| c@),
                    rows@.map_values(|v: Vec<Value>| v@),
                    opt_text_view(error),
                ),
            decreases self.inbox().len(),
        {
            if self.inbox.len() == 0 {
                return Err(
                    Error::Connection("the stream ended inside a result round".to_owned()),
                );
            }
            let ghost pre_inbox = self.inbox();
            let message = self.inbox.remove(0);
            proof {
                assert(self.inbox() =~= pre_inbox.drop_first());
            }
            match message {
                BackendMessage::ReadyForQuery(s) => {
                    self.pending_ready_for_query_count = self.pending_ready_for_query_count - 1;
                    self.transaction_status = s;
                    return Ok(RoundOutcome { affected, columns, rows, error });
                },
                BackendMessage::CommandComplete(n) => {
                    affected = if n > u64::MAX - affected {
                        u64::MAX
                    } else {
                        affected + n
                    };
                },
                BackendMessage::RowDescription(cols) => {
                    columns = cols;
                },
                BackendMessage::DataRow(vals) => {
                    let ghost rows_view = rows@.map_values(|v: Vec<Value>| v@);
                    let ghost vals_view = vals@;
                    rows.push(vals);
                    proof {
                        assert(rows@.map_values(|v: Vec<Value>| v@) =~= rows_view.push(vals_view));
                    }
                },
                BackendMessage::ParseComplete => {},
                BackendMessage::CloseComplete => {},
                BackendMessage::ErrorResponse(e) => {
                    if error.is_none() {
                        error = Some(e);
                    }
                },
            }
        }
    }

    /// Run one SQL statement through the pipeline: the simple-query path
    /// when `params` is empty, else the prepared path with its single
    /// cache lookup, evicting the least recently used entry first when
    /// the cache is full. A server-reported failure of the statement
    /// comes back as a server error; protocol trouble is fatal.
    pub fn run_statement(&mut self, sql: &str, params: Vec<Value>) -> (r: Result<
        RoundOutcome,
        Error,
    >)
        requires
            old(self).wf(),
            sql@.len() < usize::MAX,
            old(self).pending() < usize::MAX,
            old(self).next_id() < u64::MAX,
        ensures
            final(self).state() == spec_run(old(self).state(), sql@, params@).0,
            spec_outcome_ok(r, spec_run(old(self).state(), sql@, params@).1),
            final(self).wf(),
            final(self).spec_server_version() == old(self).spec_server_version(),
            final(self).spec_terminated() == old(self).spec_terminated(),
    {
        let ghost c0 = self.state();
        let key = exchange(sql);
        if params.len() == 0 {
            self.pending_ready_for_query_count = self.pending_ready_for_query_count + 1;
            self.outbox.push(FrontendMessage::Query(key));
            let round = self.read_round();
            match round {
                Err(e) => Err(e),
                Ok(out) => {
                    match out.error {
                        Some(m) => Err(Error::Server(m)),
                        None => Ok(out),
                    }
                },
            }
        } else {
            let cached = self.cache_statement.get(key.as_str());
            proof {
                crate::statement_cache::lemma_key_index_props(c0.cache, key@);
            }
            match cached {
                Some(statement) => {
                    self.pending_ready_for_query_count = self.pending_ready_for_query_count + 1;
                    self.outbox.push(
                        FrontendMessage::Execute { statement_id: statement.id, args: params },
                    );
                    let round = self.read_round();
                    match round {
                        Err(e) => Err(e),
                        Ok(out) => {
                            match out.error {
                                Some(m) => Err(Error::Server(m)),
                                None => Ok(out),
                            }
                        },
                    }
                },
                None => {
                    let cap = self.cache_statement.capacity();
                    let resident = self.cache_statement.len();
                    if cap > 0 && resident >= cap {
                        let lru = self.cache_statement.remove_lru();
                        let lru_statement = match lru {
                            Some(statement) => statement,
                            None => {
                                proof {
                                    assert(false);
                                }
                                CachedStatement { id: 0, columns: Vec::new() }
                            },
                        };
                        self.outbox.push(
                            FrontendMessage::Close { statement_id: lru_statement.id },
                        );
                        self.outbox.push(FrontendMessage::Sync);
                        self.pending_ready_for_query_count = self.pending_ready_for_query_count
                            + 1;
                        let evround = self.read_round();
                        match evround {
                            Err(_) => {
                                return Err(
                                    Error::CacheEviction(
                                        "the stream ended during a cache eviction".to_owned(),
                                    ),
                                );
                            },
                            Ok(out) => {
                                match out.error {
                                    Some(m) => {
                                        return Err(Error::CacheEviction(m));
                                    },
                                    None => {},
                                }
                            },
                        }
                    }
                    proof {
                        crate::statement_cache::lemma_key_index_props(c0.cache, key@);
                        assert forall|a: int|
                            0 <= a < self.cache().len() implies (#[trigger] self.cache()[a]).0
                            != key@ by {
                            if self.cache() =~= c0.cache.drop_first() {
                                assert(self.cache()[a] == c0.cache[a + 1]);
                            } else {
                                assert(self.cache() == c0.cache);
                            }
                        }
                        crate::statement_cache::lemma_key_index_absent(self.cache(), key@);
                    }
                    self.prepare_and_execute(key, params, Ghost(c0))
                },
            }
        }
    }

    /// The prepare-and-execute tail of a cache miss: allocate an
    /// identifier, pipeline the parse with the execution, and admit the
    /// statement to the cache when the round succeeds.
    fn prepare_and_execute(
        &mut self,
        key: String,
        params: Vec<Value>,
        Ghost(c0): Ghost<ConnView>,
    ) -> (r: Result<RoundOutcome, Error>)
        requires
            old(self).wf(),
            old(self).pending() < usize::MAX,
            old(self).next_id() < u64::MAX,
            spec_key_index(old(self).cache(), key@) == -1,
            old(self).cache_capacity() > 0 ==> old(self).cache().len() < old(
                self,
            ).cache_capacity(),
        ensures
            final(self).state() == spec_prepare_exec(old(self).state(), key@, params@).0,
            spec_outcome_ok(r, spec_prepare_exec(old(self).state(), key@, params@).1),
            final(self).wf(),
            final(self).spec_server_version() == old(self).spec_server_version(),
            final(self).spec_terminated() == old(self).spec_terminated(),
    {
        let id = self.next_statement_id;
        self.next_statement_id = self.next_statement_id + 1;
        self.outbox.push(FrontendMessage::Parse { statement_id: id, sql: key.clone() });
        self.outbox.push(FrontendMessage::Execute { statement_id: id, args: params });
        self.pending_ready_for_query_count = self.pending_ready_for_query_count + 1;
        let round = self.read_round();
        match round {
            Err(e) => Err(e),
            Ok(out) => {
                match out.error {
                    Some(m) => Err(Error::Server(m)),
                    None => {
                        if self.cache_statement.capacity() > 0 {
                            let holder = CachedStatement { id, columns: out.columns };
                            let statement = holder.duplicate();
                            self.cache_statement.insert(key, statement);
                            let out_back = RoundOutcome {
                                affected: out.affected,
                                columns: holder.columns,
                                rows: out.rows,
                                error: out.error,
                            };
                            Ok(out_back)
                        } else {
                            Ok(out)
                        }
                    },
                }
            },
        }
    }

    /// Execute one statement and report how many rows it affected. The
    /// last-inserted identifier is not reported by this protocol model
    /// and comes back null.
    pub fn exec(&mut self, sql: &str, params: Vec<Value>) -> (r: Result<ExecResult, Error>)
        requires
            old(self).wf(),
            sql@.len() < usize::MAX,
            old(self).pending() < usize::MAX,
            old(self).next_id() < u64::MAX,
        ensures
            final(self).state() == spec_run(old(self).state(), sql@, params@).0,
            final(self).wf(),
            final(self).spec_server_version() == old(self).spec_server_version(),
            final(self).spec_terminated() == old(self).spec_terminated(),
            match spec_run(old(self).state(), sql@, params@).1 {
                RunOutcome::EvictionStarved => r matches Err(e) && e is CacheEviction,
                RunOutcome::EvictionError(t) => r matches Err(e) && (e matches
                    Error::CacheEviction(m) && m@ == t),
                RunOutcome::Starved => r matches Err(e) && e is Connection,
                RunOutcome::Done(round) => match round.error {
                    Some(t) => r matches Err(e) && (e matches Error::Server(m) && m@ == t),
                    None => r matches Ok(res) && res.rows_affected == round.affected
                        && res.last_insert_id is Null,
                },
            },
    {
        let out = self.run_statement(sql, params)?;
        Ok(ExecResult { rows_affected: out.affected, last_insert_id: Value::Null })
    }

    /// Execute one statement and project its rows: each data row becomes
    /// a map value pairing the described column names with the row's
    /// values, in order.
    pub fn get_values(&mut self, sql: &str, params: Vec<Value>) -> (r: Result<Vec<Value>, Error>)
        requires
            old(self).wf(),
            sql@.len() < usize::MAX,
            old(self).pending() < usize::MAX,
            old(self).next_id() < u64::MAX,
        ensures
            final(self).state() == spec_run(old(self).state(), sql@, params@).0,
            final(self).wf(),
            final(self).spec_server_version() == old(self).spec_server_version(),
            final(self).spec_terminated() == old(self).spec_terminated(),
            match spec_run(old(self).state(), sql@, params@).1 {
                RunOutcome::EvictionStarved => r matches Err(e) && e is CacheEviction,
                RunOutcome::EvictionError(t) => r matches Err(e) && (e matches
                    Error::CacheEviction(m) && m@ == t),
                RunOutcome::Starved => r matches Err(e) && e is Connection,
                RunOutcome::Done(round) => match round.error {
                    Some(t) => r matches Err(e) && (e matches Error::Server(m) && m@ == t),
                    None => r matches Ok(vals) && spec_values_ok(
                        vals@,
                        round.columns,
                        round.rows,
                    ),
                },
            },
    {
        let out = self.run_statement(sql, params)?;
        let ghost cols_view = out.columns@.map_values(|c: String| c@);
        let ghost rows_view = out.rows@.map_values(|v: Vec<Value>| v@);
        let mut vals: Vec<Value> = Vec::new();
        let mut remaining = out.rows;
        proof {
            assert(remaining@.map_values(|v: Vec<Value>| v@) =~= rows_view);
        }
        while remaining.len() > 0
            invariant
                vals@.len() + remaining@.len() == rows_view.len(),
                remaining@.map_values(|v: Vec<Value>| v@) =~= rows_view.subrange(
                    vals@.len() as int,
                    rows_view.len() as int,
                ),
                cols_view == out.columns@.map_values(|c: String| c@),
                forall|i: int|
                    0 <= i < vals@.len() ==> ((#[trigger] vals@[i]) matches Value::Mapping(
                        pairs,
                    ) && spec_row_pairs_ok(pairs@, cols_view, rows_view[i])),
            decreases remaining@.len(),
        {
            let ghost consumed = vals@.len() as int;
            let ghost pre_rem = remaining@;
            let row = remaining.remove(0);
            proof {
                assert(remaining@ =~= pre_rem.drop_first());
                assert(remaining@.map_values(|v: Vec<Value>| v@) =~= pre_rem.map_values(
                    |v: Vec<Value>| v@,
                ).drop_first());
                assert(rows_view.subrange(consumed, rows_view.len() as int).drop_first()
                    =~= rows_view.subrange(consumed + 1, rows_view.len() as int));
                assert(row@ == pre_rem.map_values(|v: Vec<Value>| v@)[0]);
                assert(row@ == rows_view[consumed]);
            }
            let projected = project_row(&out.columns, row);
            vals.push(projected);
        }
        proof {
            assert(vals@.map_values(|v: Value| v) =~= vals@);
        }
        Ok(vals)
    }

    /// Open a transaction block on this connection.
    pub fn begin(&mut self) -> (r: Result<(), Error>)
        requires
            old(self).wf(),
            old(self).pending() < usize::MAX,
            old(self).next_id() < u64::MAX,
        ensures
            final(self).state() == spec_run(old(self).state(), "begin"@, Seq::empty()).0,
            final(self).wf(),
            final(self).spec_server_version() == old(self).spec_server_version(),
            final(self).spec_terminated() == old(self).spec_terminated(),
            r is Ok <==> (spec_run(old(self).state(), "begin"@, Seq::empty()).1 matches
                RunOutcome::Done(round) && round.error is None),
    {
        proof {
            reveal_strlit("begin");
        }
        match self.exec("begin", Vec::new()) {
            Ok(_) => Ok(()),
            Err(e) => Err(e),
        }
    }

    /// Commit the open transaction block.
    pub fn commit(&mut self) -> (r: Result<(), Error>)
        requires
            old(self).wf(),
            old(self).pending() < usize::MAX,
            old(self).next_id() < u64::MAX,
        ensures
            final(self).state() == spec_run(old(self).state(), "commit"@, Seq::empty()).0,
            final(self).wf(),
            final(self).spec_server_version() == old(self).spec_server_version(),
            final(self).spec_terminated() == old(self).spec_terminated(),
            r is Ok <==> (spec_run(old(self).state(), "commit"@, Seq::empty()).1 matches
                RunOutcome::Done(round) && round.error is None),
    {
        proof {
            reveal_strlit("commit");
        }
        match self.exec("commit", Vec::new()) {
            Ok(_) => Ok(()),
            Err(e) => Err(e),
        }
    }

    /// Roll the open transaction block back.
    pub fn rollback(&mut self) -> (r: Result<(), Error>)
        requires
            old(self).wf(),
            old(self).pending() < usize::MAX,
            old(self).next_id() < u64::MAX,
        ensures
            final(self).state() == spec_run(old(self).state(), "rollback"@, Seq::empty()).0,
            final(self).wf(),
            final(self).spec_server_version() == old(self).spec_server_version(),
            final(self).spec_terminated() == old(self).spec_terminated(),
            r is Ok <==> (spec_run(old(self).state(), "rollback"@, Seq::empty()).1 matches
                RunOutcome::Done(round) && round.error is None),
    {
        proof {
            reveal_strlit("rollback");
        }
        match self.exec("rollback", Vec::new()) {
            Ok(_) => Ok(()),
            Err(e) => Err(e),
        }
    }

    /// Check the connection by running a comment statement through the
    /// simple-query path.
    pub fn ping(&mut self) -> (r: Result<(), Error>)
        requires
            old(self).wf(),
            old(self).pending() < usize::MAX,
            old(self).next_id() < u64::MAX,
        ensures
            final(self).state() == spec_run(old(self).state(), "/* RBDC ping */"@, Seq::empty()).0,
            final(self).wf(),
            final(self).spec_server_version() == old(self).spec_server_version(),
            final(self).spec_terminated() == old(self).spec_terminated(),
            r is Ok <==> (spec_run(old(self).state(), "/* RBDC ping */"@, Seq::empty()).1 matches
                RunOutcome::Done(round) && round.error is None),
    {
        proof {
            reveal_strlit("/* RBDC ping */");
        }
        match self.exec("/* RBDC ping */", Vec::new()) {
            Ok(_) => Ok(()),
            Err(e) => Err(e),
        }
    }

    /// Queue the graceful termination notice, once. Closing is
    /// best-effort and idempotent.
    pub fn close(&mut self) -> (r: ())
        ensures
            old(self).spec_terminated() ==> *final(self) == *old(self),
            !old(self).spec_terminated() ==> {
                &&& final(self).outbox() == old(self).outbox().push(FrontendView::Terminate)
                &&& final(self).spec_terminated()
                &&& final(self).inbox() == old(self).inbox()
                &&& final(self).pending() == old(self).pending()
                &&& final(self).status() == old(self).status()
                &&& final(self).cache() == old(self).cache()
                &&& final(self).cache_lookups() == old(self).cache_lookups()
                &&& final(self).cache_capacity() == old(self).cache_capacity()
                &&& final(self).next_id() == old(self).next_id()
                &&& final(self).wf() == old(self).wf()
            },
    {
        if !self.terminated {
            self.outbox.push(FrontendMessage::Terminate);
            self.terminated = true;
        }
    }

    /// The transaction status reported by the last drained
    /// acknowledgement.
    pub fn transaction_status(&self) -> (r: TransactionStatus)
        ensures
            r == self.status(),
    {
        self.transaction_status
    }

    /// How many acknowledgements are still owed.
    pub fn pending_count(&self) -> (r: usize)
        ensures
            r == self.pending(),
    {
        self.pending_ready_for_query_count
    }

    /// Whether another round trip may still be queued.
    pub fn has_pending_capacity(&self) -> (r: bool)
        ensures
            r == (self.pending() < usize::MAX),
    {
        self.pending_ready_for_query_count < usize::MAX
    }

    /// Whether another statement identifier may still be allocated.
    pub fn has_statement_ids(&self) -> (r: bool)
        ensures
            r == (self.next_id() < u64::MAX),
    {
        self.next_statement_id < u64::MAX
    }

    /// Number of cached prepared statements.
    pub fn cached_statements_size(&self) -> (r: usize)
        ensures
            r == self.cache().len(),
    {
        self.cache_statement.len()
    }

    /// Forget every cached prepared statement: reach the ready barrier,
    /// queue one close message per entry in least-recently-used order,
    /// and, when anything was cleared, a synchronization point whose
    /// round must complete.
    pub fn clear_cached_statements(&mut self) -> (r: Result<(), Error>)
        requires
            old(self).wf(),
            old(self).pending() < usize::MAX,
        ensures
            final(self).wf(),
            final(self).cache_capacity() == old(self).cache_capacity(),
            final(self).cache_lookups() == old(self).cache_lookups(),
            final(self).next_id() == old(self).next_id(),
            final(self).spec_server_version() == old(self).spec_server_version(),
            final(self).spec_terminated() == old(self).spec_terminated(),
            match spec_drain(old(self).inbox(), old(self).pending(), old(self).status()) {
                None => {
                    &&& r matches Err(e) && e is Connection
                    &&& final(self).inbox().len() == 0
                    &&& final(self).pending() > 0
                    &&& final(self).cache() == old(self).cache()
                    &&& final(self).outbox() == old(self).outbox()
                },
                Some((rest, st)) => {
                    &&& final(self).cache() =~= Seq::<CacheEntry>::empty()
                    &&& if old(self).cache().len() == 0 {
                        &&& final(self).outbox() == old(self).outbox()
                        &&& final(self).inbox() == rest
                        &&& final(self).pending() == 0
                        &&& final(self).status() == st
                        &&& r is Ok
                    } else {
                        &&& final(self).outbox() == old(self).outbox() + old(
                            self,
                        ).cache().map_values(
                            |e: CacheEntry| FrontendView::Close { statement_id: e.1 },
                        ).push(FrontendView::Sync)
                        &&& match spec_round0(rest) {
                            None => {
                                &&& r matches Err(e) && e is CacheEviction
                                &&& final(self).inbox().len() == 0
                                &&& final(self).pending() == 1
                            },
                            Some(round) => {
                                &&& final(self).inbox() == round.rest
                                &&& final(self).pending() == 0
                                &&& final(self).status() == round.status
                                &&& (round.error matches Some(t) ==> r matches Err(e) && (e
                                    matches Error::CacheEviction(m) && m@ == t))
                                &&& (round.error is None ==> r is Ok)
                            },
                        }
                    }
                },
            },
    {
        let waited = self.wait_until_ready();
        match waited {
            Err(e) => {
                return Err(e);
            },
            Ok(_) => {},
        }
        let ghost cache0 = self.cache();
        let ghost outbox0 = self.outbox();
        let ghost inbox_rest = self.inbox();
        let ghost status_after = self.status();
        let mut cleared: usize = 0;
        proof {
            assert(outbox0 + cache0.map_values(
                |e: CacheEntry| FrontendView::Close { statement_id: e.1 },
            ).subrange(0, 0) =~= outbox0);
        }
        while self.cache_statement.len() > 0
            invariant
                cleared <= cache0.len(),
                self.cache() =~= cache0.subrange(cleared as int, cache0.len() as int),
                self.outbox() =~= outbox0 + cache0.map_values(
                    |e: CacheEntry| FrontendView::Close { statement_id: e.1 },
                ).subrange(0, cleared as int),
                self.pending() == 0,
                spec_drain(old(self).inbox(), old(self).pending(), old(self).status()) == Some(
                    (inbox_rest, status_after),
                ),
                self.inbox() == inbox_rest,
                self.status() == status_after,
                self.cache_capacity() == old(self).cache_capacity(),
                self.cache_lookups() == old(self).cache_lookups(),
                self.next_id() == old(self).next_id(),
                self.spec_server_version() == old(self).spec_server_version(),
                self.spec_terminated() == old(self).spec_terminated(),
                self.wf(),
                cache0.len() <= usize::MAX,
            decreases self.cache().len(),
        {
            let ghost pre_outbox = self.outbox();
            let statement = match self.cache_statement.remove_lru() {
                Some(statement) => statement,
                None => {
                    proof {
                        assert(false);
                    }
                    CachedStatement { id: 0, columns: Vec::new() }
                },
            };
            self.outbox.push(FrontendMessage::Close { statement_id: statement.id });
            cleared = cleared + 1;
            proof {
                let closes = cache0.map_values(
                    |e: CacheEntry| FrontendView::Close { statement_id: e.1 },
                );
                assert(statement.id == cache0[cleared - 1].1);
                assert(self.outbox() =~= pre_outbox.push(
                    FrontendView::Close { statement_id: statement.id },
                ));
                assert(self.outbox() =~= outbox0 + closes.subrange(0, cleared as int));
                assert(self.cache() =~= cache0.subrange(cleared as int, cache0.len() as int));
            }
        }
        if cleared > 0 {
            self.outbox.push(FrontendMessage::Sync);
            self.pending_ready_for_query_count = 1;
            proof {
                let closes = cache0.map_values(
                    |e: CacheEntry| FrontendView::Close { statement_id: e.1 },
                );
                assert(closes.subrange(0, cache0.len() as int) =~= closes);
                assert(self.outbox() =~= (outbox0 + closes).push(FrontendView::Sync));
                assert(self.outbox() =~= outbox0 + closes.push(FrontendView::Sync));
            }
            let round = self.read_round();
            match round {
                Err(_) => Err(
                    Error::CacheEviction("the stream ended while clearing statements".to_owned()),
                ),
                Ok(out) => {
                    match out.error {
                        Some(m) => Err(Error::CacheEviction(m)),
                        None => Ok(()),
                    }
                },
            }
        } else {
            Ok(())
        }
    }

}

/// After a successful drain of at least one acknowledgement, the final
/// status is the one carried by the last acknowledgement consumed: there
/// is a position `k` holding a ready-for-query message whose status is
/// the result, all but `pending - 1` acknowledgements lie before it,
/// and the rest of the inbox starts right after it.
pub proof fn lemma_drain_last_ack(
    inbox: Seq<BackendMessage>,
    pending: nat,
    status: TransactionStatus,
)
    requires
        pending > 0,
        spec_drain(inbox, pending, status) is Some,
    ensures
        exists|k: int|
            {
                let outcome = spec_drain(inbox, pending, status)->Some_0;
                &&& 0 <= k < inbox.len()
                &&& #[trigger] inbox[k] == BackendMessage::ReadyForQuery(outcome.1)
                &&& spec_ack_count(inbox.subrange(0, k)) == pending - 1
                &&& outcome.0 == inbox.subrange(k + 1, inbox.len() as int)
            },
    decreases inbox.len(),
{
    let outcome = spec_drain(inbox, pending, status)->Some_0;
    match inbox[0] {
        BackendMessage::ReadyForQuery(s) => {
            if pending == 1 {
                assert(spec_drain(inbox.drop_first(), 0, s) == Some((inbox.drop_first(), s)));
                assert(spec_ack_count(inbox.subrange(0, 0)) == 0);
                assert(inbox.subrange(1, inbox.len() as int) =~= inbox.drop_first());
                assert(inbox[0] == BackendMessage::ReadyForQuery(outcome.1));
            } else {
                lemma_drain_last_ack(inbox.drop_first(), (pending - 1) as nat, s);
                let k0 = choose|k0: int|
                    {
                        let inner = spec_drain(
                            inbox.drop_first(),
                            (pending - 1) as nat,
                            s,
                        )->Some_0;
                        &&& 0 <= k0 < inbox.drop_first().len()
                        &&& #[trigger] inbox.drop_first()[k0] == BackendMessage::ReadyForQuery(
                            inner.1,
                        )
                        &&& spec_ack_count(inbox.drop_first().subrange(0, k0)) == pending - 2
                        &&& inner.0 == inbox.drop_first().subrange(
                            k0 + 1,
                            inbox.drop_first().len() as int,
                        )
                    };
                let k = k0 + 1;
                assert(inbox[k] == inbox.drop_first()[k0]);
                lemma_ack_count_cons(inbox, k);
                assert(inbox.subrange(k + 1, inbox.len() as int) =~= inbox.drop_first().subrange(
                    k0 + 1,
                    inbox.drop_first().len() as int,
                ));
            }
        },
        _ => {
            lemma_drain_last_ack(inbox.drop_first(), pending, status);
            let k0 = choose|k0: int|
                {
                    let inner = spec_drain(inbox.drop_first(), pending, status)->Some_0;
                    &&& 0 <= k0 < inbox.drop_first().len()
                    &&& #[trigger] inbox.drop_first()[k0] == BackendMessage::ReadyForQuery(inner.1)
                    &&& spec_ack_count(inbox.drop_first().subrange(0, k0)) == pending - 1
                    &&& inner.0 == inbox.drop_first().subrange(
                        k0 + 1,
                        inbox.drop_first().len() as int,
                    )
                };
            let k = k0 + 1;
            assert(inbox[k] == inbox.drop_first()[k0]);
            lemma_ack_count_cons(inbox, k);
            assert(inbox.subrange(k + 1, inbox.len() as int) =~= inbox.drop_first().subrange(
                k0 + 1,
                inbox.drop_first().len() as int,
            ));
        },
    }
}

/// Counting acknowledgements in a prefix, one step at a time.
proof fn lemma_ack_count_cons(s: Seq<BackendMessage>, k: int)
    requires
        0 < k <= s.len(),
    ensures
        spec_ack_count(s.subrange(0, k)) == spec_ack_count(s.drop_first().subrange(0, k - 1))
            + if s[0] is ReadyForQuery {
            1nat
        } else {
            0nat
        },
    decreases k,
{
    let p = s.subrange(0, k);
    assert(p.drop_first() =~= s.drop_first().subrange(0, k - 1));
}


/// Build the map value for one data row: column names paired with the
/// row's values in order, null where the row is short.
fn project_row(columns: &Vec<String>, row: Vec<Value>) -> (r: Value)
    ensures
        r matches Value::Mapping(pairs) && spec_row_pairs_ok(
            pairs@,
            columns@.map_values(|c: String| c@),
            row@,
        ),
{
    let ghost cols_view = columns@.map_values(|c: String| c@);
    let ghost row0 = row@;
    let mut pairs: Vec<(Value, Value)> = Vec::new();
    let mut remaining = row;
    let mut j: usize = 0;
    while j < columns.len()
        invariant
            cols_view == columns@.map_values(|c: String| c@),
            j <= columns@.len(),
            pairs@.len() == j,
            j <= row0.len() ==> remaining@ =~= row0.subrange(j as int, row0.len() as int),
            j > row0.len() ==> remaining@.len() == 0,
            forall|a: int|
                0 <= a < j ==> {
                    &&& (#[trigger] pairs@[a]).0 matches Value::String(s) && s@ == cols_view[a]
                    &&& pairs@[a].1 == if a < row0.len() {
                        row0[a]
                    } else {
                        Value::Null
                    }
                },
        decreases columns@.len() - j,
    {
        let name = Value::String(columns[j].clone());
        let cell = if remaining.len() > 0 {
            remaining.remove(0)
        } else {
            Value::Null
        };
        pairs.push((name, cell));
        j = j + 1;
    }
    Value::Mapping(pairs)
}


/// Path selection, cache side: a statement with no parameters takes the
/// simple-query path and never touches the statement cache — neither
/// its entries nor its lookup count move.
pub proof fn lemma_simple_path_skips_cache(c: ConnView, sql: Seq<char>)
    ensures
        spec_run(c, sql, Seq::empty()).0.cache == c.cache,
        spec_run(c, sql, Seq::empty()).0.lookups == c.lookups,
        spec_run(c, sql, Seq::empty()).0.next_id == c.next_id,
{
}

/// Path selection, cache side: a statement with parameters takes the
/// prepared path and performs exactly one cache lookup, hit or miss.
pub proof fn lemma_prepared_path_one_lookup(c: ConnView, sql: Seq<char>, params: Seq<Value>)
    requires
        params.len() > 0,
    ensures
        spec_run(c, sql, params).0.lookups == c.lookups + 1,
{
}

} // verus!
