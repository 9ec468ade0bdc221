use vstd::prelude::*;
use crate::connection::{spec_run, ConnView, RunOutcome};
use crate::error::Error;
use crate::executor::{LogSink, RBatisConnExecutor, SqlIntercept};
use crate::string_util::{spec_contains_str, str_contains, str_eq};
use crate::value::Value;

verus! {

/// The column type a value's variant maps to in the lightweight
/// file-backed backend's dialect.
pub open spec fn spec_type_str(v: Value) -> Seq<char> {
    match v {
        Value::Null => "NULL"@,
        Value::Bool(_) => "BOOLEAN"@,
        Value::I32(_) => "INTEGER"@,
        Value::I64(_) => "INT8"@,
        Value::U32(_) => "INTEGER"@,
        Value::U64(_) => "INT8"@,
        Value::F32(_) => "DOUBLE"@,
        Value::F64(_) => "DOUBLE"@,
        Value::String(_) => "TEXT"@,
        Value::Binary(_) => "BLOB"@,
        Value::Array(_) => "NULL"@,
        Value::Mapping(_) => "NULL"@,
        Value::Ext(t, _) => {
            if t@ == "Date"@ || t@ == "DateTime"@ || t@ == "Time"@ || t@ == "Uuid"@ {
                "TEXT"@
            } else if t@ == "Timestamp"@ {
                "INT8"@
            } else if t@ == "Decimal"@ {
                "NUMERIC"@
            } else if t@ == "Json"@ {
                "BLOB"@
            } else {
                "NULL"@
            }
        },
    }
}

/// Map a value's variant to its column type text.
pub fn type_str(v: &Value) -> (r: &'static str)
    ensures
        r@ == spec_type_str(*v),
{
    match v {
        Value::Null => "NULL",
        Value::Bool(_) => "BOOLEAN",
        Value::I32(_) => "INTEGER",
        Value::I64(_) => "INT8",
        Value::U32(_) => "INTEGER",
        Value::U64(_) => "INT8",
        Value::F32(_) => "DOUBLE",
        Value::F64(_) => "DOUBLE",
        Value::String(_) => "TEXT",
        Value::Binary(_) => "BLOB",
        Value::Array(_) => "NULL",
        Value::Mapping(_) => "NULL",
        Value::Ext(t, _) => {
            if str_eq(t.as_str(), "Date") || str_eq(t.as_str(), "DateTime") || str_eq(
                t.as_str(),
                "Time",
            ) || str_eq(t.as_str(), "Uuid") {
                "TEXT"
            } else if str_eq(t.as_str(), "Timestamp") {
                "INT8"
            } else if str_eq(t.as_str(), "Decimal") {
                "NUMERIC"
            } else if str_eq(t.as_str(), "Json") {
                "BLOB"
            } else {
                "NULL"
            }
        },
    }
}

/// The text a map key contributes as a column name: the string it
/// holds, or nothing for any other shape.
pub open spec fn spec_key_text(k: Value) -> Seq<char> {
    match k {
        Value::String(s) => s@,
        _ => Seq::empty(),
    }
}

/// Whether a column is the primary key: its name is `id`, or its sample
/// value holds the text `id`.
pub open spec fn spec_is_id(k: Value, v: Value) -> bool {
    spec_key_text(k) == "id"@ || (v matches Value::String(s) && s@ == "id"@)
}

/// One column's piece of the create statement.
pub open spec fn spec_column_piece(k: Value, v: Value) -> Seq<char> {
    spec_key_text(k) + " "@ + spec_type_str(v) + (if spec_is_id(k, v) {
        " PRIMARY KEY NOT NULL "@
    } else {
        Seq::empty()
    }) + ","@
}

/// All column pieces from index `i` on, concatenated.
pub open spec fn spec_columns_from(m: Seq<(Value, Value)>, i: int) -> Seq<char>
    decreases m.len() - i when 0 <= i <= m.len()
{
    if i >= m.len() {
        Seq::empty()
    } else {
        spec_column_piece(m[i].0, m[i].1) + spec_columns_from(m, i + 1)
    }
}

/// Strip every trailing comma.
pub open spec fn spec_strip_commas(s: Seq<char>) -> Seq<char>
    decreases s.len(),
{
    if s.len() > 0 && s.last() == ',' {
        spec_strip_commas(s.drop_last())
    } else {
        s
    }
}

/// The whole create statement for a column map.
pub open spec fn spec_create_table_sql(m: Seq<(Value, Value)>, name: Seq<char>) -> Seq<char> {
    "CREATE TABLE "@ + name + " "@ + "("@ + spec_strip_commas(spec_columns_from(m, 0)) + ");"@
}

/// The alter statement adding one column.
pub open spec fn spec_alter_sql(name: Seq<char>, k: Value, v: Value) -> Seq<char> {
    "alter table "@ + name + " add "@ + spec_key_text(k) + " "@ + spec_type_str(v) + " "@ + (if
        spec_is_id(k, v) {
        " PRIMARY KEY NOT NULL"@
    } else {
        Seq::empty()
    }) + ";"@
}

/// The column map a table value carries: a map directly, or behind any
/// number of extension wrappers.
pub open spec fn spec_table_payload(table: Value) -> Option<Seq<(Value, Value)>>
    decreases table,
{
    match table {
        Value::Mapping(m) => Some(m@),
        Value::Ext(_, inner) => spec_table_payload(*inner),
        _ => None,
    }
}

/// Build the create statement for the column map, per
/// `spec_create_table_sql`.
pub fn build_create_table_sql(m: &Vec<(Value, Value)>, name: &str) -> (r: String)
    ensures
        r@ == spec_create_table_sql(m@, name@),
{
    let mut columns = String::new();
    let mut i: usize = 0;
    proof {
        assert(columns@ + spec_columns_from(m@, 0) =~= spec_columns_from(m@, 0));
    }
    while i < m.len()
        invariant
            i <= m@.len(),
            columns@ + spec_columns_from(m@, i as int) == spec_columns_from(m@, 0),
        decreases m@.len() - i,
    {
        let ghost pre = columns@;
        let key_text = match &m[i].0 {
            Value::String(s) => s.as_str(),
            _ => "",
        };
        proof {
            reveal_strlit("");
            assert(""@ =~= Seq::<char>::empty());
            assert(key_text@ == spec_key_text(m@[i as int].0));
        }
        columns.append(key_text);
        columns.append(" ");
        columns.append(type_str(&m[i].1));
        let id_key = {
            let key_is_id = str_eq(key_text, "id");
            let value_is_id = match &m[i].1 {
                Value::String(s) => str_eq(s.as_str(), "id"),
                _ => false,
            };
            key_is_id || value_is_id
        };
        proof {
            assert(id_key == spec_is_id(m@[i as int].0, m@[i as int].1));
        }
        if id_key {
            columns.append(" PRIMARY KEY NOT NULL ");
        }
        columns.append(",");
        proof {
            assert(columns@ + spec_columns_from(m@, i + 1) =~= pre + spec_columns_from(
                m@,
                i as int,
            ));
        }
        i = i + 1;
    }
    proof {
        assert(columns@ + spec_columns_from(m@, m@.len() as int) =~= columns@);
    }
    let stripped = strip_trailing_commas(columns);
    let mut sql = "CREATE TABLE ".to_owned();
    sql.append(name);
    sql.append(" ");
    sql.append("(");
    sql.append(stripped.as_str());
    sql.append(");");
    sql
}

/// Drop every trailing comma, per `spec_strip_commas`.
fn strip_trailing_commas(s: String) -> (r: String)
    ensures
        r@ == spec_strip_commas(s@),
{
    let slice = s.as_str();
    let mut end = slice.unicode_len();
    proof {
        assert(s@.subrange(0, s@.len() as int) =~= s@);
    }
    while end > 0 && slice.get_char(end - 1) == ','
        invariant
            end <= slice@.len(),
            slice@ == s@,
            spec_strip_commas(s@) == spec_strip_commas(s@.subrange(0, end as int)),
        decreases end,
    {
        proof {
            assert(s@.subrange(0, end as int).drop_last() =~= s@.subrange(0, end - 1));
        }
        end = end - 1;
    }
    proof {
        if end > 0 {
            assert(s@.subrange(0, end as int).last() != ',');
        }
        assert(spec_strip_commas(s@.subrange(0, end as int)) == s@.subrange(0, end as int));
    }
    slice.substring_char(0, end).to_owned()
}

/// Build the alter statement adding one column, per `spec_alter_sql`.
pub fn build_alter_sql(name: &str, k: &Value, v: &Value) -> (r: String)
    ensures
        r@ == spec_alter_sql(name@, *k, *v),
{
    let key_text = match k {
        Value::String(s) => s.as_str(),
        _ => "",
    };
    proof {
        reveal_strlit("");
        assert(""@ =~= Seq::<char>::empty());
        assert(key_text@ == spec_key_text(*k));
    }
    let id_key = {
        let key_is_id = str_eq(key_text, "id");
        let value_is_id = match v {
            Value::String(s) => str_eq(s.as_str(), "id"),
            _ => false,
        };
        key_is_id || value_is_id
    };
    let mut sql = "alter table ".to_owned();
    sql.append(name);
    sql.append(" add ");
    sql.append(key_text);
    sql.append(" ");
    sql.append(type_str(v));
    sql.append(" ");
    if id_key {
        sql.append(" PRIMARY KEY NOT NULL");
    }
    sql.append(";");
    sql
}


/// How the column-adding cascade ends.
pub enum AlterOutcome {
    /// every column was admitted or reported as a duplicate
    Cleared,
    /// an alter statement grew past the machine word
    TooLong,
    /// the connection's counters have no room left
    Spent,
    /// an alter round failed for another reason
    Failed(RunOutcome),
}

/// Run the alter statements for the columns from index `i` on: a
/// duplicate-column report from the server is skipped, anything else
/// ends the cascade.
pub open spec fn spec_sync_alters(
    c: ConnView,
    m: Seq<(Value, Value)>,
    name: Seq<char>,
    i: int,
) -> (ConnView, AlterOutcome)
    decreases m.len() - i when 0 <= i <= m.len()
{
    if i >= m.len() {
        (c, AlterOutcome::Cleared)
    } else {
        let alter = spec_alter_sql(name, m[i].0, m[i].1);
        if alter.len() >= usize::MAX {
            (c, AlterOutcome::TooLong)
        } else if !(c.pending < usize::MAX && c.next_id < u64::MAX) {
            (c, AlterOutcome::Spent)
        } else {
            let stepped = spec_run(c, alter, Seq::empty());
            match stepped.1 {
                RunOutcome::Done(round) => match round.error {
                    None => spec_sync_alters(stepped.0, m, name, i + 1),
                    Some(t) => if spec_contains_str(t, "duplicate column"@) {
                        spec_sync_alters(stepped.0, m, name, i + 1)
                    } else {
                        (stepped.0, AlterOutcome::Failed(stepped.1))
                    },
                },
                _ => (stepped.0, AlterOutcome::Failed(stepped.1)),
            }
        }
    }
}

/// Whether `r` reports the cascade's end correctly.
pub open spec fn spec_alter_result_ok(r: Result<(), Error>, o: AlterOutcome) -> bool {
    match o {
        AlterOutcome::Cleared => r is Ok,
        AlterOutcome::TooLong => r matches Err(e) && e is Protocol,
        AlterOutcome::Spent => r matches Err(e) && e is Protocol,
        AlterOutcome::Failed(run) => match run {
            RunOutcome::EvictionStarved => r matches Err(e) && e is CacheEviction,
            RunOutcome::EvictionError(t) => r matches Err(e) && (e matches Error::CacheEviction(
                m,
            ) && m@ == t),
            RunOutcome::Starved => r matches Err(e) && e is Connection,
            RunOutcome::Done(round) => round.error matches Some(t) ==> (r matches Err(e) && (e
                matches Error::Server(m) && m@ == t)),
        },
    }
}

/// Keeps a table shaped like a value: create it, and when it already
/// exists add the missing columns one by one.
#[derive(Clone, Copy, Debug, Default, PartialEq, Eq, Structural)]
pub struct SqliteTableSync {}

impl SqliteTableSync {
    /// Create the table described by `table` under `name`, or, when the
    /// backend reports that it already exists, add each column with an
    /// alter statement, skipping columns the backend reports as
    /// duplicates. A value that is neither a map nor an extension
    /// wrapper around one is refused as a decode error.
    pub fn sync<I: SqlIntercept, L: LogSink>(
        &self,
        rb: RBatisConnExecutor<I, L>,
        table: Value,
        name: &str,
    ) -> (r: Result<(), Error>)
        requires
            rb.conn.wf(),
            rb.conn.pending() < usize::MAX,
            rb.conn.next_id() < u64::MAX,
        ensures
            spec_table_payload(table) is None ==> (r matches Err(e) && e is Decode),
            ({
                let payload = spec_table_payload(table);
                payload matches Some(m) ==> {
                    let create = spec_create_table_sql(m, name@);
                    (rb.rb.sql_intercepts@.len() == 0 && create.len() < usize::MAX) ==> match
                        spec_run(rb.conn.state(), create, Seq::empty()).1 {
                        RunOutcome::Done(round) => match round.error {
                            None => r is Ok,
                            Some(t) => if !spec_contains_str(t, "already exists"@) {
                                r matches Err(e) && (e matches Error::Server(msg) && msg@ == t)
                            } else {
                                spec_alter_result_ok(
                                    r,
                                    spec_sync_alters(
                                        spec_run(rb.conn.state(), create, Seq::empty()).0,
                                        m,
                                        name@,
                                        0,
                                    ).1,
                                )
                            },
                        },
                        _ => true,
                    }
                }
            }),
        decreases table,
    {
        match table {
            Value::Mapping(m) => {
                let mut executor = rb;
                let sql_create = build_create_table_sql(&m, name);
                let create_len = sql_create.as_str().unicode_len();
                if create_len == usize::MAX {
                    return Err(Error::Protocol("the create statement is too long".to_owned()));
                }
                let created = executor.exec(sql_create.as_str(), Vec::new());
                match created {
                    Ok(_) => Ok(()),
                    Err(e) => {
                        let text = e.message();
                        if str_contains(text.as_str(), "already exists") {
                            self.sync_columns(executor, &m, name)
                        } else {
                            Err(e)
                        }
                    },
                }
            },
            Value::Ext(_, inner) => {
                proof {
                    assert(decreases_to!(table => *inner));
                }
                self.sync(rb, *inner, name)
            },
            _ => Err(Error::Decode("table not is an struct or map!".to_owned())),
        }
    }

    /// Add each column with an alter statement, skipping the ones the
    /// server reports as duplicate columns; any other failure ends the
    /// sync. With an empty interceptor chain the result reports the
    /// cascade of `spec_sync_alters` exactly.
    fn sync_columns<I: SqlIntercept, L: LogSink>(
        &self,
        rb: RBatisConnExecutor<I, L>,
        m: &Vec<(Value, Value)>,
        name: &str,
    ) -> (r: Result<(), Error>)
        requires
            rb.conn.wf(),
        ensures
            rb.rb.sql_intercepts@.len() == 0 ==> spec_alter_result_ok(
                r,
                spec_sync_alters(rb.conn.state(), m@, name@, 0).1,
            ),
    {
        let ghost chain_free = rb.rb.sql_intercepts@.len() == 0;
        let ghost start = rb.conn.state();
        let mut executor = rb;
        let mut i: usize = 0;
        while i < m.len()
            invariant
                executor.conn.wf(),
                i <= m@.len(),
                chain_free == (rb.rb.sql_intercepts@.len() == 0),
                start == rb.conn.state(),
                executor.rb.sql_intercepts == rb.rb.sql_intercepts,
                chain_free ==> spec_sync_alters(start, m@, name@, 0) == spec_sync_alters(
                    executor.conn.state(),
                    m@,
                    name@,
                    i as int,
                ),
            decreases m@.len() - i,
        {
            let sql_alter = build_alter_sql(name, &m[i].0, &m[i].1);
            let alter_len = sql_alter.as_str().unicode_len();
            if alter_len == usize::MAX {
                return Err(Error::Protocol("the alter statement is too long".to_owned()));
            }
            if !(executor.conn.has_pending_capacity() && executor.conn.has_statement_ids()) {
                return Err(Error::Protocol("the connection's counters are spent".to_owned()));
            }
            let altered = executor.exec(sql_alter.as_str(), Vec::new());
            match altered {
                Ok(_) => {},
                Err(e) => {
                    let duplicate = match &e {
                        Error::Server(text) => str_contains(text.as_str(), "duplicate column"),
                        _ => false,
                    };
                    if !duplicate {
                        return Err(e);
                    }
                },
            }
            i = i + 1;
        }
        Ok(())
    }
}

} // verus!
