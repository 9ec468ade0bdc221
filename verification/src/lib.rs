//! Client-side relational-database driver core: a pipelined protocol
//! connection with a bounded prepared-statement cache, a uniform execution
//! layer with interception and logging, and a transaction guard that hands
//! its transaction to a deferred-disposal channel on release.

pub mod connection;
pub mod error;
pub mod executor;
pub mod macro_driver;
pub mod page;
pub mod pg_types;
pub mod sqlite_datetime;
pub mod statement_cache;
pub mod string_util;
pub mod syntax_tree;
pub mod table_sync;
pub mod template;
pub mod value;

pub use connection::{BackendMessage, ExecResult, FrontendMessage, PgConnection, TransactionStatus};
pub use error::Error;
pub use executor::{Executor, LogSink, NoLog, RBatisConnExecutor, RBatisTxExecutor, RBatisTxExecutorGuard, Rbatis, RbatisRef, SqlIntercept};
pub use page::{IPage, IPageRequest, Page, PageRequest, DEFAULT_PAGE_SIZE};
pub use pg_types::{PgTypeInfo, TypeInfo};
pub use sqlite_datetime::{decode_datetime, decode_datetime_from_int, decode_datetime_from_text, SqliteValue};
pub use statement_cache::{CachedStatement, StatementCache};
pub use string_util::{count_string_num, find_convert_string, un_packing_string};
pub use syntax_tree::{ForEachNode, WhenNode};
pub use table_sync::SqliteTableSync;
pub use template::SqlTemplate;
pub use value::Value;
