use rbatis::error::Error;
use rbatis::macro_driver::{filter_args_tx_id, is_select_sql};
use rbatis::page::{IPage, Page};
use rbatis::pg_types::{PgTypeInfo, TypeInfo};
use rbatis::statement_cache::{CachedStatement, StatementCache};
use rbatis::syntax_tree::{ForEachNode, Name, WhenNode};
use rbatis::template::SqlTemplate;
use rbatis::value::Value;

#[test]
fn template_defaults_to_lower_case_keywords() {
    let t = SqlTemplate::default();
    assert_eq!(t.where_, " where ");
    assert_eq!(t.and, " and ");
    assert_eq!(t.select, "select ");
    assert_eq!(t.delete_from, "delete from ");
    assert_eq!(t.insert_into, "insert into ");
    assert_eq!(t.null, " NULL ");
    assert_eq!(t.rows_only, " rows only ");
}

#[test]
fn template_upper_case_table() {
    let t = SqlTemplate::new(true);
    assert_eq!(t.where_, " WHERE ");
    assert_eq!(t.order_by, " ORDER BY ");
    assert_eq!(t.select, "SELECT ");
    assert_eq!(t.rows_fetch_next, " ROWS FETCH NEXT ");
    assert_eq!(t.null, " NULL ");
}

#[test]
fn value_type_info_maps_variants() {
    assert_eq!(Value::Null.type_info(), PgTypeInfo::Unknown);
    assert_eq!(Value::Bool(true).type_info(), PgTypeInfo::Bool);
    assert_eq!(Value::I32(1).type_info(), PgTypeInfo::Int4);
    assert_eq!(Value::I64(1).type_info(), PgTypeInfo::Int8);
    assert_eq!(Value::U32(1).type_info(), PgTypeInfo::Int4);
    assert_eq!(Value::U64(1).type_info(), PgTypeInfo::Int8);
    assert_eq!(Value::String("x".to_string()).type_info(), PgTypeInfo::Varchar);
    assert_eq!(Value::Binary(vec![]).type_info(), PgTypeInfo::ByteaArray);
    assert_eq!(Value::Array(vec![]).type_info(), PgTypeInfo::Unknown);
    assert_eq!(Value::Array(vec![Value::I32(1)]).type_info(), PgTypeInfo::Int4Array);
    assert_eq!(Value::Mapping(vec![]).type_info(), PgTypeInfo::Unknown);
}

#[test]
fn ext_tags_name_remote_types() {
    let ext = |tag: &str| Value::Ext(tag.to_string(), Box::new(Value::Null)).type_info();
    assert_eq!(ext("Uuid"), PgTypeInfo::Uuid);
    assert_eq!(ext("Decimal"), PgTypeInfo::Numeric);
    assert_eq!(ext("Date"), PgTypeInfo::Date);
    assert_eq!(ext("Timestamp"), PgTypeInfo::Timestamp);
    assert_eq!(ext("DateTime"), PgTypeInfo::Timestamp);
    assert_eq!(ext("Json"), PgTypeInfo::Json);
    assert_eq!(ext("Jsonb"), PgTypeInfo::Jsonb);
    assert_eq!(ext("NoSuchTag"), PgTypeInfo::Unknown);
}

#[test]
fn node_kinds_carry_their_tags() {
    assert_eq!(ForEachNode::name(), "for");
    assert_eq!(WhenNode::name(), "when");
    let node = ForEachNode {
        childs: vec![],
        collection: "xs".to_string(),
        index: "i".to_string(),
        item: "x".to_string(),
    };
    assert_eq!(node.collection, "xs");
    let when = WhenNode { childs: vec![], test: "i > 0".to_string() };
    assert_eq!(when.test, "i > 0");
}

#[test]
fn select_statements_take_the_fetch_path() {
    assert!(is_select_sql("select * from t"));
    assert!(is_select_sql("SELECT 1"));
    assert!(is_select_sql("\"select 1\""));
    assert!(!is_select_sql("delete from t"));
    assert!(!is_select_sql("selection"));
}

#[test]
fn filter_args_drops_the_handle_and_marks_tx_id() {
    let names = vec![
        "rb".to_string(),
        "tx_id".to_string(),
        "name".to_string(),
        "age".to_string(),
    ];
    let (kept, has_tx) = filter_args_tx_id("rb", &names);
    assert_eq!(kept, vec!["name".to_string(), "age".to_string()]);
    assert!(has_tx);
    let (kept, has_tx) = filter_args_tx_id("rb", &vec!["rb".to_string(), "a".to_string()]);
    assert_eq!(kept, vec!["a".to_string()]);
    assert!(!has_tx);
}

#[test]
fn error_taxonomy_fatality() {
    assert!(Error::Connection("x".to_string()).is_fatal());
    assert!(Error::Protocol("x".to_string()).is_fatal());
    assert!(Error::CacheEviction("x".to_string()).is_fatal());
    assert!(!Error::InterceptorVeto("x".to_string()).is_fatal());
    assert!(!Error::Server("x".to_string()).is_fatal());
    assert!(!Error::TransactionState.is_fatal());
    assert!(!Error::Decode("x".to_string()).is_fatal());
    assert_eq!(Error::TransactionState.message(), "the tx is done!");
    assert_eq!(Error::Protocol("bad frame".to_string()).message(), "bad frame");
}

#[test]
fn cache_holds_capacity_entries_without_eviction() {
    let mut cache = StatementCache::new(3);
    for i in 0..3u64 {
        let key = format!("q{}", i);
        cache.insert(key, CachedStatement { id: i + 1, columns: vec![] });
    }
    assert_eq!(cache.len(), 3);
    assert_eq!(cache.capacity(), 3);
}

#[test]
fn cache_evicts_the_least_recently_used_entry_first() {
    let mut cache = StatementCache::new(2);
    cache.insert("a".to_string(), CachedStatement { id: 1, columns: vec![] });
    cache.insert("b".to_string(), CachedStatement { id: 2, columns: vec![] });
    // touch `a`: it becomes most recently used
    assert_eq!(cache.get("a").unwrap().id, 1);
    // the least recently accessed entry is now `b`
    let evicted = cache.remove_lru().unwrap();
    assert_eq!(evicted.id, 2);
    assert_eq!(cache.len(), 1);
    assert_eq!(cache.get("a").unwrap().id, 1);
    assert!(cache.get("b").is_none());
}

#[test]
fn cache_miss_changes_nothing() {
    let mut cache = StatementCache::new(2);
    assert!(cache.get("nothing").is_none());
    assert!(cache.remove_lru().is_none());
    assert_eq!(cache.len(), 0);
}

#[test]
fn page_records_move_through_trait() {
    let page = Page::<i32>::new(1, 10).set_records(vec![5, 6]);
    assert_eq!(page.get_records(), &vec![5, 6]);
}
