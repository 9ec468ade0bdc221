use rbatis::string_util::{
    count_string_num, find_convert_string, str_contains, str_eq, un_packing_string,
};
use rbatis::value::{arr_to_string, i64_to_string, u64_to_string, value_to_string, Value};

#[test]
fn find_convert_string_collects_markers() {
    let list = find_convert_string("select * from t where a = #{a} and b = ${b} or a = #{a}");
    let pairs: Vec<(String, String)> = list;
    assert_eq!(pairs.len(), 2);
    assert_eq!(pairs[0].0, "a");
    assert_eq!(pairs[0].1, "#{a}");
    assert_eq!(pairs[1].0, "b");
    assert_eq!(pairs[1].1, "${b}");
}

#[test]
fn find_convert_string_ignores_bare_sigils() {
    let list = find_convert_string("a # b $ c #{x}");
    assert_eq!(list.len(), 1);
    assert_eq!(list[0].0, "x");
    assert_eq!(list[0].1, "#{x}");
    assert!(find_convert_string("no markers here").is_empty());
}

#[test]
fn count_string_num_counts() {
    assert_eq!(count_string_num(&"a,b,c".to_string(), ','), 2);
    assert_eq!(count_string_num(&"".to_string(), ','), 0);
    assert_eq!(count_string_num(&",,,".to_string(), ','), 3);
}

#[test]
fn un_packing_string_strips_quotes() {
    assert_eq!(un_packing_string("'strings'"), "strings");
    assert_eq!(un_packing_string("`name`"), "name");
    assert_eq!(un_packing_string("\"name\""), "name");
    assert_eq!(un_packing_string("plain"), "plain");
    assert_eq!(un_packing_string("'odd"), "'odd");
    assert_eq!(un_packing_string("'"), "'");
}

#[test]
fn str_helpers() {
    assert!(str_eq("abc", "abc"));
    assert!(!str_eq("abc", "abd"));
    assert!(str_contains("table t already exists", "already exists"));
    assert!(!str_contains("fine", "already exists"));
    assert!(str_contains("abc", ""));
}

#[test]
fn integers_render_in_decimal() {
    assert_eq!(u64_to_string(0), "0");
    assert_eq!(u64_to_string(12345), "12345");
    assert_eq!(u64_to_string(u64::MAX), "18446744073709551615");
    assert_eq!(i64_to_string(-5), "-5");
    assert_eq!(i64_to_string(7), "7");
    assert_eq!(i64_to_string(i64::MIN), "-9223372036854775808");
}

#[test]
fn values_render_as_text() {
    assert_eq!(value_to_string(&Value::Null), "null");
    assert_eq!(value_to_string(&Value::Bool(true)), "true");
    assert_eq!(value_to_string(&Value::I32(-3)), "-3");
    assert_eq!(value_to_string(&Value::U64(9)), "9");
    assert_eq!(value_to_string(&Value::String("hi".to_string())), "\"hi\"");
    assert_eq!(value_to_string(&Value::Binary(vec![1, 2, 3])), "[1,2,3]");
    let arr = Value::Array(vec![Value::I32(1), Value::Null]);
    assert_eq!(value_to_string(&arr), "[1,null]");
    let map = Value::Mapping(vec![(Value::String("a".to_string()), Value::I32(1))]);
    assert_eq!(value_to_string(&map), "{\"a\":1}");
    let ext = Value::Ext("Uuid".to_string(), Box::new(Value::String("x".to_string())));
    assert_eq!(value_to_string(&ext), "Uuid(\"x\")");
}

#[test]
fn arr_to_string_returns_args_unchanged() {
    let args = vec![Value::I32(1), Value::String("x".to_string())];
    let (back, text) = arr_to_string(args);
    assert_eq!(text, "[1,\"x\"]");
    assert_eq!(back.len(), 2);
    assert_eq!(value_to_string(&back[0]), "1");
    assert_eq!(value_to_string(&back[1]), "\"x\"");
}

#[test]
fn value_accessors() {
    let v = Value::String("id".to_string());
    assert_eq!(v.as_str(), Some("id"));
    assert_eq!(Value::I32(1).as_str(), None);
    assert!(Value::Null.is_null());
    assert!(!Value::Bool(false).is_null());
}
