use rbatis::sqlite_datetime::{
    decode_datetime, decode_datetime_from_int, decode_datetime_from_text, DataType, NaiveDate,
    NaiveDateTime, NaiveTime, SqliteValue, Type,
};
use rbatis::error::Error;

#[test]
fn epoch_decodes_from_an_integer() {
    let dt = decode_datetime_from_int(0).unwrap();
    assert_eq!(dt.unix_secs, 0);
    assert_eq!(dt.subsec_nanos, 0);
    assert_eq!(dt.offset_secs, 0);
    let dt = decode_datetime_from_int(1457390215).unwrap();
    assert_eq!(dt.unix_secs, 1457390215);
}

#[test]
fn datetime_decodes_from_common_text_forms() {
    let dt = decode_datetime_from_text("1970-01-01 00:00:01").unwrap();
    assert_eq!(dt.unix_secs, 1);
    assert_eq!(dt.offset_secs, 0);
    let dt = decode_datetime_from_text("1970-01-01T00:00:02+00:00").unwrap();
    assert_eq!(dt.unix_secs, 2);
    let dt = decode_datetime_from_text("1970-01-01 01:00:00+01:00").unwrap();
    assert_eq!(dt.unix_secs, 0);
    assert_eq!(dt.offset_secs, 3600);
    assert!(decode_datetime_from_text("not a datetime").is_none());
}

#[test]
fn datetime_decodes_from_storage_values() {
    let dt = decode_datetime(&SqliteValue::Int64(5)).unwrap();
    assert_eq!(dt.unix_secs, 5);
    let dt = decode_datetime(&SqliteValue::Text("1970-01-01 00:00:03".to_string())).unwrap();
    assert_eq!(dt.unix_secs, 3);
    match decode_datetime(&SqliteValue::Text("garbage".to_string())) {
        Err(Error::Decode(m)) => assert_eq!(m, "invalid datetime: garbage"),
        other => panic!("expected a decode error, got {:?}", other),
    }
    assert!(decode_datetime(&SqliteValue::Null).is_err());
}

#[test]
fn naive_forms_decode_and_shift() {
    let n = NaiveDateTime::decode(&SqliteValue::Text("1970-01-01 01:00:00+01:00".to_string()))
        .unwrap();
    // the wall clock at +01:00 reads one hour past the epoch
    assert_eq!(n.secs, 3600);
    let d = NaiveDate::decode(&SqliteValue::Text("2024-02-29".to_string())).unwrap();
    assert_eq!((d.year, d.month, d.day), (2024, 2, 29));
    assert!(NaiveDate::decode(&SqliteValue::Text("2023-02-29".to_string())).is_err());
    let t = NaiveTime::decode(&SqliteValue::Text("23:59:01".to_string())).unwrap();
    assert_eq!(t.secs, 23 * 3600 + 59 * 60 + 1);
    match NaiveTime::decode(&SqliteValue::Text("nonsense".to_string())) {
        Err(Error::Decode(m)) => assert_eq!(m, "invalid time: nonsense"),
        other => panic!("expected a decode error, got {:?}", other),
    }
}

#[test]
fn encodes_render_the_backend_patterns() {
    let dt = rbatis::sqlite_datetime::DateTime { unix_secs: 0, subsec_nanos: 0, offset_secs: 0 };
    assert_eq!(dt.encode().unwrap(), "1970-01-01T00:00:00+00:00");
    let n = NaiveDateTime { secs: 1, subsec_nanos: 0 };
    assert_eq!(n.encode().unwrap(), "1970-01-01 00:00:01");
    let d = NaiveDate { year: 2024, month: 2, day: 29 };
    assert_eq!(d.encode().unwrap(), "2024-02-29");
    assert!(NaiveDate { year: 2023, month: 2, day: 29 }.encode().is_none());
    let t = NaiveTime { secs: 61, subsec_nanos: 0 };
    assert_eq!(t.encode().unwrap(), "00:01:01");
}

#[test]
fn storage_values_name_their_types_and_compatibility() {
    assert_eq!(SqliteValue::Int(1).type_info().0, DataType::Int);
    assert_eq!(SqliteValue::Text("x".to_string()).type_info().0, DataType::Text);
    assert!(NaiveDateTime::compatible(&SqliteValue::Int64(1).type_info()));
    assert!(NaiveDateTime::compatible(&SqliteValue::Text("x".to_string()).type_info()));
    assert!(!NaiveDate::compatible(&SqliteValue::Int(1).type_info()));
    assert!(NaiveTime::compatible(&SqliteValue::Text("x".to_string()).type_info()));
    let dt = rbatis::sqlite_datetime::DateTime { unix_secs: 0, subsec_nanos: 0, offset_secs: 0 };
    assert_eq!(dt.type_info().0, DataType::Datetime);
}
