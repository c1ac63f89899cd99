use duroxide_turso::errors::Error;
use duroxide_turso::values::{
    u64_to_turso_integer, DbRow, DbValue, FromDbRow, IntoDbValue, RealValue, TryFromValue,
};

fn protocol_message<T: std::fmt::Debug>(r: Result<T, Error>) -> String {
    match r {
        Err(Error::Protocol(m)) => m,
        other => panic!("expected a protocol error, got {other:?}"),
    }
}

fn float_value(f: f64) -> DbValue {
    DbValue::Real(RealValue { bits: f.to_bits(), text: f.to_string(), truncated: f as i64 })
}

#[test]
fn values_bind_as_expected() {
    assert_eq!("a".into_db_value(), DbValue::Text("a".to_string()));
    assert_eq!((&"b").into_db_value(), DbValue::Text("b".to_string()));
    assert_eq!("c".to_string().into_db_value(), DbValue::Text("c".to_string()));
    assert_eq!((&"d".to_string()).into_db_value(), DbValue::Text("d".to_string()));
    assert_eq!((-5i64).into_db_value(), DbValue::Integer(-5));
    assert_eq!((&6i64).into_db_value(), DbValue::Integer(6));
    assert_eq!((&(i64::MAX as u64)).into_db_value(), DbValue::Integer(i64::MAX));
    assert_eq!(None::<i64>.into_db_value(), DbValue::Null);
    assert_eq!(Some(3u64).into_db_value(), DbValue::Integer(3));
    assert_eq!((&Some("x".to_string())).into_db_value(), DbValue::Text("x".to_string()));
    assert_eq!((&None::<String>).into_db_value(), DbValue::Null);
    assert_eq!(DbValue::Blob(vec![1, 2]).into_db_value(), DbValue::Blob(vec![1, 2]));
    assert_eq!(u64_to_turso_integer(0), 0);
}

#[test]
fn text_decoding_covers_every_value_kind() {
    assert_eq!(String::try_from_value(Some(&DbValue::Text("t".into()))).unwrap(), "t");
    assert_eq!(String::try_from_value(Some(&DbValue::Integer(-12))).unwrap(), "-12");
    assert_eq!(String::try_from_value(Some(&float_value(1.5))).unwrap(), "1.5");
    assert_eq!(String::try_from_value(Some(&DbValue::Blob("héllo".as_bytes().to_vec()))).unwrap(), "héllo");
    let bad = vec![0x66u8, 0xff, 0x6f];
    let expected = format!("invalid UTF-8 blob: {}", String::from_utf8(bad.clone()).unwrap_err());
    assert_eq!(protocol_message(String::try_from_value(Some(&DbValue::Blob(bad)))), expected);
    assert_eq!(protocol_message(String::try_from_value(Some(&DbValue::Null))), "unexpected NULL");
    assert_eq!(protocol_message(String::try_from_value(None)), "missing column");
    assert_eq!(Option::<String>::try_from_value(None).unwrap(), None);
    assert_eq!(Option::<String>::try_from_value(Some(&DbValue::Null)).unwrap(), None);
    assert_eq!(Option::<String>::try_from_value(Some(&DbValue::Integer(4))).unwrap(), Some("4".to_string()));
}

#[test]
fn integer_decoding_covers_every_value_kind() {
    assert_eq!(i64::try_from_value(Some(&DbValue::Integer(9))).unwrap(), 9);
    assert_eq!(i64::try_from_value(Some(&DbValue::Text("-31".into()))).unwrap(), -31);
    assert_eq!(i64::try_from_value(Some(&float_value(-2.9))).unwrap(), -2);
    assert_eq!(
        protocol_message(i64::try_from_value(Some(&DbValue::Text("x1".into())))),
        format!("failed to parse integer 'x1': {}", "x1".parse::<i64>().unwrap_err())
    );
    assert_eq!(protocol_message(i64::try_from_value(Some(&DbValue::Null))), "unexpected NULL");
    assert_eq!(protocol_message(i64::try_from_value(Some(&DbValue::Blob(vec![])))), "unexpected BLOB");
    assert_eq!(protocol_message(i64::try_from_value(None)), "missing column");
    assert_eq!(Option::<i64>::try_from_value(Some(&DbValue::Null)).unwrap(), None);
    assert_eq!(Option::<i64>::try_from_value(Some(&DbValue::Integer(1))).unwrap(), Some(1));
    assert!(Option::<i64>::try_from_value(Some(&DbValue::Blob(vec![]))).is_err());
}

#[test]
fn bound_values_read_back_unchanged() {
    let text = "payload".to_string();
    let bound = text.clone().into_db_value();
    assert_eq!(String::try_from_value(Some(&bound)).unwrap(), text);
    let bound = 77u64.into_db_value();
    assert_eq!(i64::try_from_value(Some(&bound)).unwrap(), 77);
    let bound = None::<String>.into_db_value();
    assert_eq!(Option::<String>::try_from_value(Some(&bound)).unwrap(), None);
    let as_text = String::try_from_value(Some(&DbValue::Integer(i64::MIN))).unwrap();
    assert_eq!(i64::try_from_value(Some(&DbValue::Text(as_text))).unwrap(), i64::MIN);
}

fn sample_row() -> DbRow {
    DbRow::new(
        vec![DbValue::Integer(1), DbValue::Text("a".into()), DbValue::Null],
        vec!["id".to_string(), "name".to_string(), "id".to_string()],
    )
}

#[test]
fn row_lookup_by_position_and_name() {
    let row = sample_row();
    assert_eq!(row.try_get::<i64, usize>(0).unwrap(), 1);
    assert_eq!(row.try_get::<String, &str>("name").unwrap(), "a");
    // A repeated column name resolves to its later column.
    assert_eq!(row.try_get::<Option<i64>, &str>("id").unwrap(), None);
    assert_eq!(row.try_get::<String, String>("name".to_string()).unwrap(), "a");
    assert_eq!(protocol_message(row.try_get::<i64, usize>(3)), "column index 3 out of bounds");
    assert_eq!(protocol_message(row.try_get::<i64, &str>("missing")), "column 'missing' not found");
    let short = DbRow::new(vec![], vec!["ghost".to_string()]);
    assert_eq!(protocol_message(short.try_get::<i64, &str>("ghost")), "missing column");
}

#[test]
fn rows_decode_into_tuples() {
    let row = sample_row();
    assert_eq!(<(i64,)>::from_row(&row).unwrap(), (1,));
    let row = DbRow::new(vec![DbValue::Null], vec!["v".to_string()]);
    assert_eq!(<(Option<String>,)>::from_row(&row).unwrap(), (None,));
    let empty = DbRow::new(vec![], vec![]);
    assert_eq!(protocol_message(<(i64,)>::from_row(&empty)), "column index 0 out of bounds");
}

#[test]
fn column_read_by_name_matches_read_by_position() {
    let row = DbRow::new(
        vec![DbValue::Text("7".into()), DbValue::Integer(8)],
        vec!["a".to_string(), "b".to_string()],
    );
    assert_eq!(row.try_get::<i64, &str>("a").unwrap(), row.try_get::<i64, usize>(0).unwrap());
    assert_eq!(row.try_get::<String, &str>("b").unwrap(), row.try_get::<String, usize>(1).unwrap());
}
