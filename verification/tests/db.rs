use turbocommerce::db::base64::STANDARD;
use turbocommerce::db::{Db, DbError, DbValue, QueryResult, Row};
use turbocommerce::db::value::blob_text;

#[test]
fn test_params_empty() {
    let p: &[DbValue] = &[];
    assert!(p.is_empty());
}

#[test]
fn test_params_single() {
    let p = &[DbValue::from(42)];
    assert_eq!(p.len(), 1);
    assert!(matches!(&p[0], DbValue::Integer(42)));
}

#[test]
fn test_params_multiple() {
    let p = &[DbValue::from("hello"), DbValue::from(42), DbValue::Real(3.14f64.to_bits())];
    assert_eq!(p.len(), 3);
    assert!(matches!(&p[0], DbValue::Text(s) if s == "hello"));
    assert!(matches!(&p[1], DbValue::Integer(42)));
    assert!(matches!(&p[2], DbValue::Real(f) if (f64::from_bits(*f) - 3.14).abs() < 0.01));
}

#[test]
fn test_params_trailing_comma() {
    let p = &[DbValue::from("a"), DbValue::from("b")];
    assert_eq!(p.len(), 2);
}

#[test]
fn test_value_from_i32() {
    let v = DbValue::from(42i32);
    assert!(matches!(v, DbValue::Integer(42)));
}

#[test]
fn test_value_from_i64() {
    let v = DbValue::from(9_999_999_999i64);
    assert!(matches!(v, DbValue::Integer(9_999_999_999)));
}

#[test]
fn test_value_from_str() {
    let v = DbValue::from("hello");
    assert!(matches!(v, DbValue::Text(s) if s == "hello"));
}

#[test]
fn test_value_from_string() {
    let v = DbValue::from(String::from("world"));
    assert!(matches!(v, DbValue::Text(s) if s == "world"));
}

#[test]
fn test_value_from_vec_u8() {
    let v = DbValue::from(vec![1u8, 2, 3]);
    assert!(matches!(v, DbValue::Blob(b) if b == vec![1, 2, 3]));
}

#[test]
fn test_value_from_bool_true() {
    let v = DbValue::from(true);
    assert!(matches!(v, DbValue::Integer(1)));
}

#[test]
fn test_value_from_bool_false() {
    let v = DbValue::from(false);
    assert!(matches!(v, DbValue::Integer(0)));
}

#[test]
fn test_value_from_option_some() {
    let v = DbValue::from(Some(42i64));
    assert!(matches!(v, DbValue::Integer(42)));
}

#[test]
fn test_value_from_option_none() {
    let v = DbValue::from(None::<i64>);
    assert!(v.is_null());
}

#[test]
fn test_value_as_integer() {
    let v = DbValue::Integer(42);
    assert_eq!(v.as_integer(), Some(42));

    let v = DbValue::Real(3.7f64.to_bits());
    assert_eq!(v.as_integer(), Some(3));

    let v = DbValue::Text("hello".to_string());
    assert_eq!(v.as_integer(), None);
}

#[test]
fn real_to_integer_matches_float_casts() {
    let samples = [
        0.0f64, -0.0, 0.5, -0.5, 1.0, -1.0, 3.7, -3.7, 1e10, -1e10, 4503599627370495.5, 9007199254740993.0,
        9.2e18, 9.3e18, -9.3e18, -9223372036854775808.0, f64::INFINITY, f64::NEG_INFINITY, f64::NAN, 1e-300,
        f64::MAX, f64::MIN,
    ];
    for x in samples {
        assert_eq!(DbValue::Real(x.to_bits()).as_integer(), Some(x as i64), "value {}", x);
    }
}

#[test]
fn test_value_as_text() {
    let v = DbValue::Text("hello".to_string());
    assert_eq!(v.as_text(), Some("hello"));

    let v = DbValue::Integer(42);
    assert_eq!(v.as_text(), None);
}

#[test]
fn test_value_as_blob() {
    let v = DbValue::Blob(vec![1, 2, 3]);
    assert_eq!(v.as_blob(), Some(&[1u8, 2, 3][..]));

    let v = DbValue::Text("hello".to_string());
    assert_eq!(v.as_blob(), Some(b"hello".as_slice()));

    let v = DbValue::Null;
    assert_eq!(v.as_blob(), None);
}

#[test]
fn test_value_is_null() {
    assert!(DbValue::Null.is_null());
    assert!(!DbValue::Integer(0).is_null());
}

#[test]
fn test_row_new_and_columns() {
    let cols = vec!["id".to_string(), "name".to_string()];
    let vals = vec![DbValue::Integer(1), DbValue::Text("Alice".to_string())];
    let row = Row::new(cols.clone(), vals);

    assert_eq!(row.columns(), &cols);
}

#[test]
fn test_row_get_by_name() {
    let row = Row::new(
        vec!["id".to_string(), "name".to_string()],
        vec![DbValue::Integer(42), DbValue::Text("Bob".to_string())],
    );

    assert!(matches!(row.get("id"), Some(DbValue::Integer(42))));
    assert!(matches!(row.get("name"), Some(DbValue::Text(s)) if s == "Bob"));
    assert!(row.get("missing").is_none());
}

#[test]
fn test_row_get_by_index() {
    let row = Row::new(vec!["a".to_string(), "b".to_string()], vec![DbValue::Integer(1), DbValue::Integer(2)]);

    assert!(matches!(row.get_index(0), Some(DbValue::Integer(1))));
    assert!(matches!(row.get_index(1), Some(DbValue::Integer(2))));
    assert!(row.get_index(2).is_none());
}

#[test]
fn row_entries_pair_columns_with_values() {
    let row = Row::new(vec!["x".to_string(), "y".to_string()], vec![DbValue::Integer(10), DbValue::Integer(20)]);
    let entries = row.entries();
    assert_eq!(entries.len(), 2);
    assert_eq!(entries[0].0, "x");
    assert!(matches!(entries[1].1, DbValue::Integer(20)));
    assert_eq!(row.values().len(), 2);
}

#[test]
fn test_query_result_empty() {
    let result = QueryResult::new(vec!["id".to_string()], vec![]);
    assert!(result.is_empty());
    assert_eq!(result.len(), 0);
    assert!(result.first().is_none());
}

#[test]
fn test_query_result_with_rows() {
    let cols = vec!["id".to_string()];
    let rows = vec![
        Row::new(cols.clone(), vec![DbValue::Integer(1)]),
        Row::new(cols.clone(), vec![DbValue::Integer(2)]),
    ];
    let result = QueryResult::new(cols, rows);

    assert!(!result.is_empty());
    assert_eq!(result.len(), 2);
    assert!(result.first().is_some());
}

#[test]
fn test_query_result_iter() {
    let cols = vec!["v".to_string()];
    let rows = vec![
        Row::new(cols.clone(), vec![DbValue::Integer(1)]),
        Row::new(cols.clone(), vec![DbValue::Integer(2)]),
        Row::new(cols.clone(), vec![DbValue::Integer(3)]),
    ];
    let result = QueryResult::new(cols, rows);

    let count = result.iter().count();
    assert_eq!(count, 3);
}

#[test]
fn test_base64_encode_hello() {
    let encoded = STANDARD.encode(b"Hello");
    assert_eq!(encoded, "SGVsbG8=");
}

#[test]
fn test_base64_encode_padding() {
    let encoded = STANDARD.encode(b"a");
    assert_eq!(encoded, "YQ==");

    let encoded = STANDARD.encode(b"ab");
    assert_eq!(encoded, "YWI=");

    let encoded = STANDARD.encode(b"abc");
    assert_eq!(encoded, "YWJj");
}

#[test]
fn db_stub_connection() {
    let db = Db::open_default().unwrap();
    assert!(db.execute("DELETE FROM t", &[]).is_ok());
    let r = db.query("SELECT 1", &[DbValue::Null]).unwrap();
    assert!(r.is_empty());
    assert!(Db::open("named").is_ok());
}

#[test]
fn db_error_messages() {
    assert_eq!(DbError::NotFound.message(), "No rows returned");
    assert_eq!(DbError::QueryError("bad".to_string()).message(), "Query execution failed: bad");
}

#[test]
fn query_result_from_table_gives_each_row_the_columns() {
    let columns = vec!["id".to_string(), "name".to_string()];
    let table = vec![
        vec![DbValue::Integer(1), DbValue::Text("Rust Book".to_string())],
        vec![DbValue::Integer(2), DbValue::Null],
    ];
    let q = QueryResult::from_table(columns.clone(), table);
    assert_eq!(q.columns, columns);
    assert_eq!(q.len(), 2);
    let second = &q.rows[1];
    assert_eq!(second.columns(), &columns[..]);
    assert_eq!(second.get("id").unwrap().as_integer(), Some(2));
    assert!(second.get("name").unwrap().is_null());
    let empty = QueryResult::from_table(columns.clone(), Vec::new());
    assert!(empty.is_empty());
}

#[test]
fn base64_alphabet_and_padding() {
    use_base64_cases();
}

fn use_base64_cases() {
    assert_eq!(turbocommerce::encoding::base64_encode(b"Man"), "TWFu");
    assert_eq!(turbocommerce::encoding::base64_encode(b"Ma"), "TWE=");
    assert_eq!(turbocommerce::encoding::base64_encode(b"M"), "TQ==");
    assert_eq!(turbocommerce::encoding::base64_encode(&[0xfb, 0xff]), "+/8=");
    assert_eq!(turbocommerce::encoding::base64_encode(b""), "");
}

#[test]
fn blob_text_is_utf8_or_base64() {
    assert_eq!(blob_text(&b"hi".to_vec()), "hi");
    assert_eq!(blob_text(&vec![0xff, 0xfe]), "//4=");
    assert_eq!(blob_text(&Vec::new()), "");
}
