use rmcp_postgres::error::ErrorKind;
use rmcp_postgres::reply::{marshal, Column, ResultSet};
use rmcp_postgres::value::{column_family, from_column, to_bound, ColumnFamily, JsonValue, TypedValue};

fn same(a: &TypedValue, b: &TypedValue) -> bool {
    match (a, b) {
        (TypedValue::Null, TypedValue::Null) => true,
        (TypedValue::Boolean(x), TypedValue::Boolean(y)) => x == y,
        (TypedValue::Integer(x), TypedValue::Integer(y)) => x == y,
        (TypedValue::Float(x), TypedValue::Float(y)) => x == y,
        (TypedValue::Text(x), TypedValue::Text(y)) => x == y,
        _ => false,
    }
}

#[test]
fn scalars_bind_with_their_kind() {
    let bits = 2.5f64.to_bits();
    let cases = vec![
        (JsonValue::Null, TypedValue::Null),
        (JsonValue::Bool(true), TypedValue::Boolean(true)),
        (JsonValue::Int(-7), TypedValue::Integer(-7)),
        (JsonValue::UInt(7), TypedValue::Integer(7)),
        (JsonValue::Float(bits), TypedValue::Float(bits)),
        (JsonValue::Str("x".to_string()), TypedValue::Text("x".to_string())),
    ];
    for (v, want) in cases {
        let got = to_bound(&v).ok().unwrap();
        assert!(same(&got, &want));
    }
}

#[test]
fn shapes_that_cannot_be_bound() {
    let big = to_bound(&JsonValue::UInt(u64::MAX)).err().unwrap();
    assert_eq!(big.kind, ErrorKind::ValueShapeError);
    let arr = to_bound(&JsonValue::Array(vec![JsonValue::Int(1)])).err().unwrap();
    assert_eq!(arr.kind, ErrorKind::ValueShapeError);
    let obj = to_bound(&JsonValue::Object(vec![])).err().unwrap();
    assert_eq!(obj.kind, ErrorKind::ValueShapeError);
}

#[test]
fn families_by_type_name() {
    assert_eq!(column_family("int4"), ColumnFamily::Integer);
    assert_eq!(column_family("int8"), ColumnFamily::Integer);
    assert_eq!(column_family("float8"), ColumnFamily::Float);
    assert_eq!(column_family("bool"), ColumnFamily::Boolean);
    assert_eq!(column_family("varchar"), ColumnFamily::Character);
    assert_eq!(column_family("timestamptz"), ColumnFamily::Other);
}

#[test]
fn unreadable_column_becomes_null() {
    assert!(matches!(from_column(ColumnFamily::Integer, &None), JsonValue::Null));
    let wrong = Some(TypedValue::Text("12".to_string()));
    assert!(matches!(from_column(ColumnFamily::Integer, &wrong), JsonValue::Null));
    let other = Some(TypedValue::Text("2024-01-01".to_string()));
    assert!(matches!(from_column(ColumnFamily::Other, &other), JsonValue::Str(s) if s == "2024-01-01"));
}

#[test]
fn row_keeps_kinds_and_column_order() {
    let bits = 1.5f64.to_bits();
    let rs = ResultSet {
        columns: vec![
            Column { name: "id".to_string(), family: ColumnFamily::Integer },
            Column { name: "score".to_string(), family: ColumnFamily::Float },
            Column { name: "active".to_string(), family: ColumnFamily::Boolean },
            Column { name: "name".to_string(), family: ColumnFamily::Character },
        ],
        rows: vec![vec![
            Some(TypedValue::Integer(42)),
            Some(TypedValue::Float(bits)),
            Some(TypedValue::Boolean(true)),
            Some(TypedValue::Text("ada".to_string())),
        ]],
    };
    let recs = marshal(&rs);
    assert_eq!(recs.len(), 1);
    let r = &recs[0];
    let names: Vec<&str> = r.iter().map(|(k, _)| k.as_str()).collect();
    assert_eq!(names, vec!["id", "score", "active", "name"]);
    assert!(matches!(r[0].1, JsonValue::Int(42)));
    assert!(matches!(r[1].1, JsonValue::Float(b) if f64::from_bits(b) == 1.5));
    assert!(matches!(r[2].1, JsonValue::Bool(true)));
    assert!(matches!(&r[3].1, JsonValue::Str(s) if s == "ada"));
    // and binding the values again gives back what was read
    assert!(same(&to_bound(&r[0].1).ok().unwrap(), &TypedValue::Integer(42)));
    assert!(same(&to_bound(&r[3].1).ok().unwrap(), &TypedValue::Text("ada".to_string())));
}

#[test]
fn short_row_fills_with_null() {
    let rs = ResultSet {
        columns: vec![
            Column { name: "a".to_string(), family: ColumnFamily::Integer },
            Column { name: "b".to_string(), family: ColumnFamily::Integer },
        ],
        rows: vec![vec![Some(TypedValue::Integer(1))]],
    };
    let recs = marshal(&rs);
    assert!(matches!(recs[0][1].1, JsonValue::Null));
}
