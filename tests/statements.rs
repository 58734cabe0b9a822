use rmcp_postgres::dispatch::Operation;
use rmcp_postgres::error::ErrorKind;
use rmcp_postgres::params::{
    CountRowsParams, DeleteDataParams, ExecuteRawQueryParams, InsertParams, QueryParams,
    SchemaParams, TableNameParams, TableSampleParams, UpdateDataParams,
};
use rmcp_postgres::server::{clamp_sample_limit, classify_query, PostgresServer};
use rmcp_postgres::sql::StatementKind;
use rmcp_postgres::value::{JsonValue, TypedValue};

fn server() -> PostgresServer {
    PostgresServer::new("host=localhost user=postgres dbname=test".to_string())
}

fn s(x: &str) -> String {
    x.to_string()
}

fn obj(entries: Vec<(&str, JsonValue)>) -> JsonValue {
    JsonValue::Object(entries.into_iter().map(|(k, v)| (s(k), v)).collect())
}

#[test]
fn sample_limit_is_clamped() {
    assert_eq!(clamp_sample_limit(Some(500)), 100);
    assert_eq!(clamp_sample_limit(Some(0)), 10);
    assert_eq!(clamp_sample_limit(Some(-3)), 10);
    assert_eq!(clamp_sample_limit(None), 10);
    assert_eq!(clamp_sample_limit(Some(1)), 1);
    assert_eq!(clamp_sample_limit(Some(100)), 100);
    assert_eq!(clamp_sample_limit(Some(37)), 37);
}

#[test]
fn sample_statement_embeds_clamped_limit() {
    let p = TableSampleParams { table_name: s("users"), limit: Some(500) };
    let st = server().get_table_sample(&p).ok().unwrap();
    assert_eq!(st.text, "SELECT * FROM users LIMIT 100");
    assert!(st.params.is_empty());
    assert_eq!(st.kind, StatementKind::RowReturning);
}

#[test]
fn insert_binds_every_value() {
    let p = InsertParams {
        table_name: s("users"),
        data: obj(vec![("name", JsonValue::Str(s("ada"))), ("age", JsonValue::Int(36))]),
    };
    let st = server().insert_data(&p).ok().unwrap();
    assert_eq!(st.text, "INSERT INTO users (name, age) VALUES ($1, $2)");
    assert_eq!(st.params.len(), 2);
    assert!(matches!(&st.params[0], TypedValue::Text(t) if t == "ada"));
    assert!(matches!(st.params[1], TypedValue::Integer(36)));
    assert_eq!(st.kind, StatementKind::RowAffecting);
}

#[test]
fn insert_numbers_placeholders_past_nine() {
    let entries: Vec<(String, JsonValue)> =
        (0..11).map(|i| (format!("c{}", i), JsonValue::Int(i))).collect();
    let p = InsertParams { table_name: s("t"), data: JsonValue::Object(entries) };
    let st = server().insert_data(&p).ok().unwrap();
    assert!(st.text.ends_with("$9, $10, $11)"));
    assert_eq!(st.params.len(), 11);
}

#[test]
fn insert_refusals() {
    let not_object = InsertParams { table_name: s("users"), data: JsonValue::Int(1) };
    assert_eq!(server().insert_data(&not_object).err().unwrap().kind, ErrorKind::InvalidParameters);
    let empty = InsertParams { table_name: s("users"), data: obj(vec![]) };
    assert_eq!(server().insert_data(&empty).err().unwrap().kind, ErrorKind::InvalidParameters);
    let bad_table = InsertParams {
        table_name: s("users; DROP TABLE users"),
        data: obj(vec![("a", JsonValue::Int(1))]),
    };
    assert_eq!(server().insert_data(&bad_table).err().unwrap().kind, ErrorKind::InvalidParameters);
    let bad_column = InsertParams { table_name: s("users"), data: obj(vec![("a b", JsonValue::Int(1))]) };
    assert_eq!(server().insert_data(&bad_column).err().unwrap().kind, ErrorKind::InvalidParameters);
    let nested = InsertParams {
        table_name: s("users"),
        data: obj(vec![("a", JsonValue::Array(vec![]))]),
    };
    assert_eq!(server().insert_data(&nested).err().unwrap().kind, ErrorKind::ValueShapeError);
}

#[test]
fn count_without_and_with_conditions() {
    let all = CountRowsParams { table_name: s("users"), where_conditions: None };
    let st = server().count_rows(&all).ok().unwrap();
    assert_eq!(st.text, "SELECT COUNT(*) AS count FROM users");
    assert!(st.params.is_empty());
    let some = CountRowsParams {
        table_name: s("users"),
        where_conditions: Some(obj(vec![("a", JsonValue::Int(1)), ("b", JsonValue::Str(s("x")))])),
    };
    let st = server().count_rows(&some).ok().unwrap();
    assert_eq!(st.text, "SELECT COUNT(*) AS count FROM users WHERE a = $1 AND b = $2");
    assert_eq!(st.params.len(), 2);
}

#[test]
fn count_refuses_non_object_conditions_before_any_statement() {
    let p = CountRowsParams { table_name: s("users"), where_conditions: Some(JsonValue::Str(s("a = 1"))) };
    assert_eq!(server().count_rows(&p).err().unwrap().kind, ErrorKind::InvalidParameters);
    let op = Operation::CountRows(CountRowsParams {
        table_name: s("users"),
        where_conditions: Some(JsonValue::Array(vec![])),
    });
    assert_eq!(server().statements(&op).err().unwrap().kind, ErrorKind::InvalidParameters);
}

#[test]
fn update_filters_with_and_under_a_limit() {
    let p = UpdateDataParams {
        table_name: s("users"),
        values: obj(vec![("name", JsonValue::Str(s("bob")))]),
        where_conditions: obj(vec![("id", JsonValue::Int(3)), ("active", JsonValue::Bool(true))]),
        limit: None,
    };
    let st = server().update_data(&p).ok().unwrap();
    assert_eq!(
        st.text,
        "UPDATE users SET name = $1 WHERE ctid IN (SELECT ctid FROM users WHERE id = $2 AND active = $3 LIMIT 1000)"
    );
    assert_eq!(st.params.len(), 3);
    assert!(matches!(st.params[2], TypedValue::Boolean(true)));
}

#[test]
fn delete_with_explicit_limit() {
    let p = DeleteDataParams {
        table_name: s("users"),
        where_conditions: obj(vec![("id", JsonValue::Int(3))]),
        limit: Some(5),
    };
    let st = server().delete_data(&p).ok().unwrap();
    assert_eq!(st.text, "DELETE FROM users WHERE ctid IN (SELECT ctid FROM users WHERE id = $1 LIMIT 5)");
    assert_eq!(st.kind, StatementKind::RowAffecting);
}

#[test]
fn change_refusals() {
    let negative = DeleteDataParams {
        table_name: s("users"),
        where_conditions: obj(vec![("id", JsonValue::Int(3))]),
        limit: Some(-1),
    };
    assert_eq!(server().delete_data(&negative).err().unwrap().kind, ErrorKind::InvalidParameters);
    let no_values = UpdateDataParams {
        table_name: s("users"),
        values: obj(vec![]),
        where_conditions: obj(vec![]),
        limit: None,
    };
    assert_eq!(server().update_data(&no_values).err().unwrap().kind, ErrorKind::InvalidParameters);
    let not_object = UpdateDataParams {
        table_name: s("users"),
        values: obj(vec![("a", JsonValue::Int(1))]),
        where_conditions: JsonValue::Null,
        limit: None,
    };
    assert_eq!(server().update_data(&not_object).err().unwrap().kind, ErrorKind::InvalidParameters);
}

#[test]
fn raw_queries_are_classified_by_leading_keyword() {
    assert_eq!(classify_query("SELECT 1"), StatementKind::RowReturning);
    assert_eq!(classify_query("  \n select 1"), StatementKind::RowReturning);
    assert_eq!(classify_query("SeLeCt now()"), StatementKind::RowReturning);
    assert_eq!(classify_query("UPDATE t SET x = 1"), StatementKind::RowAffecting);
    assert_eq!(classify_query("SELEC"), StatementKind::RowAffecting);
    let p = ExecuteRawQueryParams { query: s("  select 1"), params: None };
    let st = server().execute_raw_query(&p);
    assert_eq!(st.text, "  select 1");
    assert_eq!(st.kind, StatementKind::RowReturning);
}

#[test]
fn introspection_binds_table_names() {
    let st = server().get_schema(&SchemaParams { table_name: Some(s("x'; --")) });
    assert!(!st.text.contains("x'; --"));
    assert!(matches!(&st.params[0], TypedValue::Text(t) if t == "x'; --"));
    let op = Operation::DescribeTable(TableNameParams { table_name: s("users") });
    let v = server().statements(&op).ok().unwrap();
    assert_eq!(v.len(), 2);
    let q = server().statements(&Operation::QueryData(QueryParams { query: s("SELECT 2") })).ok().unwrap();
    assert_eq!(q[0].text, "SELECT 2");
}

#[test]
fn placeholders_match_bound_values() {
    let p = UpdateDataParams {
        table_name: s("public.users"),
        values: obj(vec![("a", JsonValue::Int(1)), ("b", JsonValue::Null)]),
        where_conditions: obj(vec![("c", JsonValue::Str(s("$1 costs"))), ("d", JsonValue::Float(0.5f64.to_bits()))]),
        limit: Some(7),
    };
    let st = server().update_data(&p).ok().unwrap();
    assert_eq!(st.text.matches('$').count(), st.params.len());
    assert!(!st.text.contains("costs"));
    assert!(st.text.ends_with("WHERE c = $3 AND d = $4 LIMIT 7)"));
}

#[test]
fn raw_queries_skip_unicode_whitespace() {
    assert_eq!(classify_query("\u{b}SELECT 1"), StatementKind::RowReturning);
    assert_eq!(classify_query("\u{3000}\u{a0}select 1"), StatementKind::RowReturning);
    assert_eq!(classify_query("\u{85}\u{2028}Select 1"), StatementKind::RowReturning);
    assert_eq!(classify_query("\u{200b}SELECT 1"), StatementKind::RowAffecting);
}
