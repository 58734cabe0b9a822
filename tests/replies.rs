use rmcp_postgres::dispatch::Operation;
use rmcp_postgres::error::ErrorKind;
use rmcp_postgres::params::{CountRowsParams, ExecuteRawQueryParams, InsertParams, TableNameParams};
use rmcp_postgres::reply::{Column, ExecutionOutcome, Reply, ResultSet};
use rmcp_postgres::server::PostgresServer;
use rmcp_postgres::value::{ColumnFamily, JsonValue, TypedValue};

fn one_value(name: &str, family: ColumnFamily, v: TypedValue) -> ExecutionOutcome {
    ExecutionOutcome::RowsReturned(ResultSet {
        columns: vec![Column { name: name.to_string(), family }],
        rows: vec![vec![Some(v)]],
    })
}

fn raw(q: &str) -> Operation {
    Operation::ExecuteRawQuery(ExecuteRawQueryParams { query: q.to_string(), params: None })
}

#[test]
fn raw_select_replies_with_rows() {
    let server = PostgresServer::new("dbname=test".to_string());
    let outs = vec![one_value("?column?", ColumnFamily::Integer, TypedValue::Integer(1))];
    match server.respond(&raw("SELECT 1"), &outs).ok().unwrap() {
        Reply::RawRows { rows, row_count } => {
            assert_eq!(row_count, 1);
            assert!(matches!(rows[0][0].1, JsonValue::Int(1)));
        },
        _ => panic!("expected rows"),
    }
}

#[test]
fn raw_update_replies_with_affected_count() {
    let server = PostgresServer::new("dbname=test".to_string());
    let outs = vec![ExecutionOutcome::RowsAffected(4)];
    match server.respond(&raw("UPDATE t SET x = 1"), &outs).ok().unwrap() {
        Reply::RawAffected { rows_affected } => assert_eq!(rows_affected, 4),
        _ => panic!("expected a count"),
    }
}

#[test]
fn count_reply() {
    let server = PostgresServer::new("dbname=test".to_string());
    let op = Operation::CountRows(CountRowsParams { table_name: "users".to_string(), where_conditions: None });
    let outs = vec![one_value("count", ColumnFamily::Integer, TypedValue::Integer(12))];
    match server.respond(&op, &outs).ok().unwrap() {
        Reply::Count { table_name, count } => {
            assert_eq!(table_name, "users");
            assert_eq!(count, 12);
        },
        _ => panic!("expected a count"),
    }
}

#[test]
fn wrong_outcome_shape_is_an_execution_error() {
    let server = PostgresServer::new("dbname=test".to_string());
    let op = Operation::DescribeTable(TableNameParams { table_name: "users".to_string() });
    let outs = vec![ExecutionOutcome::RowsAffected(0)];
    assert_eq!(server.respond(&op, &outs).err().unwrap().kind, ErrorKind::QueryExecutionError);
    let insert = Operation::InsertData(InsertParams {
        table_name: "users".to_string(),
        data: JsonValue::Object(vec![]),
    });
    assert_eq!(server.respond(&insert, &vec![]).err().unwrap().kind, ErrorKind::QueryExecutionError);
}

#[test]
fn insert_reply_names_the_table() {
    let server = PostgresServer::new("dbname=test".to_string());
    let op = Operation::InsertData(InsertParams {
        table_name: "users".to_string(),
        data: JsonValue::Object(vec![]),
    });
    match server.respond(&op, &vec![ExecutionOutcome::RowsAffected(1)]).ok().unwrap() {
        Reply::Message(m) => assert_eq!(m, "Successfully inserted into users"),
        _ => panic!("expected a message"),
    }
}

#[test]
fn status_never_shows_the_password() {
    let server = PostgresServer::new("host=db user=alice password=secret dbname=app".to_string());
    let outs = vec![one_value("version", ColumnFamily::Character, TypedValue::Text("PostgreSQL 16".to_string()))];
    match server.respond(&Operation::GetConnectionStatus, &outs).ok().unwrap() {
        Reply::Status { database, user, host, version } => {
            assert_eq!(database, "app");
            assert_eq!(user, "alice");
            assert_eq!(host, "db");
            assert_eq!(version, "PostgreSQL 16");
            for f in [&database, &user, &host, &version] {
                assert!(!f.contains("secret"));
            }
        },
        _ => panic!("expected a status"),
    }
}

#[test]
fn status_error_keeps_the_password_out() {
    let server = PostgresServer::new("host=db password=secret".to_string());
    let e = server.respond(&Operation::GetConnectionStatus, &vec![ExecutionOutcome::RowsAffected(0)]).err().unwrap();
    assert_eq!(e.kind, ErrorKind::QueryExecutionError);
    assert_eq!(e.message, "the database answered in an unexpected shape");
    assert!(!e.message.contains("secret"));
}

#[test]
fn status_defaults() {
    let server = PostgresServer::new("password=pw".to_string());
    let outs = vec![one_value("version", ColumnFamily::Character, TypedValue::Text("v".to_string()))];
    match server.respond(&Operation::GetConnectionStatus, &outs).ok().unwrap() {
        Reply::Status { database, user, host, .. } => {
            assert_eq!(database, "unknown");
            assert_eq!(user, "unknown");
            assert_eq!(host, "localhost");
        },
        _ => panic!("expected a status"),
    }
}
