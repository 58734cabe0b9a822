//! One invocation from end to end, as decisions: an operation and its
//! arguments give the statements to run; the outcomes of those statements
//! give the reply. Running them is the caller's part.

use vstd::prelude::*;
use crate::conn::{config_setting, status_fields};
use crate::error::{ErrorKind, ToolError};
use crate::params::{
    ColumnExistsParams, CountRowsParams, DeleteDataParams, ExecuteRawQueryParams, InsertParams,
    QueryParams, RelationshipsParams, SchemaParams, TableNameParams, TableSampleParams,
    UpdateDataParams,
};
use crate::reply::{
    first_cell, first_cell_of, first_column, first_column_values, marshal, marshalled,
    ExecutionOutcome, Reply, ResultSet,
};
use crate::server::{
    change_limit_value, count_refusal, delete_refusal, entries_of, filter_entries, insert_refusal,
    raw_kind, sample_limit, update_refusal, PostgresServer, COLUMNS_SQL, COLUMN_EXISTS_SQL,
    INDEXES_SQL, LIST_TABLES_SQL, RELATIONSHIPS_ALL_SQL, RELATIONSHIPS_TABLE_SQL, SCHEMA_ALL_SQL,
    SCHEMA_TABLE_SQL, TABLE_EXISTS_SQL, VERSION_SQL,
};
use crate::sql::{
    bound_values, count_placeholders, count_sql, delete_placeholders, delete_sql, dollars,
    insert_placeholders, insert_sql, is_identifier, sample_placeholders, sample_sql,
    update_placeholders, update_sql, Statement, StatementKind,
};
use crate::value::TypedValue;

verus! {

/// An operation of the catalog, with its arguments.
pub enum Operation {
    QueryData(QueryParams),
    GetSchema(SchemaParams),
    InsertData(InsertParams),
    ListTables,
    DescribeTable(TableNameParams),
    CountRows(CountRowsParams),
    TableExists(TableNameParams),
    ColumnExists(ColumnExistsParams),
    GetTableSample(TableSampleParams),
    UpdateData(UpdateDataParams),
    DeleteData(DeleteDataParams),
    ExecuteRawQuery(ExecuteRawQueryParams),
    GetRelationships(RelationshipsParams),
    GetConnectionStatus,
}

/// The view of a statement: its text, its bound values and its kind.
pub type StatementView = (Seq<char>, Seq<TypedValue>, StatementKind);

/// A statement with a fixed text and no bound value.
pub open spec fn plain(text: Seq<char>) -> StatementView {
    (text, Seq::empty(), StatementKind::RowReturning)
}

/// A statement with a fixed text and one bound text value.
pub open spec fn keyed(text: Seq<char>, key: String) -> StatementView {
    (text, seq![TypedValue::Text(key)], StatementKind::RowReturning)
}

/// The statements an operation runs, in order, or why it is refused.
pub open spec fn plan(op: Operation) -> Result<Seq<StatementView>, ErrorKind> {
    match op {
        Operation::QueryData(p) => Ok(seq![plain(p.query@)]),
        Operation::GetSchema(p) => Ok(
            seq![
                match p.table_name {
                    Some(t) => keyed(SCHEMA_TABLE_SQL@, t),
                    None => plain(SCHEMA_ALL_SQL@),
                },
            ],
        ),
        Operation::InsertData(p) => match insert_refusal(p) {
            Some(k) => Err(k),
            None => Ok(
                seq![
                    (
                        insert_sql(p.table_name@, entries_of(p.data)),
                        bound_values(entries_of(p.data)),
                        StatementKind::RowAffecting,
                    ),
                ],
            ),
        },
        Operation::ListTables => Ok(seq![plain(LIST_TABLES_SQL@)]),
        Operation::DescribeTable(p) => Ok(
            seq![keyed(COLUMNS_SQL@, p.table_name), keyed(INDEXES_SQL@, p.table_name)],
        ),
        Operation::CountRows(p) => match count_refusal(p) {
            Some(k) => Err(k),
            None => Ok(
                seq![
                    (
                        count_sql(p.table_name@, filter_entries(p.where_conditions)),
                        bound_values(filter_entries(p.where_conditions)),
                        StatementKind::RowReturning,
                    ),
                ],
            ),
        },
        Operation::TableExists(p) => Ok(seq![keyed(TABLE_EXISTS_SQL@, p.table_name)]),
        Operation::ColumnExists(p) => Ok(
            seq![
                (
                    COLUMN_EXISTS_SQL@,
                    seq![TypedValue::Text(p.table_name), TypedValue::Text(p.column_name)],
                    StatementKind::RowReturning,
                ),
            ],
        ),
        Operation::GetTableSample(p) => if is_identifier(p.table_name@) {
            Ok(seq![plain(sample_sql(p.table_name@, sample_limit(p.limit) as nat))])
        } else {
            Err(ErrorKind::InvalidParameters)
        },
        Operation::UpdateData(p) => match update_refusal(p) {
            Some(k) => Err(k),
            None => Ok(
                seq![
                    (
                        update_sql(
                            p.table_name@,
                            entries_of(p.values),
                            entries_of(p.where_conditions),
                            change_limit_value(p.limit) as nat,
                        ),
                        bound_values(entries_of(p.values)) + bound_values(
                            entries_of(p.where_conditions),
                        ),
                        StatementKind::RowAffecting,
                    ),
                ],
            ),
        },
        Operation::DeleteData(p) => match delete_refusal(p) {
            Some(k) => Err(k),
            None => Ok(
                seq![
                    (
                        delete_sql(
                            p.table_name@,
                            entries_of(p.where_conditions),
                            change_limit_value(p.limit) as nat,
                        ),
                        bound_values(entries_of(p.where_conditions)),
                        StatementKind::RowAffecting,
                    ),
                ],
            ),
        },
        Operation::ExecuteRawQuery(p) => Ok(
            seq![(p.query@, Seq::<TypedValue>::empty(), raw_kind(p.query@))],
        ),
        Operation::GetRelationships(p) => Ok(
            seq![
                match p.table_name {
                    Some(t) => keyed(RELATIONSHIPS_TABLE_SQL@, t),
                    None => plain(RELATIONSHIPS_ALL_SQL@),
                },
            ],
        ),
        Operation::GetConnectionStatus => Ok(seq![plain(VERSION_SQL@)]),
    }
}

/// Every statement that an operation builds from request values holds
/// exactly one placeholder per bound value: the values travel beside the
/// text, never inside it.
pub proof fn planned_placeholders_match(op: Operation)
    requires
        op is InsertData || op is CountRows || op is UpdateData || op is DeleteData
            || op is GetTableSample,
    ensures
        plan(op) matches Ok(v) ==> forall|i: int|
            0 <= i < v.len() ==> dollars(#[trigger] v[i].0) == v[i].1.len(),
{
    match op {
        Operation::InsertData(p) => {
            if insert_refusal(p) is None {
                insert_placeholders(p.table_name@, entries_of(p.data));
            }
        },
        Operation::CountRows(p) => {
            if count_refusal(p) is None {
                count_placeholders(p.table_name@, filter_entries(p.where_conditions));
            }
        },
        Operation::UpdateData(p) => {
            if update_refusal(p) is None {
                update_placeholders(
                    p.table_name@,
                    entries_of(p.values),
                    entries_of(p.where_conditions),
                    change_limit_value(p.limit) as nat,
                );
            }
        },
        Operation::DeleteData(p) => {
            if delete_refusal(p) is None {
                delete_placeholders(
                    p.table_name@,
                    entries_of(p.where_conditions),
                    change_limit_value(p.limit) as nat,
                );
            }
        },
        Operation::GetTableSample(p) => {
            if is_identifier(p.table_name@) {
                sample_placeholders(p.table_name@, sample_limit(p.limit) as nat);
            }
        },
        _ => {},
    }
}

/// Conditions of a count that are given and are not an object refuse the
/// operation as invalid parameters, and no statement is planned for it.
pub proof fn count_refuses_non_object_conditions(p: CountRowsParams)
    requires
        p.where_conditions matches Some(w) && !(w is Object),
    ensures
        plan(Operation::CountRows(p)) == Err::<Seq<StatementView>, ErrorKind>(
            ErrorKind::InvalidParameters,
        ),
{
}

/// The views of a list of statements.
pub open spec fn statement_views(v: Seq<Statement>) -> Seq<StatementView> {
    Seq::new(v.len(), |i: int| v[i]@)
}

/// The result set that answered statement `i`, if it returned rows.
pub open spec fn rows_at(outs: Seq<ExecutionOutcome>, i: int) -> Option<ResultSet> {
    if 0 <= i < outs.len() {
        match outs[i] {
            ExecutionOutcome::RowsReturned(rs) => Some(rs),
            ExecutionOutcome::RowsAffected(_) => None,
        }
    } else {
        None
    }
}

/// How many rows statement `i` changed, if it reported a count.
pub open spec fn affected_at(outs: Seq<ExecutionOutcome>, i: int) -> Option<u64> {
    if 0 <= i < outs.len() {
        match outs[i] {
            ExecutionOutcome::RowsReturned(_) => None,
            ExecutionOutcome::RowsAffected(n) => Some(n),
        }
    } else {
        None
    }
}

/// The database answered in a shape the operation cannot use.
pub open spec fn unusable(r: Result<Reply, ToolError>) -> bool {
    r matches Err(e) && e.kind == ErrorKind::QueryExecutionError && e.message@
        == UNEXPECTED_SHAPE@
}

/// The message of a reply that the outcomes cannot give.
pub const UNEXPECTED_SHAPE: &'static str = "the database answered in an unexpected shape";

/// The reply of an operation to the outcomes of its statements, on a server
/// made with connection string `config`.
pub open spec fn answers(config: Seq<char>, op: Operation, outs: Seq<ExecutionOutcome>, r: Result<Reply, ToolError>) -> bool {
    match op {
        Operation::QueryData(_) => match rows_at(outs, 0) {
            Some(rs) => (r matches Ok(Reply::QueryRows { rows, row_count }) && marshalled(rows@, rs)
                && row_count == rs.rows@.len()),
            None => unusable(r),
        },
        Operation::GetSchema(_) => match rows_at(outs, 0) {
            Some(rs) => (r matches Ok(Reply::Records(rows)) && marshalled(rows@, rs)),
            None => unusable(r),
        },
        Operation::GetRelationships(_) => match rows_at(outs, 0) {
            Some(rs) => (r matches Ok(Reply::Records(rows)) && marshalled(rows@, rs)),
            None => unusable(r),
        },
        Operation::InsertData(p) => match affected_at(outs, 0) {
            Some(_) => (r matches Ok(Reply::Message(m)) && m@ == "Successfully inserted into "@
                + p.table_name@),
            None => unusable(r),
        },
        Operation::ListTables => match rows_at(outs, 0) {
            Some(rs) => if rs.columns@.len() > 0 {
                (r matches Ok(Reply::Names(v)) && v@ == first_column(rs))
            } else {
                unusable(r)
            },
            None => unusable(r),
        },
        Operation::DescribeTable(p) => match (rows_at(outs, 0), rows_at(outs, 1)) {
            (Some(a), Some(b)) => (r matches Ok(Reply::Description { table_name, columns, indexes })
                && table_name == p.table_name && marshalled(columns@, a) && marshalled(indexes@, b)),
            _ => unusable(r),
        },
        Operation::CountRows(p) => match rows_at(outs, 0) {
            Some(rs) => match first_cell(rs) {
                Some(TypedValue::Integer(c)) => (r matches Ok(Reply::Count { table_name, count })
                    && table_name == p.table_name && count == c),
                _ => unusable(r),
            },
            None => unusable(r),
        },
        Operation::TableExists(p) => match rows_at(outs, 0) {
            Some(rs) => match first_cell(rs) {
                Some(TypedValue::Boolean(b)) => (r matches Ok(Reply::TableExists { table_name, exists })
                    && table_name == p.table_name && exists == b),
                _ => unusable(r),
            },
            None => unusable(r),
        },
        Operation::ColumnExists(p) => match rows_at(outs, 0) {
            Some(rs) => match first_cell(rs) {
                Some(TypedValue::Boolean(b)) => (r matches Ok(
                    Reply::ColumnExists { table_name, column_name, exists },
                ) && table_name == p.table_name && column_name == p.column_name && exists == b),
                _ => unusable(r),
            },
            None => unusable(r),
        },
        Operation::GetTableSample(p) => match rows_at(outs, 0) {
            Some(rs) => (r matches Ok(Reply::Sample { table_name, rows, row_count })
                && table_name == p.table_name && marshalled(rows@, rs) && row_count == rs.rows@.len()),
            None => unusable(r),
        },
        Operation::UpdateData(p) => match affected_at(outs, 0) {
            Some(n) => (r matches Ok(Reply::Affected { table_name, rows_affected })
                && table_name == p.table_name && rows_affected == n),
            None => unusable(r),
        },
        Operation::DeleteData(p) => match affected_at(outs, 0) {
            Some(n) => (r matches Ok(Reply::Affected { table_name, rows_affected })
                && table_name == p.table_name && rows_affected == n),
            None => unusable(r),
        },
        Operation::ExecuteRawQuery(_) => match (rows_at(outs, 0), affected_at(outs, 0)) {
            (Some(rs), _) => (r matches Ok(Reply::RawRows { rows, row_count }) && marshalled(rows@, rs)
                && row_count == rs.rows@.len()),
            (None, Some(n)) => (r matches Ok(Reply::RawAffected { rows_affected })
                && rows_affected == n),
            (None, None) => unusable(r),
        },
        Operation::GetConnectionStatus => match rows_at(outs, 0) {
            Some(rs) => match first_cell(rs) {
                Some(TypedValue::Text(v)) => (r matches Ok(
                    Reply::Status { database, user, host, version },
                ) && (database@, user@, host@) == status_fields(config) && version == v),
                _ => unusable(r),
            },
            None => unusable(r),
        },
    }
}

fn unexpected() -> (r: ToolError)
    ensures
        r.kind == ErrorKind::QueryExecutionError,
        r.message@ == UNEXPECTED_SHAPE@,
{
    ToolError::new(ErrorKind::QueryExecutionError, UNEXPECTED_SHAPE)
}

/// The result set that answered statement `i`, if it returned rows.
fn rows_of(outs: &Vec<ExecutionOutcome>, i: usize) -> (r: Option<&ResultSet>)
    ensures
        match r {
            Some(rs) => rows_at(outs@, i as int) == Some(*rs),
            None => rows_at(outs@, i as int) is None,
        },
{
    if i < outs.len() {
        match &outs[i] {
            ExecutionOutcome::RowsReturned(rs) => Some(rs),
            ExecutionOutcome::RowsAffected(_) => None,
        }
    } else {
        None
    }
}

/// How many rows statement `i` changed, if it reported a count.
fn affected_of(outs: &Vec<ExecutionOutcome>, i: usize) -> (r: Option<u64>)
    ensures
        r == affected_at(outs@, i as int),
{
    if i < outs.len() {
        match &outs[i] {
            ExecutionOutcome::RowsReturned(_) => None,
            ExecutionOutcome::RowsAffected(n) => Some(*n),
        }
    } else {
        None
    }
}

fn one(s: Statement) -> (r: Vec<Statement>)
    ensures
        statement_views(r@) == seq![s@],
{
    let mut r: Vec<Statement> = Vec::new();
    r.push(s);
    assert(statement_views(r@) =~= seq![s@]);
    r
}

impl PostgresServer {
    /// The statements that an operation runs, in order; a refused operation
    /// builds none.
    pub fn statements(&self, op: &Operation) -> (r: Result<Vec<Statement>, ToolError>)
        ensures
            match r {
                Ok(v) => plan(*op) == Ok::<Seq<StatementView>, ErrorKind>(statement_views(v@)),
                Err(e) => plan(*op) == Err::<Seq<StatementView>, ErrorKind>(e.kind),
            },
    {
        match op {
            Operation::QueryData(p) => Ok(one(self.query_data(p))),
            Operation::GetSchema(p) => Ok(one(self.get_schema(p))),
            Operation::InsertData(p) => match self.insert_data(p) {
                Ok(s) => Ok(one(s)),
                Err(e) => Err(e),
            },
            Operation::ListTables => Ok(one(self.list_tables())),
            Operation::DescribeTable(p) => {
                let v = self.describe_table(p);
                assert(statement_views(v@) =~= seq![v@[0]@, v@[1]@]);
                Ok(v)
            },
            Operation::CountRows(p) => match self.count_rows(p) {
                Ok(s) => Ok(one(s)),
                Err(e) => Err(e),
            },
            Operation::TableExists(p) => Ok(one(self.table_exists(p))),
            Operation::ColumnExists(p) => Ok(one(self.column_exists(p))),
            Operation::GetTableSample(p) => match self.get_table_sample(p) {
                Ok(s) => Ok(one(s)),
                Err(e) => Err(e),
            },
            Operation::UpdateData(p) => match self.update_data(p) {
                Ok(s) => Ok(one(s)),
                Err(e) => Err(e),
            },
            Operation::DeleteData(p) => match self.delete_data(p) {
                Ok(s) => Ok(one(s)),
                Err(e) => Err(e),
            },
            Operation::ExecuteRawQuery(p) => Ok(one(self.execute_raw_query(p))),
            Operation::GetRelationships(p) => Ok(one(self.get_relationships(p))),
            Operation::GetConnectionStatus => Ok(one(self.get_connection_status())),
        }
    }

    /// The reply of an operation, from the outcomes of its statements in
    /// order; an outcome of the wrong shape fails the invocation.
    pub fn respond(&self, op: &Operation, outcomes: &Vec<ExecutionOutcome>) -> (r: Result<Reply, ToolError>)
        ensures
            answers(self.config(), *op, outcomes@, r),
    {
        match op {
            Operation::QueryData(_) => match rows_of(outcomes, 0) {
                Some(rs) => {
                    let rows = marshal(rs);
                    let row_count = rows.len();
                    Ok(Reply::QueryRows { rows, row_count })
                },
                None => Err(unexpected()),
            },
            Operation::GetSchema(_) | Operation::GetRelationships(_) => match rows_of(outcomes, 0) {
                Some(rs) => Ok(Reply::Records(marshal(rs))),
                None => Err(unexpected()),
            },
            Operation::InsertData(p) => match affected_of(outcomes, 0) {
                Some(_) => {
                    let mut m = String::from_str("Successfully inserted into ");
                    m.append(p.table_name.as_str());
                    Ok(Reply::Message(m))
                },
                None => Err(unexpected()),
            },
            Operation::ListTables => match rows_of(outcomes, 0) {
                Some(rs) => if rs.columns.len() > 0 {
                    Ok(Reply::Names(first_column_values(rs)))
                } else {
                    Err(unexpected())
                },
                None => Err(unexpected()),
            },
            Operation::DescribeTable(p) => match (rows_of(outcomes, 0), rows_of(outcomes, 1)) {
                (Some(a), Some(b)) => Ok(
                    Reply::Description {
                        table_name: p.table_name.clone(),
                        columns: marshal(a),
                        indexes: marshal(b),
                    },
                ),
                _ => Err(unexpected()),
            },
            Operation::CountRows(p) => match rows_of(outcomes, 0) {
                Some(rs) => match first_cell_of(rs) {
                    Some(TypedValue::Integer(c)) => Ok(
                        Reply::Count { table_name: p.table_name.clone(), count: c },
                    ),
                    _ => Err(unexpected()),
                },
                None => Err(unexpected()),
            },
            Operation::TableExists(p) => match rows_of(outcomes, 0) {
                Some(rs) => match first_cell_of(rs) {
                    Some(TypedValue::Boolean(b)) => Ok(
                        Reply::TableExists { table_name: p.table_name.clone(), exists: b },
                    ),
                    _ => Err(unexpected()),
                },
                None => Err(unexpected()),
            },
            Operation::ColumnExists(p) => match rows_of(outcomes, 0) {
                Some(rs) => match first_cell_of(rs) {
                    Some(TypedValue::Boolean(b)) => Ok(
                        Reply::ColumnExists {
                            table_name: p.table_name.clone(),
                            column_name: p.column_name.clone(),
                            exists: b,
                        },
                    ),
                    _ => Err(unexpected()),
                },
                None => Err(unexpected()),
            },
            Operation::GetTableSample(p) => match rows_of(outcomes, 0) {
                Some(rs) => {
                    let rows = marshal(rs);
                    let row_count = rows.len();
                    Ok(Reply::Sample { table_name: p.table_name.clone(), rows, row_count })
                },
                None => Err(unexpected()),
            },
            Operation::UpdateData(p) => match affected_of(outcomes, 0) {
                Some(n) => Ok(Reply::Affected { table_name: p.table_name.clone(), rows_affected: n }),
                None => Err(unexpected()),
            },
            Operation::DeleteData(p) => match affected_of(outcomes, 0) {
                Some(n) => Ok(Reply::Affected { table_name: p.table_name.clone(), rows_affected: n }),
                None => Err(unexpected()),
            },
            Operation::ExecuteRawQuery(_) => match rows_of(outcomes, 0) {
                Some(rs) => {
                    let rows = marshal(rs);
                    let row_count = rows.len();
                    Ok(Reply::RawRows { rows, row_count })
                },
                None => match affected_of(outcomes, 0) {
                    Some(n) => Ok(Reply::RawAffected { rows_affected: n }),
                    None => Err(unexpected()),
                },
            },
            Operation::GetConnectionStatus => match rows_of(outcomes, 0) {
                Some(rs) => match first_cell_of(rs) {
                    Some(TypedValue::Text(v)) => {
                        let config = self.connection_string();
                        Ok(
                            Reply::Status {
                                database: config_setting(config, "dbname=", "unknown"),
                                user: config_setting(config, "user=", "unknown"),
                                host: config_setting(config, "host=", "localhost"),
                                version: v,
                            },
                        )
                    },
                    _ => Err(unexpected()),
                },
                None => Err(unexpected()),
            },
        }
    }
}

} // verus!
