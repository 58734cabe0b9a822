//! What the database answers, and what an operation replies: result sets
//! marshalled into ordered records that keep each column's kind.

use vstd::prelude::*;
use crate::value::{column_json, from_column, ColumnFamily, JsonValue, TypedValue};

verus! {

/// One row as a record: column names and values, in column order.
pub type Record = Vec<(String, JsonValue)>;

/// A column of a result set.
pub struct Column {
    pub name: String,
    pub family: ColumnFamily,
}

/// Rows as read: in each, what could be read of each column (`None` for
/// SQL NULL or a value that could not be read).
pub struct ResultSet {
    pub columns: Vec<Column>,
    pub rows: Vec<Vec<Option<TypedValue>>>,
}

/// How the database answered one statement.
pub enum ExecutionOutcome {
    RowsReturned(ResultSet),
    RowsAffected(u64),
}

/// What an operation replies.
pub enum Reply {
    /// Rows of a query, with how many there are.
    QueryRows { rows: Vec<Record>, row_count: usize },
    /// Rows of an introspection query.
    Records(Vec<Record>),
    /// A confirmation for people.
    Message(String),
    /// One value per row: the table names.
    Names(Vec<JsonValue>),
    /// The columns and indexes of a table.
    Description { table_name: String, columns: Vec<Record>, indexes: Vec<Record> },
    /// How many rows match.
    Count { table_name: String, count: i64 },
    TableExists { table_name: String, exists: bool },
    ColumnExists { table_name: String, column_name: String, exists: bool },
    /// A few rows of a table.
    Sample { table_name: String, rows: Vec<Record>, row_count: usize },
    /// How many rows an update or a delete changed.
    Affected { table_name: String, rows_affected: u64 },
    /// Rows of a raw query.
    RawRows { rows: Vec<Record>, row_count: usize },
    /// How many rows a raw statement changed.
    RawAffected { rows_affected: u64 },
    /// Where the server is connected; the connection works.
    Status { database: String, user: String, host: String, version: String },
}

/// What was read of column `i` of a row; nothing past its end.
pub open spec fn cell_at(row: Seq<Option<TypedValue>>, i: int) -> Option<TypedValue> {
    if 0 <= i < row.len() {
        row[i]
    } else {
        None
    }
}

/// The record of a row: one entry per column, in column order.
pub open spec fn record_of(columns: Seq<Column>, row: Seq<Option<TypedValue>>) -> Seq<(String, JsonValue)> {
    Seq::new(columns.len(), |i: int| (columns[i].name, column_json(columns[i].family, cell_at(row, i))))
}

/// `recs` holds the record of each row of `rs`, in order.
pub open spec fn marshalled(recs: Seq<Record>, rs: ResultSet) -> bool {
    recs.len() == rs.rows@.len() && forall|i: int|
        0 <= i < recs.len() ==> (#[trigger] recs[i])@ == record_of(rs.columns@, rs.rows@[i]@)
}

fn copy_cell(c: &Option<TypedValue>) -> (r: Option<TypedValue>)
    ensures
        r == *c,
{
    match c {
        Some(v) => Some(v.duplicate()),
        None => None,
    }
}

/// The record of one row.
pub fn marshal_row(columns: &Vec<Column>, row: &Vec<Option<TypedValue>>) -> (r: Record)
    ensures
        r@ == record_of(columns@, row@),
{
    let mut r: Record = Vec::new();
    let mut i: usize = 0;
    while i < columns.len()
        invariant
            i <= columns.len(),
            r@ == record_of(columns@, row@).take(i as int),
        decreases columns.len() - i,
    {
        let raw = if i < row.len() {
            copy_cell(&row[i])
        } else {
            None
        };
        let value = from_column(columns[i].family, &raw);
        r.push((columns[i].name.clone(), value));
        assert(r@ =~= record_of(columns@, row@).take(i + 1));
        i = i + 1;
    }
    assert(record_of(columns@, row@).take(columns.len() as int) =~= record_of(columns@, row@));
    r
}

/// The records of all rows of a result set, in order; no row is dropped.
pub fn marshal(rs: &ResultSet) -> (r: Vec<Record>)
    ensures
        marshalled(r@, *rs),
{
    let mut r: Vec<Record> = Vec::new();
    let mut i: usize = 0;
    while i < rs.rows.len()
        invariant
            i <= rs.rows.len(),
            r@.len() == i,
            forall|k: int| 0 <= k < i ==> (#[trigger] r@[k])@ == record_of(rs.columns@, rs.rows@[k]@),
        decreases rs.rows.len() - i,
    {
        r.push(marshal_row(&rs.columns, &rs.rows[i]));
        i = i + 1;
    }
    r
}

/// The first column of each row, as loosely typed values.
pub open spec fn first_column(rs: ResultSet) -> Seq<JsonValue> {
    Seq::new(
        rs.rows@.len(),
        |i: int| column_json(rs.columns@[0].family, cell_at(rs.rows@[i]@, 0)),
    )
}

/// The first column of each row of a result set with at least one column.
pub fn first_column_values(rs: &ResultSet) -> (r: Vec<JsonValue>)
    requires
        rs.columns@.len() > 0,
    ensures
        r@ == first_column(*rs),
{
    let mut r: Vec<JsonValue> = Vec::new();
    let mut i: usize = 0;
    while i < rs.rows.len()
        invariant
            i <= rs.rows.len(),
            rs.columns@.len() > 0,
            r@ == first_column(*rs).take(i as int),
        decreases rs.rows.len() - i,
    {
        let raw = if rs.rows[i].len() > 0 {
            copy_cell(&rs.rows[i][0])
        } else {
            None
        };
        r.push(from_column(rs.columns[0].family, &raw));
        assert(r@ =~= first_column(*rs).take(i + 1));
        i = i + 1;
    }
    assert(first_column(*rs).take(rs.rows.len() as int) =~= first_column(*rs));
    r
}

/// What was read of the first column of the first row, if anything.
pub open spec fn first_cell(rs: ResultSet) -> Option<TypedValue> {
    if rs.rows@.len() > 0 {
        cell_at(rs.rows@[0]@, 0)
    } else {
        None
    }
}

/// What was read of the first column of the first row, if anything.
pub fn first_cell_of(rs: &ResultSet) -> (r: Option<TypedValue>)
    ensures
        r == first_cell(*rs),
{
    if rs.rows.len() > 0 && rs.rows[0].len() > 0 {
        copy_cell(&rs.rows[0][0])
    } else {
        None
    }
}

} // verus!
