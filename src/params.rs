//! The typed parameters of each operation, as the transport decodes them.

use vstd::prelude::*;
use crate::value::JsonValue;

verus! {

/// Arguments of `query_data`.
pub struct QueryParams {
    /// The SELECT query to run.
    pub query: String,
}

/// Arguments of `get_schema`.
pub struct SchemaParams {
    /// Restricts the schema to one table.
    pub table_name: Option<String>,
}

/// Arguments of `insert_data`.
pub struct InsertParams {
    pub table_name: String,
    /// The row, as an object from column names to values.
    pub data: JsonValue,
}

/// Arguments of the operations on one table.
pub struct TableNameParams {
    pub table_name: String,
}

/// Arguments of `count_rows`.
pub struct CountRowsParams {
    pub table_name: String,
    /// An object from column names to the values they must equal.
    pub where_conditions: Option<JsonValue>,
}

/// Arguments of `column_exists`.
pub struct ColumnExistsParams {
    pub table_name: String,
    pub column_name: String,
}

/// Arguments of `get_table_sample`.
pub struct TableSampleParams {
    pub table_name: String,
    /// Number of rows wanted; 10 by default, at most 100.
    pub limit: Option<i32>,
}

/// Arguments of `update_data`.
pub struct UpdateDataParams {
    pub table_name: String,
    /// An object from column names to their new values.
    pub values: JsonValue,
    /// An object from column names to the values they must equal.
    pub where_conditions: JsonValue,
    /// Most rows to change; 1000 by default.
    pub limit: Option<i32>,
}

/// Arguments of `delete_data`.
pub struct DeleteDataParams {
    pub table_name: String,
    /// An object from column names to the values they must equal.
    pub where_conditions: JsonValue,
    /// Most rows to delete; 1000 by default.
    pub limit: Option<i32>,
}

/// Arguments of `execute_raw_query`.
pub struct ExecuteRawQueryParams {
    pub query: String,
    /// Accepted, and not bound: the query runs as written.
    pub params: Option<Vec<JsonValue>>,
}

/// Arguments of `get_relationships`.
pub struct RelationshipsParams {
    /// Restricts the relationships to those of one table.
    pub table_name: Option<String>,
}

} // verus!
