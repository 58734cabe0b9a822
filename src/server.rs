//! The server's operations: each one checks its arguments and builds the
//! statements to run.

use vstd::prelude::*;
use crate::error::{ErrorKind, ToolError};
use crate::params::{
    ColumnExistsParams, CountRowsParams, DeleteDataParams, ExecuteRawQueryParams, InsertParams,
    QueryParams, RelationshipsParams, SchemaParams, TableNameParams, TableSampleParams,
    UpdateDataParams,
};
use crate::sql::{
    all_bindable, bound_values, build_count, build_delete, build_insert, build_sample,
    build_update, check_identifier, check_keys, count_sql, delete_sql, insert_sql, is_identifier,
    check_bindable, keys_are_identifiers, sample_sql, update_sql, Entries, Statement,
    StatementKind,
};
use crate::text::{is_white, white};
use crate::value::{JsonValue, TypedValue};

verus! {

/// Most values that one statement may bind.
pub const MAX_BOUND_VALUES: usize = 65535;

/// Rows that `get_table_sample` returns when no usable limit is given.
pub const DEFAULT_SAMPLE_LIMIT: u64 = 10;

/// Most rows that `get_table_sample` returns.
pub const MAX_SAMPLE_LIMIT: u64 = 100;

/// Most rows that an update or a delete touches when no limit is given.
pub const DEFAULT_CHANGE_LIMIT: u64 = 1000;

/// The columns of every public table.
pub const SCHEMA_ALL_SQL: &'static str = "SELECT table_name::text AS table_name, column_name::text AS column_name, data_type::text AS data_type, is_nullable::text AS is_nullable FROM information_schema.columns WHERE table_schema = 'public' ORDER BY table_name, ordinal_position";

/// The columns of the table bound to `$1`.
pub const SCHEMA_TABLE_SQL: &'static str = "SELECT table_name::text AS table_name, column_name::text AS column_name, data_type::text AS data_type, is_nullable::text AS is_nullable FROM information_schema.columns WHERE table_name = $1 ORDER BY ordinal_position";

/// The names of the public tables.
pub const LIST_TABLES_SQL: &'static str = "SELECT tablename::text AS tablename FROM pg_tables WHERE schemaname = 'public' ORDER BY tablename";

/// The columns of the public table bound to `$1`, with their defaults.
pub const COLUMNS_SQL: &'static str = "SELECT column_name::text AS column_name, data_type::text AS data_type, is_nullable::text AS is_nullable, column_default::text AS column_default FROM information_schema.columns WHERE table_schema = 'public' AND table_name = $1 ORDER BY ordinal_position";

/// The indexes of the public table bound to `$1`.
pub const INDEXES_SQL: &'static str = "SELECT indexname::text AS index_name, indexdef AS definition FROM pg_indexes WHERE schemaname = 'public' AND tablename = $1";

/// Whether the public table bound to `$1` exists.
pub const TABLE_EXISTS_SQL: &'static str = "SELECT EXISTS (SELECT 1 FROM pg_tables WHERE schemaname = 'public' AND tablename = $1) AS exists";

/// Whether the public table bound to `$1` has the column bound to `$2`.
pub const COLUMN_EXISTS_SQL: &'static str = "SELECT EXISTS (SELECT 1 FROM information_schema.columns WHERE table_schema = 'public' AND table_name = $1 AND column_name = $2) AS exists";

/// The foreign keys of the public tables.
pub const RELATIONSHIPS_ALL_SQL: &'static str = "SELECT tc.table_name::text AS table_name, kcu.column_name::text AS column_name, ccu.table_name::text AS foreign_table_name, ccu.column_name::text AS foreign_column_name FROM information_schema.table_constraints AS tc JOIN information_schema.key_column_usage AS kcu ON tc.constraint_name = kcu.constraint_name AND tc.table_schema = kcu.table_schema JOIN information_schema.constraint_column_usage AS ccu ON ccu.constraint_name = tc.constraint_name AND ccu.table_schema = tc.table_schema WHERE tc.constraint_type = 'FOREIGN KEY' AND tc.table_schema = 'public'";

/// The foreign keys of the public table bound to `$1`.
pub const RELATIONSHIPS_TABLE_SQL: &'static str = "SELECT tc.table_name::text AS table_name, kcu.column_name::text AS column_name, ccu.table_name::text AS foreign_table_name, ccu.column_name::text AS foreign_column_name FROM information_schema.table_constraints AS tc JOIN information_schema.key_column_usage AS kcu ON tc.constraint_name = kcu.constraint_name AND tc.table_schema = kcu.table_schema JOIN information_schema.constraint_column_usage AS ccu ON ccu.constraint_name = tc.constraint_name AND ccu.table_schema = tc.table_schema WHERE tc.constraint_type = 'FOREIGN KEY' AND tc.table_schema = 'public' AND tc.table_name = $1";

/// The server's version string.
pub const VERSION_SQL: &'static str = "SELECT version() AS version";

/// A statement with a fixed text.
fn fixed(text: &str, params: Vec<TypedValue>, kind: StatementKind) -> (r: Statement)
    ensures
        r.text@ == text@,
        r.params == params,
        r.kind == kind,
{
    Statement { text: String::from_str(text), params, kind }
}

/// The single bound text value `s`.
fn text_param(s: &String) -> (r: Vec<TypedValue>)
    ensures
        r@ == seq![TypedValue::Text(*s)],
{
    let mut r: Vec<TypedValue> = Vec::new();
    r.push(TypedValue::Text(s.clone()));
    r
}

/// The row limit of a sample: the request's when it lies in 1..=100, 100
/// above that, and 10 when absent, zero or negative.
pub open spec fn sample_limit(limit: Option<i32>) -> u64 {
    match limit {
        None => DEFAULT_SAMPLE_LIMIT,
        Some(n) => if n < 1 {
            DEFAULT_SAMPLE_LIMIT
        } else if n > MAX_SAMPLE_LIMIT {
            MAX_SAMPLE_LIMIT
        } else {
            n as u64
        },
    }
}

/// The row limit of a sample, clamped to `1..=100`.
pub fn clamp_sample_limit(limit: Option<i32>) -> (r: u64)
    ensures
        r == sample_limit(limit),
        1 <= r <= MAX_SAMPLE_LIMIT,
        limit is None ==> r == DEFAULT_SAMPLE_LIMIT,
{
    match limit {
        None => DEFAULT_SAMPLE_LIMIT,
        Some(n) => if n < 1 {
            DEFAULT_SAMPLE_LIMIT
        } else if n as u64 > MAX_SAMPLE_LIMIT {
            MAX_SAMPLE_LIMIT
        } else {
            n as u64
        },
    }
}

/// The row limit of an update or a delete; `None` for a negative request.
pub open spec fn change_limit(limit: Option<i32>) -> Option<u64> {
    match limit {
        None => Some(DEFAULT_CHANGE_LIMIT),
        Some(n) => if n < 0 {
            None
        } else {
            Some(n as u64)
        },
    }
}

/// The row limit of an update or a delete: 1000 when absent; a negative
/// request is refused.
pub fn resolve_change_limit(limit: Option<i32>) -> (r: Result<u64, ToolError>)
    ensures
        match r {
            Ok(n) => change_limit(limit) == Some(n),
            Err(e) => change_limit(limit) is None && e.kind == ErrorKind::InvalidParameters,
        },
{
    match limit {
        None => Ok(DEFAULT_CHANGE_LIMIT),
        Some(n) => if n < 0 {
            Err(ToolError::new(ErrorKind::InvalidParameters, "limit must not be negative"))
        } else {
            Ok(n as u64)
        },
    }
}

/// The entries of an object value.
pub open spec fn object_entries(v: JsonValue) -> Option<Seq<(String, JsonValue)>> {
    match v {
        JsonValue::Object(es) => Some(es@),
        _ => None,
    }
}

/// Why an insert is refused, if it is.
pub open spec fn insert_refusal(p: InsertParams) -> Option<ErrorKind> {
    match object_entries(p.data) {
        None => Some(ErrorKind::InvalidParameters),
        Some(es) => if es.len() == 0 || es.len() > MAX_BOUND_VALUES || !is_identifier(p.table_name@)
            || !keys_are_identifiers(es) {
            Some(ErrorKind::InvalidParameters)
        } else if !all_bindable(es) {
            Some(ErrorKind::ValueShapeError)
        } else {
            None
        },
    }
}

/// Why a count is refused, if it is.
pub open spec fn count_refusal(p: CountRowsParams) -> Option<ErrorKind> {
    let filter = match p.where_conditions {
        None => Some(Seq::<(String, JsonValue)>::empty()),
        Some(w) => object_entries(w),
    };
    match filter {
        None => Some(ErrorKind::InvalidParameters),
        Some(es) => if es.len() > MAX_BOUND_VALUES || !is_identifier(p.table_name@)
            || !keys_are_identifiers(es) {
            Some(ErrorKind::InvalidParameters)
        } else if !all_bindable(es) {
            Some(ErrorKind::ValueShapeError)
        } else {
            None
        },
    }
}

/// Why an update is refused, if it is.
pub open spec fn update_refusal(p: UpdateDataParams) -> Option<ErrorKind> {
    match (object_entries(p.values), object_entries(p.where_conditions)) {
        (Some(vs), Some(ws)) => if vs.len() == 0 || vs.len() + ws.len() > MAX_BOUND_VALUES
            || change_limit(p.limit) is None || !is_identifier(p.table_name@)
            || !keys_are_identifiers(vs) || !keys_are_identifiers(ws) {
            Some(ErrorKind::InvalidParameters)
        } else if !all_bindable(vs) || !all_bindable(ws) {
            Some(ErrorKind::ValueShapeError)
        } else {
            None
        },
        _ => Some(ErrorKind::InvalidParameters),
    }
}

/// Why a delete is refused, if it is.
pub open spec fn delete_refusal(p: DeleteDataParams) -> Option<ErrorKind> {
    match object_entries(p.where_conditions) {
        Some(ws) => if ws.len() > MAX_BOUND_VALUES || change_limit(p.limit) is None
            || !is_identifier(p.table_name@) || !keys_are_identifiers(ws) {
            Some(ErrorKind::InvalidParameters)
        } else if !all_bindable(ws) {
            Some(ErrorKind::ValueShapeError)
        } else {
            None
        },
        None => Some(ErrorKind::InvalidParameters),
    }
}

/// A character that the leading whitespace of a query may hold.
pub open spec fn is_space(c: char) -> bool {
    is_white(c)
}

/// The index of the first character of `s` at or after `i` that is not
/// whitespace.
pub open spec fn skip_spaces(s: Seq<char>, i: int) -> int
    decreases s.len() - i,
{
    if 0 <= i < s.len() && is_space(s[i]) {
        skip_spaces(s, i + 1)
    } else {
        i
    }
}

/// `s` holds the keyword SELECT, in any casing, at index `i`.
pub open spec fn select_at(s: Seq<char>, i: int) -> bool {
    0 <= i && i + 6 <= s.len() && (s[i] == 'S' || s[i] == 's') && (s[i + 1] == 'E' || s[i + 1]
        == 'e') && (s[i + 2] == 'L' || s[i + 2] == 'l') && (s[i + 3] == 'E' || s[i + 3] == 'e')
        && (s[i + 4] == 'C' || s[i + 4] == 'c') && (s[i + 5] == 'T' || s[i + 5] == 't')
}

/// How a raw query is run: its leading keyword, after whitespace and in any
/// casing, is SELECT for a row-returning one.
pub open spec fn raw_kind(q: Seq<char>) -> StatementKind {
    if select_at(q, skip_spaces(q, 0)) {
        StatementKind::RowReturning
    } else {
        StatementKind::RowAffecting
    }
}

proof fn lemma_skip_leading(s: Seq<char>, n: int, i: int)
    requires
        0 <= i <= n < s.len(),
        forall|j: int| i <= j < n ==> is_space(#[trigger] s[j]),
        !is_space(s[n]),
    ensures
        skip_spaces(s, i) == n,
    decreases n - i,
{
    if i < n {
        lemma_skip_leading(s, n, i + 1);
    }
}

/// A raw query whose first word, after any leading whitespace, is SELECT in
/// any casing is run as a row-returning statement.
pub proof fn raw_select_returns_rows(space: Seq<char>, rest: Seq<char>)
    requires
        forall|i: int| 0 <= i < space.len() ==> is_space(#[trigger] space[i]),
        select_at(rest, 0),
    ensures
        raw_kind(space + rest) == StatementKind::RowReturning,
{
    let s = space + rest;
    assert forall|j: int| 0 <= j < space.len() implies is_space(#[trigger] s[j]) by {
        assert(s[j] == space[j]);
    }
    assert(s[space.len() as int] == rest[0]);
    lemma_skip_leading(s, space.len() as int, 0);
    assert(select_at(s, space.len() as int)) by {
        assert forall|k: int| 0 <= k < 6 implies s[space.len() + k] == rest[k] by {}
    }
}

/// Whether `c` is leading whitespace.
fn is_space_char(c: char) -> (r: bool)
    ensures
        r == is_space(c),
{
    white(c)
}

/// Whether `c` is `upper` or `lower`.
fn either(c: char, upper: char, lower: char) -> (r: bool)
    ensures
        r == (c == upper || c == lower),
{
    c == upper || c == lower
}

/// Classifies a raw query by its leading keyword.
pub fn classify_query(q: &str) -> (r: StatementKind)
    ensures
        r == raw_kind(q@),
{
    let n = q.unicode_len();
    let mut i: usize = 0;
    while i < n && is_space_char(q.get_char(i))
        invariant
            n == q@.len(),
            i <= n,
            skip_spaces(q@, 0) == skip_spaces(q@, i as int),
        decreases n - i,
    {
        i = i + 1;
    }
    if n - i >= 6 && either(q.get_char(i), 'S', 's') && either(q.get_char(i + 1), 'E', 'e')
        && either(q.get_char(i + 2), 'L', 'l') && either(q.get_char(i + 3), 'E', 'e') && either(
        q.get_char(i + 4),
        'C',
        'c',
    ) && either(q.get_char(i + 5), 'T', 't') {
        StatementKind::RowReturning
    } else {
        StatementKind::RowAffecting
    }
}

} // verus!

verus! {

/// The entries of a filter that may be absent; none when it is absent or
/// not an object.
pub open spec fn filter_entries(w: Option<JsonValue>) -> Seq<(String, JsonValue)> {
    match w {
        Some(JsonValue::Object(es)) => es@,
        _ => Seq::empty(),
    }
}

/// The entries of an object value; none for another value.
pub open spec fn entries_of(v: JsonValue) -> Seq<(String, JsonValue)> {
    match v {
        JsonValue::Object(es) => es@,
        _ => Seq::empty(),
    }
}

/// The row limit of an update or a delete that was not refused.
pub open spec fn change_limit_value(limit: Option<i32>) -> u64 {
    match change_limit(limit) {
        Some(n) => n,
        None => 0,
    }
}

fn invalid(message: &str) -> (r: ToolError)
    ensures
        r.kind == ErrorKind::InvalidParameters,
{
    ToolError::new(ErrorKind::InvalidParameters, message)
}

fn unbindable() -> (r: ToolError)
    ensures
        r.kind == ErrorKind::ValueShapeError,
{
    ToolError::new(ErrorKind::ValueShapeError, "a value cannot be bound as a parameter")
}

/// A tool server over one PostgreSQL database.
pub struct PostgresServer {
    db_config: String,
}

impl PostgresServer {
    /// The connection string the server was made with.
    pub closed spec fn config(&self) -> Seq<char> {
        self.db_config@
    }

    /// A server for the database that `db_config` designates, as
    /// space-separated `key=value` pairs.
    pub fn new(db_config: String) -> (r: PostgresServer)
        ensures
            r.config() == db_config@,
    {
        PostgresServer { db_config }
    }

    /// The connection string the server was made with.
    pub fn connection_string(&self) -> (r: &str)
        ensures
            r@ == self.config(),
    {
        self.db_config.as_str()
    }

    /// Runs a SELECT query as written.
    pub fn query_data(&self, params: &QueryParams) -> (r: Statement)
        ensures
            r@ == (params.query@, Seq::<TypedValue>::empty(), StatementKind::RowReturning),
    {
        let s = fixed(params.query.as_str(), Vec::new(), StatementKind::RowReturning);
        assert(s.params@ =~= Seq::<TypedValue>::empty());
        s
    }

    /// The columns of the public tables, or of one table.
    pub fn get_schema(&self, params: &SchemaParams) -> (r: Statement)
        ensures
            r@ == match params.table_name {
                Some(t) => (SCHEMA_TABLE_SQL@, seq![TypedValue::Text(t)], StatementKind::RowReturning),
                None => (SCHEMA_ALL_SQL@, Seq::<TypedValue>::empty(), StatementKind::RowReturning),
            },
    {
        match &params.table_name {
            Some(t) => fixed(SCHEMA_TABLE_SQL, text_param(t), StatementKind::RowReturning),
            None => {
                let s = fixed(SCHEMA_ALL_SQL, Vec::new(), StatementKind::RowReturning);
                assert(s.params@ =~= Seq::<TypedValue>::empty());
                s
            },
        }
    }

    /// Inserts one row; its columns are the keys of `data`, its values are
    /// bound.
    pub fn insert_data(&self, params: &InsertParams) -> (r: Result<Statement, ToolError>)
        ensures
            match r {
                Ok(s) => insert_refusal(*params) is None && s@ == (
                    insert_sql(params.table_name@, entries_of(params.data)),
                    bound_values(entries_of(params.data)),
                    StatementKind::RowAffecting,
                ),
                Err(e) => insert_refusal(*params) == Some(e.kind),
            },
    {
        let es = match &params.data {
            JsonValue::Object(es) => es,
            _ => {
                return Err(invalid("data must be a JSON object"));
            },
        };
        if es.len() == 0 {
            return Err(invalid("data must name at least one column"));
        }
        if es.len() > MAX_BOUND_VALUES {
            return Err(invalid("too many values for one statement"));
        }
        if !check_identifier(params.table_name.as_str()) || !check_keys(es) {
            return Err(invalid("table and column names must be plain identifiers"));
        }
        if !check_bindable(es) {
            return Err(unbindable());
        }
        Ok(build_insert(&params.table_name, es))
    }

    /// The public tables, by name.
    pub fn list_tables(&self) -> (r: Statement)
        ensures
            r@ == (LIST_TABLES_SQL@, Seq::<TypedValue>::empty(), StatementKind::RowReturning),
    {
        let s = fixed(LIST_TABLES_SQL, Vec::new(), StatementKind::RowReturning);
        assert(s.params@ =~= Seq::<TypedValue>::empty());
        s
    }

    /// The columns of a table, then its indexes.
    pub fn describe_table(&self, params: &TableNameParams) -> (r: Vec<Statement>)
        ensures
            r@.len() == 2,
            r@[0]@ == (COLUMNS_SQL@, seq![TypedValue::Text(params.table_name)], StatementKind::RowReturning),
            r@[1]@ == (INDEXES_SQL@, seq![TypedValue::Text(params.table_name)], StatementKind::RowReturning),
    {
        let mut r: Vec<Statement> = Vec::new();
        r.push(fixed(COLUMNS_SQL, text_param(&params.table_name), StatementKind::RowReturning));
        r.push(fixed(INDEXES_SQL, text_param(&params.table_name), StatementKind::RowReturning));
        r
    }

    /// Counts the rows of a table whose columns equal every entry of the
    /// conditions. Conditions that are given and are not an object are
    /// refused before any statement is built.
    pub fn count_rows(&self, params: &CountRowsParams) -> (r: Result<Statement, ToolError>)
        ensures
            match r {
                Ok(s) => count_refusal(*params) is None && s@ == (
                    count_sql(params.table_name@, filter_entries(params.where_conditions)),
                    bound_values(filter_entries(params.where_conditions)),
                    StatementKind::RowReturning,
                ),
                Err(e) => count_refusal(*params) == Some(e.kind),
            },
            (params.where_conditions matches Some(w) && !(w is Object)) ==> (r matches Err(e)
                && e.kind == ErrorKind::InvalidParameters),
    {
        let none: Entries = Vec::new();
        let es: &Entries = match &params.where_conditions {
            None => &none,
            Some(JsonValue::Object(es)) => es,
            Some(_) => {
                return Err(invalid("WHERE conditions must be a JSON object"));
            },
        };
        assert(es@ == filter_entries(params.where_conditions));
        if es.len() > MAX_BOUND_VALUES {
            return Err(invalid("too many values for one statement"));
        }
        if !check_identifier(params.table_name.as_str()) || !check_keys(es) {
            return Err(invalid("table and column names must be plain identifiers"));
        }
        if !check_bindable(es) {
            return Err(unbindable());
        }
        Ok(build_count(&params.table_name, es))
    }

    /// Whether a public table of that name exists.
    pub fn table_exists(&self, params: &TableNameParams) -> (r: Statement)
        ensures
            r@ == (TABLE_EXISTS_SQL@, seq![TypedValue::Text(params.table_name)], StatementKind::RowReturning),
    {
        fixed(TABLE_EXISTS_SQL, text_param(&params.table_name), StatementKind::RowReturning)
    }

    /// Whether a public table has a column of that name.
    pub fn column_exists(&self, params: &ColumnExistsParams) -> (r: Statement)
        ensures
            r@ == (
                COLUMN_EXISTS_SQL@,
                seq![TypedValue::Text(params.table_name), TypedValue::Text(params.column_name)],
                StatementKind::RowReturning,
            ),
    {
        let mut ps = text_param(&params.table_name);
        ps.push(TypedValue::Text(params.column_name.clone()));
        assert(ps@ =~= seq![TypedValue::Text(params.table_name), TypedValue::Text(params.column_name)]);
        fixed(COLUMN_EXISTS_SQL, ps, StatementKind::RowReturning)
    }

    /// Reads a few rows of a table; the limit is clamped to `1..=100`.
    pub fn get_table_sample(&self, params: &TableSampleParams) -> (r: Result<Statement, ToolError>)
        ensures
            match r {
                Ok(s) => is_identifier(params.table_name@) && s@ == (
                    sample_sql(params.table_name@, sample_limit(params.limit) as nat),
                    Seq::<TypedValue>::empty(),
                    StatementKind::RowReturning,
                ),
                Err(e) => !is_identifier(params.table_name@) && e.kind == ErrorKind::InvalidParameters,
            },
    {
        if !check_identifier(params.table_name.as_str()) {
            return Err(invalid("table names must be plain identifiers"));
        }
        let s = build_sample(&params.table_name, clamp_sample_limit(params.limit));
        assert(s.params@ =~= Seq::<TypedValue>::empty());
        Ok(s)
    }

    /// Sets the given values on at most `limit` rows whose columns equal
    /// every entry of the conditions.
    pub fn update_data(&self, params: &UpdateDataParams) -> (r: Result<Statement, ToolError>)
        ensures
            match r {
                Ok(s) => update_refusal(*params) is None && s@ == (
                    update_sql(
                        params.table_name@,
                        entries_of(params.values),
                        entries_of(params.where_conditions),
                        change_limit_value(params.limit) as nat,
                    ),
                    bound_values(entries_of(params.values)) + bound_values(
                        entries_of(params.where_conditions),
                    ),
                    StatementKind::RowAffecting,
                ),
                Err(e) => update_refusal(*params) == Some(e.kind),
            },
    {
        let vs = match &params.values {
            JsonValue::Object(vs) => vs,
            _ => {
                return Err(invalid("values must be a JSON object"));
            },
        };
        let ws = match &params.where_conditions {
            JsonValue::Object(ws) => ws,
            _ => {
                return Err(invalid("WHERE conditions must be a JSON object"));
            },
        };
        if vs.len() == 0 {
            return Err(invalid("values must name at least one column"));
        }
        if vs.len() > MAX_BOUND_VALUES || ws.len() > MAX_BOUND_VALUES - vs.len() {
            return Err(invalid("too many values for one statement"));
        }
        let limit = match resolve_change_limit(params.limit) {
            Ok(n) => n,
            Err(e) => {
                return Err(e);
            },
        };
        if !check_identifier(params.table_name.as_str()) || !check_keys(vs) || !check_keys(ws) {
            return Err(invalid("table and column names must be plain identifiers"));
        }
        if !check_bindable(vs) || !check_bindable(ws) {
            return Err(unbindable());
        }
        Ok(build_update(&params.table_name, vs, ws, limit))
    }

    /// Deletes at most `limit` rows whose columns equal every entry of the
    /// conditions.
    pub fn delete_data(&self, params: &DeleteDataParams) -> (r: Result<Statement, ToolError>)
        ensures
            match r {
                Ok(s) => delete_refusal(*params) is None && s@ == (
                    delete_sql(
                        params.table_name@,
                        entries_of(params.where_conditions),
                        change_limit_value(params.limit) as nat,
                    ),
                    bound_values(entries_of(params.where_conditions)),
                    StatementKind::RowAffecting,
                ),
                Err(e) => delete_refusal(*params) == Some(e.kind),
            },
    {
        let ws = match &params.where_conditions {
            JsonValue::Object(ws) => ws,
            _ => {
                return Err(invalid("WHERE conditions must be a JSON object"));
            },
        };
        if ws.len() > MAX_BOUND_VALUES {
            return Err(invalid("too many values for one statement"));
        }
        let limit = match resolve_change_limit(params.limit) {
            Ok(n) => n,
            Err(e) => {
                return Err(e);
            },
        };
        if !check_identifier(params.table_name.as_str()) || !check_keys(ws) {
            return Err(invalid("table and column names must be plain identifiers"));
        }
        if !check_bindable(ws) {
            return Err(unbindable());
        }
        Ok(build_delete(&params.table_name, ws, limit))
    }

    /// Runs any statement as written: one whose leading keyword is SELECT
    /// returns rows, any other reports how many rows it changed.
    pub fn execute_raw_query(&self, params: &ExecuteRawQueryParams) -> (r: Statement)
        ensures
            r@ == (params.query@, Seq::<TypedValue>::empty(), raw_kind(params.query@)),
    {
        let kind = classify_query(params.query.as_str());
        let s = fixed(params.query.as_str(), Vec::new(), kind);
        assert(s.params@ =~= Seq::<TypedValue>::empty());
        s
    }

    /// The foreign keys of the public tables, or of one table.
    pub fn get_relationships(&self, params: &RelationshipsParams) -> (r: Statement)
        ensures
            r@ == match params.table_name {
                Some(t) => (RELATIONSHIPS_TABLE_SQL@, seq![TypedValue::Text(t)], StatementKind::RowReturning),
                None => (RELATIONSHIPS_ALL_SQL@, Seq::<TypedValue>::empty(), StatementKind::RowReturning),
            },
    {
        match &params.table_name {
            Some(t) => fixed(RELATIONSHIPS_TABLE_SQL, text_param(t), StatementKind::RowReturning),
            None => {
                let s = fixed(RELATIONSHIPS_ALL_SQL, Vec::new(), StatementKind::RowReturning);
                assert(s.params@ =~= Seq::<TypedValue>::empty());
                s
            },
        }
    }

    /// The server version, which tells that the connection works.
    pub fn get_connection_status(&self) -> (r: Statement)
        ensures
            r@ == (VERSION_SQL@, Seq::<TypedValue>::empty(), StatementKind::RowReturning),
    {
        let s = fixed(VERSION_SQL, Vec::new(), StatementKind::RowReturning);
        assert(s.params@ =~= Seq::<TypedValue>::empty());
        s
    }
}

} // verus!
