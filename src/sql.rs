//! Statement building: SQL text in which every data value is a numbered
//! placeholder, the values bound beside it in placeholder order.

use vstd::prelude::*;
use crate::error::{ErrorKind, ToolError};
use crate::text::{append_decimal, append_joined, decimal, digit_char, join, views};
use crate::value::{bound_of, to_bound, JsonValue, TypedValue};

verus! {

/// Whether the database answers a statement with rows or with a count.
#[derive(PartialEq, Eq, Structural, Clone, Copy, Debug)]
pub enum StatementKind {
    RowReturning,
    RowAffecting,
}

/// SQL text and the values bound to its placeholders `$1`, `$2`, ...
pub struct Statement {
    pub text: String,
    pub params: Vec<TypedValue>,
    pub kind: StatementKind,
}

impl View for Statement {
    type V = (Seq<char>, Seq<TypedValue>, StatementKind);

    open spec fn view(&self) -> Self::V {
        (self.text@, self.params@, self.kind)
    }
}

/// A column/value map of a request, in its order.
pub type Entries = Vec<(String, JsonValue)>;

/// A character that may begin an identifier.
pub open spec fn ident_start(c: char) -> bool {
    ('a' <= c && c <= 'z') || ('A' <= c && c <= 'Z') || c == '_'
}

/// A character that may follow inside an identifier; `.` separates a schema
/// from a name.
pub open spec fn ident_char(c: char) -> bool {
    ident_start(c) || ('0' <= c && c <= '9') || c == '.'
}

/// The allow-pattern for identifiers written into SQL text.
pub open spec fn is_identifier(s: Seq<char>) -> bool {
    s.len() > 0 && ident_start(s[0]) && forall|i: int| 0 < i < s.len() ==> ident_char(#[trigger] s[i])
}

/// Whether `s` matches the allow-pattern for identifiers.
pub fn check_identifier(s: &str) -> (r: bool)
    ensures
        r == is_identifier(s@),
{
    let n = s.unicode_len();
    if n == 0 {
        return false;
    }
    let c0 = s.get_char(0);
    if !(('a' <= c0 && c0 <= 'z') || ('A' <= c0 && c0 <= 'Z') || c0 == '_') {
        return false;
    }
    let mut i: usize = 1;
    while i < n
        invariant
            n == s@.len(),
            1 <= i <= n,
            forall|k: int| 0 < k < i ==> ident_char(#[trigger] s@[k]),
        decreases n - i,
    {
        let c = s.get_char(i);
        if !(('a' <= c && c <= 'z') || ('A' <= c && c <= 'Z') || c == '_' || ('0' <= c && c <= '9')
            || c == '.') {
            assert(!ident_char(s@[i as int]));
            return false;
        }
        i = i + 1;
    }
    true
}

/// Every key of the entries matches the identifier allow-pattern.
pub open spec fn keys_are_identifiers(es: Seq<(String, JsonValue)>) -> bool {
    forall|i: int| 0 <= i < es.len() ==> is_identifier(#[trigger] es[i].0@)
}

/// Whether every key of the entries matches the identifier allow-pattern.
pub fn check_keys(es: &Entries) -> (r: bool)
    ensures
        r == keys_are_identifiers(es@),
{
    let mut i: usize = 0;
    while i < es.len()
        invariant
            i <= es.len(),
            forall|k: int| 0 <= k < i ==> is_identifier(#[trigger] es@[k].0@),
        decreases es.len() - i,
    {
        if !check_identifier(es[i].0.as_str()) {
            return false;
        }
        i = i + 1;
    }
    true
}

/// The bound value of a request value that can be bound.
pub open spec fn bound_value(v: JsonValue) -> TypedValue {
    match bound_of(v) {
        Some(t) => t,
        None => TypedValue::Null,
    }
}

/// Every value of the entries can be bound.
pub open spec fn all_bindable(es: Seq<(String, JsonValue)>) -> bool {
    forall|i: int| 0 <= i < es.len() ==> bound_of(#[trigger] es[i].1) is Some
}

/// The bound values of the entries, in their order.
pub open spec fn bound_values(es: Seq<(String, JsonValue)>) -> Seq<TypedValue> {
    Seq::new(es.len(), |i: int| bound_value(es[i].1))
}

/// Whether every value of the entries can be bound.
pub fn check_bindable(es: &Entries) -> (r: bool)
    ensures
        r == all_bindable(es@),
{
    let mut i: usize = 0;
    while i < es.len()
        invariant
            i <= es.len(),
            forall|k: int| 0 <= k < i ==> bound_of(#[trigger] es@[k].1) is Some,
        decreases es.len() - i,
    {
        let ok = match &es[i].1 {
            JsonValue::UInt(u) => *u <= i64::MAX as u64,
            JsonValue::Array(_) => false,
            JsonValue::Object(_) => false,
            _ => true,
        };
        if !ok {
            return false;
        }
        i = i + 1;
    }
    true
}

/// Appends the bound values of the entries to `out`, or fails on the first
/// value that cannot be bound.
pub fn bind_entries(es: &Entries, out: &mut Vec<TypedValue>) -> (r: Result<(), ToolError>)
    ensures
        r is Ok <==> all_bindable(es@),
        r is Ok ==> final(out)@ == old(out)@ + bound_values(es@),
        match r {
            Ok(_) => true,
            Err(e) => e.kind == ErrorKind::ValueShapeError,
        },
{
    let ghost start = out@;
    let mut i: usize = 0;
    while i < es.len()
        invariant
            i <= es.len(),
            all_bindable(es@.take(i as int)),
            out@ == start + bound_values(es@.take(i as int)),
        decreases es.len() - i,
    {
        match to_bound(&es[i].1) {
            Ok(t) => {
                out.push(t);
                assert(bound_values(es@.take(i + 1)) =~= bound_values(es@.take(i as int)).push(
                    bound_value(es@[i as int].1),
                ));
            },
            Err(e) => {
                assert(!all_bindable(es@));
                return Err(e);
            },
        }
        assert(all_bindable(es@.take(i + 1))) by {
            assert forall|k: int| 0 <= k < i + 1 implies bound_of(
                #[trigger] es@.take(i + 1)[k].1,
            ) is Some by {
                if k < i {
                    assert(es@.take(i + 1)[k] == es@.take(i as int)[k]);
                }
            }
        }
        i = i + 1;
    }
    assert(es@.take(es.len() as int) =~= es@);
    Ok(())
}

/// The keys of the entries, in their order.
pub open spec fn names_of(es: Seq<(String, JsonValue)>) -> Seq<Seq<char>> {
    Seq::new(es.len(), |i: int| es[i].0@)
}


/// The keys of the entries.
fn names(es: &Entries) -> (r: Vec<String>)
    ensures
        views(r@) == names_of(es@),
{
    let mut r: Vec<String> = Vec::new();
    let mut i: usize = 0;
    while i < es.len()
        invariant
            i <= es.len(),
            views(r@) == names_of(es@.take(i as int)),
            r@.len() == i,
        decreases es.len() - i,
    {
        let ghost prev = r@;
        r.push(es[i].0.clone());
        assert forall|k: int| 0 <= k < i + 1 implies #[trigger] views(r@)[k] == names_of(
            es@.take(i + 1),
        )[k] by {
            if k < i {
                assert(r@[k] == prev[k]);
                assert(views(prev)[k] == names_of(es@.take(i as int))[k]);
            }
        }
        assert(views(r@) =~= names_of(es@.take(i + 1)));
        i = i + 1;
    }
    assert(es@.take(es.len() as int) =~= es@);
    r
}

/// The placeholder `$k`.
pub open spec fn placeholder(k: nat) -> Seq<char> {
    "$"@ + decimal(k)
}

/// The placeholders `$first`, `$first+1`, ..., `n` of them.
pub open spec fn placeholders(n: nat, first: nat) -> Seq<Seq<char>> {
    Seq::new(n, |i: int| placeholder((first + i) as nat))
}

/// `name = $k` for each key, numbering from `first`.
pub open spec fn comparisons(es: Seq<(String, JsonValue)>, first: nat) -> Seq<Seq<char>> {
    Seq::new(es.len(), |i: int| es[i].0@ + " = "@ + placeholder((first + i) as nat))
}

fn placeholder_list(n: usize, first: u64) -> (r: Vec<String>)
    requires
        first + n <= u64::MAX,
    ensures
        views(r@) == placeholders(n as nat, first as nat),
{
    let mut r: Vec<String> = Vec::new();
    let mut i: usize = 0;
    while i < n
        invariant
            i <= n,
            first + n <= u64::MAX,
            views(r@) == placeholders(i as nat, first as nat),
            r@.len() == i,
        decreases n - i,
    {
        let mut p = String::from_str("$");
        append_decimal(&mut p, first + i as u64);
        let ghost prev = r@;
        r.push(p);
        assert forall|k: int| 0 <= k < i + 1 implies #[trigger] views(r@)[k] == placeholders(
            (i + 1) as nat,
            first as nat,
        )[k] by {
            if k < i {
                assert(r@[k] == prev[k]);
                assert(views(prev)[k] == placeholders(i as nat, first as nat)[k]);
            }
        }
        assert(views(r@) =~= placeholders((i + 1) as nat, first as nat));
        i = i + 1;
    }
    r
}

fn comparison_list(es: &Entries, first: u64) -> (r: Vec<String>)
    requires
        first + es.len() <= u64::MAX,
    ensures
        views(r@) == comparisons(es@, first as nat),
{
    let mut r: Vec<String> = Vec::new();
    let mut i: usize = 0;
    while i < es.len()
        invariant
            i <= es.len(),
            first + es.len() <= u64::MAX,
            views(r@) == comparisons(es@.take(i as int), first as nat),
            r@.len() == i,
        decreases es.len() - i,
    {
        let mut c = es[i].0.clone();
        c.append(" = ");
        c.append("$");
        append_decimal(&mut c, first + i as u64);
        let ghost prev = r@;
        r.push(c);
        assert forall|k: int| 0 <= k < i + 1 implies #[trigger] views(r@)[k] == comparisons(
            es@.take(i + 1),
            first as nat,
        )[k] by {
            if k < i {
                assert(r@[k] == prev[k]);
                assert(views(prev)[k] == comparisons(es@.take(i as int), first as nat)[k]);
            } else {
                assert(views(r@)[k] =~= es@[k].0@ + " = "@ + placeholder((first + k) as nat));
            }
        }
        assert(views(r@) =~= comparisons(es@.take(i + 1), first as nat));
        i = i + 1;
    }
    assert(es@.take(es.len() as int) =~= es@);
    r
}

/// The text of an insert of one row.
pub open spec fn insert_sql(table: Seq<char>, es: Seq<(String, JsonValue)>) -> Seq<char> {
    "INSERT INTO "@ + table + " ("@ + join(names_of(es), ", "@) + ") VALUES ("@ + join(
        placeholders(es.len(), 1),
        ", "@,
    ) + ")"@
}

/// Builds the insert of one row: the keys form the column list, one
/// placeholder per value, the values bound in the same order.
pub fn build_insert(table: &String, es: &Entries) -> (r: Statement)
    requires
        all_bindable(es@),
        es.len() < u64::MAX,
    ensures
        r.text@ == insert_sql(table@, es@),
        r.params@ == bound_values(es@),
        r.kind == StatementKind::RowAffecting,
{
    let mut text = String::from_str("INSERT INTO ");
    text.append(table.as_str());
    text.append(" (");
    append_joined(&mut text, &names(es), ", ");
    text.append(") VALUES (");
    append_joined(&mut text, &placeholder_list(es.len(), 1), ", ");
    text.append(")");
    let mut params: Vec<TypedValue> = Vec::new();
    let _ = bind_entries(es, &mut params);
    assert(params@ =~= bound_values(es@));
    Statement { text, params, kind: StatementKind::RowAffecting }
}

/// ` WHERE a = $k AND b = $k+1 ...`, or nothing for no entries.
pub open spec fn where_sql(es: Seq<(String, JsonValue)>, first: nat) -> Seq<char> {
    if es.len() == 0 {
        Seq::empty()
    } else {
        " WHERE "@ + join(comparisons(es, first), " AND "@)
    }
}

fn append_where(text: &mut String, es: &Entries, first: u64)
    requires
        first + es.len() <= u64::MAX,
    ensures
        final(text)@ == old(text)@ + where_sql(es@, first as nat),
{
    if es.len() > 0 {
        text.append(" WHERE ");
        append_joined(text, &comparison_list(es, first), " AND ");
    }
}

/// The text of a count of the rows that match every entry.
pub open spec fn count_sql(table: Seq<char>, es: Seq<(String, JsonValue)>) -> Seq<char> {
    "SELECT COUNT(*) AS count FROM "@ + table + where_sql(es, 1)
}

/// Builds the count of the rows whose columns equal every entry.
pub fn build_count(table: &String, es: &Entries) -> (r: Statement)
    requires
        all_bindable(es@),
        es.len() < u64::MAX,
    ensures
        r.text@ == count_sql(table@, es@),
        r.params@ == bound_values(es@),
        r.kind == StatementKind::RowReturning,
{
    let mut text = String::from_str("SELECT COUNT(*) AS count FROM ");
    text.append(table.as_str());
    append_where(&mut text, es, 1);
    let mut params: Vec<TypedValue> = Vec::new();
    let _ = bind_entries(es, &mut params);
    assert(params@ =~= bound_values(es@));
    Statement { text, params, kind: StatementKind::RowReturning }
}

/// The text of a read of at most `limit` rows.
pub open spec fn sample_sql(table: Seq<char>, limit: nat) -> Seq<char> {
    "SELECT * FROM "@ + table + " LIMIT "@ + decimal(limit)
}

/// Builds the read of at most `limit` rows of a table.
pub fn build_sample(table: &String, limit: u64) -> (r: Statement)
    ensures
        r.text@ == sample_sql(table@, limit as nat),
        r.params@.len() == 0,
        r.kind == StatementKind::RowReturning,
{
    let mut text = String::from_str("SELECT * FROM ");
    text.append(table.as_str());
    text.append(" LIMIT ");
    append_decimal(&mut text, limit);
    Statement { text, params: Vec::new(), kind: StatementKind::RowReturning }
}

/// The rows that a change may touch: at most `limit` of those whose columns
/// equal every entry of `filter`, whose placeholders start at `first`.
pub open spec fn target_sql(table: Seq<char>, filter: Seq<(String, JsonValue)>, first: nat, limit: nat) -> Seq<char> {
    " WHERE ctid IN (SELECT ctid FROM "@ + table + where_sql(filter, first) + " LIMIT "@ + decimal(limit) + ")"@
}

fn append_target(text: &mut String, table: &String, filter: &Entries, first: u64, limit: u64)
    requires
        first + filter.len() <= u64::MAX,
    ensures
        final(text)@ == old(text)@ + target_sql(table@, filter@, first as nat, limit as nat),
{
    text.append(" WHERE ctid IN (SELECT ctid FROM ");
    text.append(table.as_str());
    append_where(text, filter, first);
    text.append(" LIMIT ");
    append_decimal(text, limit);
    text.append(")");
}

/// The text of an update of at most `limit` matching rows.
pub open spec fn update_sql(table: Seq<char>, values: Seq<(String, JsonValue)>, filter: Seq<(String, JsonValue)>, limit: nat) -> Seq<char> {
    "UPDATE "@ + table + " SET "@ + join(comparisons(values, 1), ", "@) + target_sql(
        table,
        filter,
        values.len() + 1,
        limit,
    )
}

/// Builds the update of at most `limit` rows whose columns equal every entry
/// of `filter`: the new values are bound first, the filter's after them.
pub fn build_update(table: &String, values: &Entries, filter: &Entries, limit: u64) -> (r: Statement)
    requires
        all_bindable(values@),
        all_bindable(filter@),
        values.len() + filter.len() < u64::MAX,
    ensures
        r.text@ == update_sql(table@, values@, filter@, limit as nat),
        r.params@ == bound_values(values@) + bound_values(filter@),
        r.kind == StatementKind::RowAffecting,
{
    let mut text = String::from_str("UPDATE ");
    text.append(table.as_str());
    text.append(" SET ");
    append_joined(&mut text, &comparison_list(values, 1), ", ");
    append_target(&mut text, table, filter, values.len() as u64 + 1, limit);
    let mut params: Vec<TypedValue> = Vec::new();
    let _ = bind_entries(values, &mut params);
    let _ = bind_entries(filter, &mut params);
    assert(params@ =~= bound_values(values@) + bound_values(filter@));
    Statement { text, params, kind: StatementKind::RowAffecting }
}

/// The text of a delete of at most `limit` matching rows.
pub open spec fn delete_sql(table: Seq<char>, filter: Seq<(String, JsonValue)>, limit: nat) -> Seq<char> {
    "DELETE FROM "@ + table + target_sql(table, filter, 1, limit)
}

/// Builds the delete of at most `limit` rows whose columns equal every entry
/// of `filter`.
pub fn build_delete(table: &String, filter: &Entries, limit: u64) -> (r: Statement)
    requires
        all_bindable(filter@),
        filter.len() < u64::MAX,
    ensures
        r.text@ == delete_sql(table@, filter@, limit as nat),
        r.params@ == bound_values(filter@),
        r.kind == StatementKind::RowAffecting,
{
    let mut text = String::from_str("DELETE FROM ");
    text.append(table.as_str());
    append_target(&mut text, table, filter, 1, limit);
    let mut params: Vec<TypedValue> = Vec::new();
    let _ = bind_entries(filter, &mut params);
    assert(params@ =~= bound_values(filter@));
    Statement { text, params, kind: StatementKind::RowAffecting }
}

} // verus!

verus! {

/// How many placeholder marks `$` the text holds.
pub open spec fn dollars(s: Seq<char>) -> nat
    decreases s.len(),
{
    if s.len() == 0 {
        0
    } else {
        (if s[0] == '$' {
            1nat
        } else {
            0nat
        }) + dollars(s.skip(1))
    }
}

proof fn lemma_dollars_concat(a: Seq<char>, b: Seq<char>)
    ensures
        dollars(a + b) == dollars(a) + dollars(b),
    decreases a.len(),
{
    if a.len() > 0 {
        assert((a + b).skip(1) =~= a.skip(1) + b);
        assert((a + b)[0] == a[0]);
        lemma_dollars_concat(a.skip(1), b);
    } else {
        assert(a + b =~= b);
    }
}

proof fn lemma_no_dollars(s: Seq<char>)
    requires
        forall|i: int| 0 <= i < s.len() ==> s[i] != '$',
    ensures
        dollars(s) == 0,
    decreases s.len(),
{
    if s.len() > 0 {
        assert forall|i: int| 0 <= i < s.skip(1).len() implies s.skip(1)[i] != '$' by {
            assert(s.skip(1)[i] == s[i + 1]);
        }
        lemma_no_dollars(s.skip(1));
    }
}

proof fn lemma_decimal_dollars(n: nat)
    ensures
        dollars(decimal(n)) == 0,
    decreases n,
{
    lemma_no_dollars(seq![digit_char(n % 10)]);
    if n >= 10 {
        lemma_decimal_dollars(n / 10);
        lemma_dollars_concat(decimal(n / 10), seq![digit_char(n % 10)]);
    } else {
        lemma_no_dollars(seq![digit_char(n)]);
    }
}

proof fn lemma_placeholder_dollars(k: nat)
    ensures
        dollars(placeholder(k)) == 1,
{
    reveal_strlit("$");
    lemma_decimal_dollars(k);
    lemma_dollars_concat("$"@, decimal(k));
    assert("$"@.skip(1) =~= Seq::<char>::empty());
    assert(dollars("$"@.skip(1)) == 0);
    assert(dollars("$"@) == 1);
}

proof fn lemma_identifier_dollars(s: Seq<char>)
    requires
        is_identifier(s),
    ensures
        dollars(s) == 0,
{
    assert forall|i: int| 0 <= i < s.len() implies s[i] != '$' by {
        if i > 0 {
            assert(ident_char(s[i]));
        }
    }
    lemma_no_dollars(s);
}

/// Joining parts of `c` marks each with a separator of none gives `c` marks
/// per part.
proof fn lemma_join_dollars(parts: Seq<Seq<char>>, sep: Seq<char>, c: nat)
    requires
        dollars(sep) == 0,
        forall|i: int| 0 <= i < parts.len() ==> dollars(#[trigger] parts[i]) == c,
    ensures
        dollars(join(parts, sep)) == c * parts.len(),
    decreases parts.len(),
{
    if parts.len() == 0 {
        assert(dollars(Seq::<char>::empty()) == 0);
        assert(c * 0 == 0) by (nonlinear_arith);
    } else if parts.len() == 1 {
        assert(dollars(parts[0]) == c);
        assert(c * 1 == c) by (nonlinear_arith);
    } else {
        let init = parts.drop_last();
        assert forall|i: int| 0 <= i < init.len() implies dollars(#[trigger] init[i]) == c by {
            assert(init[i] == parts[i]);
        }
        lemma_join_dollars(init, sep, c);
        lemma_dollars_concat(join(init, sep), sep);
        lemma_dollars_concat(join(init, sep) + sep, parts.last());
        assert(dollars(parts.last()) == c);
        assert(c * (parts.len() - 1) + c == c * parts.len()) by (nonlinear_arith);
    }
}

proof fn lemma_literal_dollars()
    ensures
        dollars("INSERT INTO "@) == 0,
        dollars(" ("@) == 0,
        dollars(", "@) == 0,
        dollars(") VALUES ("@) == 0,
        dollars(")"@) == 0,
        dollars(" = "@) == 0,
        dollars(" WHERE "@) == 0,
        dollars(" AND "@) == 0,
        dollars("SELECT COUNT(*) AS count FROM "@) == 0,
        dollars("SELECT * FROM "@) == 0,
        dollars(" LIMIT "@) == 0,
        dollars(" WHERE ctid IN (SELECT ctid FROM "@) == 0,
        dollars("UPDATE "@) == 0,
        dollars(" SET "@) == 0,
        dollars("DELETE FROM "@) == 0,
{
    reveal_strlit("INSERT INTO ");
    reveal_strlit(" (");
    reveal_strlit(", ");
    reveal_strlit(") VALUES (");
    reveal_strlit(")");
    reveal_strlit(" = ");
    reveal_strlit(" WHERE ");
    reveal_strlit(" AND ");
    reveal_strlit("SELECT COUNT(*) AS count FROM ");
    reveal_strlit("SELECT * FROM ");
    reveal_strlit(" LIMIT ");
    reveal_strlit(" WHERE ctid IN (SELECT ctid FROM ");
    reveal_strlit("UPDATE ");
    reveal_strlit(" SET ");
    reveal_strlit("DELETE FROM ");
    lemma_no_dollars("INSERT INTO "@);
    lemma_no_dollars(" ("@);
    lemma_no_dollars(", "@);
    lemma_no_dollars(") VALUES ("@);
    lemma_no_dollars(")"@);
    lemma_no_dollars(" = "@);
    lemma_no_dollars(" WHERE "@);
    lemma_no_dollars(" AND "@);
    lemma_no_dollars("SELECT COUNT(*) AS count FROM "@);
    lemma_no_dollars("SELECT * FROM "@);
    lemma_no_dollars(" LIMIT "@);
    lemma_no_dollars(" WHERE ctid IN (SELECT ctid FROM "@);
    lemma_no_dollars("UPDATE "@);
    lemma_no_dollars(" SET "@);
    lemma_no_dollars("DELETE FROM "@);
}

proof fn lemma_comparisons_dollars(es: Seq<(String, JsonValue)>, first: nat, sep: Seq<char>)
    requires
        keys_are_identifiers(es),
        dollars(sep) == 0,
    ensures
        dollars(join(comparisons(es, first), sep)) == es.len(),
{
    lemma_literal_dollars();
    let cs = comparisons(es, first);
    assert forall|i: int| 0 <= i < cs.len() implies dollars(#[trigger] cs[i]) == 1 by {
        lemma_identifier_dollars(es[i].0@);
        lemma_placeholder_dollars((first + i) as nat);
        lemma_dollars_concat(es[i].0@, " = "@);
        lemma_dollars_concat(es[i].0@ + " = "@, placeholder((first + i) as nat));
    }
    lemma_join_dollars(cs, sep, 1);
}

proof fn lemma_where_dollars(es: Seq<(String, JsonValue)>, first: nat)
    requires
        keys_are_identifiers(es),
    ensures
        dollars(where_sql(es, first)) == es.len(),
{
    lemma_literal_dollars();
    if es.len() == 0 {
        assert(dollars(Seq::<char>::empty()) == 0);
    } else {
        lemma_comparisons_dollars(es, first, " AND "@);
        lemma_dollars_concat(" WHERE "@, join(comparisons(es, first), " AND "@));
    }
}

proof fn lemma_target_dollars(table: Seq<char>, filter: Seq<(String, JsonValue)>, first: nat, limit: nat)
    requires
        is_identifier(table),
        keys_are_identifiers(filter),
    ensures
        dollars(target_sql(table, filter, first, limit)) == filter.len(),
{
    lemma_literal_dollars();
    lemma_identifier_dollars(table);
    lemma_where_dollars(filter, first);
    lemma_decimal_dollars(limit);
    let a = " WHERE ctid IN (SELECT ctid FROM "@;
    lemma_dollars_concat(a, table);
    lemma_dollars_concat(a + table, where_sql(filter, first));
    lemma_dollars_concat(a + table + where_sql(filter, first), " LIMIT "@);
    lemma_dollars_concat(a + table + where_sql(filter, first) + " LIMIT "@, decimal(limit));
    lemma_dollars_concat(a + table + where_sql(filter, first) + " LIMIT "@ + decimal(limit), ")"@);
}

/// An insert built from a checked table name and checked columns holds one
/// placeholder per bound value.
pub proof fn insert_placeholders(table: Seq<char>, es: Seq<(String, JsonValue)>)
    requires
        is_identifier(table),
        keys_are_identifiers(es),
    ensures
        dollars(insert_sql(table, es)) == bound_values(es).len(),
{
    lemma_literal_dollars();
    lemma_identifier_dollars(table);
    let ns = names_of(es);
    assert forall|i: int| 0 <= i < ns.len() implies dollars(#[trigger] ns[i]) == 0 by {
        lemma_identifier_dollars(es[i].0@);
    }
    lemma_join_dollars(ns, ", "@, 0);
    assert(0 * ns.len() == 0);
    let ps = placeholders(es.len(), 1);
    assert forall|i: int| 0 <= i < ps.len() implies dollars(#[trigger] ps[i]) == 1 by {
        lemma_placeholder_dollars((1 + i) as nat);
    }
    lemma_join_dollars(ps, ", "@, 1);
    let a = "INSERT INTO "@ + table;
    lemma_dollars_concat("INSERT INTO "@, table);
    lemma_dollars_concat(a, " ("@);
    lemma_dollars_concat(a + " ("@, join(ns, ", "@));
    lemma_dollars_concat(a + " ("@ + join(ns, ", "@), ") VALUES ("@);
    lemma_dollars_concat(a + " ("@ + join(ns, ", "@) + ") VALUES ("@, join(ps, ", "@));
    lemma_dollars_concat(a + " ("@ + join(ns, ", "@) + ") VALUES ("@ + join(ps, ", "@), ")"@);
}

/// A count built from a checked table name and checked columns holds one
/// placeholder per bound value.
pub proof fn count_placeholders(table: Seq<char>, es: Seq<(String, JsonValue)>)
    requires
        is_identifier(table),
        keys_are_identifiers(es),
    ensures
        dollars(count_sql(table, es)) == bound_values(es).len(),
{
    lemma_literal_dollars();
    lemma_identifier_dollars(table);
    lemma_where_dollars(es, 1);
    lemma_dollars_concat("SELECT COUNT(*) AS count FROM "@, table);
    lemma_dollars_concat("SELECT COUNT(*) AS count FROM "@ + table, where_sql(es, 1));
}

/// A sample holds no placeholder and binds nothing.
pub proof fn sample_placeholders(table: Seq<char>, limit: nat)
    requires
        is_identifier(table),
    ensures
        dollars(sample_sql(table, limit)) == 0,
{
    lemma_literal_dollars();
    lemma_identifier_dollars(table);
    lemma_decimal_dollars(limit);
    lemma_dollars_concat("SELECT * FROM "@, table);
    lemma_dollars_concat("SELECT * FROM "@ + table, " LIMIT "@);
    lemma_dollars_concat("SELECT * FROM "@ + table + " LIMIT "@, decimal(limit));
}

/// An update built from a checked table name and checked columns holds one
/// placeholder per bound value, new values and filter together.
pub proof fn update_placeholders(
    table: Seq<char>,
    values: Seq<(String, JsonValue)>,
    filter: Seq<(String, JsonValue)>,
    limit: nat,
)
    requires
        is_identifier(table),
        keys_are_identifiers(values),
        keys_are_identifiers(filter),
    ensures
        dollars(update_sql(table, values, filter, limit)) == (bound_values(values) + bound_values(
            filter,
        )).len(),
{
    lemma_literal_dollars();
    lemma_identifier_dollars(table);
    lemma_comparisons_dollars(values, 1, ", "@);
    lemma_target_dollars(table, filter, values.len() + 1, limit);
    let a = "UPDATE "@ + table;
    lemma_dollars_concat("UPDATE "@, table);
    lemma_dollars_concat(a, " SET "@);
    lemma_dollars_concat(a + " SET "@, join(comparisons(values, 1), ", "@));
    lemma_dollars_concat(
        a + " SET "@ + join(comparisons(values, 1), ", "@),
        target_sql(table, filter, values.len() + 1, limit),
    );
}

/// A delete built from a checked table name and checked columns holds one
/// placeholder per bound value.
pub proof fn delete_placeholders(table: Seq<char>, filter: Seq<(String, JsonValue)>, limit: nat)
    requires
        is_identifier(table),
        keys_are_identifiers(filter),
    ensures
        dollars(delete_sql(table, filter, limit)) == bound_values(filter).len(),
{
    lemma_literal_dollars();
    lemma_identifier_dollars(table);
    lemma_target_dollars(table, filter, 1, limit);
    lemma_dollars_concat("DELETE FROM "@, table);
    lemma_dollars_concat("DELETE FROM "@ + table, target_sql(table, filter, 1, limit));
}

} // verus!
