//! Values on both sides of the bridge: the loosely typed values that requests
//! carry, the tagged scalars that are bound as statement parameters, and the
//! conversion of result-set columns back into loosely typed values.

use vstd::prelude::*;
use crate::error::{ErrorKind, ToolError};

verus! {

/// A loosely typed value, as a request carries it.
pub enum JsonValue {
    Null,
    Bool(bool),
    /// A signed integer.
    Int(i64),
    /// A non-negative integer, which may lie above the signed range.
    UInt(u64),
    /// A 64-bit float, held as its IEEE-754 bit pattern.
    Float(u64),
    Str(String),
    Array(Vec<JsonValue>),
    /// Entries in their order of appearance.
    Object(Vec<(String, JsonValue)>),
}

/// A tagged scalar: a bound parameter, or a column value as read.
pub enum TypedValue {
    Null,
    Boolean(bool),
    Integer(i64),
    /// A 64-bit float, held as its IEEE-754 bit pattern.
    Float(u64),
    Text(String),
}

/// The family of a column's declared database type.
#[derive(PartialEq, Eq, Structural, Clone, Copy, Debug)]
pub enum ColumnFamily {
    Integer,
    Float,
    Boolean,
    Character,
    Other,
}

impl TypedValue {
    /// A copy of this value.
    pub fn duplicate(&self) -> (r: TypedValue)
        ensures
            r == *self,
    {
        match self {
            TypedValue::Null => TypedValue::Null,
            TypedValue::Boolean(b) => TypedValue::Boolean(*b),
            TypedValue::Integer(i) => TypedValue::Integer(*i),
            TypedValue::Float(f) => TypedValue::Float(*f),
            TypedValue::Text(s) => TypedValue::Text(s.clone()),
        }
    }
}

/// The bound parameter for a request value; `None` for arrays, objects and
/// integers that do not fit in 64 signed bits.
pub open spec fn bound_of(v: JsonValue) -> Option<TypedValue> {
    match v {
        JsonValue::Null => Some(TypedValue::Null),
        JsonValue::Bool(b) => Some(TypedValue::Boolean(b)),
        JsonValue::Int(i) => Some(TypedValue::Integer(i)),
        JsonValue::UInt(u) => if u <= i64::MAX as u64 {
            Some(TypedValue::Integer(u as i64))
        } else {
            None
        },
        JsonValue::Float(f) => Some(TypedValue::Float(f)),
        JsonValue::Str(s) => Some(TypedValue::Text(s)),
        JsonValue::Array(_) => None,
        JsonValue::Object(_) => None,
    }
}

/// Converts a request value into a bound parameter, keeping its kind and
/// its precision.
pub fn to_bound(v: &JsonValue) -> (r: Result<TypedValue, ToolError>)
    ensures
        match r {
            Ok(t) => bound_of(*v) == Some(t),
            Err(e) => bound_of(*v) == None::<TypedValue> && e.kind == ErrorKind::ValueShapeError,
        },
{
    match v {
        JsonValue::Null => Ok(TypedValue::Null),
        JsonValue::Bool(b) => Ok(TypedValue::Boolean(*b)),
        JsonValue::Int(i) => Ok(TypedValue::Integer(*i)),
        JsonValue::UInt(u) => {
            if *u <= i64::MAX as u64 {
                Ok(TypedValue::Integer(*u as i64))
            } else {
                Err(ToolError::new(ErrorKind::ValueShapeError, "integer out of the 64-bit signed range"))
            }
        },
        JsonValue::Float(f) => Ok(TypedValue::Float(*f)),
        JsonValue::Str(s) => Ok(TypedValue::Text(s.clone())),
        JsonValue::Array(_) => Err(
            ToolError::new(ErrorKind::ValueShapeError, "arrays cannot be bound as a value"),
        ),
        JsonValue::Object(_) => Err(
            ToolError::new(ErrorKind::ValueShapeError, "objects cannot be bound as a value"),
        ),
    }
}

/// The family of a database type, by its name.
pub open spec fn family_of(db_type: Seq<char>) -> ColumnFamily {
    if db_type == "int2"@ || db_type == "int4"@ || db_type == "int8"@ {
        ColumnFamily::Integer
    } else if db_type == "float4"@ || db_type == "float8"@ {
        ColumnFamily::Float
    } else if db_type == "bool"@ {
        ColumnFamily::Boolean
    } else if db_type == "text"@ || db_type == "varchar"@ || db_type == "bpchar"@ {
        ColumnFamily::Character
    } else {
        ColumnFamily::Other
    }
}

/// The family of a database type, by its name.
pub fn column_family(db_type: &str) -> (r: ColumnFamily)
    ensures
        r == family_of(db_type@),
{
    if str_eq(db_type, "int2") || str_eq(db_type, "int4") || str_eq(db_type, "int8") {
        ColumnFamily::Integer
    } else if str_eq(db_type, "float4") || str_eq(db_type, "float8") {
        ColumnFamily::Float
    } else if str_eq(db_type, "bool") {
        ColumnFamily::Boolean
    } else if str_eq(db_type, "text") || str_eq(db_type, "varchar") || str_eq(db_type, "bpchar") {
        ColumnFamily::Character
    } else {
        ColumnFamily::Other
    }
}

/// Whether two strings hold the same characters.
pub fn str_eq(a: &str, b: &str) -> (r: bool)
    ensures
        r == (a@ == b@),
{
    let n = a.unicode_len();
    if n != b.unicode_len() {
        return false;
    }
    let mut i: usize = 0;
    while i < n
        invariant
            n == a@.len(),
            n == b@.len(),
            i <= n,
            a@.subrange(0, i as int) == b@.subrange(0, i as int),
        decreases n - i,
    {
        if a.get_char(i) != b.get_char(i) {
            return false;
        }
        assert(a@.subrange(0, i + 1) =~= a@.subrange(0, i as int).push(a@[i as int]));
        assert(b@.subrange(0, i + 1) =~= b@.subrange(0, i as int).push(b@[i as int]));
        i = i + 1;
    }
    assert(a@ =~= a@.subrange(0, n as int));
    assert(b@ =~= b@.subrange(0, n as int));
    true
}

/// The loosely typed value of a column of the given family, from what was
/// read of it (`None` where nothing could be read). A value of another kind
/// than the family's gives `Null`; a column of another family keeps text.
pub open spec fn column_json(family: ColumnFamily, raw: Option<TypedValue>) -> JsonValue {
    match raw {
        Some(TypedValue::Integer(i)) => if family == ColumnFamily::Integer {
            JsonValue::Int(i)
        } else {
            JsonValue::Null
        },
        Some(TypedValue::Float(f)) => if family == ColumnFamily::Float {
            JsonValue::Float(f)
        } else {
            JsonValue::Null
        },
        Some(TypedValue::Boolean(b)) => if family == ColumnFamily::Boolean {
            JsonValue::Bool(b)
        } else {
            JsonValue::Null
        },
        Some(TypedValue::Text(s)) => if family == ColumnFamily::Character || family
            == ColumnFamily::Other {
            JsonValue::Str(s)
        } else {
            JsonValue::Null
        },
        _ => JsonValue::Null,
    }
}

/// Converts what was read of one column into a loosely typed value; a column
/// that could not be read becomes `Null` instead of failing the row.
pub fn from_column(family: ColumnFamily, raw: &Option<TypedValue>) -> (r: JsonValue)
    ensures
        r == column_json(family, *raw),
{
    match raw {
        Some(TypedValue::Integer(i)) => if family == ColumnFamily::Integer {
            JsonValue::Int(*i)
        } else {
            JsonValue::Null
        },
        Some(TypedValue::Float(f)) => if family == ColumnFamily::Float {
            JsonValue::Float(*f)
        } else {
            JsonValue::Null
        },
        Some(TypedValue::Boolean(b)) => if family == ColumnFamily::Boolean {
            JsonValue::Bool(*b)
        } else {
            JsonValue::Null
        },
        Some(TypedValue::Text(s)) => if family == ColumnFamily::Character || family
            == ColumnFamily::Other {
            JsonValue::Str(s.clone())
        } else {
            JsonValue::Null
        },
        _ => JsonValue::Null,
    }
}

/// The kind of tagged value that a column of this family reads as.
pub open spec fn kind_fits(family: ColumnFamily, v: TypedValue) -> bool {
    match v {
        TypedValue::Integer(_) => family == ColumnFamily::Integer,
        TypedValue::Float(_) => family == ColumnFamily::Float,
        TypedValue::Boolean(_) => family == ColumnFamily::Boolean,
        TypedValue::Text(_) => family == ColumnFamily::Character,
        TypedValue::Null => false,
    }
}

/// A value read from an integer, float, boolean or text column comes out of
/// marshalling with the same primitive kind, and binding it again gives back
/// the value that was read: nothing is turned into text on the way.
pub proof fn marshal_round_trip(family: ColumnFamily, v: TypedValue)
    requires
        kind_fits(family, v),
    ensures
        bound_of(column_json(family, Some(v))) == Some(v),
        v is Integer ==> column_json(family, Some(v)) is Int,
        v is Float ==> column_json(family, Some(v)) is Float,
        v is Boolean ==> column_json(family, Some(v)) is Bool,
        v is Text ==> column_json(family, Some(v)) is Str,
{
}

} // verus!
