//! Dynamically-typed values.
//!
//! `Scalar` is the scalar type the table engine binds as statement parameters
//! and reads back from rows: null, integer, real, or text. A real is carried
//! as the store's own real value, opaque to the engine, which never computes
//! on it. `ParamValue` is the JSON-like parameter type that commands and
//! plugin invocations exchange; converting it to a `Scalar` turns booleans
//! into integers and collapses nested structure to null, mirroring how values
//! are bound to the store.

use vstd::prelude::*;
use vstd::string::StrSliceExecFns;

verus! {

/// A scalar cell of a generic table row.
#[derive(Debug, PartialEq)]
pub enum Scalar {
    Null,
    Int(i64),
    /// A real, carried as the store's own value; the engine passes it
    /// through untouched and never computes on it. The library wraps only
    /// real store values here; a different store value smuggled in binds as
    /// itself, never as statement text.
    Real(rusqlite::types::Value),
    Text(String),
}

impl Scalar {
    /// An exact copy; unlike a derived `Clone`, its contract is known.
    pub fn dup(&self) -> (r: Scalar)
        ensures
            r == *self,
    {
        match self {
            Scalar::Null => Scalar::Null,
            Scalar::Int(i) => Scalar::Int(*i),
            Scalar::Real(rv) => Scalar::Real(rv.clone()),
            Scalar::Text(s) => Scalar::Text(s.clone()),
        }
    }
}

/// A column-name-to-scalar map, in caller order.
pub type DataMap = Vec<(String, Scalar)>;

/// A row returned by the table engine: one scalar per discovered column.
pub type Row = Vec<(String, Scalar)>;

/// A JSON-like parameter value handed to commands and plugins.
#[derive(Debug, PartialEq)]
pub enum ParamValue {
    Null,
    Bool(bool),
    Int(i64),
    /// A real, carried as the store's own value.
    Real(rusqlite::types::Value),
    Text(String),
    Array(Vec<ParamValue>),
    Object(Vec<(String, ParamValue)>),
}

/// How a parameter value is bound to the store: booleans become 0/1 integers,
/// arrays and objects become null.
pub open spec fn spec_scalar_of(p: ParamValue) -> Scalar {
    match p {
        ParamValue::Null => Scalar::Null,
        ParamValue::Bool(b) => Scalar::Int(
            if b {
                1
            } else {
                0
            },
        ),
        ParamValue::Int(i) => Scalar::Int(i),
        ParamValue::Real(rv) => Scalar::Real(rv),
        ParamValue::Text(s) => Scalar::Text(s),
        ParamValue::Array(_) => Scalar::Null,
        ParamValue::Object(_) => Scalar::Null,
    }
}

/// First-match lookup in an ordered field list.
pub open spec fn spec_lookup_param(fields: Seq<(String, ParamValue)>, k: Seq<char>) -> Option<
    ParamValue,
>
    decreases fields.len(),
{
    if fields.len() == 0 {
        None
    } else if fields[0].0@ == k {
        Some(fields[0].1)
    } else {
        spec_lookup_param(fields.drop_first(), k)
    }
}

/// What `ParamValue::get` returns: object fields are searched in order,
/// anything that is not an object has no fields.
pub open spec fn spec_param_get(p: ParamValue, k: Seq<char>) -> Option<ParamValue> {
    match p {
        ParamValue::Object(fields) => spec_lookup_param(fields@, k),
        _ => None,
    }
}

/// Character-for-character string comparison.
pub fn str_eq(a: &str, b: &str) -> (r: bool)
    ensures
        r == (a@ == b@),
{
    let na = a.unicode_len();
    let nb = b.unicode_len();
    if na != nb {
        return false;
    }
    let mut i: usize = 0;
    while i < na
        invariant
            i <= na,
            na == a@.len(),
            na == b@.len(),
            forall|j: int| 0 <= j < i ==> a@[j] == b@[j],
        decreases na - i,
    {
        if a.get_char(i) != b.get_char(i) {
            return false;
        }
        i += 1;
    }
    proof {
        assert(a@ =~= b@);
    }
    true
}

proof fn lemma_lookup_param_step(fields: Seq<(String, ParamValue)>, k: Seq<char>, i: int)
    requires
        0 <= i < fields.len(),
        forall|j: int| 0 <= j < i ==> fields[j].0@ != k,
    ensures
        spec_lookup_param(fields, k) == if fields[i].0@ == k {
            Some(fields[i].1)
        } else {
            spec_lookup_param(fields.subrange(i + 1, fields.len() as int), k)
        },
    decreases i,
{
    if i == 0 {
        assert(fields.drop_first() =~= fields.subrange(1, fields.len() as int));
    } else {
        lemma_lookup_param_step(fields.drop_first(), k, i - 1);
        assert(fields.drop_first()[i - 1] == fields[i]);
        assert(fields.drop_first().subrange(i, fields.len() as int - 1) =~= fields.subrange(
            i + 1,
            fields.len() as int,
        ));
    }
}

proof fn lemma_lookup_param_none(fields: Seq<(String, ParamValue)>, k: Seq<char>)
    requires
        forall|j: int| 0 <= j < fields.len() ==> fields[j].0@ != k,
    ensures
        spec_lookup_param(fields, k) is None,
    decreases fields.len(),
{
    if fields.len() > 0 {
        lemma_lookup_param_none(fields.drop_first(), k);
    }
}

/// First-match lookup in an ordered field list.
pub fn lookup_param<'a>(fields: &'a Vec<(String, ParamValue)>, key: &str) -> (r: Option<
    &'a ParamValue,
>)
    ensures
        match r {
            Some(v) => spec_lookup_param(fields@, key@) == Some(*v),
            None => spec_lookup_param(fields@, key@) is None,
        },
{
    let n = fields.len();
    let mut i: usize = 0;
    while i < n
        invariant
            i <= n,
            n == fields@.len(),
            forall|j: int| 0 <= j < i ==> fields@[j].0@ != key@,
        decreases n - i,
    {
        if str_eq(fields[i].0.as_str(), key) {
            proof {
                lemma_lookup_param_step(fields@, key@, i as int);
            }
            return Some(&fields[i].1);
        }
        i += 1;
    }
    proof {
        lemma_lookup_param_none(fields@, key@);
    }
    None
}

impl ParamValue {
    /// Field lookup: the first field of an object whose name matches `key`.
    pub fn get<'a>(&'a self, key: &str) -> (r: Option<&'a ParamValue>)
        ensures
            match r {
                Some(v) => spec_param_get(*self, key@) == Some(*v),
                None => spec_param_get(*self, key@) is None,
            },
    {
        match self {
            ParamValue::Object(fields) => lookup_param(fields, key),
            _ => None,
        }
    }

    /// The integer held, if this is an integer.
    pub fn as_i64(&self) -> (r: Option<i64>)
        ensures
            r == (match *self {
                ParamValue::Int(i) => Some(i),
                _ => None::<i64>,
            }),
    {
        match self {
            ParamValue::Int(i) => Some(*i),
            _ => None,
        }
    }

    /// The text held, if this is text.
    pub fn as_str<'a>(&'a self) -> (r: Option<&'a String>)
        ensures
            match r {
                Some(s) => *self matches ParamValue::Text(t) && t == *s,
                None => !(*self matches ParamValue::Text(_)),
            },
    {
        match self {
            ParamValue::Text(s) => Some(s),
            _ => None,
        }
    }

    /// The boolean held, if this is a boolean.
    pub fn as_bool(&self) -> (r: Option<bool>)
        ensures
            r == (match *self {
                ParamValue::Bool(b) => Some(b),
                _ => None::<bool>,
            }),
    {
        match self {
            ParamValue::Bool(b) => Some(*b),
            _ => None,
        }
    }

    /// The fields held, if this is an object.
    pub fn as_object<'a>(&'a self) -> (r: Option<&'a Vec<(String, ParamValue)>>)
        ensures
            match r {
                Some(fields) => *self matches ParamValue::Object(f) && f == *fields,
                None => !(*self matches ParamValue::Object(_)),
            },
    {
        match self {
            ParamValue::Object(fields) => Some(fields),
            _ => None,
        }
    }

    /// The elements held, if this is an array.
    pub fn as_array<'a>(&'a self) -> (r: Option<&'a Vec<ParamValue>>)
        ensures
            match r {
                Some(items) => *self matches ParamValue::Array(a) && a == *items,
                None => !(*self matches ParamValue::Array(_)),
            },
    {
        match self {
            ParamValue::Array(items) => Some(items),
            _ => None,
        }
    }
}

/// Binds a parameter value as a scalar.
pub fn scalar_of(p: &ParamValue) -> (r: Scalar)
    ensures
        r == spec_scalar_of(*p),
{
    match p {
        ParamValue::Null => Scalar::Null,
        ParamValue::Bool(b) => Scalar::Int(
            if *b {
                1
            } else {
                0
            },
        ),
        ParamValue::Int(i) => Scalar::Int(*i),
        ParamValue::Real(rv) => Scalar::Real(rv.clone()),
        ParamValue::Text(s) => Scalar::Text(s.clone()),
        ParamValue::Array(_) => Scalar::Null,
        ParamValue::Object(_) => Scalar::Null,
    }
}

} // verus!
