//! Aggregation over plugin tables: count, sum, avg, min, max and group-by
//! with a per-group row count. Aggregation is best-effort and composable: a
//! requested aggregate whose target column fails validation is omitted from
//! the result rather than failing the call; only a malformed table name or a
//! store failure fails the whole call.

use vstd::prelude::*;
use vstd::string::StrSliceExecFns;
use crate::errors::Error;
use crate::ident::{is_valid_identifier, valid_identifier};
use crate::sql::{push_col_list, push_quoted, push_where_clause, spec_col_list, spec_quoted, spec_where_clause};
use crate::store::{query_rows, query_single_value, Database};
use crate::value::{DataMap, ParamValue, Row, Scalar, spec_param_get};
use crate::engine::{rows_with_names, split_entries, valid_entries};

verus! {

/// What a caller may request of one aggregation call. A `count` of `*`
/// counts all rows; a column name counts its non-null values.
pub struct AggregateSpec {
    pub count: Option<String>,
    pub sum: Option<String>,
    pub avg: Option<String>,
    pub min: Option<String>,
    pub max: Option<String>,
    pub group_by: Vec<String>,
}

/// The result of one aggregation call. A requested aggregate whose target
/// failed validation is absent; a sum over an empty set is zero, never
/// absent.
pub struct AggregateResult {
    pub total_count: Option<i64>,
    pub sum: Option<i64>,
    pub avg: Option<Scalar>,
    pub min: Option<i64>,
    pub max: Option<i64>,
    pub groups: Option<Vec<Row>>,
}

/// The requested count target: the `count` field when it is non-empty text.
pub open spec fn spec_count_req(p: ParamValue) -> Option<String> {
    match spec_param_get(p, "count"@) {
        Some(v) => match v {
            ParamValue::Text(s) => if s@.len() > 0 {
                Some(s)
            } else {
                None
            },
            _ => None,
        },
        None => None,
    }
}

/// A single-column aggregate target: the field when it is text.
pub open spec fn spec_col_req(p: ParamValue, k: Seq<char>) -> Option<String> {
    match spec_param_get(p, k) {
        Some(v) => match v {
            ParamValue::Text(s) => Some(s),
            _ => None,
        },
        None => None,
    }
}

/// The text items of a parameter list, in order; anything else is dropped.
pub open spec fn spec_text_items(items: Seq<ParamValue>) -> Seq<String>
    decreases items.len(),
{
    if items.len() == 0 {
        Seq::empty()
    } else {
        spec_text_items(items.drop_last()) + (match items.last() {
            ParamValue::Text(t) => seq![t],
            _ => Seq::empty(),
        })
    }
}

/// The requested group-by columns: the text items of the `group_by` list.
pub open spec fn spec_group_by_req(p: ParamValue) -> Seq<String> {
    match spec_param_get(p, "group_by"@) {
        Some(v) => match v {
            ParamValue::Array(items) => spec_text_items(items@),
            _ => Seq::empty(),
        },
        None => Seq::empty(),
    }
}

fn get_col_req(p: &ParamValue, k: &str) -> (r: Option<String>)
    ensures
        r == spec_col_req(*p, k@),
{
    match p.get(k) {
        Some(v) => match v.as_str() {
            Some(s) => Some(s.clone()),
            None => None,
        },
        None => None,
    }
}

impl AggregateSpec {
    /// Reads an aggregation request out of a parameter object, mirroring how
    /// the request travels over the command interface: `count` as non-empty
    /// text (the literal `*` meaning all rows), `sum`/`avg`/`min`/`max` each
    /// naming one column, and `group_by` as a list of column names.
    pub fn from_params(p: &ParamValue) -> (r: AggregateSpec)
        ensures
            r.count == spec_count_req(*p),
            r.sum == spec_col_req(*p, "sum"@),
            r.avg == spec_col_req(*p, "avg"@),
            r.min == spec_col_req(*p, "min"@),
            r.max == spec_col_req(*p, "max"@),
            r.group_by@ == spec_group_by_req(*p),
    {
        let count = match p.get("count") {
            Some(v) => match v.as_str() {
                Some(s) => if s.as_str().unicode_len() > 0 {
                    Some(s.clone())
                } else {
                    None
                },
                None => None,
            },
            None => None,
        };
        let group_by: Vec<String> = match p.get("group_by") {
            Some(v) => match v.as_array() {
                Some(items) => text_items(items),
                None => Vec::new(),
            },
            None => Vec::new(),
        };
        AggregateSpec {
            count,
            sum: get_col_req(p, "sum"),
            avg: get_col_req(p, "avg"),
            min: get_col_req(p, "min"),
            max: get_col_req(p, "max"),
            group_by,
        }
    }
}

fn text_items(items: &Vec<ParamValue>) -> (r: Vec<String>)
    ensures
        r@ == spec_text_items(items@),
{
    let mut out: Vec<String> = Vec::new();
    let n = items.len();
    let mut i: usize = 0;
    while i < n
        invariant
            i <= n,
            n == items@.len(),
            out@ =~= spec_text_items(items@.subrange(0, i as int)),
        decreases n - i,
    {
        match items[i].as_str() {
            Some(s) => out.push(s.clone()),
            None => {},
        }
        proof {
            let sub1 = items@.subrange(0, i as int + 1);
            assert(sub1.drop_last() =~= items@.subrange(0, i as int));
            assert(sub1.last() == items@[i as int]);
            assert(out@ =~= spec_text_items(sub1));
        }
        i += 1;
    }
    proof {
        assert(items@.subrange(0, n as int) =~= items@);
    }
    out
}

/// The names of a list that pass the validator, in order.
pub open spec fn spec_valid_names(ns: Seq<String>) -> Seq<String> {
    ns.filter(|n: String| valid_identifier(n@))
}

/// Keeps the names that pass the validator, in order.
pub fn valid_names(names: &Vec<String>) -> (r: Vec<String>)
    ensures
        r@ == spec_valid_names(names@),
{
    let mut out: Vec<String> = Vec::new();
    let n = names.len();
    let mut i: usize = 0;
    while i < n
        invariant
            i <= n,
            n == names@.len(),
            out@ =~= names@.subrange(0, i as int).filter(|nm: String| valid_identifier(nm@)),
        decreases n - i,
    {
        if is_valid_identifier(names[i].as_str()) {
            out.push(names[i].clone());
        }
        proof {
            reveal(Seq::filter);
            let sub1 = names@.subrange(0, i as int + 1);
            assert(sub1.drop_last() =~= names@.subrange(0, i as int));
            assert(sub1.last() == names@[i as int]);
        }
        i += 1;
    }
    proof {
        assert(names@.subrange(0, n as int) =~= names@);
    }
    out
}

/// `SELECT <expr> FROM "t"<where>` for one aggregate expression.
pub open spec fn spec_agg_sql(expr: Seq<char>, table: Seq<char>, fkeys: Seq<Seq<char>>) -> Seq<
    char,
> {
    "SELECT "@ + expr + " FROM "@ + spec_quoted(table) + spec_where_clause(fkeys)
}

/// The count expression: all rows for `*` or an invalid target, the column's
/// non-null values for a valid one.
pub open spec fn spec_count_expr(target: Seq<char>) -> Seq<char> {
    if target == "*"@ || !valid_identifier(target) {
        "COUNT(*)"@
    } else {
        "COUNT("@ + spec_quoted(target) + ")"@
    }
}

/// `SELECT "c1", ..., COUNT(*) FROM "t"<where> GROUP BY "c1", ...`.
pub open spec fn spec_group_sql(table: Seq<char>, gcols: Seq<Seq<char>>, fkeys: Seq<Seq<char>>) -> Seq<char> {
    "SELECT "@ + spec_col_list(gcols) + ", COUNT(*) FROM "@ + spec_quoted(table)
        + spec_where_clause(fkeys) + " GROUP BY "@ + spec_col_list(gcols)
}

fn build_count_sql(table: &str, target: &str, fkeys: &Vec<String>) -> (r: String)
    ensures
        r@ == spec_agg_sql(spec_count_expr(target@), table@, fkeys.deep_view()),
{
    let mut out = String::new();
    out.append("SELECT ");
    if crate::value::str_eq(target, "*") || !is_valid_identifier(target) {
        out.append("COUNT(*)");
    } else {
        out.append("COUNT(");
        push_quoted(&mut out, target);
        out.append(")");
    }
    out.append(" FROM ");
    push_quoted(&mut out, table);
    push_where_clause(&mut out, fkeys);
    proof {
        assert(out@ =~= spec_agg_sql(spec_count_expr(target@), table@, fkeys.deep_view()));
    }
    out
}

/// `<fname>("c")`, or `COALESCE(<fname>("c"), 0)` when a missing value must
/// read as zero.
fn build_fn_sql(table: &str, prefix: &str, col: &str, suffix: &str, fkeys: &Vec<String>) -> (r:
    String)
    ensures
        r@ == spec_agg_sql(prefix@ + spec_quoted(col@) + suffix@, table@, fkeys.deep_view()),
{
    let mut out = String::new();
    out.append("SELECT ");
    out.append(prefix);
    push_quoted(&mut out, col);
    out.append(suffix);
    out.append(" FROM ");
    push_quoted(&mut out, table);
    push_where_clause(&mut out, fkeys);
    proof {
        assert(out@ =~= spec_agg_sql(
            prefix@ + spec_quoted(col@) + suffix@,
            table@,
            fkeys.deep_view(),
        ));
    }
    out
}

fn build_group_sql(table: &str, gcols: &Vec<String>, fkeys: &Vec<String>) -> (r: String)
    ensures
        r@ == spec_group_sql(table@, gcols.deep_view(), fkeys.deep_view()),
{
    let mut out = String::new();
    out.append("SELECT ");
    push_col_list(&mut out, gcols);
    out.append(", COUNT(*) FROM ");
    push_quoted(&mut out, table);
    push_where_clause(&mut out, fkeys);
    out.append(" GROUP BY ");
    push_col_list(&mut out, gcols);
    proof {
        assert(out@ =~= spec_group_sql(table@, gcols.deep_view(), fkeys.deep_view()));
    }
    out
}

impl Database {
    /// Runs the requested aggregations over a plugin table. A malformed
    /// table name fails the whole call; a requested aggregate whose target
    /// fails validation is omitted from the result; a sum reads as zero over
    /// an empty set; a count or group-by failure propagates as a store
    /// error, so with neither requested the call always succeeds.
    pub fn plugin_aggregate_table(
        &self,
        table: &str,
        filters: Option<&DataMap>,
        aggs: &AggregateSpec,
    ) -> (r: Result<AggregateResult, Error>)
        ensures
            (r == Err::<AggregateResult, Error>(Error::InvalidIdentifier)) <==> !valid_identifier(
                table@,
            ),
            r matches Err(e) ==> (e matches Error::InvalidIdentifier || e
                matches Error::StoreFailure(_)),
            (valid_identifier(table@) && aggs.count is None && spec_valid_names(
                aggs.group_by@,
            ).len() == 0) ==> r is Ok,
            r matches Ok(res) ==> {
                &&& (res.total_count is Some) <==> (aggs.count is Some)
                &&& (res.sum is Some) ==> (aggs.sum matches Some(c) && valid_identifier(c@))
                &&& (res.avg is Some) ==> (aggs.avg matches Some(c) && valid_identifier(c@))
                &&& (res.min is Some) ==> (aggs.min matches Some(c) && valid_identifier(c@))
                &&& (res.max is Some) ==> (aggs.max matches Some(c) && valid_identifier(c@))
                &&& (res.groups is Some) <==> spec_valid_names(aggs.group_by@).len() > 0
            },
    {
        if !is_valid_identifier(table) {
            return Err(Error::InvalidIdentifier);
        }
        let fentries = match filters {
            Some(f) => valid_entries(f),
            None => Vec::new(),
        };
        let (fkeys, params) = split_entries(&fentries);

        let total_count = match &aggs.count {
            Some(target) => {
                let sql = build_count_sql(table, target.as_str(), &fkeys);
                match query_single_value(&self.conn, sql.as_str(), &params) {
                    Ok(Scalar::Int(n)) => Some(n),
                    Ok(_) => {
                        return Err(Error::StoreFailure("count yielded a non-integer".to_owned()));
                    },
                    Err(m) => {
                        return Err(Error::StoreFailure(m));
                    },
                }
            },
            None => None,
        };

        let sum = match &aggs.sum {
            Some(c) => {
                if is_valid_identifier(c.as_str()) {
                    let sql = build_fn_sql(table, "COALESCE(SUM(", c.as_str(), "), 0)", &fkeys);
                    match query_single_value(&self.conn, sql.as_str(), &params) {
                        Ok(Scalar::Int(n)) => Some(n),
                        _ => None,
                    }
                } else {
                    None
                }
            },
            None => None,
        };

        let avg = match &aggs.avg {
            Some(c) => {
                if is_valid_identifier(c.as_str()) {
                    let sql = build_fn_sql(table, "AVG(", c.as_str(), ")", &fkeys);
                    match query_single_value(&self.conn, sql.as_str(), &params) {
                        Ok(Scalar::Null) => None,
                        Ok(v) => Some(v),
                        Err(_) => None,
                    }
                } else {
                    None
                }
            },
            None => None,
        };

        let min = match &aggs.min {
            Some(c) => {
                if is_valid_identifier(c.as_str()) {
                    let sql = build_fn_sql(table, "MIN(", c.as_str(), ")", &fkeys);
                    match query_single_value(&self.conn, sql.as_str(), &params) {
                        Ok(Scalar::Int(n)) => Some(n),
                        _ => None,
                    }
                } else {
                    None
                }
            },
            None => None,
        };

        let max = match &aggs.max {
            Some(c) => {
                if is_valid_identifier(c.as_str()) {
                    let sql = build_fn_sql(table, "MAX(", c.as_str(), ")", &fkeys);
                    match query_single_value(&self.conn, sql.as_str(), &params) {
                        Ok(Scalar::Int(n)) => Some(n),
                        _ => None,
                    }
                } else {
                    None
                }
            },
            None => None,
        };

        let gcols = valid_names(&aggs.group_by);
        let groups = if gcols.len() > 0 {
            let sql = build_group_sql(table, &gcols, &fkeys);
            let mut labels = gcols;
            labels.push("count".to_owned());
            match query_rows(&self.conn, sql.as_str(), &params, labels.len()) {
                Ok(raw) => Some(rows_with_names(&labels, raw)),
                Err(m) => {
                    return Err(Error::StoreFailure(m));
                },
            }
        } else {
            None
        };

        Ok(AggregateResult { total_count, sum, avg, min, max, groups })
    }
}

} // verus!
