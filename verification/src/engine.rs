//! The generic table engine: CRUD over plugin-owned tables.
//!
//! Every operation takes the table name through the validator first; column
//! names supplied by the caller are dropped when invalid (insert, filters) or
//! skipped (update), per the failure policy of each operation. Columns of a
//! selected row are re-derived from the store's own catalog, never trusted
//! from the caller.

use vstd::prelude::*;
use vstd::seq_lib::*;
use vstd::string::StrSliceExecFns;
use crate::errors::Error;
use crate::ident::{is_valid_identifier, valid_identifier};
use crate::sql::{
    build_delete_sql, build_insert_sql, build_select_sql, build_table_info_sql, build_update_sql,
};
use crate::store::{exec_sql, last_insert_rowid, now_timestamp, query_rows, Database};
use crate::value::{str_eq, DataMap, Row, Scalar};

verus! {

/// The entries of a data map whose keys pass the validator, in order.
pub open spec fn spec_valid_entries(d: Seq<(String, Scalar)>) -> Seq<(String, Scalar)> {
    d.filter(|p: (String, Scalar)| valid_identifier(p.0@))
}

/// The entries usable in an update's SET clause: valid keys other than `id`.
pub open spec fn spec_set_entries(d: Seq<(String, Scalar)>) -> Seq<(String, Scalar)> {
    d.filter(|p: (String, Scalar)| valid_identifier(p.0@) && p.0@ != "id"@)
}

/// Some key of the map passes the validator.
pub open spec fn spec_has_valid_key(d: Seq<(String, Scalar)>) -> bool {
    exists|i: int| 0 <= i < d.len() && valid_identifier(#[trigger] d[i].0@)
}

/// The map holds the key already.
pub open spec fn spec_has_key(d: Seq<(String, Scalar)>, k: Seq<char>) -> bool {
    exists|i: int| 0 <= i < d.len() && (#[trigger] d[i].0@) == k
}

/// The data map as the caller gave it, with the auto-populated timestamp
/// columns appended when the table declares them and the caller did not
/// supply them.
pub open spec fn spec_augmented(
    d: Seq<(String, Scalar)>,
    created: Option<String>,
    updated: Option<String>,
    now: i64,
) -> Seq<(String, Scalar)> {
    let d1 = match created {
        Some(c) => if !spec_has_key(d, c@) {
            d.push((c, Scalar::Int(now)))
        } else {
            d
        },
        None => d,
    };
    match updated {
        Some(u) => if !spec_has_key(d1, u@) {
            d1.push((u, Scalar::Int(now)))
        } else {
            d1
        },
        None => d1,
    }
}

/// The key column of each entry, in order.
pub open spec fn spec_keys_view(d: Seq<(String, Scalar)>) -> Seq<Seq<char>> {
    Seq::new(d.len(), |i: int| d[i].0@)
}

/// The value of each entry, in order.
pub open spec fn spec_vals_view(d: Seq<(String, Scalar)>) -> Seq<Scalar> {
    Seq::new(d.len(), |i: int| d[i].1)
}

proof fn lemma_filter_empty<A>(s: Seq<A>, pred: spec_fn(A) -> bool)
    ensures
        (s.filter(pred).len() == 0) <==> (forall|i: int| 0 <= i < s.len() ==> !pred(#[trigger] s[i])),
    decreases s.len(),
{
    reveal(Seq::filter);
    if s.len() > 0 {
        lemma_filter_empty(s.drop_last(), pred);
        assert(forall|i: int| 0 <= i < s.len() - 1 ==> s.drop_last()[i] == #[trigger] s[i]);
        if s.filter(pred).len() == 0 {
            assert(!pred(s.last()));
        }
    }
}

/// Copies the entries whose keys pass the validator, in order.
pub fn valid_entries(data: &DataMap) -> (r: DataMap)
    ensures
        r@ == spec_valid_entries(data@),
{
    let ghost pred = |p: (String, Scalar)| valid_identifier(p.0@);
    let mut out: DataMap = Vec::new();
    let n = data.len();
    let mut i: usize = 0;
    while i < n
        invariant
            i <= n,
            n == data@.len(),
            out@ =~= data@.subrange(0, i as int).filter(|p: (String, Scalar)| valid_identifier(p.0@)),
        decreases n - i,
    {
        let keep = is_valid_identifier(data[i].0.as_str());
        if keep {
            out.push((data[i].0.clone(), data[i].1.dup()));
        }
        proof {
            reveal(Seq::filter);
            let sub1 = data@.subrange(0, i as int + 1);
            assert(sub1.drop_last() =~= data@.subrange(0, i as int));
            assert(sub1.last() == data@[i as int]);
        }
        i += 1;
    }
    proof {
        assert(data@.subrange(0, n as int) =~= data@);
    }
    out
}

/// Copies the entries usable in a SET clause: valid keys other than `id`.
pub fn set_entries(data: &DataMap) -> (r: DataMap)
    ensures
        r@ == spec_set_entries(data@),
{
    let mut out: DataMap = Vec::new();
    let n = data.len();
    let mut i: usize = 0;
    while i < n
        invariant
            i <= n,
            n == data@.len(),
            out@ =~= data@.subrange(0, i as int).filter(
                |p: (String, Scalar)| valid_identifier(p.0@) && p.0@ != "id"@,
            ),
        decreases n - i,
    {
        let keep = is_valid_identifier(data[i].0.as_str()) && !str_eq(data[i].0.as_str(), "id");
        if keep {
            out.push((data[i].0.clone(), data[i].1.dup()));
        }
        proof {
            reveal(Seq::filter);
            let sub1 = data@.subrange(0, i as int + 1);
            assert(sub1.drop_last() =~= data@.subrange(0, i as int));
            assert(sub1.last() == data@[i as int]);
        }
        i += 1;
    }
    proof {
        assert(data@.subrange(0, n as int) =~= data@);
    }
    out
}

/// Whether the map holds the key.
pub fn has_key(data: &DataMap, k: &str) -> (r: bool)
    ensures
        r == spec_has_key(data@, k@),
{
    let n = data.len();
    let mut i: usize = 0;
    while i < n
        invariant
            i <= n,
            n == data@.len(),
            forall|j: int| 0 <= j < i ==> (#[trigger] data@[j].0@) != k@,
        decreases n - i,
    {
        if str_eq(data[i].0.as_str(), k) {
            return true;
        }
        i += 1;
    }
    false
}

/// An entry-for-entry copy of a data map.
pub fn dup_entries(data: &DataMap) -> (r: DataMap)
    ensures
        r@ == data@,
{
    let mut out: DataMap = Vec::new();
    let n = data.len();
    let mut i: usize = 0;
    while i < n
        invariant
            i <= n,
            n == data@.len(),
            out@ =~= data@.subrange(0, i as int),
        decreases n - i,
    {
        out.push((data[i].0.clone(), data[i].1.dup()));
        proof {
            assert(out@ =~= data@.subrange(0, i as int + 1));
        }
        i += 1;
    }
    proof {
        assert(data@.subrange(0, n as int) =~= data@);
    }
    out
}

/// Appends the auto timestamp columns the caller did not supply.
pub fn augment_with_timestamps(
    data: &DataMap,
    created: Option<String>,
    updated: Option<String>,
    now: i64,
) -> (r: DataMap)
    ensures
        r@ == spec_augmented(data@, created, updated, now),
{
    let mut out = dup_entries(data);
    match created {
        Some(c) => {
            if !has_key(&out, c.as_str()) {
                out.push((c, Scalar::Int(now)));
            }
        },
        None => {},
    }
    match updated {
        Some(u) => {
            if !has_key(&out, u.as_str()) {
                out.push((u, Scalar::Int(now)));
            }
        },
        None => {},
    }
    out
}

/// Splits a data map into its key list and its value list, in order.
pub fn split_entries(data: &DataMap) -> (r: (Vec<String>, Vec<Scalar>))
    ensures
        r.0.deep_view() == spec_keys_view(data@),
        r.1@ == spec_vals_view(data@),
{
    let mut keys: Vec<String> = Vec::new();
    let mut vals: Vec<Scalar> = Vec::new();
    let n = data.len();
    let mut i: usize = 0;
    while i < n
        invariant
            i <= n,
            n == data@.len(),
            keys@.len() == i,
            vals@.len() == i,
            forall|k: int| 0 <= k < i ==> keys@[k] == (#[trigger] data@[k]).0,
            forall|k: int| 0 <= k < i ==> vals@[k] == (#[trigger] data@[k]).1,
        decreases n - i,
    {
        keys.push(data[i].0.clone());
        vals.push(data[i].1.dup());
        i += 1;
    }
    proof {
        assert(keys.deep_view() =~= spec_keys_view(data@));
        assert(vals@ =~= spec_vals_view(data@));
    }
    (keys, vals)
}

/// A whitespace character for order-by parsing.
pub open spec fn is_space_char(c: char) -> bool {
    c == ' ' || c == '\t' || c == '\n' || c == '\r'
}

/// Length of the maximal non-space run at the head.
pub open spec fn spec_token_len(s: Seq<char>) -> int
    decreases s.len(),
{
    if s.len() == 0 || is_space_char(s[0]) {
        0
    } else {
        1 + spec_token_len(s.drop_first())
    }
}

proof fn lemma_token_len_bounds(s: Seq<char>)
    ensures
        0 <= spec_token_len(s) <= s.len(),
        forall|i: int| 0 <= i < spec_token_len(s) ==> !is_space_char(#[trigger] s[i]),
        spec_token_len(s) < s.len() ==> is_space_char(s[spec_token_len(s)]),
        s.len() > 0 && !is_space_char(s[0]) ==> spec_token_len(s) >= 1,
    decreases s.len(),
{
    if s.len() > 0 && !is_space_char(s[0]) {
        lemma_token_len_bounds(s.drop_first());
        let k = spec_token_len(s);
        assert forall|i: int| 0 <= i < k implies !is_space_char(#[trigger] s[i]) by {
            if i > 0 {
                assert(s[i] == s.drop_first()[i - 1]);
            }
        }
        if k < s.len() {
            assert(s[k] == s.drop_first()[k - 1]);
        }
    }
}

/// The whitespace-separated tokens of a string, in order.
pub open spec fn spec_tokens(s: Seq<char>) -> Seq<Seq<char>>
    decreases s.len(),
{
    if s.len() == 0 {
        Seq::empty()
    } else if is_space_char(s[0]) {
        spec_tokens(s.drop_first())
    } else {
        let k = spec_token_len(s);
        if 1 <= k <= s.len() {
            seq![s.subrange(0, k)] + spec_tokens(s.skip(k))
        } else {
            Seq::empty()
        }
    }
}

fn is_space_at(s: &str, j: usize) -> (r: bool)
    requires
        j < s@.len(),
    ensures
        r == is_space_char(s@[j as int]),
{
    let c = s.get_char(j);
    c == ' ' || c == '\t' || c == '\n' || c == '\r'
}

fn tokenize_from(s: &str, i: usize) -> (r: Vec<String>)
    requires
        i <= s@.len(),
    ensures
        r.deep_view() == spec_tokens(s@.skip(i as int)),
    decreases s@.len() - i,
{
    let n = s.unicode_len();
    if i == n {
        proof {
            assert(s@.skip(i as int) =~= Seq::<char>::empty());
        }
        return Vec::new();
    }
    let c = s.get_char(i);
    if c == ' ' || c == '\t' || c == '\n' || c == '\r' {
        let r = tokenize_from(s, i + 1);
        proof {
            assert(s@.skip(i as int).drop_first() =~= s@.skip(i as int + 1));
            assert(s@.skip(i as int)[0] == s@[i as int]);
        }
        return r;
    }
    // scan to the end of the token
    let mut j: usize = i;
    while j < n && !is_space_at(s, j)
        invariant
            i <= j <= n,
            n == s@.len(),
            forall|k: int| i <= k < j ==> !is_space_char(#[trigger] s@[k]),
        decreases n - j,
    {
        j += 1;
    }
    proof {
        lemma_token_len_bounds(s@.skip(i as int));
        lemma_token_len_eq(s@.skip(i as int), j - i);
    }
    let token = s.substring_char(i, j);
    let mut rest = tokenize_from(s, j);
    rest.insert(0, token.to_owned());
    proof {
        assert(s@.skip(i as int).subrange(0, j - i) =~= s@.subrange(i as int, j as int));
        assert(s@.skip(i as int).skip(j - i) =~= s@.skip(j as int));
        assert(rest.deep_view() =~= spec_tokens(s@.skip(i as int)));
    }
    rest
}

proof fn lemma_token_len_eq(s: Seq<char>, k: int)
    requires
        0 <= k <= s.len(),
        forall|i: int| 0 <= i < k ==> !is_space_char(#[trigger] s[i]),
        k == s.len() || is_space_char(s[k]),
    ensures
        spec_token_len(s) == k,
    decreases s.len(),
{
    if k == 0 {
    } else {
        assert(!is_space_char(s[0]));
        lemma_token_len_eq(s.drop_first(), k - 1);
    }
}

/// The whitespace-separated tokens of a string.
pub fn tokenize(s: &str) -> (r: Vec<String>)
    ensures
        r.deep_view() == spec_tokens(s@),
{
    let r = tokenize_from(s, 0);
    proof {
        assert(s@.skip(0) =~= s@);
    }
    r
}

/// How an order-by argument is read: one token that is a valid identifier
/// means ascending order on that column; a valid identifier followed by `ASC`
/// or `DESC` picks the direction; anything else is ignored.
pub open spec fn spec_parse_order_by(s: Seq<char>) -> Option<(Seq<char>, bool)> {
    let ts = spec_tokens(s);
    if ts.len() == 1 && valid_identifier(ts[0]) {
        Some((ts[0], true))
    } else if ts.len() == 2 && valid_identifier(ts[0]) && (ts[1] == "ASC"@ || ts[1] == "DESC"@) {
        Some((ts[0], ts[1] == "ASC"@))
    } else {
        None
    }
}

/// Parses an order-by argument; a malformed one yields no ordering rather
/// than an error.
pub fn parse_order_by(s: &str) -> (r: Option<(String, bool)>)
    ensures
        r.deep_view() == spec_parse_order_by(s@),
{
    let tokens = tokenize(s);
    if tokens.len() == 1 {
        if is_valid_identifier(tokens[0].as_str()) {
            let col = tokens[0].clone();
            return Some((col, true));
        }
        return None;
    }
    if tokens.len() == 2 {
        if is_valid_identifier(tokens[0].as_str()) {
            let asc = str_eq(tokens[1].as_str(), "ASC");
            let desc = str_eq(tokens[1].as_str(), "DESC");
            if asc || desc {
                let col = tokens[0].clone();
                return Some((col, asc));
            }
        }
        return None;
    }
    None
}

impl Database {
    /// Creates the catalog side table that records, per plugin table, which
    /// column is auto-populated at creation and which at update.
    pub fn init_plugin_support(&self) -> (r: Result<(), Error>)
    {
        let params: Vec<Scalar> = Vec::new();
        match exec_sql(
            &self.conn,
            "CREATE TABLE IF NOT EXISTS plugin_auto_timestamps (table_name TEXT PRIMARY KEY, created_at_col TEXT, updated_at_col TEXT)",
            &params,
        ) {
            Ok(_) => Ok(()),
            Err(m) => Err(Error::StoreFailure(m)),
        }
    }

    /// Records which columns of a plugin table are auto-populated timestamps.
    /// Exactly when the table name or a named column fails validation, the
    /// call fails with `InvalidIdentifier`; anything else that goes wrong is
    /// the store's failure.
    pub fn set_auto_timestamps(
        &self,
        table: &str,
        created: Option<&str>,
        updated: Option<&str>,
    ) -> (r: Result<(), Error>)
        ensures
            (r == Err::<(), Error>(Error::InvalidIdentifier)) <==> !(valid_identifier(table@) && (
            created matches Some(c) ==> valid_identifier(c@)) && (updated matches Some(u)
                ==> valid_identifier(u@))),
            r matches Err(e) ==> (e matches Error::InvalidIdentifier || e
                matches Error::StoreFailure(_)),
    {
        if !is_valid_identifier(table) {
            return Err(Error::InvalidIdentifier);
        }
        let mut params: Vec<Scalar> = Vec::new();
        params.push(Scalar::Text(table.to_owned()));
        match created {
            Some(c) => {
                if !is_valid_identifier(c) {
                    return Err(Error::InvalidIdentifier);
                }
                params.push(Scalar::Text(c.to_owned()));
            },
            None => params.push(Scalar::Null),
        }
        match updated {
            Some(u) => {
                if !is_valid_identifier(u) {
                    return Err(Error::InvalidIdentifier);
                }
                params.push(Scalar::Text(u.to_owned()));
            },
            None => params.push(Scalar::Null),
        }
        match exec_sql(
            &self.conn,
            "INSERT OR REPLACE INTO plugin_auto_timestamps (table_name, created_at_col, updated_at_col) VALUES (?, ?, ?)",
            &params,
        ) {
            Ok(_) => Ok(()),
            Err(m) => Err(Error::StoreFailure(m)),
        }
    }

    /// The auto timestamp column names recorded for a table, if any.
    pub(crate) fn auto_timestamp_columns(&self, table: &str) -> (r: Result<
        (Option<String>, Option<String>),
        Error,
    >)
        ensures
            r matches Err(e) ==> e matches Error::StoreFailure(_),
    {
        let mut params: Vec<Scalar> = Vec::new();
        params.push(Scalar::Text(table.to_owned()));
        match query_rows(
            &self.conn,
            "SELECT created_at_col, updated_at_col FROM plugin_auto_timestamps WHERE table_name = ?",
            &params,
            2,
        ) {
            Err(m) => Err(Error::StoreFailure(m)),
            Ok(rows) => {
                if rows.len() == 0 {
                    return Ok((None, None));
                }
                let row = &rows[0];
                let created = match &row[0] {
                    Scalar::Text(s) => Some(s.clone()),
                    _ => None,
                };
                let updated = match &row[1] {
                    Scalar::Text(s) => Some(s.clone()),
                    _ => None,
                };
                Ok((created, updated))
            },
        }
    }

    /// The column names of a table, read from the store's own catalog. An
    /// absent table has no columns.
    pub(crate) fn table_columns(&self, table: &str) -> (r: Result<Vec<String>, Error>)
        requires
            valid_identifier(table@),
        ensures
            r matches Err(e) ==> e matches Error::StoreFailure(_),
    {
        let sql = build_table_info_sql(table);
        let params: Vec<Scalar> = Vec::new();
        match query_rows(&self.conn, sql.as_str(), &params, 2) {
            Err(m) => Err(Error::StoreFailure(m)),
            Ok(raw) => {
                let mut cols: Vec<String> = Vec::new();
                let n = raw.len();
                let mut i: usize = 0;
                while i < n
                    invariant
                        i <= n,
                        n == raw@.len(),
                        forall|k: int|
                            0 <= k < raw@.len() ==> (#[trigger] raw@[k])@.len() == 2,
                    decreases n - i,
                {
                    match &raw[i][1] {
                        Scalar::Text(s) => cols.push(s.clone()),
                        _ => {},
                    }
                    i += 1;
                }
                Ok(cols)
            },
        }
    }

    /// Inserts a row, with the table's auto-timestamp catalog entry and the
    /// clock reading supplied by the caller. Exactly when the table name
    /// fails validation, the call fails with `InvalidIdentifier`; exactly
    /// when no valid column is left after dropping invalid keys and adding
    /// the missing timestamps, it fails with `NoValidColumns`.
    pub fn insert_row(
        &self,
        table: &str,
        data: &DataMap,
        created: Option<String>,
        updated: Option<String>,
        now: i64,
    ) -> (r: Result<i64, Error>)
        ensures
            (r == Err::<i64, Error>(Error::InvalidIdentifier)) <==> !valid_identifier(table@),
            r matches Err(e) ==> (e matches Error::InvalidIdentifier || e
                matches Error::NoValidColumns || e matches Error::StoreFailure(_)),
            (r == Err::<i64, Error>(Error::NoValidColumns)) <==> (valid_identifier(table@)
                && spec_valid_entries(spec_augmented(data@, created, updated, now)).len() == 0),
    {
        if !is_valid_identifier(table) {
            return Err(Error::InvalidIdentifier);
        }
        let augmented = augment_with_timestamps(data, created, updated, now);
        let entries = valid_entries(&augmented);
        if entries.len() == 0 {
            return Err(Error::NoValidColumns);
        }
        let (keys, vals) = split_entries(&entries);
        let sql = build_insert_sql(table, &keys);
        match exec_sql(&self.conn, sql.as_str(), &vals) {
            Err(m) => Err(Error::StoreFailure(m)),
            Ok(_) => Ok(last_insert_rowid(&self.conn)),
        }
    }

    /// Inserts a row into a plugin table and returns the new row id. Keys
    /// failing validation are dropped silently; auto timestamp columns the
    /// caller did not supply are set to the current time.
    pub fn plugin_insert_table(&self, table: &str, data: &DataMap) -> (r: Result<i64, Error>)
        ensures
            !valid_identifier(table@) ==> r == Err::<i64, Error>(Error::InvalidIdentifier),
            r == Err::<i64, Error>(Error::InvalidIdentifier) ==> !valid_identifier(table@),
            r == Err::<i64, Error>(Error::NoValidColumns) ==> !spec_has_valid_key(data@),
            r matches Err(e) ==> (e matches Error::InvalidIdentifier || e
                matches Error::NoValidColumns || e matches Error::StoreFailure(_)),
    {
        if !is_valid_identifier(table) {
            return Err(Error::InvalidIdentifier);
        }
        let (created, updated) = match self.auto_timestamp_columns(table) {
            Ok(pair) => pair,
            Err(e) => {
                return Err(e);
            },
        };
        let now = now_timestamp();
        let r = self.insert_row(table, data, created, updated, now);
        proof {
            if r == Err::<i64, Error>(Error::NoValidColumns) {
                let aug = spec_augmented(data@, created, updated, now);
                lemma_filter_empty(aug, |p: (String, Scalar)| valid_identifier(p.0@));
                assert forall|i: int| 0 <= i < data@.len() implies !valid_identifier(
                    #[trigger] data@[i].0@,
                ) by {
                    lemma_augmented_keeps_prefix(data@, created, updated, now);
                    assert(aug[i] == data@[i]);
                }
            }
        }
        r
    }

    /// Updates one row by id, with the table's auto-updated column and the
    /// clock reading supplied by the caller. Exactly when the table name
    /// fails validation, the call fails with `InvalidIdentifier`; when no
    /// valid SET column remains, the call is a no-op returning zero.
    pub fn update_row(
        &self,
        table: &str,
        id: i64,
        data: &DataMap,
        updated: Option<String>,
        now: i64,
    ) -> (r: Result<usize, Error>)
        ensures
            (r == Err::<usize, Error>(Error::InvalidIdentifier)) <==> !valid_identifier(table@),
            r matches Err(e) ==> (e matches Error::InvalidIdentifier || e
                matches Error::StoreFailure(_)),
            (valid_identifier(table@) && spec_set_entries(
                spec_augmented(data@, None, updated, now),
            ).len() == 0) ==> r == Ok::<usize, Error>(0),
    {
        if !is_valid_identifier(table) {
            return Err(Error::InvalidIdentifier);
        }
        let augmented = augment_with_timestamps(data, None, updated, now);
        let entries = set_entries(&augmented);
        if entries.len() == 0 {
            return Ok(0);
        }
        let (keys, mut vals) = split_entries(&entries);
        vals.push(Scalar::Int(id));
        let sql = build_update_sql(table, &keys);
        match exec_sql(&self.conn, sql.as_str(), &vals) {
            Err(m) => Err(Error::StoreFailure(m)),
            Ok(n) => Ok(n),
        }
    }

    /// Updates one row of a plugin table by id and returns the number of rows
    /// changed. The reserved key `id` and keys failing validation are
    /// skipped; an auto-updated timestamp column the caller did not supply is
    /// set to the current time; a data map with nothing valid left is a
    /// no-op returning zero, not an error.
    pub fn plugin_update_table(&self, table: &str, id: i64, data: &DataMap) -> (r: Result<
        usize,
        Error,
    >)
        ensures
            !valid_identifier(table@) ==> r == Err::<usize, Error>(Error::InvalidIdentifier),
            r == Err::<usize, Error>(Error::InvalidIdentifier) ==> !valid_identifier(table@),
            r matches Err(e) ==> (e matches Error::InvalidIdentifier || e
                matches Error::StoreFailure(_)),
    {
        if !is_valid_identifier(table) {
            return Err(Error::InvalidIdentifier);
        }
        let (_, updated) = match self.auto_timestamp_columns(table) {
            Ok(pair) => pair,
            Err(e) => {
                return Err(e);
            },
        };
        let now = now_timestamp();
        self.update_row(table, id, data, updated, now)
    }

    /// Deletes one row of a plugin table by id and returns the number of
    /// rows deleted.
    pub fn plugin_delete_table(&self, table: &str, id: i64) -> (r: Result<usize, Error>)
        ensures
            (r == Err::<usize, Error>(Error::InvalidIdentifier)) <==> !valid_identifier(table@),
            r matches Err(e) ==> (e matches Error::InvalidIdentifier || e
                matches Error::StoreFailure(_)),
    {
        if !is_valid_identifier(table) {
            return Err(Error::InvalidIdentifier);
        }
        let sql = build_delete_sql(table);
        let mut params: Vec<Scalar> = Vec::new();
        params.push(Scalar::Int(id));
        match exec_sql(&self.conn, sql.as_str(), &params) {
            Err(m) => Err(Error::StoreFailure(m)),
            Ok(n) => Ok(n),
        }
    }

    /// Selects rows from a plugin table. Columns are discovered from the
    /// store's catalog; filters are equality-only and ANDed, and filter keys
    /// failing validation are dropped; a malformed order-by is ignored; a
    /// limit outside `1..=10000` is ignored.
    pub fn plugin_select_table(
        &self,
        table: &str,
        filters: Option<&DataMap>,
        order_by: Option<&str>,
        limit: Option<i64>,
    ) -> (r: Result<Vec<Row>, Error>)
        ensures
            !valid_identifier(table@) ==> r == Err::<Vec<Row>, Error>(Error::InvalidIdentifier),
            r matches Ok(rows) ==> valid_identifier(table@),
            r matches Err(e) ==> (e matches Error::InvalidIdentifier || e
                matches Error::TableNotFound || e matches Error::StoreFailure(_)),
            r matches Ok(rows) ==> forall|i: int, j: int|
                0 <= i < rows@.len() && 0 <= j < rows@[i]@.len() ==> valid_identifier(
                    (#[trigger] rows@[i]@[j]).0@,
                ),
            r matches Ok(rows) ==> forall|i: int|
                0 <= i < rows@.len() ==> (#[trigger] rows@[i])@.len() == rows@[0]@.len(),
            r matches Ok(rows) ==> forall|i: int, j: int|
                0 <= i < rows@.len() && 0 <= j < rows@[i]@.len() ==> (#[trigger] rows@[i]@[j]).0@
                    == rows@[0]@[j].0@,
    {
        if !is_valid_identifier(table) {
            return Err(Error::InvalidIdentifier);
        }
        let cols = match self.table_columns(table) {
            Ok(cols) => cols,
            Err(e) => {
                return Err(e);
            },
        };
        if cols.len() == 0 {
            return Err(Error::TableNotFound);
        }
        let mut ci: usize = 0;
        while ci < cols.len()
            invariant
                ci <= cols@.len(),
                forall|j: int| 0 <= j < ci ==> valid_identifier((#[trigger] cols@[j])@),
            decreases cols@.len() - ci,
        {
            if !is_valid_identifier(cols[ci].as_str()) {
                return Err(Error::InvalidIdentifier);
            }
            ci += 1;
        }
        let fentries = match filters {
            Some(f) => valid_entries(f),
            None => Vec::new(),
        };
        let (fkeys, mut params) = split_entries(&fentries);
        let order = match order_by {
            Some(ob) => parse_order_by(ob),
            None => None,
        };
        match limit {
            Some(l) => {
                if 0 < l && l <= 10000 {
                    params.push(Scalar::Int(l));
                }
            },
            None => {},
        }
        let sql = build_select_sql(table, &cols, &fkeys, &order, &limit);
        match query_rows(&self.conn, sql.as_str(), &params, cols.len()) {
            Err(m) => Err(Error::StoreFailure(m)),
            Ok(raw) => {
                let rows = rows_with_names(&cols, raw);
                proof {
                    assert forall|i: int, j: int|
                        0 <= i < rows@.len() && 0 <= j < rows@[i]@.len() implies valid_identifier(
                        (#[trigger] rows@[i]@[j]).0@,
                    ) by {
                        assert(rows@[i]@[j].0@ == cols@[j]@);
                    }
                    assert forall|i: int, j: int|
                        0 <= i < rows@.len() && 0 <= j < rows@[i]@.len() implies (
                    #[trigger] rows@[i]@[j]).0@ == rows@[0]@[j].0@ by {
                        assert(rows@[i]@[j].0@ == cols@[j]@);
                        assert(rows@[0]@[j].0@ == cols@[j]@);
                    }
                }
                Ok(rows)
            },
        }
    }
}

proof fn lemma_augmented_keeps_prefix(
    d: Seq<(String, Scalar)>,
    created: Option<String>,
    updated: Option<String>,
    now: i64,
)
    ensures
        spec_augmented(d, created, updated, now).len() >= d.len(),
        forall|i: int|
            0 <= i < d.len() ==> spec_augmented(d, created, updated, now)[i] == #[trigger] d[i],
{
}

/// Labels each cell of each raw row with the discovered column names.
pub fn rows_with_names(cols: &Vec<String>, raw: Vec<Vec<Scalar>>) -> (r: Vec<Row>)
    requires
        forall|i: int| 0 <= i < raw@.len() ==> (#[trigger] raw@[i])@.len() == cols@.len(),
    ensures
        r@.len() == raw@.len(),
        forall|i: int|
            0 <= i < r@.len() ==> (#[trigger] r@[i])@.len() == cols@.len() && (forall|j: int|
                0 <= j < cols@.len() ==> (#[trigger] r@[i]@[j]).0@ == cols@[j]@ && r@[i]@[j].1
                    == raw@[i]@[j]),
{
    let mut out: Vec<Row> = Vec::new();
    let n = raw.len();
    let ncols = cols.len();
    let mut i: usize = 0;
    while i < n
        invariant
            i <= n,
            n == raw@.len(),
            ncols == cols@.len(),
            forall|k: int| 0 <= k < raw@.len() ==> (#[trigger] raw@[k])@.len() == cols@.len(),
            out@.len() == i,
            forall|k: int|
                0 <= k < i ==> (#[trigger] out@[k])@.len() == cols@.len() && (forall|j: int|
                    0 <= j < cols@.len() ==> (#[trigger] out@[k]@[j]).0@ == cols@[j]@
                        && out@[k]@[j].1 == raw@[k]@[j]),
        decreases n - i,
    {
        let mut row: Row = Vec::new();
        let mut j: usize = 0;
        while j < ncols
            invariant
                j <= ncols,
                i < n,
                n == raw@.len(),
                ncols == cols@.len(),
                forall|k: int| 0 <= k < raw@.len() ==> (#[trigger] raw@[k])@.len() == cols@.len(),
                row@.len() == j,
                forall|k: int|
                    0 <= k < j ==> (#[trigger] row@[k]).0@ == cols@[k]@ && row@[k].1
                        == raw@[i as int]@[k],
            decreases ncols - j,
        {
            row.push((cols[j].clone(), raw[i][j].dup()));
            j += 1;
        }
        out.push(row);
        i += 1;
    }
    out
}

} // verus!
