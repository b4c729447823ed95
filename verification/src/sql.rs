//! Verified construction of SQL text.
//!
//! Statement text is assembled here and nowhere else, and every identifier
//! that reaches it is required to have passed the validator, so a statement
//! can never carry caller-controlled syntax. Values never appear in the text:
//! they are always bound as `?` parameters. Each builder's contract equates
//! the produced text with a specification-level rendering, so callers can
//! reason about exactly which statement runs.

use vstd::prelude::*;
use vstd::string::StringExecFns;

verus! {

/// An identifier wrapped in double quotes. Quoting is sound with no escaping
/// because a valid identifier cannot contain a quote character.
pub open spec fn spec_quoted(s: Seq<char>) -> Seq<char> {
    "\""@ + s + "\""@
}

/// `"c1", "c2", ...` — a quoted, comma-separated column list (first `i`
/// entries).
pub open spec fn spec_col_list_prefix(cs: Seq<Seq<char>>, i: int) -> Seq<char>
    decreases i,
{
    if i <= 0 {
        Seq::empty()
    } else if i == 1 {
        spec_quoted(cs[0])
    } else {
        spec_col_list_prefix(cs, i - 1) + ", "@ + spec_quoted(cs[i - 1])
    }
}

pub open spec fn spec_col_list(cs: Seq<Seq<char>>) -> Seq<char> {
    spec_col_list_prefix(cs, cs.len() as int)
}

/// `"k1" = ? SEP "k2" = ? ...` — equality conditions over the first `i` keys,
/// joined by `sep` (` AND ` for filters, `, ` for update assignments).
pub open spec fn spec_eq_list_prefix(ks: Seq<Seq<char>>, sep: Seq<char>, i: int) -> Seq<char>
    decreases i,
{
    if i <= 0 {
        Seq::empty()
    } else if i == 1 {
        spec_quoted(ks[0]) + " = ?"@
    } else {
        spec_eq_list_prefix(ks, sep, i - 1) + sep + spec_quoted(ks[i - 1]) + " = ?"@
    }
}

pub open spec fn spec_eq_list(ks: Seq<Seq<char>>, sep: Seq<char>) -> Seq<char> {
    spec_eq_list_prefix(ks, sep, ks.len() as int)
}

/// ` WHERE k1 = ? AND ...`, or nothing when there is no condition.
pub open spec fn spec_where_clause(ks: Seq<Seq<char>>) -> Seq<char> {
    if ks.len() == 0 {
        Seq::empty()
    } else {
        " WHERE "@ + spec_eq_list(ks, " AND "@)
    }
}

/// `?, ?, ...` — `i` bind markers.
pub open spec fn spec_placeholders(i: int) -> Seq<char>
    decreases i,
{
    if i <= 0 {
        Seq::empty()
    } else if i == 1 {
        "?"@
    } else {
        spec_placeholders(i - 1) + ", ?"@
    }
}

/// A limit is honored only in `1..=10000`; anything else is ignored.
pub open spec fn spec_limit_honored(limit: Option<i64>) -> bool {
    limit matches Some(l) && 0 < l <= 10000
}

/// ` LIMIT ?` when the limit is honored, nothing otherwise.
pub open spec fn spec_limit_clause(limit: Option<i64>) -> Seq<char> {
    if spec_limit_honored(limit) {
        " LIMIT ?"@
    } else {
        Seq::empty()
    }
}

/// ` ORDER BY "c" ASC|DESC`, or nothing when no ordering was recognized.
pub open spec fn spec_order_clause(order: Option<(Seq<char>, bool)>) -> Seq<char> {
    match order {
        None => Seq::empty(),
        Some((c, asc)) => " ORDER BY "@ + spec_quoted(c) + (if asc {
            " ASC"@
        } else {
            " DESC"@
        }),
    }
}

/// The full text of a select statement.
pub open spec fn spec_select_sql(
    table: Seq<char>,
    cols: Seq<Seq<char>>,
    fkeys: Seq<Seq<char>>,
    order: Option<(Seq<char>, bool)>,
    limit: Option<i64>,
) -> Seq<char> {
    "SELECT "@ + spec_col_list(cols) + " FROM "@ + spec_quoted(table) + spec_where_clause(fkeys)
        + spec_order_clause(order) + spec_limit_clause(limit)
}

/// The full text of an insert statement.
pub open spec fn spec_insert_sql(table: Seq<char>, cols: Seq<Seq<char>>) -> Seq<char> {
    "INSERT INTO "@ + spec_quoted(table) + " ("@ + spec_col_list(cols) + ") VALUES ("@
        + spec_placeholders(cols.len() as int) + ")"@
}

/// The full text of an update-by-id statement.
pub open spec fn spec_update_sql(table: Seq<char>, setkeys: Seq<Seq<char>>) -> Seq<char> {
    "UPDATE "@ + spec_quoted(table) + " SET "@ + spec_eq_list(setkeys, ", "@) + " WHERE id = ?"@
}

/// The full text of a delete-by-id statement.
pub open spec fn spec_delete_sql(table: Seq<char>) -> Seq<char> {
    "DELETE FROM "@ + spec_quoted(table) + " WHERE id = ?"@
}

/// The full text of the catalog introspection statement.
pub open spec fn spec_table_info_sql(table: Seq<char>) -> Seq<char> {
    "PRAGMA table_info("@ + spec_quoted(table) + ")"@
}

/// Appends a quoted identifier.
pub fn push_quoted(out: &mut String, ident: &str)
    ensures
        final (out)@ == old(out)@ + spec_quoted(ident@),
{
    out.append("\"");
    out.append(ident);
    out.append("\"");
    proof {
        assert(final (out)@ =~= old(out)@ + spec_quoted(ident@));
    }
}

/// Appends a quoted, comma-separated column list.
pub fn push_col_list(out: &mut String, cols: &Vec<String>)
    ensures
        final (out)@ == old(out)@ + spec_col_list(cols.deep_view()),
{
    let ghost init = out@;
    let n = cols.len();
    let mut i: usize = 0;
    while i < n
        invariant
            i <= n,
            n == cols@.len(),
            out@ == init + spec_col_list_prefix(cols.deep_view(), i as int),
        decreases n - i,
    {
        if i > 0 {
            out.append(", ");
        }
        push_quoted(out, cols[i].as_str());
        proof {
            assert(cols.deep_view()[i as int] == cols@[i as int]@);
            assert(out@ =~= init + spec_col_list_prefix(cols.deep_view(), i as int + 1));
        }
        i += 1;
    }
    proof {
        assert(out@ =~= init + spec_col_list(cols.deep_view()));
    }
}

/// Appends `"k" = ?` conditions joined by `sep`.
pub fn push_eq_list(out: &mut String, keys: &Vec<String>, sep: &str)
    ensures
        final (out)@ == old(out)@ + spec_eq_list(keys.deep_view(), sep@),
{
    let ghost init = out@;
    let n = keys.len();
    let mut i: usize = 0;
    while i < n
        invariant
            i <= n,
            n == keys@.len(),
            out@ == init + spec_eq_list_prefix(keys.deep_view(), sep@, i as int),
        decreases n - i,
    {
        if i > 0 {
            out.append(sep);
        }
        push_quoted(out, keys[i].as_str());
        out.append(" = ?");
        proof {
            assert(keys.deep_view()[i as int] == keys@[i as int]@);
            assert(out@ =~= init + spec_eq_list_prefix(keys.deep_view(), sep@, i as int + 1));
        }
        i += 1;
    }
    proof {
        assert(out@ =~= init + spec_eq_list(keys.deep_view(), sep@));
    }
}

/// Appends ` WHERE ...` when there is at least one condition.
pub fn push_where_clause(out: &mut String, keys: &Vec<String>)
    ensures
        final (out)@ == old(out)@ + spec_where_clause(keys.deep_view()),
{
    if keys.len() > 0 {
        out.append(" WHERE ");
        push_eq_list(out, keys, " AND ");
        proof {
            assert(final (out)@ =~= old(out)@ + spec_where_clause(keys.deep_view()));
        }
    } else {
        proof {
            assert(final (out)@ =~= old(out)@ + spec_where_clause(keys.deep_view()));
        }
    }
}

/// Appends `n` bind markers.
pub fn push_placeholders(out: &mut String, n: usize)
    ensures
        final (out)@ == old(out)@ + spec_placeholders(n as int),
{
    let ghost init = out@;
    let mut i: usize = 0;
    while i < n
        invariant
            i <= n,
            out@ == init + spec_placeholders(i as int),
        decreases n - i,
    {
        if i > 0 {
            out.append(", ?");
        } else {
            out.append("?");
        }
        proof {
            assert(out@ =~= init + spec_placeholders(i as int + 1));
        }
        i += 1;
    }
}

/// Builds the catalog introspection statement.
pub fn build_table_info_sql(table: &str) -> (r: String)
    ensures
        r@ == spec_table_info_sql(table@),
{
    let mut out = String::new();
    out.append("PRAGMA table_info(");
    push_quoted(&mut out, table);
    out.append(")");
    proof {
        assert(out@ =~= spec_table_info_sql(table@));
    }
    out
}

/// Builds the full select statement.
pub fn build_select_sql(
    table: &str,
    cols: &Vec<String>,
    fkeys: &Vec<String>,
    order: &Option<(String, bool)>,
    limit: &Option<i64>,
) -> (r: String)
    ensures
        r@ == spec_select_sql(table@, cols.deep_view(), fkeys.deep_view(), order.deep_view(), *limit),
{
    let mut out = String::new();
    out.append("SELECT ");
    push_col_list(&mut out, cols);
    out.append(" FROM ");
    push_quoted(&mut out, table);
    push_where_clause(&mut out, fkeys);
    match order {
        None => {},
        Some((c, asc)) => {
            out.append(" ORDER BY ");
            push_quoted(&mut out, c.as_str());
            if *asc {
                out.append(" ASC");
            } else {
                out.append(" DESC");
            }
        },
    }
    match limit {
        Some(l) => {
            if 0 < *l && *l <= 10000 {
                out.append(" LIMIT ?");
            }
        },
        None => {},
    }
    proof {
        assert(out@ =~= spec_select_sql(
            table@,
            cols.deep_view(),
            fkeys.deep_view(),
            order.deep_view(),
            *limit,
        ));
    }
    out
}

/// Builds the full insert statement.
pub fn build_insert_sql(table: &str, cols: &Vec<String>) -> (r: String)
    ensures
        r@ == spec_insert_sql(table@, cols.deep_view()),
{
    let mut out = String::new();
    out.append("INSERT INTO ");
    push_quoted(&mut out, table);
    out.append(" (");
    push_col_list(&mut out, cols);
    out.append(") VALUES (");
    push_placeholders(&mut out, cols.len());
    out.append(")");
    proof {
        assert(cols.deep_view().len() == cols@.len());
        assert(out@ =~= spec_insert_sql(table@, cols.deep_view()));
    }
    out
}

/// Builds the full update-by-id statement.
pub fn build_update_sql(table: &str, setkeys: &Vec<String>) -> (r: String)
    ensures
        r@ == spec_update_sql(table@, setkeys.deep_view()),
{
    let mut out = String::new();
    out.append("UPDATE ");
    push_quoted(&mut out, table);
    out.append(" SET ");
    push_eq_list(&mut out, setkeys, ", ");
    out.append(" WHERE id = ?");
    proof {
        assert(out@ =~= spec_update_sql(table@, setkeys.deep_view()));
    }
    out
}

/// Builds the full delete-by-id statement.
pub fn build_delete_sql(table: &str) -> (r: String)
    ensures
        r@ == spec_delete_sql(table@),
{
    let mut out = String::new();
    out.append("DELETE FROM ");
    push_quoted(&mut out, table);
    out.append(" WHERE id = ?");
    proof {
        assert(out@ =~= spec_delete_sql(table@));
    }
    out
}

/// An honored limit leaves a trace in the statement; an out-of-range limit
/// builds exactly the statement that no limit at all builds.
pub proof fn lemma_out_of_range_limit_ignored(
    table: Seq<char>,
    cols: Seq<Seq<char>>,
    fkeys: Seq<Seq<char>>,
    order: Option<(Seq<char>, bool)>,
    limit: Option<i64>,
)
    requires
        !spec_limit_honored(limit),
    ensures
        spec_select_sql(table, cols, fkeys, order, limit) == spec_select_sql(
            table,
            cols,
            fkeys,
            order,
            None,
        ),
{
}

} // verus!
