//! Applying schema changes against the store, once, at plugin activation.
//!
//! Every name in a change — table, column, index, type, foreign-key target —
//! must pass the identifier validator, and a column default must be a plain
//! literal (word characters with sign, dot, or hash, optionally wrapped in
//! single quotes with no quote inside), since a default is the one piece of
//! caller text that cannot be bound as a parameter.

use vstd::prelude::*;
use vstd::string::StringExecFns;
use vstd::string::StrSliceExecFns;
use crate::errors::Error;
use crate::extensions::{SchemaChange, TableColumn};
use crate::ident::{is_valid_identifier, is_word_char, valid_identifier};
use crate::sql::{push_col_list, push_quoted, spec_col_list, spec_quoted};
use crate::store::{exec_sql, Database};
use crate::value::Scalar;

verus! {

/// A character allowed in an unquoted default literal.
pub open spec fn is_plain_default_char(c: char) -> bool {
    is_word_char(c) || c == '.' || c == '+' || c == '-' || c == '#'
}

/// A default value safe to embed: a plain literal, or a single-quoted string
/// with no quote inside.
pub open spec fn spec_safe_default(s: Seq<char>) -> bool {
    ||| (s.len() > 0 && forall|i: int| 0 <= i < s.len() ==> is_plain_default_char(#[trigger] s[i]))
    ||| (s.len() >= 2 && s[0] == '\'' && s[s.len() - 1] == '\'' && forall|i: int|
        0 < i < s.len() - 1 ==> (#[trigger] s[i]) != '\'')
}

/// A non-empty string of plain default characters.
pub open spec fn spec_plain_default(s: Seq<char>) -> bool {
    s.len() > 0 && forall|i: int| 0 <= i < s.len() ==> is_plain_default_char(#[trigger] s[i])
}

/// Whether a default value is safe to embed in a statement.
pub fn is_safe_default(s: &str) -> (r: bool)
    ensures
        r == spec_safe_default(s@),
{
    let n = s.unicode_len();
    if n == 0 {
        return false;
    }
    if n >= 2 && s.get_char(0) == '\'' && s.get_char(n - 1) == '\'' {
        let mut i: usize = 1;
        while i < n - 1
            invariant
                1 <= i <= n - 1,
                n == s@.len(),
                n >= 2,
                s@[0] == '\'',
                s@[n - 1] == '\'',
                forall|j: int| 0 < j < i ==> (#[trigger] s@[j]) != '\'',
            decreases n - i,
        {
            if s.get_char(i) == '\'' {
                proof {
                    assert(!is_plain_default_char(s@[0]));
                    assert(!spec_safe_default(s@));
                }
                return false;
            }
            i += 1;
        }
        proof {
            assert(spec_safe_default(s@));
        }
        true
    } else {
        let r = check_plain(s);
        proof {
            // the quoted shape is ruled out here, so safety is plainness
            if !(s@.len() >= 2 && s@[0] == '\'' && s@[s@.len() - 1] == '\'') {
                assert(spec_safe_default(s@) == spec_plain_default(s@));
            }
        }
        r
    }
}

fn check_plain(s: &str) -> (r: bool)
    requires
        s@.len() > 0,
    ensures
        r == spec_plain_default(s@),
{
    let n = s.unicode_len();
    let mut i: usize = 0;
    while i < n
        invariant
            i <= n,
            n == s@.len(),
            forall|j: int| 0 <= j < i ==> is_plain_default_char(#[trigger] s@[j]),
        decreases n - i,
    {
        let c = s.get_char(i);
        let ok = ('a' <= c && c <= 'z') || ('A' <= c && c <= 'Z') || ('0' <= c && c <= '9') || c
            == '_' || c == '.' || c == '+' || c == '-' || c == '#';
        if !ok {
            proof {
                assert(!is_plain_default_char(s@[i as int]));
            }
            return false;
        }
        i += 1;
    }
    true
}

/// Every name of one column spec passes the validator, and its default, if
/// any, is safe to embed.
pub open spec fn spec_column_ok(c: TableColumn) -> bool {
    &&& valid_identifier(c.name@)
    &&& valid_identifier(c.column_type@)
    &&& (c.default matches Some(d) ==> spec_safe_default(d@))
    &&& (c.foreign_key matches Some(fk) ==> valid_identifier(fk.table@) && valid_identifier(
        fk.column@,
    ))
}

fn column_ok(c: &TableColumn) -> (r: bool)
    ensures
        r == spec_column_ok(*c),
{
    if !is_valid_identifier(c.name.as_str()) {
        return false;
    }
    if !is_valid_identifier(c.column_type.as_str()) {
        return false;
    }
    match &c.default {
        Some(d) => {
            if !is_safe_default(d.as_str()) {
                return false;
            }
        },
        None => {},
    }
    match &c.foreign_key {
        Some(fk) => {
            if !is_valid_identifier(fk.table.as_str()) {
                return false;
            }
            if !is_valid_identifier(fk.column.as_str()) {
                return false;
            }
        },
        None => {},
    }
    true
}

/// Every name of a schema change passes the validator (an `AddForeignKey`
/// never gets as far as a statement, so it has nothing to validate).
pub open spec fn spec_change_idents_ok(sc: SchemaChange) -> bool {
    match sc {
        SchemaChange::CreateTable { table, columns } => valid_identifier(table@) && forall|i: int|
            0 <= i < columns@.len() ==> spec_column_ok(#[trigger] columns@[i]),
        SchemaChange::AddColumn { table, column, column_type, default, foreign_key } => {
            &&& valid_identifier(table@)
            &&& valid_identifier(column@)
            &&& valid_identifier(column_type@)
            &&& (default matches Some(d) ==> spec_safe_default(d@))
            &&& (foreign_key matches Some(fk) ==> valid_identifier(fk.table@) && valid_identifier(
                fk.column@,
            ))
        },
        SchemaChange::AddIndex { table, index, columns } => valid_identifier(table@)
            && valid_identifier(index@) && forall|i: int|
            0 <= i < columns@.len() ==> valid_identifier((#[trigger] columns@[i])@),
        SchemaChange::AddForeignKey { .. } => true,
    }
}

/// A change that must bring at least one column.
pub open spec fn spec_change_nonempty(sc: SchemaChange) -> bool {
    match sc {
        SchemaChange::CreateTable { columns, .. } => columns@.len() > 0,
        SchemaChange::AddIndex { columns, .. } => columns@.len() > 0,
        _ => true,
    }
}

/// The rendering of one column definition, piece by piece: name and type,
/// then the primary-key, not-null, default and foreign-key clauses.
pub open spec fn spec_cd_name(c: TableColumn) -> Seq<char> {
    spec_quoted(c.name@) + " "@ + c.column_type@
}

pub open spec fn spec_cd_pk(c: TableColumn) -> Seq<char> {
    spec_cd_name(c) + (if c.primary_key {
        " PRIMARY KEY"@
    } else {
        Seq::empty()
    })
}

pub open spec fn spec_cd_null(c: TableColumn) -> Seq<char> {
    spec_cd_pk(c) + (if c.nullable {
        Seq::empty()
    } else {
        " NOT NULL"@
    })
}

pub open spec fn spec_cd_default(c: TableColumn) -> Seq<char> {
    spec_cd_null(c) + (match c.default {
        Some(d) => " DEFAULT "@ + d@,
        None => Seq::empty(),
    })
}

/// The rendering of one full column definition.
pub open spec fn spec_column_def(c: TableColumn) -> Seq<char> {
    spec_cd_default(c) + (match c.foreign_key {
        Some(fk) => " REFERENCES "@ + spec_quoted(fk.table@) + " ("@ + spec_quoted(fk.column@)
            + ")"@,
        None => Seq::empty(),
    })
}

/// The first `i` column definitions, comma-separated.
pub open spec fn spec_column_defs_prefix(cs: Seq<TableColumn>, i: int) -> Seq<char>
    decreases i,
{
    if i <= 0 {
        Seq::empty()
    } else if i == 1 {
        spec_column_def(cs[0])
    } else {
        spec_column_defs_prefix(cs, i - 1) + ", "@ + spec_column_def(cs[i - 1])
    }
}

/// The full text of a create-table statement.
pub open spec fn spec_create_table_sql(table: Seq<char>, cs: Seq<TableColumn>) -> Seq<char> {
    "CREATE TABLE IF NOT EXISTS "@ + spec_quoted(table) + " ("@ + spec_column_defs_prefix(
        cs,
        cs.len() as int,
    ) + ")"@
}

/// The full text of an add-column statement.
pub open spec fn spec_add_column_sql(table: Seq<char>, c: TableColumn) -> Seq<char> {
    "ALTER TABLE "@ + spec_quoted(table) + " ADD COLUMN "@ + spec_column_def(c)
}

/// The full text of a create-index statement.
pub open spec fn spec_add_index_sql(
    table: Seq<char>,
    index: Seq<char>,
    cols: Seq<Seq<char>>,
) -> Seq<char> {
    "CREATE INDEX IF NOT EXISTS "@ + spec_quoted(index) + " ON "@ + spec_quoted(table) + " ("@
        + spec_col_list(cols) + ")"@
}

/// Appends one plain piece, keeping the accumulated suffix in view.
fn append_piece(out: &mut String, s: &str, Ghost(base): Ghost<Seq<char>>, Ghost(acc): Ghost<
    Seq<char>,
>)
    requires
        old(out)@ == base + acc,
    ensures
        final (out)@ == base + (acc + s@),
{
    out.append(s);
    proof {
        vstd::seq_lib::lemma_concat_associative(base, acc, s@);
    }
}

/// Appends one quoted identifier, keeping the accumulated suffix in view.
fn append_quoted_piece(out: &mut String, ident: &str, Ghost(base): Ghost<Seq<char>>, Ghost(
    acc,
): Ghost<Seq<char>>)
    requires
        old(out)@ == base + acc,
    ensures
        final (out)@ == base + (acc + spec_quoted(ident@)),
{
    push_quoted(out, ident);
    proof {
        vstd::seq_lib::lemma_concat_associative(base, acc, spec_quoted(ident@));
    }
}

fn push_column_def(out: &mut String, c: &TableColumn)
    ensures
        final (out)@ == old(out)@ + spec_column_def(*c),
{
    let ghost base = out@;
    proof {
        assert(base + Seq::<char>::empty() =~= base);
    }
    append_quoted_piece(out, c.name.as_str(), Ghost(base), Ghost(Seq::empty()));
    proof {
        assert(Seq::<char>::empty() + spec_quoted(c.name@) =~= spec_quoted(c.name@));
    }
    append_piece(out, " ", Ghost(base), Ghost(spec_quoted(c.name@)));
    append_piece(out, c.column_type.as_str(), Ghost(base), Ghost(spec_quoted(c.name@) + " "@));
    if c.primary_key {
        append_piece(out, " PRIMARY KEY", Ghost(base), Ghost(spec_cd_name(*c)));
    } else {
        proof {
            assert(spec_cd_pk(*c) =~= spec_cd_name(*c));
        }
    }
    if !c.nullable {
        append_piece(out, " NOT NULL", Ghost(base), Ghost(spec_cd_pk(*c)));
    } else {
        proof {
            assert(spec_cd_null(*c) =~= spec_cd_pk(*c));
        }
    }
    match &c.default {
        Some(d) => {
            append_piece(out, " DEFAULT ", Ghost(base), Ghost(spec_cd_null(*c)));
            append_piece(out, d.as_str(), Ghost(base), Ghost(spec_cd_null(*c) + " DEFAULT "@));
            proof {
                vstd::seq_lib::lemma_concat_associative(spec_cd_null(*c), " DEFAULT "@, d@);
            }
        },
        None => {
            proof {
                assert(spec_cd_default(*c) =~= spec_cd_null(*c));
            }
        },
    }
    match &c.foreign_key {
        Some(fk) => {
            let ghost acc0 = spec_cd_default(*c);
            append_piece(out, " REFERENCES ", Ghost(base), Ghost(acc0));
            let ghost acc1 = acc0 + " REFERENCES "@;
            append_quoted_piece(out, fk.table.as_str(), Ghost(base), Ghost(acc1));
            let ghost acc2 = acc1 + spec_quoted(fk.table@);
            append_piece(out, " (", Ghost(base), Ghost(acc2));
            let ghost acc3 = acc2 + " ("@;
            append_quoted_piece(out, fk.column.as_str(), Ghost(base), Ghost(acc3));
            let ghost acc4 = acc3 + spec_quoted(fk.column@);
            append_piece(out, ")", Ghost(base), Ghost(acc4));
            proof {
                assert(acc4 + ")"@ =~= spec_column_def(*c));
            }
        },
        None => {
            proof {
                assert(spec_column_def(*c) =~= spec_cd_default(*c));
            }
        },
    }
}

fn build_create_table_sql(table: &str, columns: &Vec<TableColumn>) -> (r: String)
    ensures
        r@ == spec_create_table_sql(table@, columns@),
{
    let mut out = String::new();
    out.append("CREATE TABLE IF NOT EXISTS ");
    push_quoted(&mut out, table);
    out.append(" (");
    let ghost mid = out@;
    let n = columns.len();
    let mut i: usize = 0;
    while i < n
        invariant
            i <= n,
            n == columns@.len(),
            out@ == mid + spec_column_defs_prefix(columns@, i as int),
        decreases n - i,
    {
        if i > 0 {
            out.append(", ");
        }
        push_column_def(&mut out, &columns[i]);
        proof {
            assert(out@ =~= mid + spec_column_defs_prefix(columns@, i as int + 1));
        }
        i += 1;
    }
    out.append(")");
    proof {
        assert(out@ =~= spec_create_table_sql(table@, columns@));
    }
    out
}

/// Whether every column spec in the list is valid.
fn columns_ok(columns: &Vec<TableColumn>) -> (r: bool)
    ensures
        r == (forall|i: int| 0 <= i < columns@.len() ==> spec_column_ok(#[trigger] columns@[i])),
{
    let n = columns.len();
    let mut i: usize = 0;
    while i < n
        invariant
            i <= n,
            n == columns@.len(),
            forall|j: int| 0 <= j < i ==> spec_column_ok(#[trigger] columns@[j]),
        decreases n - i,
    {
        if !column_ok(&columns[i]) {
            return false;
        }
        i += 1;
    }
    true
}

/// Whether every name in the list passes the validator.
pub fn names_ok(names: &Vec<String>) -> (r: bool)
    ensures
        r == (forall|i: int|
            0 <= i < names@.len() ==> valid_identifier((#[trigger] names@[i])@)),
{
    let n = names.len();
    let mut i: usize = 0;
    while i < n
        invariant
            i <= n,
            n == names@.len(),
            forall|j: int| 0 <= j < i ==> valid_identifier((#[trigger] names@[j])@),
        decreases n - i,
    {
        if !is_valid_identifier(names[i].as_str()) {
            return false;
        }
        i += 1;
    }
    true
}

impl Database {
    /// Applies one schema change. Exactly the changes whose names all pass
    /// validation and that bring at least one column reach the store; adding
    /// a foreign key to an existing table is not supported by the store and
    /// is reported as such.
    pub fn apply_schema_change(&self, sc: &SchemaChange) -> (r: Result<(), Error>)
        ensures
            (r == Err::<(), Error>(Error::UnsupportedSchemaChange)) <==> (*sc
                matches SchemaChange::AddForeignKey { .. }),
            (r == Err::<(), Error>(Error::InvalidIdentifier)) <==> !spec_change_idents_ok(*sc),
            (r == Err::<(), Error>(Error::NoValidColumns)) <==> (spec_change_idents_ok(*sc)
                && !spec_change_nonempty(*sc)),
    {
        match sc {
            SchemaChange::CreateTable { table, columns } => {
                if !is_valid_identifier(table.as_str()) || !columns_ok(columns) {
                    return Err(Error::InvalidIdentifier);
                }
                if columns.len() == 0 {
                    return Err(Error::NoValidColumns);
                }
                let sql = build_create_table_sql(table.as_str(), columns);
                let params: Vec<Scalar> = Vec::new();
                match exec_sql(&self.conn, sql.as_str(), &params) {
                    Ok(_) => Ok(()),
                    Err(m) => Err(Error::StoreFailure(m)),
                }
            },
            SchemaChange::AddColumn { table, column, column_type, default, foreign_key } => {
                let col = TableColumn {
                    name: column.clone(),
                    column_type: column_type.clone(),
                    primary_key: false,
                    nullable: true,
                    default: match default {
                        Some(d) => Some(d.clone()),
                        None => None,
                    },
                    foreign_key: match foreign_key {
                        Some(fk) => Some(fk.dup()),
                        None => None,
                    },
                };
                if !is_valid_identifier(table.as_str()) {
                    return Err(Error::InvalidIdentifier);
                }
                if !column_ok(&col) {
                    return Err(Error::InvalidIdentifier);
                }
                let mut sql = String::new();
                sql.append("ALTER TABLE ");
                push_quoted(&mut sql, table.as_str());
                sql.append(" ADD COLUMN ");
                push_column_def(&mut sql, &col);
                proof {
                    assert(sql@ =~= spec_add_column_sql(table@, col));
                }
                let params: Vec<Scalar> = Vec::new();
                match exec_sql(&self.conn, sql.as_str(), &params) {
                    Ok(_) => Ok(()),
                    Err(m) => Err(Error::StoreFailure(m)),
                }
            },
            SchemaChange::AddIndex { table, index, columns } => {
                if !is_valid_identifier(table.as_str()) || !is_valid_identifier(index.as_str())
                    || !names_ok(columns) {
                    return Err(Error::InvalidIdentifier);
                }
                if columns.len() == 0 {
                    return Err(Error::NoValidColumns);
                }
                let mut sql = String::new();
                sql.append("CREATE INDEX IF NOT EXISTS ");
                push_quoted(&mut sql, index.as_str());
                sql.append(" ON ");
                push_quoted(&mut sql, table.as_str());
                sql.append(" (");
                push_col_list(&mut sql, columns);
                sql.append(")");
                proof {
                    assert(sql@ =~= spec_add_index_sql(table@, index@, columns.deep_view()));
                }
                let params: Vec<Scalar> = Vec::new();
                match exec_sql(&self.conn, sql.as_str(), &params) {
                    Ok(_) => Ok(()),
                    Err(m) => Err(Error::StoreFailure(m)),
                }
            },
            SchemaChange::AddForeignKey { .. } => Err(Error::UnsupportedSchemaChange),
        }
    }

    /// Applies a list of schema changes in order; the first failure aborts
    /// and propagates, and later changes are not applied.
    pub fn apply_schema_changes(&self, scs: &Vec<SchemaChange>) -> (r: Result<(), Error>) {
        let n = scs.len();
        let mut i: usize = 0;
        while i < n
            invariant
                i <= n,
                n == scs@.len(),
            decreases n - i,
        {
            match self.apply_schema_change(&scs[i]) {
                Ok(()) => {},
                Err(e) => {
                    return Err(e);
                },
            }
            i += 1;
        }
        Ok(())
    }
}

} // verus!
