//! The fixed core entities a capability object can reach: categories,
//! activities, manual entries, and the record of installed plugins. Their
//! statements are fixed text with bound parameters; only the
//! plugin-extended category columns go through the dynamic statement
//! builder, gated by the validator and the store's own catalog.

use vstd::prelude::*;
use vstd::seq_lib::*;
use vstd::string::StrSliceExecFns;
use vstd::string::StringExecFns;
use crate::errors::Error;
use crate::engine::{rows_with_names, split_entries};
use crate::extensions::{contains_str, spec_contains_str};
use crate::ident::{is_valid_identifier, valid_identifier};
use crate::model::Activity;
use crate::sql::build_update_sql;
use crate::store::{exec_sql, last_insert_rowid, query_rows, Database};
use crate::value::{str_eq, DataMap, Row, Scalar};

verus! {

/// One installed plugin as recorded in the store.
pub struct InstalledPluginInfo {
    pub id: String,
    pub name: String,
    pub version: String,
    pub description: Option<String>,
    pub repository_url: Option<String>,
    pub manifest_path: Option<String>,
    pub frontend_entry: Option<String>,
    pub frontend_components: Option<Vec<String>>,
    pub author: Option<String>,
    pub enabled: bool,
}

/// A core column of the categories table; everything else on that table is a
/// plugin-extended column.
pub open spec fn spec_is_core_category_column(s: Seq<char>) -> bool {
    ||| s == "id"@
    ||| s == "name"@
    ||| s == "color"@
    ||| s == "icon"@
    ||| s == "is_productive"@
    ||| s == "sort_order"@
    ||| s == "is_system"@
    ||| s == "is_pinned"@
}

/// Whether a column name belongs to the fixed core category columns.
pub fn is_core_category_column(s: &str) -> (r: bool)
    ensures
        r == spec_is_core_category_column(s@),
{
    str_eq(s, "id") || str_eq(s, "name") || str_eq(s, "color") || str_eq(s, "icon") || str_eq(
        s,
        "is_productive",
    ) || str_eq(s, "sort_order") || str_eq(s, "is_system") || str_eq(s, "is_pinned")
}

/// The data-map entries that may reach the SET clause of an extended
/// category update: a valid identifier, not a core column, present in the
/// table's own catalog.
pub open spec fn spec_extended_entries(
    d: Seq<(String, Scalar)>,
    catalog: Seq<String>,
) -> Seq<(String, Scalar)> {
    d.filter(
        |p: (String, Scalar)|
            valid_identifier(p.0@) && !spec_is_core_category_column(p.0@) && spec_contains_str(
                catalog,
                p.0@,
            ),
    )
}

fn extended_entries(data: &DataMap, catalog: &Vec<String>) -> (r: DataMap)
    ensures
        r@ == spec_extended_entries(data@, catalog@),
{
    let mut out: DataMap = Vec::new();
    let n = data.len();
    let mut i: usize = 0;
    while i < n
        invariant
            i <= n,
            n == data@.len(),
            out@ =~= spec_extended_entries(data@.subrange(0, i as int), catalog@),
        decreases n - i,
    {
        let k = data[i].0.as_str();
        let keep = is_valid_identifier(k) && !is_core_category_column(k) && contains_str(
            catalog,
            k,
        );
        if keep {
            out.push((data[i].0.clone(), data[i].1.dup()));
        }
        proof {
            reveal(Seq::filter);
            let sub1 = data@.subrange(0, i as int + 1);
            assert(sub1.drop_last() =~= data@.subrange(0, i as int));
            assert(sub1.last() == data@[i as int]);
        }
        i += 1;
    }
    proof {
        assert(data@.subrange(0, n as int) =~= data@);
    }
    out
}

fn opt_text(v: Option<&str>) -> (r: Scalar)
    ensures
        match v {
            Some(s) => r matches Scalar::Text(t) && t@ == s@,
            None => r == Scalar::Null,
        },
{
    match v {
        Some(s) => Scalar::Text(s.to_owned()),
        None => Scalar::Null,
    }
}

fn opt_int(v: Option<i64>) -> (r: Scalar)
    ensures
        r == (match v {
            Some(i) => Scalar::Int(i),
            None => Scalar::Null,
        }),
{
    match v {
        Some(i) => Scalar::Int(i),
        None => Scalar::Null,
    }
}

fn opt_bool_int(v: Option<bool>) -> (r: Scalar)
    ensures
        r == (match v {
            Some(b) => Scalar::Int(
                if b {
                    1
                } else {
                    0
                },
            ),
            None => Scalar::Null,
        }),
{
    match v {
        Some(b) => Scalar::Int(
            if b {
                1
            } else {
                0
            },
        ),
        None => Scalar::Null,
    }
}

fn bool_int(b: bool) -> (r: Scalar)
    ensures
        r == Scalar::Int(
            if b {
                1
            } else {
                0
            },
        ),
{
    Scalar::Int(
        if b {
            1
        } else {
            0
        },
    )
}

impl Database {
    /// Creates the fixed core tables if they are not there yet: categories,
    /// activities, manual entries, the installed-plugin records, and the
    /// settings table.
    pub fn init_core_schema(&self) -> (r: Result<(), Error>) 
        ensures
            r matches Err(e) ==> e matches Error::StoreFailure(_),
    {
        let none: Vec<Scalar> = Vec::new();
        let stmts: [&str; 5] = [
            "CREATE TABLE IF NOT EXISTS categories (id INTEGER PRIMARY KEY, name TEXT NOT NULL, color TEXT NOT NULL DEFAULT '#888888', icon TEXT, is_productive INTEGER, sort_order INTEGER NOT NULL DEFAULT 0, is_system INTEGER NOT NULL DEFAULT 0, is_pinned INTEGER NOT NULL DEFAULT 0)",
            "CREATE TABLE IF NOT EXISTS activities (id INTEGER PRIMARY KEY, started_at INTEGER NOT NULL, duration_sec INTEGER NOT NULL DEFAULT 0, is_idle INTEGER NOT NULL DEFAULT 0, category_id INTEGER)",
            "CREATE TABLE IF NOT EXISTS manual_entries (id INTEGER PRIMARY KEY, description TEXT, category_id INTEGER, started_at INTEGER NOT NULL, ended_at INTEGER NOT NULL)",
            "CREATE TABLE IF NOT EXISTS installed_plugins (id TEXT PRIMARY KEY, name TEXT NOT NULL, version TEXT NOT NULL, description TEXT, repository_url TEXT, manifest_path TEXT, frontend_entry TEXT, frontend_components TEXT, author TEXT, enabled INTEGER NOT NULL DEFAULT 0)",
            "CREATE TABLE IF NOT EXISTS settings (key TEXT PRIMARY KEY, value TEXT)",
        ];
        let mut i: usize = 0;
        while i < 5
            invariant
                i <= 5,
            decreases 5 - i,
        {
            match exec_sql(&self.conn, stmts[i], &none) {
                Ok(_) => {},
                Err(m) => {
                    return Err(Error::StoreFailure(m));
                },
            }
            i += 1;
        }
        Ok(())
    }

    /// Creates a category row from its core fields and returns its id.
    pub fn create_category_core(
        &self,
        name: &str,
        color: &str,
        icon: Option<&str>,
        is_productive: Option<bool>,
        sort_order: i64,
        is_system: bool,
        is_pinned: bool,
    ) -> (r: Result<i64, Error>) 
        ensures
            r matches Err(e) ==> e matches Error::StoreFailure(_),
    {
        let mut params: Vec<Scalar> = Vec::new();
        params.push(Scalar::Text(name.to_owned()));
        params.push(Scalar::Text(color.to_owned()));
        params.push(opt_text(icon));
        params.push(opt_bool_int(is_productive));
        params.push(Scalar::Int(sort_order));
        params.push(bool_int(is_system));
        params.push(bool_int(is_pinned));
        match exec_sql(
            &self.conn,
            "INSERT INTO categories (name, color, icon, is_productive, sort_order, is_system, is_pinned) VALUES (?, ?, ?, ?, ?, ?, ?)",
            &params,
        ) {
            Ok(_) => Ok(last_insert_rowid(&self.conn)),
            Err(m) => Err(Error::StoreFailure(m)),
        }
    }

    /// Updates the core fields of a category row.
    pub fn update_category_core(
        &self,
        id: i64,
        name: &str,
        color: &str,
        icon: Option<&str>,
        is_productive: Option<bool>,
        sort_order: i64,
        is_pinned: bool,
    ) -> (r: Result<usize, Error>) 
        ensures
            r matches Err(e) ==> e matches Error::StoreFailure(_),
    {
        let mut params: Vec<Scalar> = Vec::new();
        params.push(Scalar::Text(name.to_owned()));
        params.push(Scalar::Text(color.to_owned()));
        params.push(opt_text(icon));
        params.push(opt_bool_int(is_productive));
        params.push(Scalar::Int(sort_order));
        params.push(bool_int(is_pinned));
        params.push(Scalar::Int(id));
        match exec_sql(
            &self.conn,
            "UPDATE categories SET name = ?, color = ?, icon = ?, is_productive = ?, sort_order = ?, is_pinned = ? WHERE id = ?",
            &params,
        ) {
            Ok(n) => Ok(n),
            Err(m) => Err(Error::StoreFailure(m)),
        }
    }

    /// Deletes a category row by id.
    pub fn delete_category(&self, id: i64) -> (r: Result<usize, Error>) 
        ensures
            r matches Err(e) ==> e matches Error::StoreFailure(_),
    {
        let mut params: Vec<Scalar> = Vec::new();
        params.push(Scalar::Int(id));
        match exec_sql(&self.conn, "DELETE FROM categories WHERE id = ?", &params) {
            Ok(n) => Ok(n),
            Err(m) => Err(Error::StoreFailure(m)),
        }
    }

    /// All categories as generic rows over every column the catalog shows,
    /// plugin-extended columns included, ordered by sort order.
    pub fn get_categories_as_json(&self) -> (r: Result<Vec<Row>, Error>)
        ensures
            r matches Err(e) ==> (e matches Error::InvalidIdentifier || e
                matches Error::TableNotFound || e matches Error::StoreFailure(_)),
    {
        self.plugin_select_table("categories", None, Some("sort_order ASC"), None)
    }

    /// Updates only plugin-extended columns on a category row: keys that are
    /// valid identifiers, are not core columns, and exist in the catalog.
    /// With nothing applicable left this is a no-op returning zero.
    pub fn update_categories_extended(&self, id: i64, data: &DataMap) -> (r: Result<usize, Error>)
        ensures
            r matches Err(e) ==> (e matches Error::InvalidIdentifier || e
                matches Error::StoreFailure(_)),
    {
        if !is_valid_identifier("categories") {
            return Err(Error::InvalidIdentifier);
        }
        let catalog = match self.table_columns("categories") {
            Ok(cols) => cols,
            Err(e) => {
                return Err(e);
            },
        };
        let entries = extended_entries(data, &catalog);
        if entries.len() == 0 {
            return Ok(0);
        }
        let (keys, mut vals) = split_entries(&entries);
        vals.push(Scalar::Int(id));
        let sql = build_update_sql("categories", &keys);
        match exec_sql(&self.conn, sql.as_str(), &vals) {
            Ok(n) => Ok(n),
            Err(m) => Err(Error::StoreFailure(m)),
        }
    }

    /// Adds a manual entry and returns its id.
    pub fn add_manual_entry(
        &self,
        description: Option<&str>,
        category_id: Option<i64>,
        started_at: i64,
        ended_at: i64,
    ) -> (r: Result<i64, Error>) 
        ensures
            r matches Err(e) ==> e matches Error::StoreFailure(_),
    {
        let mut params: Vec<Scalar> = Vec::new();
        params.push(opt_text(description));
        params.push(opt_int(category_id));
        params.push(Scalar::Int(started_at));
        params.push(Scalar::Int(ended_at));
        match exec_sql(
            &self.conn,
            "INSERT INTO manual_entries (description, category_id, started_at, ended_at) VALUES (?, ?, ?, ?)",
            &params,
        ) {
            Ok(_) => Ok(last_insert_rowid(&self.conn)),
            Err(m) => Err(Error::StoreFailure(m)),
        }
    }

    /// The manual entries whose start falls in `[start, end]`, as generic
    /// rows, ordered by start.
    pub fn get_manual_entries(&self, start: i64, end: i64) -> (r: Result<Vec<Row>, Error>) 
        ensures
            r matches Err(e) ==> e matches Error::StoreFailure(_),
    {
        let mut params: Vec<Scalar> = Vec::new();
        params.push(Scalar::Int(start));
        params.push(Scalar::Int(end));
        match query_rows(
            &self.conn,
            "SELECT id, description, category_id, started_at, ended_at FROM manual_entries WHERE started_at >= ? AND started_at <= ? ORDER BY started_at ASC",
            &params,
            5,
        ) {
            Err(m) => Err(Error::StoreFailure(m)),
            Ok(raw) => {
                let mut names: Vec<String> = Vec::new();
                names.push("id".to_owned());
                names.push("description".to_owned());
                names.push("category_id".to_owned());
                names.push("started_at".to_owned());
                names.push("ended_at".to_owned());
                Ok(rows_with_names(&names, raw))
            },
        }
    }

    /// Updates a manual entry by id.
    pub fn update_manual_entry(
        &self,
        id: i64,
        description: Option<&str>,
        category_id: Option<i64>,
        started_at: i64,
        ended_at: i64,
    ) -> (r: Result<usize, Error>) 
        ensures
            r matches Err(e) ==> e matches Error::StoreFailure(_),
    {
        let mut params: Vec<Scalar> = Vec::new();
        params.push(opt_text(description));
        params.push(opt_int(category_id));
        params.push(Scalar::Int(started_at));
        params.push(Scalar::Int(ended_at));
        params.push(Scalar::Int(id));
        match exec_sql(
            &self.conn,
            "UPDATE manual_entries SET description = ?, category_id = ?, started_at = ?, ended_at = ? WHERE id = ?",
            &params,
        ) {
            Ok(n) => Ok(n),
            Err(m) => Err(Error::StoreFailure(m)),
        }
    }

    /// Deletes a manual entry by id.
    pub fn delete_manual_entry(&self, id: i64) -> (r: Result<usize, Error>) 
        ensures
            r matches Err(e) ==> e matches Error::StoreFailure(_),
    {
        let mut params: Vec<Scalar> = Vec::new();
        params.push(Scalar::Int(id));
        match exec_sql(&self.conn, "DELETE FROM manual_entries WHERE id = ?", &params) {
            Ok(n) => Ok(n),
            Err(m) => Err(Error::StoreFailure(m)),
        }
    }
}

/// The activity rows kept by the in-memory filters: idle rows drop out when
/// idle is excluded, and when a category list is given only members stay.
pub open spec fn spec_activity_kept(
    a: Activity,
    exclude_idle: Option<bool>,
    category_ids: Option<Seq<i64>>,
) -> bool {
    &&& (exclude_idle == Some(true) ==> !a.is_idle)
    &&& (category_ids matches Some(cs) ==> (a.category_id matches Some(c) && cs.contains(c)))
}

/// The page `[offset, offset+limit)` of a list; a missing or negative offset
/// starts at the beginning, a missing or negative limit runs to the end.
pub open spec fn spec_page(rows: Seq<Activity>, limit: Option<i64>, offset: Option<i64>) -> Seq<
    Activity,
> {
    let o: int = match offset {
        Some(v) => if v > 0 {
            if v < rows.len() {
                v as int
            } else {
                rows.len() as int
            }
        } else {
            0
        },
        None => 0,
    };
    let rest = rows.skip(o);
    match limit {
        Some(l) => if l >= 0 {
            if l < rest.len() {
                rest.take(l as int)
            } else {
                rest
            }
        } else {
            rest
        },
        None => rest,
    }
}

/// Reads an activity out of a named row; the project and task references
/// are read when the catalog has them and absent otherwise.
pub fn activity_from_row(row: &Row) -> (r: Option<Activity>) {
    let id = match crate::api::row_get(row, "id") {
        Some(Scalar::Int(v)) => *v,
        _ => {
            return None;
        },
    };
    let started_at = match crate::api::row_get(row, "started_at") {
        Some(Scalar::Int(v)) => *v,
        _ => {
            return None;
        },
    };
    let duration_sec = match crate::api::row_get(row, "duration_sec") {
        Some(Scalar::Int(v)) => *v,
        _ => {
            return None;
        },
    };
    let is_idle = match crate::api::row_get(row, "is_idle") {
        Some(Scalar::Int(v)) => *v != 0,
        _ => {
            return None;
        },
    };
    let category_id = match crate::api::row_get(row, "category_id") {
        Some(Scalar::Int(v)) => Some(*v),
        _ => None,
    };
    let project_id = match crate::api::row_get(row, "project_id") {
        Some(Scalar::Int(v)) => Some(*v),
        _ => None,
    };
    let task_id = match crate::api::row_get(row, "task_id") {
        Some(Scalar::Int(v)) => Some(*v),
        _ => None,
    };
    Some(Activity { id, started_at, duration_sec, is_idle, category_id, project_id, task_id })
}

/// The category filter as a sequence of admitted ids, if one was given.
pub open spec fn spec_cids(category_ids: Option<&Vec<i64>>) -> Option<Seq<i64>> {
    match category_ids {
        Some(cs) => Some(cs@),
        None => None,
    }
}

/// Keeps the activities that pass the idle and category filters, in order.
pub fn filter_activities(
    rows: Vec<Activity>,
    exclude_idle: Option<bool>,
    category_ids: Option<&Vec<i64>>,
) -> (r: Vec<Activity>)
    ensures
        r@ == rows@.filter(
            |a: Activity| spec_activity_kept(a, exclude_idle, spec_cids(category_ids)),
        ),
{
    let mut out: Vec<Activity> = Vec::new();
    let n = rows.len();
    let mut i: usize = 0;
    while i < n
        invariant
            i <= n,
            n == rows@.len(),
            out@ =~= rows@.subrange(0, i as int).filter(
                |a: Activity| spec_activity_kept(a, exclude_idle, spec_cids(category_ids)),
            ),
        decreases n - i,
    {
        let a = &rows[i];
        let mut keep = true;
        match exclude_idle {
            Some(true) => {
                if a.is_idle {
                    keep = false;
                }
            },
            _ => {},
        }
        match category_ids {
            Some(cs) => {
                match a.category_id {
                    Some(c) => {
                        if !contains_i64(cs, c) {
                            keep = false;
                        }
                    },
                    None => {
                        keep = false;
                    },
                }
            },
            None => {},
        }
        if keep {
            out.push(a.dup());
        }
        proof {
            reveal(Seq::filter);
            let sub1 = rows@.subrange(0, i as int + 1);
            assert(sub1.drop_last() =~= rows@.subrange(0, i as int));
            assert(sub1.last() == rows@[i as int]);
        }
        i += 1;
    }
    proof {
        assert(rows@.subrange(0, n as int) =~= rows@);
    }
    out
}

fn contains_i64(vs: &Vec<i64>, x: i64) -> (r: bool)
    ensures
        r == vs@.contains(x),
{
    let n = vs.len();
    let mut i: usize = 0;
    while i < n
        invariant
            i <= n,
            n == vs@.len(),
            forall|j: int| 0 <= j < i ==> vs@[j] != x,
        decreases n - i,
    {
        if vs[i] == x {
            return true;
        }
        i += 1;
    }
    false
}

/// Takes the page `[offset, offset+limit)` of a list.
pub fn page_activities(rows: Vec<Activity>, limit: Option<i64>, offset: Option<i64>) -> (r: Vec<
    Activity,
>)
    ensures
        r@ == spec_page(rows@, limit, offset),
{
    let n = rows.len();
    let start: usize = match offset {
        Some(v) => {
            if v > 0 {
                if (v as u64) < (n as u64) {
                    v as usize
                } else {
                    n
                }
            } else {
                0
            }
        },
        None => 0,
    };
    let count: usize = match limit {
        Some(l) => {
            if l >= 0 {
                if (l as u64) < ((n - start) as u64) {
                    l as usize
                } else {
                    n - start
                }
            } else {
                n - start
            }
        },
        None => n - start,
    };
    let mut out: Vec<Activity> = Vec::new();
    let mut i: usize = 0;
    while i < count
        invariant
            i <= count,
            start + count <= n,
            n == rows@.len(),
            out@ =~= rows@.subrange(start as int, start as int + i as int),
        decreases count - i,
    {
        out.push(rows[start + i].dup());
        proof {
            assert(out@ =~= rows@.subrange(start as int, start as int + i as int + 1));
        }
        i += 1;
    }
    proof {
        let o = start as int;
        let c = count as int;
        let rest = rows@.skip(o);
        assert(rest =~= rows@.subrange(o, rows@.len() as int));
        match limit {
            Some(l) => {
                if l >= 0 && (l as int) < rest.len() {
                    assert(spec_page(rows@, limit, offset) == rest.take(l as int));
                    assert(rest.take(l as int) =~= rows@.subrange(o, o + c));
                } else {
                    assert(spec_page(rows@, limit, offset) == rest);
                    assert(c == rest.len());
                    assert(rest =~= rows@.subrange(o, o + c));
                }
            },
            None => {
                assert(spec_page(rows@, limit, offset) == rest);
                assert(c == rest.len());
                assert(rest =~= rows@.subrange(o, o + c));
            },
        }
        assert(out@ =~= rows@.subrange(o, o + c));
    }
    out
}

impl Database {
    /// The activities whose start falls in `[start, end]`, ordered by start,
    /// narrowed by the idle and category filters, then paged. The column set
    /// is discovered from the store's own catalog, so plugin-added columns
    /// such as project and task references are read when they exist; rows
    /// whose cells do not carry the expected shapes are dropped.
    pub fn get_activities(
        &self,
        start: i64,
        end: i64,
        limit: Option<i64>,
        offset: Option<i64>,
        exclude_idle: Option<bool>,
        category_ids: Option<&Vec<i64>>,
    ) -> (r: Result<Vec<Activity>, Error>)
        ensures
            r matches Err(e) ==> (e matches Error::InvalidIdentifier || e
                matches Error::TableNotFound || e matches Error::StoreFailure(_)),
    {
        let raw = match self.activity_rows("WHERE started_at >= ? AND started_at <= ? ORDER BY started_at ASC", {
            let mut p: Vec<Scalar> = Vec::new();
            p.push(Scalar::Int(start));
            p.push(Scalar::Int(end));
            p
        }) {
            Ok(rows) => rows,
            Err(e) => {
                return Err(e);
            },
        };
        let mut acts: Vec<Activity> = Vec::new();
        let n = raw.len();
        let mut i: usize = 0;
        while i < n
            invariant
                i <= n,
                n == raw@.len(),
            decreases n - i,
        {
            match activity_from_row(&raw[i]) {
                Some(a) => acts.push(a),
                None => {},
            }
            i += 1;
        }
        let filtered = filter_activities(acts, exclude_idle, category_ids);
        Ok(page_activities(filtered, limit, offset))
    }

    /// The activity rows matching a fixed condition, with every catalog
    /// column.
    fn activity_rows(&self, tail: &str, params: Vec<Scalar>) -> (r: Result<Vec<Row>, Error>)
        ensures
            r matches Err(e) ==> (e matches Error::InvalidIdentifier || e
                matches Error::TableNotFound || e matches Error::StoreFailure(_)),
    {
        if !is_valid_identifier("activities") {
            return Err(Error::InvalidIdentifier);
        }
        let cols = match self.table_columns("activities") {
            Ok(cols) => cols,
            Err(e) => {
                return Err(e);
            },
        };
        if cols.len() == 0 {
            return Err(Error::TableNotFound);
        }
        let mut ci: usize = 0;
        while ci < cols.len()
            invariant
                ci <= cols@.len(),
            decreases cols@.len() - ci,
        {
            if !is_valid_identifier(cols[ci].as_str()) {
                return Err(Error::InvalidIdentifier);
            }
            ci += 1;
        }
        let mut sql = String::new();
        sql.append("SELECT ");
        crate::sql::push_col_list(&mut sql, &cols);
        sql.append(" FROM activities ");
        sql.append(tail);
        match query_rows(&self.conn, sql.as_str(), &params, cols.len()) {
            Ok(raw) => Ok(rows_with_names(&cols, raw)),
            Err(m) => Err(Error::StoreFailure(m)),
        }
    }

    /// One activity by id, if present.
    pub fn get_activity_by_id(&self, id: i64) -> (r: Result<Option<Activity>, Error>)
        ensures
            r matches Err(e) ==> (e matches Error::InvalidIdentifier || e
                matches Error::TableNotFound || e matches Error::StoreFailure(_)),
    {
        let raw = match self.activity_rows("WHERE id = ?", {
            let mut p: Vec<Scalar> = Vec::new();
            p.push(Scalar::Int(id));
            p
        }) {
            Ok(rows) => rows,
            Err(e) => {
                return Err(e);
            },
        };
        if raw.len() == 0 {
            Ok(None)
        } else {
            Ok(activity_from_row(&raw[0]))
        }
    }

    /// Reassigns an activity's category.
    pub fn update_activity_category(&self, activity_id: i64, category_id: Option<i64>) -> (r:
        Result<usize, Error>)
        ensures
            r matches Err(e) ==> e matches Error::StoreFailure(_),
    {
        let mut params: Vec<Scalar> = Vec::new();
        params.push(opt_int(category_id));
        params.push(Scalar::Int(activity_id));
        match exec_sql(
            &self.conn,
            "UPDATE activities SET category_id = ? WHERE id = ?",
            &params,
        ) {
            Ok(n) => Ok(n),
            Err(m) => Err(Error::StoreFailure(m)),
        }
    }

    /// Deletes an activity by id.
    pub fn delete_activity(&self, id: i64) -> (r: Result<usize, Error>) 
        ensures
            r matches Err(e) ==> e matches Error::StoreFailure(_),
    {
        let mut params: Vec<Scalar> = Vec::new();
        params.push(Scalar::Int(id));
        match exec_sql(&self.conn, "DELETE FROM activities WHERE id = ?", &params) {
            Ok(n) => Ok(n),
            Err(m) => Err(Error::StoreFailure(m)),
        }
    }

    /// Whether an installed-plugin record with this id exists.
    pub fn is_plugin_installed(&self, plugin_id: &str) -> (r: Result<bool, Error>)
        ensures
            r matches Err(e) ==> e matches Error::StoreFailure(_),
    {
        let mut params: Vec<Scalar> = Vec::new();
        params.push(Scalar::Text(plugin_id.to_owned()));
        match query_rows(
            &self.conn,
            "SELECT id FROM installed_plugins WHERE id = ?",
            &params,
            1,
        ) {
            Ok(rows) => Ok(rows.len() > 0),
            Err(m) => Err(Error::StoreFailure(m)),
        }
    }

    /// Records an installed plugin, replacing any prior record with its id.
    pub fn upsert_installed_plugin(&self, info: &InstalledPluginInfo) -> (r: Result<(), Error>) 
        ensures
            r matches Err(e) ==> e matches Error::StoreFailure(_),
    {
        let mut params: Vec<Scalar> = Vec::new();
        params.push(Scalar::Text(info.id.clone()));
        params.push(Scalar::Text(info.name.clone()));
        params.push(Scalar::Text(info.version.clone()));
        params.push(
            match &info.description {
                Some(s) => Scalar::Text(s.clone()),
                None => Scalar::Null,
            },
        );
        params.push(
            match &info.repository_url {
                Some(s) => Scalar::Text(s.clone()),
                None => Scalar::Null,
            },
        );
        params.push(
            match &info.manifest_path {
                Some(s) => Scalar::Text(s.clone()),
                None => Scalar::Null,
            },
        );
        params.push(
            match &info.frontend_entry {
                Some(s) => Scalar::Text(s.clone()),
                None => Scalar::Null,
            },
        );
        params.push(
            match &info.frontend_components {
                Some(cs) => Scalar::Text(join_lines(cs)),
                None => Scalar::Null,
            },
        );
        params.push(
            match &info.author {
                Some(s) => Scalar::Text(s.clone()),
                None => Scalar::Null,
            },
        );
        params.push(bool_int(info.enabled));
        match exec_sql(
            &self.conn,
            "INSERT OR REPLACE INTO installed_plugins (id, name, version, description, repository_url, manifest_path, frontend_entry, frontend_components, author, enabled) VALUES (?, ?, ?, ?, ?, ?, ?, ?, ?, ?)",
            &params,
        ) {
            Ok(_) => Ok(()),
            Err(m) => Err(Error::StoreFailure(m)),
        }
    }

    /// Flips a plugin's enablement flag.
    pub fn set_plugin_enabled(&self, plugin_id: &str, enabled: bool) -> (r: Result<usize, Error>) 
        ensures
            r matches Err(e) ==> e matches Error::StoreFailure(_),
    {
        let mut params: Vec<Scalar> = Vec::new();
        params.push(bool_int(enabled));
        params.push(Scalar::Text(plugin_id.to_owned()));
        match exec_sql(
            &self.conn,
            "UPDATE installed_plugins SET enabled = ? WHERE id = ?",
            &params,
        ) {
            Ok(n) => Ok(n),
            Err(m) => Err(Error::StoreFailure(m)),
        }
    }

    /// Removes a plugin's installation record.
    pub fn remove_installed_plugin(&self, plugin_id: &str) -> (r: Result<usize, Error>) 
        ensures
            r matches Err(e) ==> e matches Error::StoreFailure(_),
    {
        let mut params: Vec<Scalar> = Vec::new();
        params.push(Scalar::Text(plugin_id.to_owned()));
        match exec_sql(&self.conn, "DELETE FROM installed_plugins WHERE id = ?", &params) {
            Ok(n) => Ok(n),
            Err(m) => Err(Error::StoreFailure(m)),
        }
    }

    /// Every installed-plugin record, in id order.
    pub fn get_installed_plugins(&self) -> (r: Result<Vec<InstalledPluginInfo>, Error>) 
        ensures
            r matches Err(e) ==> e matches Error::StoreFailure(_),
    {
        let params: Vec<Scalar> = Vec::new();
        let raw = match query_rows(
            &self.conn,
            "SELECT id, name, version, description, repository_url, manifest_path, frontend_entry, frontend_components, author, enabled FROM installed_plugins ORDER BY id ASC",
            &params,
            10,
        ) {
            Ok(raw) => raw,
            Err(m) => {
                return Err(Error::StoreFailure(m));
            },
        };
        let mut out: Vec<InstalledPluginInfo> = Vec::new();
        let n = raw.len();
        let mut i: usize = 0;
        while i < n
            invariant
                i <= n,
                n == raw@.len(),
                forall|k: int| 0 <= k < raw@.len() ==> (#[trigger] raw@[k])@.len() == 10,
            decreases n - i,
        {
            match row_to_plugin_info(&raw[i]) {
                Some(info) => out.push(info),
                None => {},
            }
            i += 1;
        }
        Ok(out)
    }
}

fn cell_text(c: &Scalar) -> (r: Option<String>)
    ensures
        match r {
            Some(s) => *c matches Scalar::Text(t) && t == s,
            None => !(*c matches Scalar::Text(_)),
        },
{
    match c {
        Scalar::Text(s) => Some(s.clone()),
        _ => None,
    }
}

fn row_to_plugin_info(cells: &Vec<Scalar>) -> (r: Option<InstalledPluginInfo>)
    requires
        cells@.len() == 10,
{
    let id = match cell_text(&cells[0]) {
        Some(s) => s,
        None => {
            return None;
        },
    };
    let name = match cell_text(&cells[1]) {
        Some(s) => s,
        None => {
            return None;
        },
    };
    let version = match cell_text(&cells[2]) {
        Some(s) => s,
        None => {
            return None;
        },
    };
    let enabled = match &cells[9] {
        Scalar::Int(v) => *v != 0,
        _ => false,
    };
    Some(
        InstalledPluginInfo {
            id,
            name,
            version,
            description: cell_text(&cells[3]),
            repository_url: cell_text(&cells[4]),
            manifest_path: cell_text(&cells[5]),
            frontend_entry: cell_text(&cells[6]),
            frontend_components: match cell_text(&cells[7]) {
                Some(s) => Some(split_lines(s.as_str())),
                None => None,
            },
            author: cell_text(&cells[8]),
            enabled,
        },
    )
}

/// The newline-separated segments of a string, in order, empty segments
/// dropped.
pub open spec fn spec_lines(s: Seq<char>) -> Seq<Seq<char>>
    decreases s.len(),
{
    if s.len() == 0 {
        Seq::empty()
    } else if s[0] == '\n' {
        spec_lines(s.drop_first())
    } else {
        let k = spec_line_len(s);
        if 1 <= k <= s.len() {
            seq![s.subrange(0, k)] + spec_lines(s.skip(k))
        } else {
            Seq::empty()
        }
    }
}

/// Length of the maximal newline-free run at the head.
pub open spec fn spec_line_len(s: Seq<char>) -> int
    decreases s.len(),
{
    if s.len() == 0 || s[0] == '\n' {
        0
    } else {
        1 + spec_line_len(s.drop_first())
    }
}

proof fn lemma_line_len_bounds(s: Seq<char>)
    ensures
        0 <= spec_line_len(s) <= s.len(),
        forall|i: int| 0 <= i < spec_line_len(s) ==> (#[trigger] s[i]) != '\n',
        spec_line_len(s) < s.len() ==> s[spec_line_len(s)] == '\n',
        s.len() > 0 && s[0] != '\n' ==> spec_line_len(s) >= 1,
    decreases s.len(),
{
    if s.len() > 0 && s[0] != '\n' {
        lemma_line_len_bounds(s.drop_first());
        let k = spec_line_len(s);
        assert forall|i: int| 0 <= i < k implies (#[trigger] s[i]) != '\n' by {
            if i > 0 {
                assert(s[i] == s.drop_first()[i - 1]);
            }
        }
        if k < s.len() {
            assert(s[k] == s.drop_first()[k - 1]);
        }
    }
}

proof fn lemma_line_len_eq(s: Seq<char>, k: int)
    requires
        0 <= k <= s.len(),
        forall|i: int| 0 <= i < k ==> (#[trigger] s[i]) != '\n',
        k == s.len() || s[k] == '\n',
    ensures
        spec_line_len(s) == k,
    decreases s.len(),
{
    if k > 0 {
        lemma_line_len_eq(s.drop_first(), k - 1);
    }
}

fn split_lines_from(s: &str, i: usize) -> (r: Vec<String>)
    requires
        i <= s@.len(),
    ensures
        r.deep_view() == spec_lines(s@.skip(i as int)),
    decreases s@.len() - i,
{
    let n = s.unicode_len();
    if i == n {
        proof {
            assert(s@.skip(i as int) =~= Seq::<char>::empty());
        }
        return Vec::new();
    }
    if s.get_char(i) == '\n' {
        let r = split_lines_from(s, i + 1);
        proof {
            assert(s@.skip(i as int).drop_first() =~= s@.skip(i as int + 1));
            assert(s@.skip(i as int)[0] == s@[i as int]);
        }
        return r;
    }
    let mut j: usize = i;
    while j < n && !newline_at(s, j)
        invariant
            i <= j <= n,
            n == s@.len(),
            forall|k: int| i <= k < j ==> (#[trigger] s@[k]) != '\n',
        decreases n - j,
    {
        j += 1;
    }
    proof {
        lemma_line_len_bounds(s@.skip(i as int));
        lemma_line_len_eq(s@.skip(i as int), j - i);
    }
    let token = s.substring_char(i, j);
    let mut rest = split_lines_from(s, j);
    rest.insert(0, token.to_owned());
    proof {
        assert(s@.skip(i as int).subrange(0, j - i) =~= s@.subrange(i as int, j as int));
        assert(s@.skip(i as int).skip(j - i) =~= s@.skip(j as int));
        assert(rest.deep_view() =~= spec_lines(s@.skip(i as int)));
    }
    rest
}

fn newline_at(s: &str, j: usize) -> (r: bool)
    requires
        j < s@.len(),
    ensures
        r == (s@[j as int] == '\n'),
{
    s.get_char(j) == '\n'
}

/// Splits newline-separated text into its non-empty lines.
pub fn split_lines(s: &str) -> (r: Vec<String>)
    ensures
        r.deep_view() == spec_lines(s@),
{
    let r = split_lines_from(s, 0);
    proof {
        assert(s@.skip(0) =~= s@);
    }
    r
}

/// The lines joined by single newlines: the first `i` of them.
pub open spec fn spec_joined_lines_prefix(vs: Seq<Seq<char>>, i: int) -> Seq<char>
    decreases i,
{
    if i <= 0 {
        Seq::empty()
    } else if i == 1 {
        vs[0]
    } else {
        spec_joined_lines_prefix(vs, i - 1) + "\n"@ + vs[i - 1]
    }
}

/// Joins lines with single newlines.
pub fn join_lines(vs: &Vec<String>) -> (r: String)
    ensures
        r@ == spec_joined_lines_prefix(vs.deep_view(), vs@.len() as int),
{
    let mut out = String::new();
    let n = vs.len();
    let mut i: usize = 0;
    while i < n
        invariant
            i <= n,
            n == vs@.len(),
            out@ == spec_joined_lines_prefix(vs.deep_view(), i as int),
        decreases n - i,
    {
        if i > 0 {
            out.append("\n");
        }
        out.append(vs[i].as_str());
        proof {
            assert(vs.deep_view()[i as int] == vs@[i as int]@);
            assert(out@ =~= spec_joined_lines_prefix(vs.deep_view(), i as int + 1));
        }
        i += 1;
    }
    out
}

} // verus!
