//! The extension registry: which plugin registered which capability, which
//! plugin owns which table, and which tables are exposed across plugins.
//!
//! Extensions are append-only per entity type and keep registration order,
//! which is the application order of hooks and filters. Ownership is derived
//! exclusively from `CreateTable` schema changes as they are registered: a
//! `CreateTable` for a non-reserved table already owned by a different
//! plugin is rejected rather than silently reassigned, and a reserved core
//! name — which can never be owned — is skipped without recording anything.
//! Exposure records are keyed by owner and table name; re-registering
//! replaces the prior permission list, and nothing else changes any record.
//!
//! Lookup is newest-first: an upsert prepends its record, shadowing any
//! older record under the same key.

use vstd::prelude::*;
use crate::errors::Error;
use crate::model::Activity;
use crate::store::Database;
use crate::value::{str_eq, ParamValue};

verus! {

/// A core entity that extensions may attach to.
#[derive(Clone, Copy, PartialEq, Eq, Structural, Debug)]
pub enum EntityType {
    Activity,
    Category,
    ManualEntry,
}

/// The kind of an extension.
#[derive(Clone, Copy, PartialEq, Eq, Structural, Debug)]
pub enum ExtensionType {
    DatabaseSchema,
    Model,
    DataHook,
    Query,
}

/// A reference from one column to another table's column.
pub struct ForeignKey {
    pub table: String,
    pub column: String,
}

impl ForeignKey {
    pub fn dup(&self) -> (r: ForeignKey)
        ensures
            r == *self,
    {
        ForeignKey { table: self.table.clone(), column: self.column.clone() }
    }
}

/// One column of a table a plugin creates.
pub struct TableColumn {
    pub name: String,
    pub column_type: String,
    pub primary_key: bool,
    pub nullable: bool,
    pub default: Option<String>,
    pub foreign_key: Option<ForeignKey>,
}

impl TableColumn {
    pub fn dup(&self) -> (r: TableColumn)
        ensures
            r == *self,
    {
        TableColumn {
            name: self.name.clone(),
            column_type: self.column_type.clone(),
            primary_key: self.primary_key,
            nullable: self.nullable,
            default: match &self.default {
                Some(d) => Some(d.clone()),
                None => None,
            },
            foreign_key: match &self.foreign_key {
                Some(fk) => Some(fk.dup()),
                None => None,
            },
        }
    }
}

/// A declarative alteration to persisted structure, applied once at plugin
/// activation.
pub enum SchemaChange {
    CreateTable { table: String, columns: Vec<TableColumn> },
    AddColumn {
        table: String,
        column: String,
        column_type: String,
        default: Option<String>,
        foreign_key: Option<ForeignKey>,
    },
    AddIndex { table: String, index: String, columns: Vec<String> },
    AddForeignKey { table: String, column: String, foreign_table: String, foreign_column: String },
}

/// Copies a string list with a known contract.
pub fn dup_strings(v: &Vec<String>) -> (r: Vec<String>)
    ensures
        r@ == v@,
{
    let mut out: Vec<String> = Vec::new();
    let n = v.len();
    let mut i: usize = 0;
    while i < n
        invariant
            i <= n,
            n == v@.len(),
            out@ =~= v@.subrange(0, i as int),
        decreases n - i,
    {
        out.push(v[i].clone());
        proof {
            assert(out@ =~= v@.subrange(0, i as int + 1));
        }
        i += 1;
    }
    proof {
        assert(v@.subrange(0, n as int) =~= v@);
    }
    out
}

fn dup_columns(v: &Vec<TableColumn>) -> (r: Vec<TableColumn>)
    ensures
        r@ == v@,
{
    let mut out: Vec<TableColumn> = Vec::new();
    let n = v.len();
    let mut i: usize = 0;
    while i < n
        invariant
            i <= n,
            n == v@.len(),
            out@ =~= v@.subrange(0, i as int),
        decreases n - i,
    {
        out.push(v[i].dup());
        proof {
            assert(out@ =~= v@.subrange(0, i as int + 1));
        }
        i += 1;
    }
    proof {
        assert(v@.subrange(0, n as int) =~= v@);
    }
    out
}

/// Content equality of schema changes: same variant, same names, same
/// column specs.
pub open spec fn spec_sc_eq(a: SchemaChange, b: SchemaChange) -> bool {
    match a {
        SchemaChange::CreateTable { table: t1, columns: c1 } => b
            matches SchemaChange::CreateTable { table: t2, columns: c2 } && t1 == t2 && c1@ == c2@,
        SchemaChange::AddColumn {
            table: t1,
            column: col1,
            column_type: ty1,
            default: d1,
            foreign_key: f1,
        } => b matches SchemaChange::AddColumn {
            table: t2,
            column: col2,
            column_type: ty2,
            default: d2,
            foreign_key: f2,
        } && t1 == t2 && col1 == col2 && ty1 == ty2 && d1 == d2 && f1 == f2,
        SchemaChange::AddIndex { table: t1, index: i1, columns: c1 } => b
            matches SchemaChange::AddIndex { table: t2, index: i2, columns: c2 } && t1 == t2 && i1
            == i2 && c1@ == c2@,
        SchemaChange::AddForeignKey {
            table: t1,
            column: col1,
            foreign_table: ft1,
            foreign_column: fc1,
        } => b matches SchemaChange::AddForeignKey {
            table: t2,
            column: col2,
            foreign_table: ft2,
            foreign_column: fc2,
        } && t1 == t2 && col1 == col2 && ft1 == ft2 && fc1 == fc2,
    }
}

impl SchemaChange {
    pub fn dup(&self) -> (r: SchemaChange)
        ensures
            spec_sc_eq(r, *self),
    {
        match self {
            SchemaChange::CreateTable { table, columns } => SchemaChange::CreateTable {
                table: table.clone(),
                columns: dup_columns(columns),
            },
            SchemaChange::AddColumn { table, column, column_type, default, foreign_key } => {
                SchemaChange::AddColumn {
                    table: table.clone(),
                    column: column.clone(),
                    column_type: column_type.clone(),
                    default: match default {
                        Some(d) => Some(d.clone()),
                        None => None,
                    },
                    foreign_key: match foreign_key {
                        Some(fk) => Some(fk.dup()),
                        None => None,
                    },
                }
            },
            SchemaChange::AddIndex { table, index, columns } => SchemaChange::AddIndex {
                table: table.clone(),
                index: index.clone(),
                columns: dup_strings(columns),
            },
            SchemaChange::AddForeignKey { table, column, foreign_table, foreign_column } => {
                SchemaChange::AddForeignKey {
                    table: table.clone(),
                    column: column.clone(),
                    foreign_table: foreign_table.clone(),
                    foreign_column: foreign_column.clone(),
                }
            },
        }
    }
}

/// A field a plugin adds to a core entity's model.
pub struct ModelField {
    pub name: String,
    pub type_: String,
    pub optional: bool,
}

impl ModelField {
    pub fn dup(&self) -> (r: ModelField)
        ensures
            r == *self,
    {
        ModelField { name: self.name.clone(), type_: self.type_.clone(), optional: self.optional }
    }
}

fn dup_model_fields(v: &Vec<ModelField>) -> (r: Vec<ModelField>)
    ensures
        r@ == v@,
{
    let mut out: Vec<ModelField> = Vec::new();
    let n = v.len();
    let mut i: usize = 0;
    while i < n
        invariant
            i <= n,
            n == v@.len(),
            out@ =~= v@.subrange(0, i as int),
        decreases n - i,
    {
        out.push(v[i].dup());
        proof {
            assert(out@ =~= v@.subrange(0, i as int + 1));
        }
        i += 1;
    }
    proof {
        assert(v@.subrange(0, n as int) =~= v@);
    }
    out
}

fn dup_schema_changes(v: &Vec<SchemaChange>) -> (r: Vec<SchemaChange>)
    ensures
        r@.len() == v@.len(),
        forall|i: int| 0 <= i < v@.len() ==> spec_sc_eq(#[trigger] r@[i], v@[i]),
{
    let mut out: Vec<SchemaChange> = Vec::new();
    let n = v.len();
    let mut i: usize = 0;
    while i < n
        invariant
            i <= n,
            n == v@.len(),
            out@.len() == i,
            forall|k: int| 0 <= k < i ==> spec_sc_eq(#[trigger] out@[k], v@[k]),
        decreases n - i,
    {
        out.push(v[i].dup());
        i += 1;
    }
    out
}

/// An explicit, permissioned declaration that other plugins may read a
/// table. The wildcard `*` in the allowed list admits any plugin; an empty
/// list admits none.
pub struct ExposedTable {
    pub table_name: String,
    pub allowed_plugins: Vec<String>,
}

/// Content equality of exposure declarations.
pub open spec fn spec_et_eq(a: ExposedTable, b: ExposedTable) -> bool {
    a.table_name@ == b.table_name@ && a.allowed_plugins@ == b.allowed_plugins@
}

impl ExposedTable {
    pub fn dup(&self) -> (r: ExposedTable)
        ensures
            spec_et_eq(r, *self),
            r.table_name == self.table_name,
    {
        ExposedTable {
            table_name: self.table_name.clone(),
            allowed_plugins: dup_strings(&self.allowed_plugins),
        }
    }
}

/// A callable run against an activity during its write path; it may mutate
/// the entity and persist side effects through the store. Implemented by
/// plugin code; nothing is assumed of its behaviour.
pub trait ActivityHookFn {
    fn on_upsert(&self, activity: &mut Activity, db: &Database) -> Result<(), String>;
}

/// A named, composable transformation applied to a result set after
/// retrieval. Implemented by plugin code; nothing is assumed of its
/// behaviour.
pub trait QueryFilterFn {
    fn apply(&self, activities: Vec<Activity>, params: &Vec<(String, ParamValue)>) -> Result<
        Vec<Activity>,
        String,
    >;
}

/// A hook that does nothing: the simplest well-behaved hook, and the hook
/// type of a host that installs none.
pub struct NoopHook;

impl ActivityHookFn for NoopHook {
    fn on_upsert(&self, activity: &mut Activity, db: &Database) -> (r: Result<(), String>)
        ensures
            r is Ok,
            *final (activity) == *old(activity),
    {
        Ok(())
    }
}

/// An activity data hook as registered.
pub struct ActivityHook<H> {
    pub on_upsert: H,
}

/// A query filter as registered.
pub struct QueryFilter<F> {
    pub name: String,
    pub filter_fn: F,
}

/// One registered extension: owned by exactly one plugin, attached to one
/// entity type and one kind, with the payload of that kind.
pub struct Extension<H, F> {
    pub plugin_id: String,
    pub entity_type: EntityType,
    pub extension_type: ExtensionType,
    pub schema_changes: Vec<SchemaChange>,
    pub model_fields: Vec<ModelField>,
    pub hook: Option<ActivityHook<H>>,
    pub query_filters: Vec<QueryFilter<F>>,
}

/// A core table name that plugins can never own or reach through the
/// generic path.
pub open spec fn spec_is_reserved_table(t: Seq<char>) -> bool {
    ||| t == "activities"@
    ||| t == "categories"@
    ||| t == "rules"@
    ||| t == "manual_entries"@
    ||| t == "settings"@
    ||| t == "installed_plugins"@
    ||| t == "sqlite_master"@
    ||| t == "sqlite_sequence"@
}

/// Whether a table name is in the fixed reserved set.
pub fn is_reserved_table(t: &str) -> (r: bool)
    ensures
        r == spec_is_reserved_table(t@),
{
    str_eq(t, "activities") || str_eq(t, "categories") || str_eq(t, "rules") || str_eq(
        t,
        "manual_entries",
    ) || str_eq(t, "settings") || str_eq(t, "installed_plugins") || str_eq(t, "sqlite_master")
        || str_eq(t, "sqlite_sequence")
}

/// First-match lookup of a table's recorded owner.
pub open spec fn spec_lookup_owner(pairs: Seq<(String, String)>, t: Seq<char>) -> Option<String>
    decreases pairs.len(),
{
    if pairs.len() == 0 {
        None
    } else if pairs[0].0@ == t {
        Some(pairs[0].1)
    } else {
        spec_lookup_owner(pairs.drop_first(), t)
    }
}

/// First-match lookup of an exposure record under (owner, table).
pub open spec fn spec_lookup_exposed(
    entries: Seq<(String, ExposedTable)>,
    owner: Seq<char>,
    t: Seq<char>,
) -> Option<ExposedTable>
    decreases entries.len(),
{
    if entries.len() == 0 {
        None
    } else if entries[0].0@ == owner && entries[0].1.table_name@ == t {
        Some(entries[0].1)
    } else {
        spec_lookup_exposed(entries.drop_first(), owner, t)
    }
}

/// Some element of the list views equal to `x`.
pub open spec fn spec_contains_str(vs: Seq<String>, x: Seq<char>) -> bool {
    exists|i: int| 0 <= i < vs.len() && (#[trigger] vs[i])@ == x
}

/// Whether the list of schema changes creates a table of this name.
pub open spec fn spec_creates_table(scs: Seq<SchemaChange>, t: Seq<char>) -> bool {
    exists|i: int|
        0 <= i < scs.len() && ((#[trigger] scs[i]) matches SchemaChange::CreateTable {
            table,
            ..
        } && table@ == t)
}

/// A `CreateTable` in the list names a non-reserved table the registry
/// already maps to a different plugin. A reserved core name can never be
/// owned, so claiming one is no conflict.
pub open spec fn spec_register_conflict(
    pairs: Seq<(String, String)>,
    pid: Seq<char>,
    scs: Seq<SchemaChange>,
) -> bool {
    exists|i: int|
        0 <= i < scs.len() && ((#[trigger] scs[i]) matches SchemaChange::CreateTable { table, .. }
            && !spec_is_reserved_table(table@) && (spec_lookup_owner(pairs, table@) matches Some(o)
            && o@ != pid))
}

/// The registry: per-entity extension lists in registration order, table
/// ownership, and cross-plugin exposure records.
pub struct ExtensionRegistry<H, F> {
    extensions: Vec<Extension<H, F>>,
    plugin_tables: Vec<(String, String)>,
    exposed_tables: Vec<(String, ExposedTable)>,
}

impl<H, F> ExtensionRegistry<H, F> {
    /// The registered extensions, in registration order.
    pub closed spec fn spec_extensions(&self) -> Seq<Extension<H, F>> {
        self.extensions@
    }

    /// The ownership records, newest first.
    pub closed spec fn spec_tables(&self) -> Seq<(String, String)> {
        self.plugin_tables@
    }

    /// The exposure records, newest first.
    pub closed spec fn spec_exposed(&self) -> Seq<(String, ExposedTable)> {
        self.exposed_tables@
    }

    /// The owner of a table: none for a reserved name, else the recorded
    /// owner.
    pub open spec fn spec_table_owner(&self, t: Seq<char>) -> Option<String> {
        if spec_is_reserved_table(t) {
            None
        } else {
            spec_lookup_owner(self.spec_tables(), t)
        }
    }

    /// Whether `pid` owns table `t`: never for a reserved name.
    pub open spec fn spec_owns(&self, pid: Seq<char>, t: Seq<char>) -> bool {
        self.spec_table_owner(t) matches Some(o) && o@ == pid
    }

    /// The full cross-plugin permission rule: the claimed owner really owns
    /// the table, the owner exposed it, and the allowed list admits the
    /// requester (wildcard admits anyone; an empty list admits no one).
    pub open spec fn spec_can_query(
        &self,
        requester: Seq<char>,
        owner: Seq<char>,
        t: Seq<char>,
    ) -> bool {
        &&& (self.spec_table_owner(t) matches Some(o) && o@ == owner)
        &&& (self.spec_lookup_exposure(owner, t) matches Some(et) && {
            ||| spec_contains_str(et.allowed_plugins@, "*"@)
            ||| (et.allowed_plugins@.len() > 0 && spec_contains_str(et.allowed_plugins@, requester))
        })
    }

    /// The exposure record for (owner, table), newest first.
    pub open spec fn spec_lookup_exposure(&self, owner: Seq<char>, t: Seq<char>) -> Option<
        ExposedTable,
    > {
        spec_lookup_exposed(self.spec_exposed(), owner, t)
    }

    /// A fresh, empty registry.
    pub fn new() -> (r: ExtensionRegistry<H, F>)
        ensures
            r.spec_extensions().len() == 0,
            r.spec_tables().len() == 0,
            r.spec_exposed().len() == 0,
    {
        ExtensionRegistry { extensions: Vec::new(), plugin_tables: Vec::new(), exposed_tables: Vec::new() }
    }

    /// Registers an extension: records ownership for every non-reserved
    /// table it creates, then appends it to the extension list. A
    /// `CreateTable` for a non-reserved table already owned by a different
    /// plugin is a conflict and rejects the whole extension, leaving the
    /// registry unchanged; ownership of tables not named by this extension
    /// is untouched. A reserved core name is skipped entirely — it can never
    /// be owned, so claiming it records nothing and conflicts with nothing.
    pub fn register(&mut self, extension: Extension<H, F>) -> (r: Result<(), Error>)
        ensures
            r is Err ==> r == Err::<(), Error>(Error::OwnershipConflict),
            (r is Ok) <==> !spec_register_conflict(
                old(self).spec_tables(),
                extension.plugin_id@,
                extension.schema_changes@,
            ),
            r is Err ==> {
                &&& final (self).spec_extensions() == old(self).spec_extensions()
                &&& final (self).spec_tables() == old(self).spec_tables()
                &&& final (self).spec_exposed() == old(self).spec_exposed()
            },
            r is Ok ==> {
                &&& final (self).spec_extensions() == old(self).spec_extensions().push(extension)
                &&& final (self).spec_exposed() == old(self).spec_exposed()
                &&& (extension.schema_changes@.len() == 0 ==> final (self).spec_tables() == old(
                    self,
                ).spec_tables())
                &&& forall|t: Seq<char>|
                    spec_creates_table(extension.schema_changes@, t) && !spec_is_reserved_table(t)
                        ==> (#[trigger] spec_lookup_owner(
                        final (self).spec_tables(),
                        t,
                    ) matches Some(o) && o@ == extension.plugin_id@)
                &&& forall|t: Seq<char>|
                    !(spec_creates_table(extension.schema_changes@, t) && !spec_is_reserved_table(
                        t,
                    )) ==> #[trigger] spec_lookup_owner(final (self).spec_tables(), t)
                        == spec_lookup_owner(old(self).spec_tables(), t)
            },
    {
        let n = extension.schema_changes.len();
        // first pass: reject any cross-plugin ownership conflict before
        // touching the registry
        let mut i: usize = 0;
        while i < n
            invariant
                i <= n,
                n == extension.schema_changes@.len(),
                forall|j: int|
                    0 <= j < i ==> !((#[trigger] extension.schema_changes@[j])
                        matches SchemaChange::CreateTable { table, .. } && !spec_is_reserved_table(
                        table@,
                    ) && (spec_lookup_owner(
                        self.spec_tables(),
                        table@,
                    ) matches Some(o) && o@ != extension.plugin_id@)),
            decreases n - i,
        {
            match &extension.schema_changes[i] {
                SchemaChange::CreateTable { table, .. } => {
                    if !is_reserved_table(table.as_str()) {
                        match find_owner(&self.plugin_tables, table.as_str()) {
                            Some(owner) => {
                                if !str_eq(owner.as_str(), extension.plugin_id.as_str()) {
                                    return Err(Error::OwnershipConflict);
                                }
                            },
                            None => {},
                        }
                    }
                },
                _ => {},
            }
            i += 1;
        }
        // second pass: record ownership for each created table
        let ghost tables0 = self.plugin_tables@;
        let mut i: usize = 0;
        while i < n
            invariant
                i <= n,
                n == extension.schema_changes@.len(),
                self.extensions@ == old(self).extensions@,
                self.exposed_tables@ == old(self).exposed_tables@,
                !spec_register_conflict(
                    tables0,
                    extension.plugin_id@,
                    extension.schema_changes@,
                ),
                tables0 == old(self).plugin_tables@,
                n == 0 ==> self.plugin_tables@ == tables0,
                forall|t: Seq<char>|
                    spec_creates_table(extension.schema_changes@.subrange(0, i as int), t)
                        && !spec_is_reserved_table(t) ==> (
                    #[trigger] spec_lookup_owner(self.plugin_tables@, t) matches Some(o) && o@
                        == extension.plugin_id@),
                forall|t: Seq<char>|
                    !(spec_creates_table(extension.schema_changes@.subrange(0, i as int), t)
                        && !spec_is_reserved_table(t)) ==> #[trigger] spec_lookup_owner(
                        self.plugin_tables@,
                        t,
                    ) == spec_lookup_owner(tables0, t),
            decreases n - i,
        {
            let ghost before = self.plugin_tables@;
            match &extension.schema_changes[i] {
                SchemaChange::CreateTable { table, .. } => {
                    if !is_reserved_table(table.as_str()) {
                        match find_owner(&self.plugin_tables, table.as_str()) {
                            Some(_) => {
                                // already recorded; the first pass and the
                                // loop invariant guarantee the owner is this
                                // plugin
                            },
                            None => {
                                self.plugin_tables.insert(
                                    0,
                                    (table.clone(), extension.plugin_id.clone()),
                                );
                            },
                        }
                    }
                },
                _ => {},
            }
            proof {
                let scs = extension.schema_changes@;
                let pid = extension.plugin_id@;
                let cur = self.plugin_tables@;
                let sub0 = scs.subrange(0, i as int);
                let sub1 = scs.subrange(0, i as int + 1);
                if cur != before {
                    assert(cur.drop_first() =~= before);
                }
                assert forall|t: Seq<char>|
                    spec_creates_table(sub1, t) && !spec_is_reserved_table(t) implies (
                #[trigger] spec_lookup_owner(cur, t) matches Some(o) && o@ == pid) by {
                    let k = choose|k: int|
                        0 <= k < sub1.len() && ((#[trigger] sub1[k])
                            matches SchemaChange::CreateTable { table, .. } && table@ == t);
                    if k < i {
                        assert(spec_creates_table(sub0, t)) by {
                            assert(sub0[k] == sub1[k]);
                        }
                        // a table created in the prefix already resolves to
                        // this plugin; a prepend cannot shadow it, since a
                        // prepend happens only when the name was unmapped
                        if cur != before {
                            if cur[0].0@ == t {
                                assert(spec_lookup_owner(cur, t) == Some(cur[0].1));
                            } else {
                                assert(spec_lookup_owner(cur, t) == spec_lookup_owner(before, t));
                            }
                        }
                    } else {
                        assert(sub1[i as int] == scs[i as int]);
                        if spec_lookup_owner(before, t) is Some {
                            // nothing was prepended for this change
                            if !(spec_creates_table(sub0, t) && !spec_is_reserved_table(t)) {
                                assert(spec_lookup_owner(before, t) == spec_lookup_owner(
                                    tables0,
                                    t,
                                ));
                                assert(!(scs[i as int] matches SchemaChange::CreateTable {
                                    table,
                                    ..
                                } && !spec_is_reserved_table(table@) && (spec_lookup_owner(
                                    tables0,
                                    table@,
                                ) matches Some(o) && o@ != pid)));
                                assert(spec_lookup_owner(before, t) matches Some(o) && o@ == pid);
                            }
                            if cur != before {
                                if cur[0].0@ == t {
                                    assert(spec_lookup_owner(cur, t) == Some(cur[0].1));
                                } else {
                                    assert(spec_lookup_owner(cur, t) == spec_lookup_owner(
                                        before,
                                        t,
                                    ));
                                }
                            }
                        } else {
                            // the name was unmapped, so the pair was prepended
                            assert(cur != before);
                            assert(cur[0].0@ == t);
                            assert(cur[0].1@ == pid);
                            assert(spec_lookup_owner(cur, t) == Some(cur[0].1));
                        }
                    }
                }
                assert forall|t: Seq<char>|
                    !(spec_creates_table(sub1, t) && !spec_is_reserved_table(t))
                        implies #[trigger] spec_lookup_owner(cur, t) == spec_lookup_owner(
                    tables0,
                    t,
                ) by {
                    if !spec_creates_table(sub1, t) {
                        assert forall|k: int|
                            0 <= k < i implies !((#[trigger] sub0[k])
                            matches SchemaChange::CreateTable { table, .. } && table@ == t) by {
                            assert(sub0[k] == sub1[k]);
                        }
                        assert(!spec_creates_table(sub0, t));
                    } else {
                        // t is reserved, so no iteration touches it
                        assert(!(spec_creates_table(sub0, t) && !spec_is_reserved_table(t)));
                    }
                    if cur != before {
                        // what was prepended names a non-reserved table the
                        // i-th change creates, which t is not
                        assert(sub1[i as int] == scs[i as int]);
                        assert(cur[0].0@ != t);
                        assert(cur.drop_first() =~= before);
                        assert(spec_lookup_owner(cur, t) == spec_lookup_owner(before, t));
                    }
                }
            }
            i += 1;
        }
        proof {
            assert(extension.schema_changes@.subrange(0, n as int) =~= extension.schema_changes@);
        }
        self.extensions.push(extension);
        Ok(())
    }

    /// Whether the plugin owns the table: false for every reserved core
    /// name, regardless of any recorded ownership; otherwise true exactly
    /// when the ownership records resolve the table to this plugin.
    pub fn plugin_owns_table(&self, plugin_id: &str, table: &str) -> (r: bool)
        ensures
            r == self.spec_owns(plugin_id@, table@),
            spec_is_reserved_table(table@) ==> r == false,
    {
        if is_reserved_table(table) {
            return false;
        }
        match find_owner(&self.plugin_tables, table) {
            Some(owner) => str_eq(owner.as_str(), plugin_id),
            None => false,
        }
    }

    /// The plugin id that owns a table; none for reserved names and for
    /// tables no plugin created.
    pub fn get_table_owner(&self, table: &str) -> (r: Option<String>)
        ensures
            r == self.spec_table_owner(table@),
    {
        if is_reserved_table(table) {
            return None;
        }
        match find_owner(&self.plugin_tables, table) {
            Some(owner) => Some(owner.clone()),
            None => None,
        }
    }

    /// Records the exposure declarations of a plugin's manifest, replacing
    /// any prior permission list per (plugin, table) pair. Ownership and
    /// extension records are untouched, and exposure records under any other
    /// key keep their meaning.
    pub fn register_exposed_tables(&mut self, plugin_id: &str, exposed_tables: &Vec<ExposedTable>) -> (r:
        Result<(), Error>)
        ensures
            r is Ok,
            final (self).spec_extensions() == old(self).spec_extensions(),
            final (self).spec_tables() == old(self).spec_tables(),
            forall|o: Seq<char>, t: Seq<char>|
                (o != plugin_id@ || !(exists|j: int|
                    0 <= j < exposed_tables@.len() && (#[trigger] exposed_tables@[j]).table_name@
                        == t)) ==> #[trigger] final (self).spec_lookup_exposure(o, t) == old(
                    self,
                ).spec_lookup_exposure(o, t),
            forall|j: int|
                0 <= j < exposed_tables@.len() && (forall|k: int|
                    j < k < exposed_tables@.len() ==> (#[trigger] exposed_tables@[k]).table_name@
                        != exposed_tables@[j].table_name@) ==> (#[trigger] spec_lookup_exposed(
                    final (self).spec_exposed(),
                    plugin_id@,
                    exposed_tables@[j].table_name@,
                ) matches Some(et) && spec_et_eq(et, exposed_tables@[j])),
    {
        let n = exposed_tables.len();
        let mut i: usize = 0;
        while i < n
            invariant
                i <= n,
                n == exposed_tables@.len(),
                self.extensions@ == old(self).extensions@,
                self.plugin_tables@ == old(self).plugin_tables@,
                forall|o: Seq<char>, t: Seq<char>|
                    (o != plugin_id@ || !(exists|j: int|
                        0 <= j < i && (#[trigger] exposed_tables@[j]).table_name@ == t))
                        ==> #[trigger] spec_lookup_exposed(self.exposed_tables@, o, t)
                        == spec_lookup_exposed(old(self).exposed_tables@, o, t),
                forall|j: int|
                    0 <= j < i && (forall|k: int|
                        j < k < i ==> (#[trigger] exposed_tables@[k]).table_name@
                            != exposed_tables@[j].table_name@) ==> (#[trigger] spec_lookup_exposed(
                        self.exposed_tables@,
                        plugin_id@,
                        exposed_tables@[j].table_name@,
                    ) matches Some(et) && spec_et_eq(et, exposed_tables@[j])),
            decreases n - i,
        {
            let ghost before = self.exposed_tables@;
            self.exposed_tables.insert(0, (plugin_id.to_owned(), exposed_tables[i].dup()));
            proof {
                let cur = self.exposed_tables@;
                assert(cur.drop_first() =~= before);
                assert(cur[0].0@ == plugin_id@);
                assert(spec_et_eq(cur[0].1, exposed_tables@[i as int]));
                assert forall|o: Seq<char>, t: Seq<char>|
                    (o != plugin_id@ || !(exists|j: int|
                        0 <= j < i + 1 && (#[trigger] exposed_tables@[j]).table_name@ == t))
                        implies #[trigger] spec_lookup_exposed(cur, o, t) == spec_lookup_exposed(
                    old(self).exposed_tables@,
                    o,
                    t,
                ) by {
                    if o == plugin_id@ {
                        assert(exposed_tables@[i as int].table_name@ != t);
                    }
                    assert(!(cur[0].0@ == o && cur[0].1.table_name@ == t));
                    assert(spec_lookup_exposed(cur, o, t) == spec_lookup_exposed(before, o, t));
                }
                assert forall|j: int|
                    0 <= j < i + 1 && (forall|k: int|
                        j < k < i + 1 ==> (#[trigger] exposed_tables@[k]).table_name@
                            != exposed_tables@[j].table_name@) implies (
                #[trigger] spec_lookup_exposed(
                    cur,
                    plugin_id@,
                    exposed_tables@[j].table_name@,
                ) matches Some(et) && spec_et_eq(et, exposed_tables@[j])) by {
                    let t = exposed_tables@[j].table_name@;
                    if j == i {
                        assert(cur[0].1.table_name@ == t);
                        assert(spec_lookup_exposed(cur, plugin_id@, t) == Some(cur[0].1));
                    } else {
                        assert(exposed_tables@[i as int].table_name@ != t);
                        assert(!(cur[0].0@ == plugin_id@ && cur[0].1.table_name@ == t));
                        assert(spec_lookup_exposed(cur, plugin_id@, t) == spec_lookup_exposed(
                            before,
                            plugin_id@,
                            t,
                        ));
                    }
                }
            }
            i += 1;
        }
        Ok(())
    }

    /// Whether an exposure record exists for (owner, table).
    pub fn has_exposure(&self, owner: &str, table: &str) -> (r: bool)
        ensures
            r == (self.spec_lookup_exposure(owner@, table@) is Some),
    {
        match find_exposed(&self.exposed_tables, owner, table) {
            Some(_) => true,
            None => false,
        }
    }

    /// Whether `requesting_plugin_id` may read `table` claimed to belong to
    /// `target_plugin_id`: the target must really own the table, must have
    /// exposed it, and the allowed list must admit the requester — a
    /// wildcard entry admits any plugin, an empty list admits none, and
    /// otherwise exactly the listed plugins are admitted.
    pub fn can_query_plugin_table(
        &self,
        requesting_plugin_id: &str,
        target_plugin_id: &str,
        table: &str,
    ) -> (r: bool)
        ensures
            r == self.spec_can_query(requesting_plugin_id@, target_plugin_id@, table@),
    {
        let owner_ok = match self.get_table_owner(table) {
            Some(o) => str_eq(o.as_str(), target_plugin_id),
            None => false,
        };
        if !owner_ok {
            return false;
        }
        let et = match find_exposed(&self.exposed_tables, target_plugin_id, table) {
            Some(et) => et,
            None => {
                return false;
            },
        };
        if contains_str(&et.allowed_plugins, "*") {
            return true;
        }
        if et.allowed_plugins.len() == 0 {
            return false;
        }
        contains_str(&et.allowed_plugins, requesting_plugin_id)
    }
}

/// Content equality of an extension's data parts (everything but the
/// callables).
pub open spec fn spec_ext_data_eq<H, F>(a: Extension<H, F>, b: Extension<H, F>) -> bool {
    &&& a.plugin_id@ == b.plugin_id@
    &&& a.entity_type == b.entity_type
    &&& a.extension_type == b.extension_type
    &&& a.schema_changes@.len() == b.schema_changes@.len()
    &&& (forall|i: int|
        0 <= i < a.schema_changes@.len() ==> spec_sc_eq(
            #[trigger] a.schema_changes@[i],
            b.schema_changes@[i],
        ))
    &&& a.model_fields@ == b.model_fields@
}

impl<H, F> Extension<H, F> {
    /// A copy of the data parts; the hook and the filters cannot be copied
    /// and are left out.
    pub fn data_copy(&self) -> (r: Extension<H, F>)
        ensures
            spec_ext_data_eq(r, *self),
            r.hook is None,
            r.query_filters@.len() == 0,
    {
        Extension {
            plugin_id: self.plugin_id.clone(),
            entity_type: self.entity_type,
            extension_type: self.extension_type,
            schema_changes: dup_schema_changes(&self.schema_changes),
            model_fields: dup_model_fields(&self.model_fields),
            hook: None,
            query_filters: Vec::new(),
        }
    }
}

impl<H, F> ExtensionRegistry<H, F> {
    /// The registered extensions of one entity type, in registration order.
    pub open spec fn spec_of_type(&self, et: EntityType) -> Seq<Extension<H, F>> {
        self.spec_extensions().filter(|e: Extension<H, F>| e.entity_type == et)
    }

    /// The registered extensions of one entity type and kind, in
    /// registration order.
    pub open spec fn spec_of_kind(&self, et: EntityType, kind: ExtensionType) -> Seq<
        Extension<H, F>,
    > {
        self.spec_extensions().filter(
            |e: Extension<H, F>| e.entity_type == et && e.extension_type == kind,
        )
    }

    /// References to the registered extensions of an entity type, in
    /// registration order.
    pub fn get_extensions_ref<'a>(&'a self, entity_type: EntityType) -> (r: Vec<
        &'a Extension<H, F>,
    >)
        ensures
            r@.len() == self.spec_of_type(entity_type).len(),
            forall|i: int|
                0 <= i < r@.len() ==> *(#[trigger] r@[i]) == self.spec_of_type(entity_type)[i],
    {
        let mut out: Vec<&Extension<H, F>> = Vec::new();
        let n = self.extensions.len();
        let mut i: usize = 0;
        while i < n
            invariant
                i <= n,
                n == self.extensions@.len(),
                out@.len() == self.extensions@.subrange(0, i as int).filter(
                    |e: Extension<H, F>| e.entity_type == entity_type,
                ).len(),
                forall|k: int|
                    0 <= k < out@.len() ==> *(#[trigger] out@[k]) == self.extensions@.subrange(
                        0,
                        i as int,
                    ).filter(|e: Extension<H, F>| e.entity_type == entity_type)[k],
            decreases n - i,
        {
            let matches_type = entity_type_eq(self.extensions[i].entity_type, entity_type);
            if matches_type {
                out.push(&self.extensions[i]);
            }
            proof {
                reveal(Seq::filter);
                let sub1 = self.extensions@.subrange(0, i as int + 1);
                assert(sub1.drop_last() =~= self.extensions@.subrange(0, i as int));
                assert(sub1.last() == self.extensions@[i as int]);
            }
            i += 1;
        }
        proof {
            assert(self.extensions@.subrange(0, n as int) =~= self.extensions@);
        }
        out
    }

    /// Data copies of the registered extensions of an entity type, in
    /// registration order; hooks and filters cannot be copied and are left
    /// out.
    pub fn get_extensions(&self, entity_type: EntityType) -> (r: Vec<Extension<H, F>>)
        ensures
            r@.len() == self.spec_of_type(entity_type).len(),
            forall|i: int|
                0 <= i < r@.len() ==> spec_ext_data_eq(
                    #[trigger] r@[i],
                    self.spec_of_type(entity_type)[i],
                ) && r@[i].hook is None && r@[i].query_filters@.len() == 0,
    {
        let refs = self.get_extensions_ref(entity_type);
        copy_all(&refs)
    }

    /// Data copies of the registered extensions of an entity type and kind,
    /// in registration order.
    pub fn get_by_kind(&self, entity_type: EntityType, kind: ExtensionType) -> (r: Vec<
        Extension<H, F>,
    >)
        ensures
            r@.len() == self.spec_of_kind(entity_type, kind).len(),
            forall|i: int|
                0 <= i < r@.len() ==> spec_ext_data_eq(
                    #[trigger] r@[i],
                    self.spec_of_kind(entity_type, kind)[i],
                ) && r@[i].hook is None && r@[i].query_filters@.len() == 0,
    {
        let mut out: Vec<Extension<H, F>> = Vec::new();
        let n = self.extensions.len();
        let mut i: usize = 0;
        while i < n
            invariant
                i <= n,
                n == self.extensions@.len(),
                out@.len() == self.extensions@.subrange(0, i as int).filter(
                    |e: Extension<H, F>| e.entity_type == entity_type && e.extension_type == kind,
                ).len(),
                forall|k: int|
                    0 <= k < out@.len() ==> spec_ext_data_eq(
                        #[trigger] out@[k],
                        self.extensions@.subrange(0, i as int).filter(
                            |e: Extension<H, F>| e.entity_type == entity_type && e.extension_type
                                == kind,
                        )[k],
                    ) && out@[k].hook is None && out@[k].query_filters@.len() == 0,
            decreases n - i,
        {
            let keep = entity_type_eq(self.extensions[i].entity_type, entity_type)
                && extension_type_eq(self.extensions[i].extension_type, kind);
            if keep {
                out.push(self.extensions[i].data_copy());
            }
            proof {
                reveal(Seq::filter);
                let sub1 = self.extensions@.subrange(0, i as int + 1);
                assert(sub1.drop_last() =~= self.extensions@.subrange(0, i as int));
                assert(sub1.last() == self.extensions@[i as int]);
            }
            i += 1;
        }
        proof {
            assert(self.extensions@.subrange(0, n as int) =~= self.extensions@);
        }
        out
    }

    /// The schema extensions of an entity type.
    pub fn get_schema_extensions(&self, entity_type: EntityType) -> (r: Vec<Extension<H, F>>)
        ensures
            r@.len() == self.spec_of_kind(entity_type, ExtensionType::DatabaseSchema).len(),
            forall|i: int|
                0 <= i < r@.len() ==> spec_ext_data_eq(
                    #[trigger] r@[i],
                    self.spec_of_kind(entity_type, ExtensionType::DatabaseSchema)[i],
                ),
    {
        self.get_by_kind(entity_type, ExtensionType::DatabaseSchema)
    }

    /// The model extensions of an entity type.
    pub fn get_model_extensions(&self, entity_type: EntityType) -> (r: Vec<Extension<H, F>>)
        ensures
            r@.len() == self.spec_of_kind(entity_type, ExtensionType::Model).len(),
            forall|i: int|
                0 <= i < r@.len() ==> spec_ext_data_eq(
                    #[trigger] r@[i],
                    self.spec_of_kind(entity_type, ExtensionType::Model)[i],
                ),
    {
        self.get_by_kind(entity_type, ExtensionType::Model)
    }

    /// The data-hook extensions of an entity type (data parts only; the
    /// callables stay in the registry and run through
    /// `apply_activity_hooks`).
    pub fn get_data_hooks(&self, entity_type: EntityType) -> (r: Vec<Extension<H, F>>)
        ensures
            r@.len() == self.spec_of_kind(entity_type, ExtensionType::DataHook).len(),
            forall|i: int|
                0 <= i < r@.len() ==> spec_ext_data_eq(
                    #[trigger] r@[i],
                    self.spec_of_kind(entity_type, ExtensionType::DataHook)[i],
                ),
    {
        self.get_by_kind(entity_type, ExtensionType::DataHook)
    }

    /// The query extensions of an entity type (data parts only; the
    /// callables stay in the registry and run through
    /// `apply_query_filters`).
    pub fn get_query_filters(&self, entity_type: EntityType) -> (r: Vec<Extension<H, F>>)
        ensures
            r@.len() == self.spec_of_kind(entity_type, ExtensionType::Query).len(),
            forall|i: int|
                0 <= i < r@.len() ==> spec_ext_data_eq(
                    #[trigger] r@[i],
                    self.spec_of_kind(entity_type, ExtensionType::Query)[i],
                ),
    {
        self.get_by_kind(entity_type, ExtensionType::Query)
    }
}

/// A data hook that could run during this pass: attached to activities, of
/// the data-hook kind, with a callable present.
pub open spec fn spec_hook_applicable<H, F>(e: Extension<H, F>) -> bool {
    e.entity_type == EntityType::Activity && e.extension_type == ExtensionType::DataHook
        && e.hook is Some
}

/// A query extension that could transform this pass's rows.
pub open spec fn spec_filter_applicable<H, F>(e: Extension<H, F>, et: EntityType) -> bool {
    e.entity_type == et && e.extension_type == ExtensionType::Query && e.query_filters@.len() > 0
}

impl<H: ActivityHookFn, F: QueryFilterFn> ExtensionRegistry<H, F> {
    /// Runs every registered activity data hook over the entity, in
    /// registration order. The first failure aborts the pass and propagates;
    /// later hooks do not run. With no applicable hook registered the entity
    /// comes back untouched.
    pub fn apply_activity_hooks(&self, activity: &mut Activity, db: &Database) -> (r: Result<
        (),
        String,
    >)
        ensures
            (forall|i: int|
                0 <= i < self.spec_extensions().len() ==> !spec_hook_applicable(
                    #[trigger] self.spec_extensions()[i],
                )) ==> r is Ok && *final (activity) == *old(activity),
    {
        let n = self.extensions.len();
        let mut i: usize = 0;
        while i < n
            invariant
                i <= n,
                n == self.spec_extensions().len(),
                (forall|j: int|
                    0 <= j < i ==> !spec_hook_applicable(#[trigger] self.spec_extensions()[j]))
                    ==> *activity == *old(activity),
            decreases n - i,
        {
            let ext = &self.extensions[i];
            let applicable = entity_type_eq(ext.entity_type, EntityType::Activity)
                && extension_type_eq(ext.extension_type, ExtensionType::DataHook);
            if applicable {
                match &ext.hook {
                    Some(hook) => {
                        match hook.on_upsert.on_upsert(activity, db) {
                            Ok(()) => {},
                            Err(e) => {
                                proof {
                                    assert(spec_hook_applicable(self.spec_extensions()[i as int]));
                                }
                                return Err(e);
                            },
                        }
                    },
                    None => {},
                }
            }
            i += 1;
        }
        Ok(())
    }

    /// Runs every registered query filter for the entity type over the
    /// result set, in registration order, each replacing the set with its
    /// output. The first failure aborts the pass and propagates, discarding
    /// partial results. With no applicable filter registered the set comes
    /// back untouched.
    pub fn apply_query_filters(
        &self,
        entity_type: EntityType,
        activities: Vec<Activity>,
        filter_params: &Vec<(String, ParamValue)>,
    ) -> (r: Result<Vec<Activity>, String>)
        ensures
            (forall|i: int|
                0 <= i < self.spec_extensions().len() ==> !spec_filter_applicable(
                    #[trigger] self.spec_extensions()[i],
                    entity_type,
                )) ==> (r matches Ok(v) && v == activities),
    {
        let mut acts = activities;
        let ghost acts0 = acts;
        let n = self.extensions.len();
        let mut i: usize = 0;
        while i < n
            invariant
                i <= n,
                n == self.spec_extensions().len(),
                (forall|j: int|
                    0 <= j < i ==> !spec_filter_applicable(
                        #[trigger] self.spec_extensions()[j],
                        entity_type,
                    )) ==> acts == acts0,
            decreases n - i,
        {
            let ext = &self.extensions[i];
            let applicable = entity_type_eq(ext.entity_type, entity_type) && extension_type_eq(
                ext.extension_type,
                ExtensionType::Query,
            );
            if applicable {
                let m = ext.query_filters.len();
                let mut k: usize = 0;
                while k < m
                    invariant
                        k <= m,
                        i < n,
                        n == self.spec_extensions().len(),
                        m == self.spec_extensions()[i as int].query_filters@.len(),
                        self.spec_extensions()[i as int].entity_type == entity_type,
                        self.spec_extensions()[i as int].extension_type == ExtensionType::Query,
                        m == 0 ==> ((forall|j: int|
                            0 <= j < i ==> !spec_filter_applicable(
                                #[trigger] self.spec_extensions()[j],
                                entity_type,
                            )) ==> acts == acts0),
                    decreases m - k,
                {
                    match self.extensions[i].query_filters[k].filter_fn.apply(
                        acts,
                        filter_params,
                    ) {
                        Ok(next) => {
                            acts = next;
                        },
                        Err(e) => {
                            proof {
                                assert(spec_filter_applicable(
                                    self.spec_extensions()[i as int],
                                    entity_type,
                                ));
                            }
                            return Err(e);
                        },
                    }
                    k += 1;
                }
                proof {
                    if m > 0 {
                        assert(spec_filter_applicable(self.spec_extensions()[i as int], entity_type));
                    }
                }
            }
            i += 1;
        }
        Ok(acts)
    }
}

/// An entity type comparison usable in executable code.
pub fn entity_type_eq(a: EntityType, b: EntityType) -> (r: bool)
    ensures
        r == (a == b),
{
    match (a, b) {
        (EntityType::Activity, EntityType::Activity) => true,
        (EntityType::Category, EntityType::Category) => true,
        (EntityType::ManualEntry, EntityType::ManualEntry) => true,
        _ => false,
    }
}

/// An extension kind comparison usable in executable code.
pub fn extension_type_eq(a: ExtensionType, b: ExtensionType) -> (r: bool)
    ensures
        r == (a == b),
{
    match (a, b) {
        (ExtensionType::DatabaseSchema, ExtensionType::DatabaseSchema) => true,
        (ExtensionType::Model, ExtensionType::Model) => true,
        (ExtensionType::DataHook, ExtensionType::DataHook) => true,
        (ExtensionType::Query, ExtensionType::Query) => true,
        _ => false,
    }
}

fn copy_all<H, F>(refs: &Vec<&Extension<H, F>>) -> (r: Vec<Extension<H, F>>)
    ensures
        r@.len() == refs@.len(),
        forall|i: int|
            0 <= i < r@.len() ==> spec_ext_data_eq(#[trigger] r@[i], *refs@[i]) && r@[i].hook
                is None && r@[i].query_filters@.len() == 0,
{
    let mut out: Vec<Extension<H, F>> = Vec::new();
    let n = refs.len();
    let mut i: usize = 0;
    while i < n
        invariant
            i <= n,
            n == refs@.len(),
            out@.len() == i,
            forall|k: int|
                0 <= k < i ==> spec_ext_data_eq(#[trigger] out@[k], *refs@[k]) && out@[k].hook
                    is None && out@[k].query_filters@.len() == 0,
        decreases n - i,
    {
        out.push(refs[i].data_copy());
        i += 1;
    }
    out
}

impl<H, F> Default for ExtensionRegistry<H, F> {
    /// A fresh, empty registry.
    fn default() -> (r: Self)
        ensures
            r.spec_extensions().len() == 0,
            r.spec_tables().len() == 0,
            r.spec_exposed().len() == 0,
    {
        ExtensionRegistry::new()
    }
}

/// First-match scan of the ownership records.
fn find_owner<'a>(pairs: &'a Vec<(String, String)>, t: &str) -> (r: Option<&'a String>)
    ensures
        match r {
            Some(o) => spec_lookup_owner(pairs@, t@) == Some(*o),
            None => spec_lookup_owner(pairs@, t@) is None,
        },
{
    let n = pairs.len();
    let mut i: usize = 0;
    while i < n
        invariant
            i <= n,
            n == pairs@.len(),
            forall|j: int| 0 <= j < i ==> (#[trigger] pairs@[j]).0@ != t@,
        decreases n - i,
    {
        if str_eq(pairs[i].0.as_str(), t) {
            proof {
                lemma_lookup_owner_at(pairs@, t@, i as int);
            }
            return Some(&pairs[i].1);
        }
        i += 1;
    }
    proof {
        lemma_lookup_owner_none(pairs@, t@);
    }
    None
}

proof fn lemma_lookup_owner_at(pairs: Seq<(String, String)>, t: Seq<char>, i: int)
    requires
        0 <= i < pairs.len(),
        forall|j: int| 0 <= j < i ==> (#[trigger] pairs[j]).0@ != t,
        pairs[i].0@ == t,
    ensures
        spec_lookup_owner(pairs, t) == Some(pairs[i].1),
    decreases i,
{
    if i > 0 {
        lemma_lookup_owner_at(pairs.drop_first(), t, i - 1);
        assert(pairs.drop_first()[i - 1] == pairs[i]);
    }
}

proof fn lemma_lookup_owner_none(pairs: Seq<(String, String)>, t: Seq<char>)
    requires
        forall|j: int| 0 <= j < pairs.len() ==> (#[trigger] pairs[j]).0@ != t,
    ensures
        spec_lookup_owner(pairs, t) is None,
    decreases pairs.len(),
{
    if pairs.len() > 0 {
        lemma_lookup_owner_none(pairs.drop_first(), t);
    }
}

/// First-match scan of the exposure records.
fn find_exposed<'a>(
    entries: &'a Vec<(String, ExposedTable)>,
    owner: &str,
    t: &str,
) -> (r: Option<&'a ExposedTable>)
    ensures
        match r {
            Some(et) => spec_lookup_exposed(entries@, owner@, t@) == Some(*et),
            None => spec_lookup_exposed(entries@, owner@, t@) is None,
        },
{
    let n = entries.len();
    let mut i: usize = 0;
    while i < n
        invariant
            i <= n,
            n == entries@.len(),
            forall|j: int|
                0 <= j < i ==> !((#[trigger] entries@[j]).0@ == owner@ && entries@[j].1.table_name@
                    == t@),
        decreases n - i,
    {
        if str_eq(entries[i].0.as_str(), owner) && str_eq(entries[i].1.table_name.as_str(), t) {
            proof {
                lemma_lookup_exposed_at(entries@, owner@, t@, i as int);
            }
            return Some(&entries[i].1);
        }
        i += 1;
    }
    proof {
        lemma_lookup_exposed_none(entries@, owner@, t@);
    }
    None
}

proof fn lemma_lookup_exposed_at(
    entries: Seq<(String, ExposedTable)>,
    owner: Seq<char>,
    t: Seq<char>,
    i: int,
)
    requires
        0 <= i < entries.len(),
        forall|j: int|
            0 <= j < i ==> !((#[trigger] entries[j]).0@ == owner && entries[j].1.table_name@ == t),
        entries[i].0@ == owner && entries[i].1.table_name@ == t,
    ensures
        spec_lookup_exposed(entries, owner, t) == Some(entries[i].1),
    decreases i,
{
    if i > 0 {
        lemma_lookup_exposed_at(entries.drop_first(), owner, t, i - 1);
        assert(entries.drop_first()[i - 1] == entries[i]);
    }
}

proof fn lemma_lookup_exposed_none(
    entries: Seq<(String, ExposedTable)>,
    owner: Seq<char>,
    t: Seq<char>,
)
    requires
        forall|j: int|
            0 <= j < entries.len() ==> !((#[trigger] entries[j]).0@ == owner
                && entries[j].1.table_name@ == t),
    ensures
        spec_lookup_exposed(entries, owner, t) is None,
    decreases entries.len(),
{
    if entries.len() > 0 {
        lemma_lookup_exposed_none(entries.drop_first(), owner, t);
    }
}

/// Whether the list holds a string with this content.
pub fn contains_str(vs: &Vec<String>, x: &str) -> (r: bool)
    ensures
        r == spec_contains_str(vs@, x@),
{
    let n = vs.len();
    let mut i: usize = 0;
    while i < n
        invariant
            i <= n,
            n == vs@.len(),
            forall|j: int| 0 <= j < i ==> (#[trigger] vs@[j])@ != x@,
        decreases n - i,
    {
        if str_eq(vs[i].as_str(), x) {
            return true;
        }
        i += 1;
    }
    false
}

/// A reserved core name is never owned by any plugin, no matter what was
/// registered before.
pub proof fn lemma_reserved_never_owned<H, F>(
    reg: &ExtensionRegistry<H, F>,
    pid: Seq<char>,
    t: Seq<char>,
)
    requires
        spec_is_reserved_table(t),
    ensures
        !reg.spec_owns(pid, t),
        reg.spec_table_owner(t) is None,
{
}

/// A wildcard in the allowed list admits every requester.
pub proof fn lemma_wildcard_allows_any<H, F>(
    reg: &ExtensionRegistry<H, F>,
    requester: Seq<char>,
    owner: Seq<char>,
    t: Seq<char>,
)
    requires
        reg.spec_table_owner(t) matches Some(o) && o@ == owner,
        reg.spec_lookup_exposure(owner, t) matches Some(et) && spec_contains_str(
            et.allowed_plugins@,
            "*"@,
        ),
    ensures
        reg.spec_can_query(requester, owner, t),
{
}

/// An empty allowed list admits no requester.
pub proof fn lemma_empty_list_denies_all<H, F>(
    reg: &ExtensionRegistry<H, F>,
    requester: Seq<char>,
    owner: Seq<char>,
    t: Seq<char>,
)
    requires
        reg.spec_lookup_exposure(owner, t) matches Some(et) && et.allowed_plugins@.len() == 0,
    ensures
        !reg.spec_can_query(requester, owner, t),
{
}

/// An undeclared exposure denies every requester.
pub proof fn lemma_undeclared_denies<H, F>(
    reg: &ExtensionRegistry<H, F>,
    requester: Seq<char>,
    owner: Seq<char>,
    t: Seq<char>,
)
    requires
        reg.spec_lookup_exposure(owner, t) is None,
    ensures
        !reg.spec_can_query(requester, owner, t),
{
}

/// Without a wildcard, exactly the listed requesters are admitted.
pub proof fn lemma_membership_decides<H, F>(
    reg: &ExtensionRegistry<H, F>,
    requester: Seq<char>,
    owner: Seq<char>,
    t: Seq<char>,
)
    requires
        reg.spec_table_owner(t) matches Some(o) && o@ == owner,
        reg.spec_lookup_exposure(owner, t) matches Some(et) && !spec_contains_str(
            et.allowed_plugins@,
            "*"@,
        ),
    ensures
        reg.spec_can_query(requester, owner, t) <==> (reg.spec_lookup_exposure(owner, t)
            matches Some(et) && spec_contains_str(et.allowed_plugins@, requester)),
{
}

} // verus!
