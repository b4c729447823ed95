//! The capability object handed to a plugin at initialize time. It owns the
//! store handle and the extension registry for the duration of one pass and
//! is bound to one plugin id: registrations land under that id, own-table
//! operations are gated by ownership, and the cross-plugin path is read-only
//! and permission-checked. A plugin never receives raw store access.

use vstd::prelude::*;
use vstd::string::StringExecFns;
use crate::aggregate::AggregateSpec;
use crate::engine::spec_has_valid_key;
use crate::errors::Error;
use crate::extensions::{
    ActivityHook, EntityType, ExposedTable, Extension, ExtensionRegistry, ExtensionType,
    QueryFilter, spec_register_conflict,
};
use crate::model::Activity;
use crate::store::Database;
use crate::value::{str_eq, DataMap, ParamValue, Row, Scalar, scalar_of, spec_param_get, spec_scalar_of};

verus! {

/// Capability object bound to one plugin.
pub struct PluginAPI<H, F> {
    db: Database,
    extension_registry: ExtensionRegistry<H, F>,
    plugin_id: String,
}

/// A scalar turned back into a parameter value.
pub open spec fn spec_param_of_scalar(c: Scalar) -> ParamValue {
    match c {
        Scalar::Null => ParamValue::Null,
        Scalar::Int(i) => ParamValue::Int(i),
        Scalar::Real(rv) => ParamValue::Real(rv),
        Scalar::Text(s) => ParamValue::Text(s),
    }
}

/// A scalar turned back into a parameter value.
pub fn param_of_scalar(c: &Scalar) -> (r: ParamValue)
    ensures
        r == spec_param_of_scalar(*c),
{
    match c {
        Scalar::Null => ParamValue::Null,
        Scalar::Int(i) => ParamValue::Int(*i),
        Scalar::Real(rv) => ParamValue::Real(rv.clone()),
        Scalar::Text(s) => ParamValue::Text(s.clone()),
    }
}

/// A row as an object value, field for field.
pub open spec fn spec_row_fields(row: Seq<(String, Scalar)>) -> Seq<(String, ParamValue)> {
    Seq::new(row.len(), |i: int| (row[i].0, spec_param_of_scalar(row[i].1)))
}

/// A row as an object value.
pub fn row_to_param(row: &Row) -> (r: ParamValue)
    ensures
        r matches ParamValue::Object(fields) && fields@ == spec_row_fields(row@),
{
    let mut fields: Vec<(String, ParamValue)> = Vec::new();
    let n = row.len();
    let mut i: usize = 0;
    while i < n
        invariant
            i <= n,
            n == row@.len(),
            fields@.len() == i,
            forall|j: int| 0 <= j < i ==> #[trigger] fields@[j] == spec_row_fields(row@)[j],
        decreases n - i,
    {
        fields.push((row[i].0.clone(), param_of_scalar(&row[i].1)));
        i += 1;
    }
    proof {
        assert(fields@ =~= spec_row_fields(row@));
    }
    ParamValue::Object(fields)
}

/// A list of rows as an array of objects.
pub fn rows_to_param(rows: &Vec<Row>) -> (r: ParamValue)
    ensures
        r matches ParamValue::Array(items) && items@.len() == rows@.len() && (forall|i: int|
            0 <= i < rows@.len() ==> ((#[trigger] items@[i]) matches ParamValue::Object(fields)
                && fields@ == spec_row_fields(rows@[i]@))),
{
    let mut items: Vec<ParamValue> = Vec::new();
    let n = rows.len();
    let mut i: usize = 0;
    while i < n
        invariant
            i <= n,
            n == rows@.len(),
            items@.len() == i,
            forall|j: int|
                0 <= j < i ==> ((#[trigger] items@[j]) matches ParamValue::Object(fields)
                    && fields@ == spec_row_fields(rows@[j]@)),
        decreases n - i,
    {
        items.push(row_to_param(&rows[i]));
        i += 1;
    }
    ParamValue::Array(items)
}

/// First-match cell lookup in a row.
pub open spec fn spec_row_get(row: Seq<(String, Scalar)>, k: Seq<char>) -> Option<Scalar>
    decreases row.len(),
{
    if row.len() == 0 {
        None
    } else if row[0].0@ == k {
        Some(row[0].1)
    } else {
        spec_row_get(row.drop_first(), k)
    }
}

/// First-match cell lookup in a row.
pub fn row_get<'a>(row: &'a Row, key: &str) -> (r: Option<&'a Scalar>)
    ensures
        match r {
            Some(c) => spec_row_get(row@, key@) == Some(*c),
            None => spec_row_get(row@, key@) is None,
        },
{
    let n = row.len();
    let mut i: usize = 0;
    while i < n
        invariant
            i <= n,
            n == row@.len(),
            forall|j: int| 0 <= j < i ==> (#[trigger] row@[j]).0@ != key@,
        decreases n - i,
    {
        if str_eq(row[i].0.as_str(), key) {
            proof {
                lemma_row_get_at(row@, key@, i as int);
            }
            return Some(&row[i].1);
        }
        i += 1;
    }
    proof {
        lemma_row_get_none(row@, key@);
    }
    None
}

proof fn lemma_row_get_at(row: Seq<(String, Scalar)>, k: Seq<char>, i: int)
    requires
        0 <= i < row.len(),
        forall|j: int| 0 <= j < i ==> (#[trigger] row[j]).0@ != k,
        row[i].0@ == k,
    ensures
        spec_row_get(row, k) == Some(row[i].1),
    decreases i,
{
    if i > 0 {
        lemma_row_get_at(row.drop_first(), k, i - 1);
        assert(row.drop_first()[i - 1] == row[i]);
    }
}

proof fn lemma_row_get_none(row: Seq<(String, Scalar)>, k: Seq<char>)
    requires
        forall|j: int| 0 <= j < row.len() ==> (#[trigger] row[j]).0@ != k,
    ensures
        spec_row_get(row, k) is None,
    decreases row.len(),
{
    if row.len() > 0 {
        lemma_row_get_none(row.drop_first(), k);
    }
}

/// A required integer parameter: present and an integer, or the call is
/// malformed.
pub fn req_i64(p: &ParamValue, key: &str) -> (r: Result<i64, Error>)
    ensures
        r == (match spec_param_get(*p, key@) {
            Some(ParamValue::Int(v)) => Ok::<i64, Error>(v),
            _ => Err::<i64, Error>(Error::BadParams),
        }),
{
    match p.get(key) {
        Some(v) => match v.as_i64() {
            Some(i) => Ok(i),
            None => Err(Error::BadParams),
        },
        None => Err(Error::BadParams),
    }
}

/// An optional integer parameter.
pub fn opt_i64_param(p: &ParamValue, key: &str) -> (r: Option<i64>)
    ensures
        r == (match spec_param_get(*p, key@) {
            Some(ParamValue::Int(v)) => Some(v),
            _ => None::<i64>,
        }),
{
    match p.get(key) {
        Some(v) => v.as_i64(),
        None => None,
    }
}

/// A required text parameter.
pub fn req_str(p: &ParamValue, key: &str) -> (r: Result<String, Error>)
    ensures
        match r {
            Ok(s) => spec_param_get(*p, key@) matches Some(ParamValue::Text(t)) && t == s,
            Err(e) => e == Error::BadParams && !(spec_param_get(*p, key@) matches Some(
                ParamValue::Text(_),
            )),
        },
{
    match p.get(key) {
        Some(v) => match v.as_str() {
            Some(s) => Ok(s.clone()),
            None => Err(Error::BadParams),
        },
        None => Err(Error::BadParams),
    }
}

/// An optional text parameter.
pub fn opt_str_param(p: &ParamValue, key: &str) -> (r: Option<String>)
    ensures
        match r {
            Some(s) => spec_param_get(*p, key@) matches Some(ParamValue::Text(t)) && t == s,
            None => !(spec_param_get(*p, key@) matches Some(ParamValue::Text(_))),
        },
{
    match p.get(key) {
        Some(v) => match v.as_str() {
            Some(s) => Some(s.clone()),
            None => None,
        },
        None => None,
    }
}

/// An optional boolean parameter.
pub fn opt_bool_param(p: &ParamValue, key: &str) -> (r: Option<bool>)
    ensures
        r == (match spec_param_get(*p, key@) {
            Some(ParamValue::Bool(b)) => Some(b),
            _ => None::<bool>,
        }),
{
    match p.get(key) {
        Some(v) => v.as_bool(),
        None => None,
    }
}

/// An optional list of integers: the integer items of an array parameter.
pub fn opt_i64_list(p: &ParamValue, key: &str) -> (r: Option<Vec<i64>>) {
    match p.get(key) {
        Some(v) => match v.as_array() {
            Some(items) => {
                let mut out: Vec<i64> = Vec::new();
                let n = items.len();
                let mut i: usize = 0;
                while i < n
                    invariant
                        i <= n,
                        n == items@.len(),
                    decreases n - i,
                {
                    match items[i].as_i64() {
                        Some(x) => out.push(x),
                        None => {},
                    }
                    i += 1;
                }
                Some(out)
            },
            None => None,
        },
        None => None,
    }
}

/// An object parameter turned into a data map of bound scalars.
pub fn data_map_of(p: &ParamValue) -> (r: Result<DataMap, Error>)
    ensures
        match r {
            Ok(d) => *p matches ParamValue::Object(fields) && d@.len() == fields@.len() && (
            forall|i: int|
                0 <= i < d@.len() ==> (#[trigger] d@[i]).0 == fields@[i].0 && d@[i].1
                    == spec_scalar_of(fields@[i].1)),
            Err(e) => e == Error::BadParams && !(*p matches ParamValue::Object(_)),
        },
{
    match p.as_object() {
        Some(fields) => {
            let mut out: DataMap = Vec::new();
            let n = fields.len();
            let mut i: usize = 0;
            while i < n
                invariant
                    i <= n,
                    n == fields@.len(),
                    out@.len() == i,
                    forall|j: int|
                        0 <= j < i ==> (#[trigger] out@[j]).0 == fields@[j].0 && out@[j].1
                            == spec_scalar_of(fields@[j].1),
                decreases n - i,
            {
                out.push((fields[i].0.clone(), scalar_of(&fields[i].1)));
                i += 1;
            }
            Ok(out)
        },
        None => Err(Error::BadParams),
    }
}

/// An optional filters parameter: an object when present.
fn opt_data_map(p: &ParamValue, key: &str) -> Option<DataMap> {
    match p.get(key) {
        Some(v) => match data_map_of(v) {
            Ok(d) => Some(d),
            Err(_) => None,
        },
        None => None,
    }
}

/// An activity as an object value.
pub fn activity_to_param(a: &Activity) -> (r: ParamValue) {
    let mut fields: Vec<(String, ParamValue)> = Vec::new();
    fields.push(("id".to_owned(), ParamValue::Int(a.id)));
    fields.push(("started_at".to_owned(), ParamValue::Int(a.started_at)));
    fields.push(("duration_sec".to_owned(), ParamValue::Int(a.duration_sec)));
    fields.push(("is_idle".to_owned(), ParamValue::Bool(a.is_idle)));
    fields.push((
        "category_id".to_owned(),
        match a.category_id {
            Some(c) => ParamValue::Int(c),
            None => ParamValue::Null,
        },
    ));
    fields.push((
        "project_id".to_owned(),
        match a.project_id {
            Some(c) => ParamValue::Int(c),
            None => ParamValue::Null,
        },
    ));
    fields.push((
        "task_id".to_owned(),
        match a.task_id {
            Some(c) => ParamValue::Int(c),
            None => ParamValue::Null,
        },
    ));
    ParamValue::Object(fields)
}

fn activities_to_param(acts: &Vec<Activity>) -> (r: ParamValue)
    ensures
        r is Array,
{
    let mut items: Vec<ParamValue> = Vec::new();
    let n = acts.len();
    let mut i: usize = 0;
    while i < n
        invariant
            i <= n,
            n == acts@.len(),
        decreases n - i,
    {
        items.push(activity_to_param(&acts[i]));
        i += 1;
    }
    ParamValue::Array(items)
}

impl<H, F> PluginAPI<H, F> {
    /// The registry this capability object operates on.
    pub closed spec fn spec_registry(&self) -> ExtensionRegistry<H, F> {
        self.extension_registry
    }

    /// The plugin this capability object is bound to.
    pub closed spec fn spec_plugin_id(&self) -> Seq<char> {
        self.plugin_id@
    }

    /// Binds a capability object to one plugin over the given store and
    /// registry.
    pub fn new(db: Database, extension_registry: ExtensionRegistry<H, F>, plugin_id: String) -> (r:
        PluginAPI<H, F>)
        ensures
            r.spec_registry() == extension_registry,
            r.spec_plugin_id() == plugin_id@,
    {
        PluginAPI { db, extension_registry, plugin_id }
    }

    /// Releases the store and the registry back to the host.
    pub fn into_parts(self) -> (r: (Database, ExtensionRegistry<H, F>))
        ensures
            r.1 == self.spec_registry(),
    {
        (self.db, self.extension_registry)
    }

    /// Rebinds the capability object to another plugin.
    pub fn set_plugin_id(&mut self, plugin_id: String)
        ensures
            final (self).spec_plugin_id() == plugin_id@,
            final (self).spec_registry() == old(self).spec_registry(),
    {
        self.plugin_id = plugin_id;
    }

    /// The store handle, for the host's own use.
    pub fn database(&self) -> &Database {
        &self.db
    }

    /// The extension registry, for the host's own reads: hook and filter
    /// application, and listing registered extensions.
    pub fn extension_registry(&self) -> (r: &ExtensionRegistry<H, F>)
        ensures
            *r == self.spec_registry(),
    {
        &self.extension_registry
    }

    /// Registers an extension under this capability's plugin id, whatever id
    /// the extension claimed.
    pub fn register_extension(&mut self, extension: Extension<H, F>) -> (r: Result<(), Error>)
        ensures
            r is Err ==> r == Err::<(), Error>(Error::OwnershipConflict),
            (r is Ok) <==> !spec_register_conflict(
                old(self).spec_registry().spec_tables(),
                old(self).spec_plugin_id(),
                extension.schema_changes@,
            ),
            final (self).spec_plugin_id() == old(self).spec_plugin_id(),
            r is Err ==> {
                &&& final (self).spec_registry().spec_extensions() == old(
                    self,
                ).spec_registry().spec_extensions()
                &&& final (self).spec_registry().spec_tables() == old(
                    self,
                ).spec_registry().spec_tables()
                &&& final (self).spec_registry().spec_exposed() == old(
                    self,
                ).spec_registry().spec_exposed()
            },
            r is Ok && extension.schema_changes@.len() == 0 ==> final (self).spec_registry().spec_tables()
                == old(self).spec_registry().spec_tables(),
            r is Ok ==> {
                &&& final (self).spec_registry().spec_extensions().len() == old(
                    self,
                ).spec_registry().spec_extensions().len() + 1
                &&& final (self).spec_registry().spec_extensions().last().plugin_id@ == old(
                    self,
                ).spec_plugin_id()
                &&& final (self).spec_registry().spec_extensions().last().entity_type
                    == extension.entity_type
                &&& final (self).spec_registry().spec_extensions().last().extension_type
                    == extension.extension_type
                &&& final (self).spec_registry().spec_extensions().last().schema_changes
                    == extension.schema_changes
                &&& final (self).spec_registry().spec_extensions().last().model_fields
                    == extension.model_fields
                &&& final (self).spec_registry().spec_extensions().last().hook == extension.hook
                &&& final (self).spec_registry().spec_extensions().last().query_filters
                    == extension.query_filters
                &&& final (self).spec_registry().spec_extensions().drop_last() == old(
                    self,
                ).spec_registry().spec_extensions()
                &&& final (self).spec_registry().spec_exposed() == old(
                    self,
                ).spec_registry().spec_exposed()
                &&& forall|t: Seq<char>|
                    crate::extensions::spec_creates_table(extension.schema_changes@, t)
                        && !crate::extensions::spec_is_reserved_table(t) ==> (
                    #[trigger] crate::extensions::spec_lookup_owner(
                        final (self).spec_registry().spec_tables(),
                        t,
                    ) matches Some(o) && o@ == old(self).spec_plugin_id())
                &&& forall|t: Seq<char>|
                    !(crate::extensions::spec_creates_table(extension.schema_changes@, t)
                        && !crate::extensions::spec_is_reserved_table(t))
                        ==> #[trigger] crate::extensions::spec_lookup_owner(
                        final (self).spec_registry().spec_tables(),
                        t,
                    ) == crate::extensions::spec_lookup_owner(
                        old(self).spec_registry().spec_tables(),
                        t,
                    )
            },
    {
        let mut extension = extension;
        extension.plugin_id = self.plugin_id.clone();
        let r = self.extension_registry.register(extension);
        match r {
            Ok(()) => {
                proof {
                    assert(self.spec_registry().spec_extensions().drop_last() == old(
                        self,
                    ).spec_registry().spec_extensions());
                }
                Ok(())
            },
            Err(e) => Err(e),
        }
    }

    /// Registers a database schema extension.
    pub fn register_schema_extension(
        &mut self,
        entity_type: EntityType,
        schema_changes: Vec<crate::extensions::SchemaChange>,
    ) -> (r: Result<(), Error>)
        ensures
            r is Err ==> r == Err::<(), Error>(Error::OwnershipConflict),
            (r is Ok) <==> !spec_register_conflict(
                old(self).spec_registry().spec_tables(),
                old(self).spec_plugin_id(),
                schema_changes@,
            ),
            final (self).spec_plugin_id() == old(self).spec_plugin_id(),
            r is Err ==> {
                &&& final (self).spec_registry().spec_extensions() == old(
                    self,
                ).spec_registry().spec_extensions()
                &&& final (self).spec_registry().spec_tables() == old(
                    self,
                ).spec_registry().spec_tables()
                &&& final (self).spec_registry().spec_exposed() == old(
                    self,
                ).spec_registry().spec_exposed()
            },
            r is Ok ==> {
                &&& final (self).spec_registry().spec_extensions().len() == old(
                    self,
                ).spec_registry().spec_extensions().len() + 1
                &&& final (self).spec_registry().spec_extensions().last().plugin_id@ == old(
                    self,
                ).spec_plugin_id()
                &&& final (self).spec_registry().spec_extensions().last().entity_type == entity_type
                &&& final (self).spec_registry().spec_extensions().last().extension_type
                    == ExtensionType::DatabaseSchema
                &&& final (self).spec_registry().spec_extensions().last().schema_changes
                    == schema_changes
                &&& final (self).spec_registry().spec_extensions().drop_last() == old(
                    self,
                ).spec_registry().spec_extensions()
            },
            r is Ok ==> forall|t: Seq<char>|
                crate::extensions::spec_creates_table(schema_changes@, t)
                    && !crate::extensions::spec_is_reserved_table(t) ==> (
                #[trigger] crate::extensions::spec_lookup_owner(
                    final (self).spec_registry().spec_tables(),
                    t,
                ) matches Some(o) && o@ == old(self).spec_plugin_id()),
            r is Ok ==> forall|t: Seq<char>|
                !(crate::extensions::spec_creates_table(schema_changes@, t)
                    && !crate::extensions::spec_is_reserved_table(t))
                    ==> #[trigger] crate::extensions::spec_lookup_owner(
                    final (self).spec_registry().spec_tables(),
                    t,
                ) == crate::extensions::spec_lookup_owner(
                    old(self).spec_registry().spec_tables(),
                    t,
                ),
    {
        self.register_extension(
            Extension {
                plugin_id: self.plugin_id.clone(),
                entity_type,
                extension_type: ExtensionType::DatabaseSchema,
                schema_changes,
                model_fields: Vec::new(),
                hook: None,
                query_filters: Vec::new(),
            },
        )
    }

    /// Registers a model extension.
    pub fn register_model_extension(
        &mut self,
        entity_type: EntityType,
        model_fields: Vec<crate::extensions::ModelField>,
    ) -> (r: Result<(), Error>)
        ensures
            r is Ok,
            final (self).spec_plugin_id() == old(self).spec_plugin_id(),
            final (self).spec_registry().spec_tables() == old(self).spec_registry().spec_tables(),
            final (self).spec_registry().spec_exposed() == old(self).spec_registry().spec_exposed(),
            final (self).spec_registry().spec_extensions().len() == old(
                self,
            ).spec_registry().spec_extensions().len() + 1,
            final (self).spec_registry().spec_extensions().drop_last() == old(
                self,
            ).spec_registry().spec_extensions(),
            final (self).spec_registry().spec_extensions().last().plugin_id@ == old(
                self,
            ).spec_plugin_id(),
            final (self).spec_registry().spec_extensions().last().entity_type == entity_type,
            final (self).spec_registry().spec_extensions().last().extension_type
                == ExtensionType::Model,
            final (self).spec_registry().spec_extensions().last().model_fields == model_fields,
    {
        self.register_extension(
            Extension {
                plugin_id: self.plugin_id.clone(),
                entity_type,
                extension_type: ExtensionType::Model,
                schema_changes: Vec::new(),
                model_fields,
                hook: None,
                query_filters: Vec::new(),
            },
        )
    }

    /// Registers a data hook.
    pub fn register_data_hook(&mut self, entity_type: EntityType, hook: ActivityHook<H>) -> (r:
        Result<(), Error>)
        ensures
            r is Ok,
            final (self).spec_plugin_id() == old(self).spec_plugin_id(),
            final (self).spec_registry().spec_tables() == old(self).spec_registry().spec_tables(),
            final (self).spec_registry().spec_exposed() == old(self).spec_registry().spec_exposed(),
            final (self).spec_registry().spec_extensions().len() == old(
                self,
            ).spec_registry().spec_extensions().len() + 1,
            final (self).spec_registry().spec_extensions().drop_last() == old(
                self,
            ).spec_registry().spec_extensions(),
            final (self).spec_registry().spec_extensions().last().plugin_id@ == old(
                self,
            ).spec_plugin_id(),
            final (self).spec_registry().spec_extensions().last().entity_type == entity_type,
            final (self).spec_registry().spec_extensions().last().extension_type
                == ExtensionType::DataHook,
            final (self).spec_registry().spec_extensions().last().hook == Some(hook),
    {
        self.register_extension(
            Extension {
                plugin_id: self.plugin_id.clone(),
                entity_type,
                extension_type: ExtensionType::DataHook,
                schema_changes: Vec::new(),
                model_fields: Vec::new(),
                hook: Some(hook),
                query_filters: Vec::new(),
            },
        )
    }

    /// Registers query filters.
    pub fn register_query_filters(
        &mut self,
        entity_type: EntityType,
        query_filters: Vec<QueryFilter<F>>,
    ) -> (r: Result<(), Error>)
        ensures
            r is Ok,
            final (self).spec_plugin_id() == old(self).spec_plugin_id(),
            final (self).spec_registry().spec_tables() == old(self).spec_registry().spec_tables(),
            final (self).spec_registry().spec_exposed() == old(self).spec_registry().spec_exposed(),
            final (self).spec_registry().spec_extensions().len() == old(
                self,
            ).spec_registry().spec_extensions().len() + 1,
            final (self).spec_registry().spec_extensions().drop_last() == old(
                self,
            ).spec_registry().spec_extensions(),
            final (self).spec_registry().spec_extensions().last().plugin_id@ == old(
                self,
            ).spec_plugin_id(),
            final (self).spec_registry().spec_extensions().last().entity_type == entity_type,
            final (self).spec_registry().spec_extensions().last().extension_type
                == ExtensionType::Query,
            final (self).spec_registry().spec_extensions().last().query_filters == query_filters,
    {
        self.register_extension(
            Extension {
                plugin_id: self.plugin_id.clone(),
                entity_type,
                extension_type: ExtensionType::Query,
                schema_changes: Vec::new(),
                model_fields: Vec::new(),
                hook: None,
                query_filters,
            },
        )
    }

    /// Records the exposure declarations of this plugin's manifest,
    /// replacing any prior permission list per table. Exposure records under
    /// any other key keep their meaning, and nothing else in the registry
    /// changes.
    pub fn register_exposed_tables(&mut self, exposed_tables: &Vec<ExposedTable>) -> (r: Result<
        (),
        Error,
    >)
        ensures
            r is Ok,
            final (self).spec_plugin_id() == old(self).spec_plugin_id(),
            final (self).spec_registry().spec_extensions() == old(
                self,
            ).spec_registry().spec_extensions(),
            final (self).spec_registry().spec_tables() == old(self).spec_registry().spec_tables(),
            forall|o: Seq<char>, t: Seq<char>|
                (o != old(self).spec_plugin_id() || !(exists|j: int|
                    0 <= j < exposed_tables@.len() && (#[trigger] exposed_tables@[j]).table_name@
                        == t)) ==> #[trigger] final (self).spec_registry().spec_lookup_exposure(
                    o,
                    t,
                ) == old(self).spec_registry().spec_lookup_exposure(o, t),
            forall|j: int|
                0 <= j < exposed_tables@.len() && (forall|k: int|
                    j < k < exposed_tables@.len() ==> (#[trigger] exposed_tables@[k]).table_name@
                        != exposed_tables@[j].table_name@) ==> (
                #[trigger] final (self).spec_registry().spec_lookup_exposure(
                    old(self).spec_plugin_id(),
                    exposed_tables@[j].table_name@,
                ) matches Some(et) && crate::extensions::spec_et_eq(et, exposed_tables@[j])),
    {
        let pid = self.plugin_id.clone();
        self.extension_registry.register_exposed_tables(pid.as_str(), exposed_tables)
    }

    /// Applies every schema change this plugin has registered, in
    /// registration order; the first failure aborts and propagates.
    pub fn apply_registered_schema_changes(&self, entity_type: EntityType) -> (r: Result<
        (),
        Error,
    >) {
        let exts = self.extension_registry.get_schema_extensions(entity_type);
        let n = exts.len();
        let mut i: usize = 0;
        while i < n
            invariant
                i <= n,
                n == exts@.len(),
            decreases n - i,
        {
            match self.db.apply_schema_changes(&exts[i].schema_changes) {
                Ok(()) => {},
                Err(e) => {
                    return Err(e);
                },
            }
            i += 1;
        }
        Ok(())
    }

    /// Inserts a row into a table this plugin owns.
    pub fn insert_own_table(&self, table: &str, data: &DataMap) -> (r: Result<i64, Error>)
        ensures
            (r == Err::<i64, Error>(Error::TableNotOwned)) <==> !self.spec_registry().spec_owns(
                self.spec_plugin_id(),
                table@,
            ),
            r == Err::<i64, Error>(Error::NoValidColumns) ==> !spec_has_valid_key(data@),
            r matches Err(e) ==> (e matches Error::TableNotOwned || e
                matches Error::InvalidIdentifier || e matches Error::NoValidColumns || e
                matches Error::StoreFailure(_)),
    {
        if !self.extension_registry.plugin_owns_table(self.plugin_id.as_str(), table) {
            return Err(Error::TableNotOwned);
        }
        self.db.plugin_insert_table(table, data)
    }

    /// Queries a table this plugin owns.
    pub fn query_own_table(
        &self,
        table: &str,
        filters: Option<&DataMap>,
        order_by: Option<&str>,
        limit: Option<i64>,
    ) -> (r: Result<Vec<Row>, Error>)
        ensures
            (r == Err::<Vec<Row>, Error>(Error::TableNotOwned)) <==> !self.spec_registry().spec_owns(
                self.spec_plugin_id(),
                table@,
            ),
            r matches Err(e) ==> (e matches Error::TableNotOwned || e
                matches Error::InvalidIdentifier || e matches Error::TableNotFound || e
                matches Error::StoreFailure(_)),
    {
        if !self.extension_registry.plugin_owns_table(self.plugin_id.as_str(), table) {
            return Err(Error::TableNotOwned);
        }
        self.db.plugin_select_table(table, filters, order_by, limit)
    }

    /// Updates a row of a table this plugin owns.
    pub fn update_own_table(&self, table: &str, id: i64, data: &DataMap) -> (r: Result<
        usize,
        Error,
    >)
        ensures
            (r == Err::<usize, Error>(Error::TableNotOwned)) <==> !self.spec_registry().spec_owns(
                self.spec_plugin_id(),
                table@,
            ),
            r matches Err(e) ==> (e matches Error::TableNotOwned || e
                matches Error::InvalidIdentifier || e matches Error::StoreFailure(_)),
    {
        if !self.extension_registry.plugin_owns_table(self.plugin_id.as_str(), table) {
            return Err(Error::TableNotOwned);
        }
        self.db.plugin_update_table(table, id, data)
    }

    /// Deletes a row of a table this plugin owns.
    pub fn delete_own_table(&self, table: &str, id: i64) -> (r: Result<usize, Error>)
        ensures
            (r == Err::<usize, Error>(Error::TableNotOwned)) <==> !self.spec_registry().spec_owns(
                self.spec_plugin_id(),
                table@,
            ),
            r matches Err(e) ==> (e matches Error::TableNotOwned || e
                matches Error::InvalidIdentifier || e matches Error::StoreFailure(_)),
    {
        if !self.extension_registry.plugin_owns_table(self.plugin_id.as_str(), table) {
            return Err(Error::TableNotOwned);
        }
        self.db.plugin_delete_table(table, id)
    }

    /// Aggregates over a table this plugin owns.
    pub fn aggregate_own_table(
        &self,
        table: &str,
        filters: Option<&DataMap>,
        aggregations: &AggregateSpec,
    ) -> (r: Result<crate::aggregate::AggregateResult, Error>)
        ensures
            (r == Err::<crate::aggregate::AggregateResult, Error>(Error::TableNotOwned))
                <==> !self.spec_registry().spec_owns(self.spec_plugin_id(), table@),
            r matches Err(e) ==> (e matches Error::TableNotOwned || e
                matches Error::InvalidIdentifier || e matches Error::StoreFailure(_)),
    {
        if !self.extension_registry.plugin_owns_table(self.plugin_id.as_str(), table) {
            return Err(Error::TableNotOwned);
        }
        self.db.plugin_aggregate_table(table, filters, aggregations)
    }

    /// Queries a table owned by another plugin: read-only, permitted only
    /// when the owner really owns the table, has exposed it, and the allowed
    /// list admits this plugin.
    pub fn query_plugin_table(
        &self,
        plugin_id: &str,
        table: &str,
        filters: Option<&DataMap>,
        order_by: Option<&str>,
        limit: Option<i64>,
    ) -> (r: Result<Vec<Row>, Error>)
        ensures
            r is Ok ==> self.spec_registry().spec_can_query(
                self.spec_plugin_id(),
                plugin_id@,
                table@,
            ),
            r == Err::<Vec<Row>, Error>(Error::PermissionDenied) ==> !self.spec_registry().spec_can_query(
                self.spec_plugin_id(),
                plugin_id@,
                table@,
            ),
            r == Err::<Vec<Row>, Error>(Error::TableNotExposed) ==> self.spec_registry().spec_lookup_exposure(
                plugin_id@,
                table@,
            ) is None,
            r == Err::<Vec<Row>, Error>(Error::TableNotOwned) ==> !(
            self.spec_registry().spec_table_owner(table@) matches Some(o) && o@ == plugin_id@),
    {
        match self.db.is_plugin_installed(plugin_id) {
            Ok(true) => {},
            Ok(false) => {
                return Err(Error::PluginNotFound);
            },
            Err(e) => {
                return Err(e);
            },
        }
        let owner_ok = match self.extension_registry.get_table_owner(table) {
            Some(o) => str_eq(o.as_str(), plugin_id),
            None => false,
        };
        if !owner_ok {
            return Err(Error::TableNotOwned);
        }
        if !self.extension_registry.can_query_plugin_table(
            self.plugin_id.as_str(),
            plugin_id,
            table,
        ) {
            if !self.extension_registry.has_exposure(plugin_id, table) {
                return Err(Error::TableNotExposed);
            }
            return Err(Error::PermissionDenied);
        }
        self.db.plugin_select_table(table, filters, order_by, limit)
    }
}


/// Filters for querying activities; absent fields apply no filtering.
pub struct ActivityFilters {
    pub exclude_idle: Option<bool>,
    pub category_ids: Option<Vec<i64>>,
}

/// The fields of a parameter object that are not core category columns,
/// bound as scalars, in order.
pub open spec fn spec_extended_data(fields: Seq<(String, ParamValue)>) -> Seq<(String, Scalar)>
    decreases fields.len(),
{
    if fields.len() == 0 {
        Seq::empty()
    } else {
        spec_extended_data(fields.drop_last()) + (if !crate::entities::spec_is_core_category_column(
            fields.last().0@,
        ) {
            seq![(fields.last().0, spec_scalar_of(fields.last().1))]
        } else {
            Seq::empty()
        })
    }
}

fn extended_data(fields: &Vec<(String, ParamValue)>) -> (r: DataMap)
    ensures
        r@ == spec_extended_data(fields@),
{
    let mut out: DataMap = Vec::new();
    let n = fields.len();
    let mut i: usize = 0;
    while i < n
        invariant
            i <= n,
            n == fields@.len(),
            out@ =~= spec_extended_data(fields@.subrange(0, i as int)),
        decreases n - i,
    {
        if !crate::entities::is_core_category_column(fields[i].0.as_str()) {
            out.push((fields[i].0.clone(), scalar_of(&fields[i].1)));
        }
        proof {
            let sub1 = fields@.subrange(0, i as int + 1);
            assert(sub1.drop_last() =~= fields@.subrange(0, i as int));
            assert(sub1.last() == fields@[i as int]);
            assert(out@ =~= spec_extended_data(sub1));
        }
        i += 1;
    }
    proof {
        assert(fields@.subrange(0, n as int) =~= fields@);
    }
    out
}

/// The first row whose `id` cell holds this id.
pub fn find_row_by_id<'a>(rows: &'a Vec<Row>, id: i64) -> (r: Option<&'a Row>) {
    let n = rows.len();
    let mut i: usize = 0;
    while i < n
        invariant
            i <= n,
            n == rows@.len(),
        decreases n - i,
    {
        match row_get(&rows[i], "id") {
            Some(c) => {
                match c {
                    Scalar::Int(v) => {
                        if *v == id {
                            return Some(&rows[i]);
                        }
                    },
                    _ => {},
                }
            },
            None => {},
        }
        i += 1;
    }
    None
}

fn sat_sub1(v: i64) -> (r: i64)
    ensures
        r == (if v > i64::MIN {
            v - 1
        } else {
            v as int
        }),
{
    if v > i64::MIN {
        v - 1
    } else {
        v
    }
}

fn sat_add1(v: i64) -> (r: i64)
    ensures
        r == (if v < i64::MAX {
            v + 1
        } else {
            v as int
        }),
{
    if v < i64::MAX {
        v + 1
    } else {
        v
    }
}

fn text_cell_of(row: &Row, key: &str) -> Option<String> {
    match row_get(row, key) {
        Some(c) => match c {
            Scalar::Text(s) => Some(s.clone()),
            _ => None,
        },
        None => None,
    }
}

fn int_cell_of(row: &Row, key: &str) -> Option<i64> {
    match row_get(row, key) {
        Some(c) => match c {
            Scalar::Int(v) => Some(*v),
            _ => None,
        },
        None => None,
    }
}

/// One of the generic table operations, all gated by table ownership.
pub open spec fn spec_table_method(m: Seq<char>) -> bool {
    ||| m == "insert_table"@
    ||| m == "select_table"@
    ||| m == "update_table"@
    ||| m == "delete_table"@
    ||| m == "aggregate_table"@
}

/// The table named by a parameter object, when the field is text.
pub open spec fn spec_table_text(params: ParamValue) -> Option<Seq<char>> {
    match spec_param_get(params, "table"@) {
        Some(v) => match v {
            ParamValue::Text(t) => Some(t@),
            _ => None,
        },
        None => None,
    }
}

/// An integer field is present.
pub open spec fn spec_int_field(params: ParamValue, k: Seq<char>) -> bool {
    spec_param_get(params, k) matches Some(ParamValue::Int(_))
}

/// An object field is present.
pub open spec fn spec_object_field(params: ParamValue, k: Seq<char>) -> bool {
    spec_param_get(params, k) matches Some(ParamValue::Object(_))
}

/// One of the names the command interface routes to the store.
pub open spec fn spec_known_db_method(m: Seq<char>) -> bool {
    ||| m == "create_category"@
    ||| m == "update_category"@
    ||| m == "get_categories"@
    ||| m == "delete_category"@
    ||| m == "get_activities"@
    ||| m == "create_manual_entry"@
    ||| m == "update_manual_entry"@
    ||| m == "get_manual_entries"@
    ||| m == "delete_manual_entry"@
    ||| m == "insert_table"@
    ||| m == "select_table"@
    ||| m == "update_table"@
    ||| m == "delete_table"@
    ||| m == "aggregate_table"@
}

impl<H, F> PluginAPI<H, F> {
    /// All categories, plugin-extended columns included, as an array of
    /// objects.
    pub fn get_categories(&self) -> (r: Result<ParamValue, Error>)
        ensures
            r matches Ok(v) ==> v is Array,
            r matches Err(e) ==> (e matches Error::InvalidIdentifier || e
                matches Error::TableNotFound || e matches Error::StoreFailure(_)),
    {
        match self.db.get_categories_as_json() {
            Ok(rows) => Ok(rows_to_param(&rows)),
            Err(e) => Err(e),
        }
    }

    /// Creates a category from its core fields; any other field of the
    /// parameter object is written as a plugin-extended column. Returns the
    /// created row with every column. The call is malformed exactly when the
    /// parameters are not an object carrying a text `name`.
    pub fn create_category(&self, params: &ParamValue) -> (r: Result<ParamValue, Error>)
        ensures
            (r == Err::<ParamValue, Error>(Error::BadParams)) <==> !(*params matches
                ParamValue::Object(_) && spec_param_get(*params, "name"@) matches Some(
                ParamValue::Text(_),
            )),
            r matches Err(e) ==> (e matches Error::BadParams || e matches Error::InvalidIdentifier
                || e matches Error::TableNotFound || e matches Error::StoreFailure(_)),
    {
        let fields = match params.as_object() {
            Some(f) => f,
            None => {
                return Err(Error::BadParams);
            },
        };
        let name = match req_str(params, "name") {
            Ok(s) => s,
            Err(e) => {
                return Err(e);
            },
        };
        let color = match opt_str_param(params, "color") {
            Some(s) => s,
            None => "#888888".to_owned(),
        };
        let icon = opt_str_param(params, "icon");
        let is_productive = opt_bool_param(params, "is_productive");
        let sort_order = match opt_i64_param(params, "sort_order") {
            Some(v) => v,
            None => 0,
        };
        let is_system = match opt_bool_param(params, "is_system") {
            Some(b) => b,
            None => false,
        };
        let is_pinned = match opt_bool_param(params, "is_pinned") {
            Some(b) => b,
            None => false,
        };
        let id = match self.db.create_category_core(
            name.as_str(),
            color.as_str(),
            match &icon {
                Some(s) => Some(s.as_str()),
                None => None,
            },
            is_productive,
            sort_order,
            is_system,
            is_pinned,
        ) {
            Ok(id) => id,
            Err(e) => {
                return Err(e);
            },
        };
        let extended = extended_data(fields);
        if extended.len() > 0 {
            match self.db.update_categories_extended(id, &extended) {
                Ok(_) => {},
                Err(e) => {
                    return Err(e);
                },
            }
        }
        self.category_by_id(id)
    }

    fn category_by_id(&self, id: i64) -> (r: Result<ParamValue, Error>)
        ensures
            r matches Err(e) ==> (e matches Error::InvalidIdentifier || e
                matches Error::TableNotFound || e matches Error::StoreFailure(_)),
    {
        let rows = match self.db.get_categories_as_json() {
            Ok(rows) => rows,
            Err(e) => {
                return Err(e);
            },
        };
        match find_row_by_id(&rows, id) {
            Some(row) => Ok(row_to_param(row)),
            None => Err(Error::StoreFailure("failed to retrieve the category".to_owned())),
        }
    }

    /// Updates a category's core fields, merging absent optional fields from
    /// the stored row, and writes any plugin-extended field given. Returns
    /// the updated row with every column. The call is malformed exactly when
    /// the parameters are not an object carrying an integer `id` and a text
    /// `name`.
    pub fn update_category(&self, params: &ParamValue) -> (r: Result<ParamValue, Error>)
        ensures
            (r == Err::<ParamValue, Error>(Error::BadParams)) <==> !(*params matches
                ParamValue::Object(_) && spec_param_get(*params, "id"@) matches Some(
                ParamValue::Int(_),
            ) && spec_param_get(*params, "name"@) matches Some(ParamValue::Text(_))),
            r matches Err(e) ==> (e matches Error::BadParams || e matches Error::InvalidIdentifier
                || e matches Error::TableNotFound || e matches Error::StoreFailure(_)),
    {
        let fields = match params.as_object() {
            Some(f) => f,
            None => {
                return Err(Error::BadParams);
            },
        };
        let id = match req_i64(params, "id") {
            Ok(v) => v,
            Err(e) => {
                return Err(e);
            },
        };
        let name = match req_str(params, "name") {
            Ok(s) => s,
            Err(e) => {
                return Err(e);
            },
        };
        let color = match opt_str_param(params, "color") {
            Some(s) => s,
            None => "#888888".to_owned(),
        };
        let icon = opt_str_param(params, "icon");
        let is_productive = opt_bool_param(params, "is_productive");
        let sort_order = match opt_i64_param(params, "sort_order") {
            Some(v) => v,
            None => 0,
        };
        let is_pinned = opt_bool_param(params, "is_pinned");
        let rows = match self.db.get_categories_as_json() {
            Ok(rows) => rows,
            Err(e) => {
                return Err(e);
            },
        };
        let current = match find_row_by_id(&rows, id) {
            Some(row) => row,
            None => {
                return Err(Error::StoreFailure("category not found".to_owned()));
            },
        };
        let current_pinned = match int_cell_of(current, "is_pinned") {
            Some(v) => v != 0,
            None => false,
        };
        let current_productive = match int_cell_of(current, "is_productive") {
            Some(v) => Some(v != 0),
            None => None,
        };
        let is_pinned_merged = match is_pinned {
            Some(b) => b,
            None => current_pinned,
        };
        let is_productive_merged = match is_productive {
            Some(b) => Some(b),
            None => current_productive,
        };
        match self.db.update_category_core(
            id,
            name.as_str(),
            color.as_str(),
            match &icon {
                Some(s) => Some(s.as_str()),
                None => None,
            },
            is_productive_merged,
            sort_order,
            is_pinned_merged,
        ) {
            Ok(_) => {},
            Err(e) => {
                return Err(e);
            },
        }
        let extended = extended_data(fields);
        if extended.len() > 0 {
            match self.db.update_categories_extended(id, &extended) {
                Ok(_) => {},
                Err(e) => {
                    return Err(e);
                },
            }
        }
        self.category_by_id(id)
    }

    /// Deletes a category by id.
    pub fn delete_category(&self, id: i64) -> (r: Result<(), Error>)
        ensures
            r matches Err(e) ==> e matches Error::StoreFailure(_),
    {
        match self.db.delete_category(id) {
            Ok(_) => Ok(()),
            Err(e) => Err(e),
        }
    }

    /// The activities in a time range, filtered and paged.
    pub fn get_activities(
        &self,
        start: i64,
        end: i64,
        limit: Option<i64>,
        offset: Option<i64>,
        filters: Option<&ActivityFilters>,
    ) -> (r: Result<Vec<Activity>, Error>)
        ensures
            r matches Err(e) ==> (e matches Error::InvalidIdentifier || e
                matches Error::TableNotFound || e matches Error::StoreFailure(_)),
    {
        let (exclude_idle, category_ids) = match filters {
            Some(f) => (
                f.exclude_idle,
                match &f.category_ids {
                    Some(cs) => Some(cs),
                    None => None,
                },
            ),
            None => (None, None),
        };
        self.db.get_activities(start, end, limit, offset, exclude_idle, category_ids)
    }

    /// The manual entries in a time range, as rows.
    pub fn get_manual_entries(&self, start: i64, end: i64) -> (r: Result<Vec<Row>, Error>)
        ensures
            r matches Err(e) ==> e matches Error::StoreFailure(_),
    {
        self.db.get_manual_entries(start, end)
    }

    /// Creates a manual entry and returns it as stored. The call is
    /// malformed exactly when `started_at` or `ended_at` is missing or not
    /// an integer.
    pub fn create_manual_entry(&self, params: &ParamValue) -> (r: Result<ParamValue, Error>)
        ensures
            (r == Err::<ParamValue, Error>(Error::BadParams)) <==> !(spec_param_get(
                *params,
                "started_at"@,
            ) matches Some(ParamValue::Int(_)) && spec_param_get(*params, "ended_at"@)
                matches Some(ParamValue::Int(_))),
            r matches Err(e) ==> (e matches Error::BadParams || e matches Error::StoreFailure(_)),
    {
        let description = opt_str_param(params, "description");
        let category_id = opt_i64_param(params, "category_id");
        let started_at = match req_i64(params, "started_at") {
            Ok(v) => v,
            Err(e) => {
                return Err(e);
            },
        };
        let ended_at = match req_i64(params, "ended_at") {
            Ok(v) => v,
            Err(e) => {
                return Err(e);
            },
        };
        let id = match self.db.add_manual_entry(
            match &description {
                Some(s) => Some(s.as_str()),
                None => None,
            },
            category_id,
            started_at,
            ended_at,
        ) {
            Ok(id) => id,
            Err(e) => {
                return Err(e);
            },
        };
        let entries = match self.db.get_manual_entries(sat_sub1(started_at), sat_add1(started_at)) {
            Ok(rows) => rows,
            Err(e) => {
                return Err(e);
            },
        };
        match find_row_by_id(&entries, id) {
            Some(row) => Ok(row_to_param(row)),
            None => Err(Error::StoreFailure("failed to retrieve the created entry".to_owned())),
        }
    }

    /// Updates a manual entry, merging absent optional fields from the
    /// stored row, and returns it as stored. The call is malformed exactly
    /// when `id`, `started_at` or `ended_at` is missing or not an integer.
    pub fn update_manual_entry(&self, params: &ParamValue) -> (r: Result<ParamValue, Error>)
        ensures
            (r == Err::<ParamValue, Error>(Error::BadParams)) <==> !(spec_param_get(*params, "id"@)
                matches Some(ParamValue::Int(_)) && spec_param_get(*params, "started_at"@)
                matches Some(ParamValue::Int(_)) && spec_param_get(*params, "ended_at"@)
                matches Some(ParamValue::Int(_))),
            r matches Err(e) ==> (e matches Error::BadParams || e matches Error::StoreFailure(_)),
    {
        let id = match req_i64(params, "id") {
            Ok(v) => v,
            Err(e) => {
                return Err(e);
            },
        };
        let started_at = match req_i64(params, "started_at") {
            Ok(v) => v,
            Err(e) => {
                return Err(e);
            },
        };
        let ended_at = match req_i64(params, "ended_at") {
            Ok(v) => v,
            Err(e) => {
                return Err(e);
            },
        };
        let description = opt_str_param(params, "description");
        let category_id = opt_i64_param(params, "category_id");
        let entries = match self.db.get_manual_entries(0, i64::MAX) {
            Ok(rows) => rows,
            Err(e) => {
                return Err(e);
            },
        };
        let current = match find_row_by_id(&entries, id) {
            Some(row) => row,
            None => {
                return Err(Error::StoreFailure("manual entry not found".to_owned()));
            },
        };
        let description_merged = match description {
            Some(s) => Some(s),
            None => text_cell_of(current, "description"),
        };
        let category_merged = match category_id {
            Some(c) => Some(c),
            None => int_cell_of(current, "category_id"),
        };
        match self.db.update_manual_entry(
            id,
            match &description_merged {
                Some(s) => Some(s.as_str()),
                None => None,
            },
            category_merged,
            started_at,
            ended_at,
        ) {
            Ok(_) => {},
            Err(e) => {
                return Err(e);
            },
        }
        let entries2 = match self.db.get_manual_entries(0, i64::MAX) {
            Ok(rows) => rows,
            Err(e) => {
                return Err(e);
            },
        };
        match find_row_by_id(&entries2, id) {
            Some(row) => Ok(row_to_param(row)),
            None => Err(Error::StoreFailure("manual entry not found".to_owned())),
        }
    }

    /// Deletes a manual entry by id.
    pub fn delete_manual_entry(&self, id: i64) -> (r: Result<(), Error>)
        ensures
            r matches Err(e) ==> e matches Error::StoreFailure(_),
    {
        match self.db.delete_manual_entry(id) {
            Ok(_) => Ok(()),
            Err(e) => Err(e),
        }
    }

    /// Exactly when a routed method's call is malformed: the required
    /// parameters of that method, checked in the order the dispatcher reads
    /// them — for a table operation the table name first, then, only on an
    /// owned table, the remaining required parameters.
    pub open spec fn spec_db_bad_params(&self, method: Seq<char>, params: ParamValue) -> bool {
        if method == "create_category"@ {
            !(params matches ParamValue::Object(_) && spec_param_get(params, "name"@)
                matches Some(ParamValue::Text(_)))
        } else if method == "update_category"@ {
            !(params matches ParamValue::Object(_) && spec_int_field(params, "id"@)
                && spec_param_get(params, "name"@) matches Some(ParamValue::Text(_)))
        } else if method == "get_categories"@ {
            false
        } else if method == "delete_category"@ {
            !spec_int_field(params, "id"@)
        } else if method == "get_activities"@ {
            !(spec_int_field(params, "start"@) && spec_int_field(params, "end"@))
        } else if method == "create_manual_entry"@ {
            !(spec_int_field(params, "started_at"@) && spec_int_field(params, "ended_at"@))
        } else if method == "update_manual_entry"@ {
            !(spec_int_field(params, "id"@) && spec_int_field(params, "started_at"@)
                && spec_int_field(params, "ended_at"@))
        } else if method == "get_manual_entries"@ {
            !(spec_int_field(params, "start"@) && spec_int_field(params, "end"@))
        } else if method == "delete_manual_entry"@ {
            !spec_int_field(params, "id"@)
        } else if method == "insert_table"@ {
            match spec_table_text(params) {
                None => true,
                Some(t) => self.spec_registry().spec_owns(self.spec_plugin_id(), t)
                    && !spec_object_field(params, "data"@),
            }
        } else if method == "select_table"@ {
            spec_table_text(params) is None
        } else if method == "update_table"@ {
            match spec_table_text(params) {
                None => true,
                Some(t) => self.spec_registry().spec_owns(self.spec_plugin_id(), t) && !(
                spec_int_field(params, "id"@) && spec_object_field(params, "data"@)),
            }
        } else if method == "delete_table"@ {
            match spec_table_text(params) {
                None => true,
                Some(t) => self.spec_registry().spec_owns(self.spec_plugin_id(), t)
                    && !spec_int_field(params, "id"@),
            }
        } else if method == "aggregate_table"@ {
            match spec_table_text(params) {
                None => true,
                Some(t) => self.spec_registry().spec_owns(self.spec_plugin_id(), t)
                    && !spec_object_field(params, "aggregations"@),
            }
        } else {
            false
        }
    }

    /// Routes a store method by name with a parameter object: category,
    /// activity and manual-entry access, and the generic table operations on
    /// this plugin's own tables. An unknown name fails with
    /// `CommandNotFound`; every table operation checks ownership right after
    /// reading the table name, before anything else, and its result carries
    /// the operation's fixed shape.
    pub fn call_db_method(&self, method: &str, params: &ParamValue) -> (r: Result<
        ParamValue,
        Error,
    >)
        ensures
            (r == Err::<ParamValue, Error>(Error::CommandNotFound)) <==> !spec_known_db_method(
                method@,
            ),
            (r == Err::<ParamValue, Error>(Error::TableNotOwned)) <==> (spec_table_method(method@)
                && (spec_param_get(*params, "table"@) matches Some(ParamValue::Text(t))
                && !self.spec_registry().spec_owns(self.spec_plugin_id(), t@))),
            (r == Err::<ParamValue, Error>(Error::BadParams)) <==> self.spec_db_bad_params(
                method@,
                *params,
            ),
            method@ == "insert_table"@ ==> (r matches Ok(v) ==> (v matches ParamValue::Object(
                fields,
            ) && fields@.len() == 1 && fields@[0].0@ == "id"@ && fields@[0].1 is Int)),
            method@ == "update_table"@ ==> (r matches Ok(v) ==> (v matches ParamValue::Object(
                fields,
            ) && fields@.len() == 1 && fields@[0].0@ == "updated"@ && fields@[0].1 is Int)),
            method@ == "delete_table"@ ==> (r matches Ok(v) ==> (v matches ParamValue::Object(
                fields,
            ) && fields@.len() == 1 && fields@[0].0@ == "deleted"@ && fields@[0].1 is Int)),
            method@ == "select_table"@ ==> (r matches Ok(v) ==> v is Array),
            method@ == "aggregate_table"@ ==> (r matches Ok(v) ==> v is Object),
            (method@ == "get_categories"@ || method@ == "get_activities"@ || method@
                == "get_manual_entries"@) ==> (r matches Ok(v) ==> v is Array),
    {
        proof {
            // the routed names are pairwise distinct literals: their lengths
            // separate most pairs, a leading character the rest
            reveal_strlit("create_category");
            reveal_strlit("update_category");
            reveal_strlit("get_categories");
            reveal_strlit("delete_category");
            reveal_strlit("get_activities");
            reveal_strlit("create_manual_entry");
            reveal_strlit("update_manual_entry");
            reveal_strlit("get_manual_entries");
            reveal_strlit("delete_manual_entry");
            reveal_strlit("insert_table");
            reveal_strlit("select_table");
            reveal_strlit("update_table");
            reveal_strlit("delete_table");
            reveal_strlit("aggregate_table");
            assert("create_category"@.len() == 15);
            assert("update_category"@.len() == 15);
            assert("get_categories"@.len() == 14);
            assert("delete_category"@.len() == 15);
            assert("get_activities"@.len() == 14);
            assert("create_manual_entry"@.len() == 19);
            assert("update_manual_entry"@.len() == 19);
            assert("get_manual_entries"@.len() == 18);
            assert("delete_manual_entry"@.len() == 19);
            assert("insert_table"@.len() == 12);
            assert("select_table"@.len() == 12);
            assert("update_table"@.len() == 12);
            assert("delete_table"@.len() == 12);
            assert("aggregate_table"@.len() == 15);
            assert("create_category"@ != "aggregate_table"@) by {
                assert("create_category"@[0] == 'c');
                assert("aggregate_table"@[0] == 'a');
            }
            assert("update_category"@ != "aggregate_table"@) by {
                assert("update_category"@[0] == 'u');
                assert("aggregate_table"@[0] == 'a');
            }
            assert("delete_category"@ != "aggregate_table"@) by {
                assert("delete_category"@[0] == 'd');
                assert("aggregate_table"@[0] == 'a');
            }
            assert("insert_table"@[0] == 'i');
            assert("select_table"@[0] == 's');
            assert("update_table"@[0] == 'u');
            assert("delete_table"@[0] == 'd');
            assert("insert_table"@ != "select_table"@);
            assert("insert_table"@ != "update_table"@);
            assert("insert_table"@ != "delete_table"@);
            assert("select_table"@ != "update_table"@);
            assert("select_table"@ != "delete_table"@);
            assert("update_table"@ != "delete_table"@);
        }
        if str_eq(method, "create_category") {
            self.create_category(params)
        } else if str_eq(method, "update_category") {
            self.update_category(params)
        } else if str_eq(method, "get_categories") {
            self.get_categories()
        } else if str_eq(method, "delete_category") {
            let id = match req_i64(params, "id") {
                Ok(v) => v,
                Err(e) => {
                    return Err(e);
                },
            };
            match self.delete_category(id) {
                Ok(()) => Ok(ParamValue::Object(Vec::new())),
                Err(e) => Err(e),
            }
        } else if str_eq(method, "get_activities") {
            let start = match req_i64(params, "start") {
                Ok(v) => v,
                Err(e) => {
                    return Err(e);
                },
            };
            let end = match req_i64(params, "end") {
                Ok(v) => v,
                Err(e) => {
                    return Err(e);
                },
            };
            let limit = opt_i64_param(params, "limit");
            let offset = opt_i64_param(params, "offset");
            let exclude_idle = opt_bool_param(params, "exclude_idle");
            let category_ids = opt_i64_list(params, "category_ids");
            match self.db.get_activities(
                start,
                end,
                limit,
                offset,
                exclude_idle,
                match &category_ids {
                    Some(cs) => Some(cs),
                    None => None,
                },
            ) {
                Ok(acts) => Ok(activities_to_param(&acts)),
                Err(e) => Err(e),
            }
        } else if str_eq(method, "create_manual_entry") {
            self.create_manual_entry(params)
        } else if str_eq(method, "update_manual_entry") {
            self.update_manual_entry(params)
        } else if str_eq(method, "get_manual_entries") {
            let start = match req_i64(params, "start") {
                Ok(v) => v,
                Err(e) => {
                    return Err(e);
                },
            };
            let end = match req_i64(params, "end") {
                Ok(v) => v,
                Err(e) => {
                    return Err(e);
                },
            };
            match self.db.get_manual_entries(start, end) {
                Ok(rows) => Ok(rows_to_param(&rows)),
                Err(e) => Err(e),
            }
        } else if str_eq(method, "delete_manual_entry") {
            let id = match req_i64(params, "id") {
                Ok(v) => v,
                Err(e) => {
                    return Err(e);
                },
            };
            match self.delete_manual_entry(id) {
                Ok(()) => Ok(ParamValue::Object(Vec::new())),
                Err(e) => Err(e),
            }
        } else if str_eq(method, "insert_table") {
            let table = match req_str(params, "table") {
                Ok(s) => s,
                Err(e) => {
                    return Err(e);
                },
            };
            if !self.extension_registry.plugin_owns_table(self.plugin_id.as_str(), table.as_str()) {
                return Err(Error::TableNotOwned);
            }
            let data = match params.get("data") {
                Some(d) => match data_map_of(d) {
                    Ok(d) => d,
                    Err(e) => {
                        return Err(e);
                    },
                },
                None => {
                    return Err(Error::BadParams);
                },
            };
            match self.insert_own_table(table.as_str(), &data) {
                Ok(id) => {
                    let mut fields: Vec<(String, ParamValue)> = Vec::new();
                    fields.push(("id".to_owned(), ParamValue::Int(id)));
                    Ok(ParamValue::Object(fields))
                },
                Err(e) => Err(e),
            }
        } else if str_eq(method, "select_table") {
            let table = match req_str(params, "table") {
                Ok(s) => s,
                Err(e) => {
                    return Err(e);
                },
            };
            if !self.extension_registry.plugin_owns_table(self.plugin_id.as_str(), table.as_str()) {
                return Err(Error::TableNotOwned);
            }
            let filters = opt_data_map(params, "filters");
            let order_by = opt_str_param(params, "order_by");
            let limit = opt_i64_param(params, "limit");
            match self.query_own_table(
                table.as_str(),
                match &filters {
                    Some(f) => Some(f),
                    None => None,
                },
                match &order_by {
                    Some(ob) => Some(ob.as_str()),
                    None => None,
                },
                limit,
            ) {
                Ok(rows) => Ok(rows_to_param(&rows)),
                Err(e) => Err(e),
            }
        } else if str_eq(method, "update_table") {
            let table = match req_str(params, "table") {
                Ok(s) => s,
                Err(e) => {
                    return Err(e);
                },
            };
            if !self.extension_registry.plugin_owns_table(self.plugin_id.as_str(), table.as_str()) {
                return Err(Error::TableNotOwned);
            }
            let id = match req_i64(params, "id") {
                Ok(v) => v,
                Err(e) => {
                    return Err(e);
                },
            };
            let data = match params.get("data") {
                Some(d) => match data_map_of(d) {
                    Ok(d) => d,
                    Err(e) => {
                        return Err(e);
                    },
                },
                None => {
                    return Err(Error::BadParams);
                },
            };
            match self.update_own_table(table.as_str(), id, &data) {
                Ok(n) => {
                    let mut fields: Vec<(String, ParamValue)> = Vec::new();
                    fields.push(("updated".to_owned(), ParamValue::Int(#[verifier::truncate] (n as i64))));
                    Ok(ParamValue::Object(fields))
                },
                Err(e) => Err(e),
            }
        } else if str_eq(method, "delete_table") {
            let table = match req_str(params, "table") {
                Ok(s) => s,
                Err(e) => {
                    return Err(e);
                },
            };
            if !self.extension_registry.plugin_owns_table(self.plugin_id.as_str(), table.as_str()) {
                return Err(Error::TableNotOwned);
            }
            let id = match req_i64(params, "id") {
                Ok(v) => v,
                Err(e) => {
                    return Err(e);
                },
            };
            match self.delete_own_table(table.as_str(), id) {
                Ok(n) => {
                    let mut fields: Vec<(String, ParamValue)> = Vec::new();
                    fields.push(("deleted".to_owned(), ParamValue::Int(#[verifier::truncate] (n as i64))));
                    Ok(ParamValue::Object(fields))
                },
                Err(e) => Err(e),
            }
        } else if str_eq(method, "aggregate_table") {
            let table = match req_str(params, "table") {
                Ok(s) => s,
                Err(e) => {
                    return Err(e);
                },
            };
            if !self.extension_registry.plugin_owns_table(self.plugin_id.as_str(), table.as_str()) {
                return Err(Error::TableNotOwned);
            }
            let filters = opt_data_map(params, "filters");
            let aggs = match params.get("aggregations") {
                Some(a) => match a {
                    ParamValue::Object(_) => AggregateSpec::from_params(a),
                    _ => {
                        return Err(Error::BadParams);
                    },
                },
                None => {
                    return Err(Error::BadParams);
                },
            };
            match self.aggregate_own_table(
                table.as_str(),
                match &filters {
                    Some(f) => Some(f),
                    None => None,
                },
                &aggs,
            ) {
                Ok(res) => Ok(aggregate_result_to_param(&aggs, &res)),
                Err(e) => Err(e),
            }
        } else {
            Err(Error::CommandNotFound)
        }
    }
}

/// The scalar fields of a rendered aggregation result, in rendering order:
/// `total_count`, then `sum_<col>`, `avg_<col>`, `min_<col>`, `max_<col>`
/// for each target whose value is present.
pub open spec fn spec_agg_scalar_fields(
    aggs: AggregateSpec,
    res: crate::aggregate::AggregateResult,
) -> Seq<(Seq<char>, ParamValue)> {
    (match res.total_count {
        Some(n) => seq![("total_count"@, ParamValue::Int(n))],
        None => Seq::empty(),
    }) + (match (res.sum, aggs.sum) {
        (Some(v), Some(c)) => seq![("sum_"@ + c@, ParamValue::Int(v))],
        _ => Seq::empty(),
    }) + (match (res.avg, aggs.avg) {
        (Some(v), Some(c)) => seq![("avg_"@ + c@, spec_param_of_scalar(v))],
        _ => Seq::empty(),
    }) + (match (res.min, aggs.min) {
        (Some(v), Some(c)) => seq![("min_"@ + c@, ParamValue::Int(v))],
        _ => Seq::empty(),
    }) + (match (res.max, aggs.max) {
        (Some(v), Some(c)) => seq![("max_"@ + c@, ParamValue::Int(v))],
        _ => Seq::empty(),
    })
}

/// An aggregation result as an object value: `total_count`, `sum_<col>`,
/// `avg_<col>`, `min_<col>`, `max_<col>` for the requested targets, and
/// `groups` as an array of rows with a per-group `count`, exactly in that
/// order and exactly when present.
pub fn aggregate_result_to_param(
    aggs: &AggregateSpec,
    res: &crate::aggregate::AggregateResult,
) -> (r: ParamValue)
    ensures
        r matches ParamValue::Object(fields) && {
            let sf = spec_agg_scalar_fields(*aggs, *res);
            &&& fields@.len() == sf.len() + (if res.groups is Some {
                1int
            } else {
                0
            })
            &&& (forall|k: int|
                0 <= k < sf.len() ==> (#[trigger] fields@[k]).0@ == sf[k].0 && fields@[k].1
                    == sf[k].1)
            &&& (res.groups is Some ==> fields@.last().0@ == "groups"@ && fields@.last().1
                is Array)
        },
{
    let mut fields: Vec<(String, ParamValue)> = Vec::new();
    match &res.total_count {
        Some(n) => fields.push(("total_count".to_owned(), ParamValue::Int(*n))),
        None => {},
    }
    match (&res.sum, &aggs.sum) {
        (Some(v), Some(c)) => fields.push((prefixed("sum_", c.as_str()), ParamValue::Int(*v))),
        _ => {},
    }
    match (&res.avg, &aggs.avg) {
        (Some(v), Some(c)) => fields.push((prefixed("avg_", c.as_str()), param_of_scalar(v))),
        _ => {},
    }
    match (&res.min, &aggs.min) {
        (Some(v), Some(c)) => fields.push((prefixed("min_", c.as_str()), ParamValue::Int(*v))),
        _ => {},
    }
    match (&res.max, &aggs.max) {
        (Some(v), Some(c)) => fields.push((prefixed("max_", c.as_str()), ParamValue::Int(*v))),
        _ => {},
    }
    match &res.groups {
        Some(rows) => fields.push(("groups".to_owned(), rows_to_param(rows))),
        None => {},
    }
    ParamValue::Object(fields)
}

fn prefixed(prefix: &str, name: &str) -> (r: String)
    ensures
        r@ == prefix@ + name@,
{
    let mut out = String::new();
    out.append(prefix);
    out.append(name);
    out
}

} // verus!
