//! Plugin manifests: the declarative file a plugin ships. The text is parsed
//! by the `toml` crate behind trusted wrappers; assembling and validating the
//! manifest from the parsed document is verified code.

use vstd::prelude::*;
use vstd::string::StrSliceExecFns;
use crate::errors::{Error, ManifestField};
use crate::extensions::ExposedTable;

verus! {

#[verifier::external_type_specification]
#[verifier::external_body]
pub struct ExTomlValue(toml::Value);

/// What toml's document parser yields for a given text: a function of the
/// text alone.
pub uninterp spec fn parse_of(content: Seq<char>) -> Option<toml::Value>;

/// What `toml::Value::get` yields for a value and a key: a function of the
/// two alone.
pub uninterp spec fn get_of(v: toml::Value, key: Seq<char>) -> Option<toml::Value>;

/// The content of a string value, if it is one.
pub uninterp spec fn str_of(v: toml::Value) -> Option<Seq<char>>;

/// The elements of an array value, if it is one.
pub uninterp spec fn array_of(v: toml::Value) -> Option<Seq<toml::Value>>;

/// Relies on toml's document parser: the parsed document as a table value,
/// or the parser's error message.
#[verifier::external_body]
fn parse_toml(content: &str) -> (r: Result<toml::Value, String>)
    ensures
        r matches Ok(v) ==> parse_of(content@) == Some(v),
        r is Err ==> parse_of(content@) is None,
{
    content.parse::<toml::Table>().map(toml::Value::Table).map_err(|e| e.to_string())
}

/// Relies on toml::Value::get: the value under a key of a table, if any.
#[verifier::external_body]
fn toml_get<'a>(v: &'a toml::Value, key: &str) -> (r: Option<&'a toml::Value>)
    ensures
        match r {
            Some(f) => get_of(*v, key@) == Some(*f),
            None => get_of(*v, key@) is None,
        },
{
    v.get(key)
}

/// Relies on toml::Value::as_str: the content of a string value, if it is
/// one.
#[verifier::external_body]
fn toml_str(v: &toml::Value) -> (r: Option<String>)
    ensures
        match r {
            Some(s) => str_of(*v) == Some(s@),
            None => str_of(*v) is None,
        },
{
    v.as_str().map(|s| s.to_string())
}

/// Relies on toml::Value::as_array: the elements of an array value, if it is
/// one.
#[verifier::external_body]
fn toml_array<'a>(v: &'a toml::Value) -> (r: Option<&'a Vec<toml::Value>>)
    ensures
        match r {
            Some(items) => array_of(*v) == Some(items@),
            None => array_of(*v) is None,
        },
{
    v.as_array()
}

/// The text content of a field of a parsed value, when the field exists and
/// holds a string.
pub open spec fn spec_str_field(v: toml::Value, key: Seq<char>) -> Option<Seq<char>> {
    match get_of(v, key) {
        Some(f) => str_of(f),
        None => None,
    }
}

/// The identity block of a manifest.
pub struct PluginMeta {
    pub name: String,
    pub display_name: Option<String>,
    pub version: String,
    pub author: String,
    pub repository: String,
    pub description: Option<String>,
    pub license: Option<String>,
    pub min_core_version: Option<String>,
    pub max_core_version: Option<String>,
    pub api_version: Option<String>,
    pub exposed_tables: Option<Vec<ExposedTable>>,
}

/// The native-backend block of a manifest.
pub struct BackendMeta {
    pub crate_name: String,
    pub library_name: String,
    pub entry_point: String,
}

/// The frontend block of a manifest.
pub struct FrontendMeta {
    pub entry: Option<String>,
    pub components: Option<Vec<String>>,
}

/// A plugin's manifest as declared in its manifest file.
pub struct PluginManifest {
    pub plugin: PluginMeta,
    pub backend: Option<BackendMeta>,
    pub frontend: Option<FrontendMeta>,
}

/// The first missing or empty required field, checked in a fixed order:
/// name, version and repository always; the backend identifiers and entry
/// point when a backend block is present.
pub open spec fn spec_manifest_field_error(m: PluginManifest) -> Option<ManifestField> {
    if m.plugin.name@.len() == 0 {
        Some(ManifestField::Name)
    } else if m.plugin.version@.len() == 0 {
        Some(ManifestField::Version)
    } else if m.plugin.repository@.len() == 0 {
        Some(ManifestField::Repository)
    } else {
        match m.backend {
            Some(b) => if b.crate_name@.len() == 0 {
                Some(ManifestField::CrateName)
            } else if b.library_name@.len() == 0 {
                Some(ManifestField::LibraryName)
            } else if b.entry_point@.len() == 0 {
                Some(ManifestField::EntryPoint)
            } else {
                None
            },
            None => None,
        }
    }
}

/// Checks the required manifest fields: name, version and repository must be
/// non-empty, and so must the backend identifiers and entry point when a
/// backend block is present. Returns the exact first failing field.
pub fn validate_manifest(m: &PluginManifest) -> (r: Result<(), Error>)
    ensures
        r == (match spec_manifest_field_error(*m) {
            Some(f) => Err::<(), Error>(Error::ManifestInvalid(f)),
            None => Ok::<(), Error>(()),
        }),
{
    if m.plugin.name.as_str().unicode_len() == 0 {
        return Err(Error::ManifestInvalid(ManifestField::Name));
    }
    if m.plugin.version.as_str().unicode_len() == 0 {
        return Err(Error::ManifestInvalid(ManifestField::Version));
    }
    if m.plugin.repository.as_str().unicode_len() == 0 {
        return Err(Error::ManifestInvalid(ManifestField::Repository));
    }
    match &m.backend {
        Some(b) => {
            if b.crate_name.as_str().unicode_len() == 0 {
                return Err(Error::ManifestInvalid(ManifestField::CrateName));
            }
            if b.library_name.as_str().unicode_len() == 0 {
                return Err(Error::ManifestInvalid(ManifestField::LibraryName));
            }
            if b.entry_point.as_str().unicode_len() == 0 {
                return Err(Error::ManifestInvalid(ManifestField::EntryPoint));
            }
            Ok(())
        },
        None => Ok(()),
    }
}

fn opt_str_field(v: &toml::Value, key: &str) -> (r: Option<String>)
    ensures
        match r {
            Some(s) => spec_str_field(*v, key@) == Some(s@),
            None => spec_str_field(*v, key@) is None,
        },
{
    match toml_get(v, key) {
        Some(f) => toml_str(f),
        None => None,
    }
}

fn string_list(v: &toml::Value) -> Vec<String> {
    let mut out: Vec<String> = Vec::new();
    match toml_array(v) {
        Some(items) => {
            let n = items.len();
            let mut i: usize = 0;
            while i < n
                invariant
                    i <= n,
                    n == items@.len(),
                decreases n - i,
            {
                match toml_str(&items[i]) {
                    Some(s) => out.push(s),
                    None => {},
                }
                i += 1;
            }
        },
        None => {},
    }
    out
}

fn exposed_tables_of(v: &toml::Value) -> Option<Vec<ExposedTable>> {
    let items = match toml_array(v) {
        Some(items) => items,
        None => {
            return None;
        },
    };
    let mut out: Vec<ExposedTable> = Vec::new();
    let n = items.len();
    let mut i: usize = 0;
    while i < n
        invariant
            i <= n,
            n == items@.len(),
        decreases n - i,
    {
        match opt_str_field(&items[i], "table_name") {
            Some(table_name) => {
                let allowed_plugins = match toml_get(&items[i], "allowed_plugins") {
                    Some(ap) => string_list(ap),
                    None => Vec::new(),
                };
                out.push(ExposedTable { table_name, allowed_plugins });
            },
            None => {},
        }
        i += 1;
    }
    Some(out)
}

/// Reads a manifest out of its file content. The required identity fields —
/// name, version, repository — must be present as strings; everything else
/// is optional, except that a backend block, when present, must carry its
/// crate and library identifiers and its entry-point name. On success each
/// identity field is exactly the text the parsed document holds under it
/// (an absent author reads as empty), and a returned backend block carries
/// exactly the document's backend identifiers.
pub fn parse_manifest(content: &str) -> (r: Result<PluginManifest, Error>)
    ensures
        r matches Ok(m) ==> (parse_of(content@) matches Some(doc) && {
            &&& get_of(doc, "plugin"@) matches Some(p) && {
                &&& spec_str_field(p, "name"@) == Some(m.plugin.name@)
                &&& spec_str_field(p, "version"@) == Some(m.plugin.version@)
                &&& spec_str_field(p, "repository"@) == Some(m.plugin.repository@)
                &&& (match spec_str_field(p, "author"@) {
                    Some(a) => m.plugin.author@ == a,
                    None => m.plugin.author@.len() == 0,
                })
            }
            &&& (match get_of(doc, "backend"@) {
                Some(b) => m.backend matches Some(bm) && spec_str_field(b, "crate_name"@) == Some(
                    bm.crate_name@,
                ) && spec_str_field(b, "library_name"@) == Some(bm.library_name@)
                    && spec_str_field(b, "entry_point"@) == Some(bm.entry_point@),
                None => m.backend is None,
            })
        }),
        (r matches Err(e) && e matches Error::ManifestSyntax(_)) ==> parse_of(content@) is None,
{
    let doc = match parse_toml(content) {
        Ok(doc) => doc,
        Err(m) => {
            return Err(Error::ManifestSyntax(m));
        },
    };
    let plugin_tbl = match toml_get(&doc, "plugin") {
        Some(t) => t,
        None => {
            return Err(Error::ManifestInvalid(ManifestField::Name));
        },
    };
    let name = match opt_str_field(plugin_tbl, "name") {
        Some(s) => s,
        None => {
            return Err(Error::ManifestInvalid(ManifestField::Name));
        },
    };
    let version = match opt_str_field(plugin_tbl, "version") {
        Some(s) => s,
        None => {
            return Err(Error::ManifestInvalid(ManifestField::Version));
        },
    };
    let repository = match opt_str_field(plugin_tbl, "repository") {
        Some(s) => s,
        None => {
            return Err(Error::ManifestInvalid(ManifestField::Repository));
        },
    };
    let author = match opt_str_field(plugin_tbl, "author") {
        Some(s) => s,
        None => String::new(),
    };
    let exposed_tables = match toml_get(plugin_tbl, "exposed_tables") {
        Some(et) => exposed_tables_of(et),
        None => None,
    };
    let backend = match toml_get(&doc, "backend") {
        Some(b) => {
            let crate_name = match opt_str_field(b, "crate_name") {
                Some(s) => s,
                None => {
                    return Err(Error::ManifestInvalid(ManifestField::CrateName));
                },
            };
            let library_name = match opt_str_field(b, "library_name") {
                Some(s) => s,
                None => {
                    return Err(Error::ManifestInvalid(ManifestField::LibraryName));
                },
            };
            let entry_point = match opt_str_field(b, "entry_point") {
                Some(s) => s,
                None => {
                    return Err(Error::ManifestInvalid(ManifestField::EntryPoint));
                },
            };
            Some(BackendMeta { crate_name, library_name, entry_point })
        },
        None => None,
    };
    let frontend = match toml_get(&doc, "frontend") {
        Some(f) => {
            let entry = opt_str_field(f, "entry");
            let components = match toml_get(f, "components") {
                Some(c) => Some(string_list(c)),
                None => None,
            };
            Some(FrontendMeta { entry, components })
        },
        None => None,
    };
    Ok(
        PluginManifest {
            plugin: PluginMeta {
                name,
                display_name: opt_str_field(plugin_tbl, "display_name"),
                version,
                author,
                repository,
                description: opt_str_field(plugin_tbl, "description"),
                license: opt_str_field(plugin_tbl, "license"),
                min_core_version: opt_str_field(plugin_tbl, "min_core_version"),
                max_core_version: opt_str_field(plugin_tbl, "max_core_version"),
                api_version: opt_str_field(plugin_tbl, "api_version"),
                exposed_tables,
            },
            backend,
            frontend,
        },
    )
}

} // verus!
