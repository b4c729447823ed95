//! Ownership, exposure and permission logic of the extension registry.

use plugin_host::errors::Error;
use plugin_host::extensions::{
    EntityType, ExposedTable, Extension, ExtensionRegistry, ExtensionType, NoopHook, SchemaChange,
    TableColumn,
};
use plugin_host::plugins::goals::GoalFilter;

type Registry = ExtensionRegistry<NoopHook, GoalFilter>;

fn create_table_ext(plugin: &str, table: &str) -> Extension<NoopHook, GoalFilter> {
    Extension {
        plugin_id: plugin.to_string(),
        entity_type: EntityType::Activity,
        extension_type: ExtensionType::DatabaseSchema,
        schema_changes: vec![SchemaChange::CreateTable {
            table: table.to_string(),
            columns: vec![TableColumn {
                name: "id".to_string(),
                column_type: "INTEGER".to_string(),
                primary_key: true,
                nullable: false,
                default: None,
                foreign_key: None,
            }],
        }],
        model_fields: vec![],
        hook: None,
        query_filters: vec![],
    }
}

fn expose(reg: &mut Registry, owner: &str, table: &str, allowed: &[&str]) {
    let et = ExposedTable {
        table_name: table.to_string(),
        allowed_plugins: allowed.iter().map(|s| s.to_string()).collect(),
    };
    reg.register_exposed_tables(owner, &vec![et]).unwrap();
}

#[test]
fn ownership_follows_create_table() {
    let mut reg: Registry = ExtensionRegistry::new();
    reg.register(create_table_ext("alpha", "widgets")).unwrap();
    assert!(reg.plugin_owns_table("alpha", "widgets"));
    assert!(!reg.plugin_owns_table("beta", "widgets"));
    assert_eq!(reg.get_table_owner("widgets"), Some("alpha".to_string()));
    assert_eq!(reg.get_table_owner("unknown"), None);
}

#[test]
fn reserved_names_are_never_owned() {
    let mut reg: Registry = ExtensionRegistry::new();
    for name in [
        "activities",
        "categories",
        "rules",
        "manual_entries",
        "settings",
        "installed_plugins",
        "sqlite_master",
        "sqlite_sequence",
    ] {
        reg.register(create_table_ext("alpha", name)).unwrap();
        assert!(!reg.plugin_owns_table("alpha", name));
        assert_eq!(reg.get_table_owner(name), None);
    }
}

#[test]
fn reserved_names_never_conflict() {
    // two plugins may both declare a reserved core name: the claim records
    // nothing and rejects nothing, since the name can never be owned
    let mut reg: Registry = ExtensionRegistry::new();
    reg.register(create_table_ext("alpha", "activities")).unwrap();
    reg.register(create_table_ext("beta", "activities")).unwrap();
    assert_eq!(reg.get_table_owner("activities"), None);
    assert!(!reg.plugin_owns_table("alpha", "activities"));
    assert!(!reg.plugin_owns_table("beta", "activities"));
}

#[test]
fn conflicting_create_table_is_rejected() {
    let mut reg: Registry = ExtensionRegistry::new();
    reg.register(create_table_ext("alpha", "widgets")).unwrap();
    assert_eq!(
        reg.register(create_table_ext("beta", "widgets")),
        Err(Error::OwnershipConflict)
    );
    // ownership is untouched
    assert_eq!(reg.get_table_owner("widgets"), Some("alpha".to_string()));
    // re-registering under the same plugin is fine
    reg.register(create_table_ext("alpha", "widgets")).unwrap();
    assert_eq!(reg.get_table_owner("widgets"), Some("alpha".to_string()));
}

#[test]
fn wildcard_admits_any_requester() {
    let mut reg: Registry = ExtensionRegistry::new();
    reg.register(create_table_ext("alpha", "widgets")).unwrap();
    expose(&mut reg, "alpha", "widgets", &["*"]);
    assert!(reg.can_query_plugin_table("anyone", "alpha", "widgets"));
    assert!(reg.can_query_plugin_table("beta", "alpha", "widgets"));
}

#[test]
fn empty_allowed_list_denies_every_requester() {
    let mut reg: Registry = ExtensionRegistry::new();
    reg.register(create_table_ext("alpha", "widgets")).unwrap();
    expose(&mut reg, "alpha", "widgets", &[]);
    assert!(!reg.can_query_plugin_table("beta", "alpha", "widgets"));
    assert!(!reg.can_query_plugin_table("alpha", "alpha", "widgets"));
}

#[test]
fn undeclared_exposure_denies_every_requester() {
    let mut reg: Registry = ExtensionRegistry::new();
    reg.register(create_table_ext("alpha", "widgets")).unwrap();
    assert!(!reg.can_query_plugin_table("beta", "alpha", "widgets"));
}

#[test]
fn membership_decides_without_wildcard() {
    let mut reg: Registry = ExtensionRegistry::new();
    reg.register(create_table_ext("alpha", "widgets")).unwrap();
    expose(&mut reg, "alpha", "widgets", &["beta", "gamma"]);
    assert!(reg.can_query_plugin_table("beta", "alpha", "widgets"));
    assert!(reg.can_query_plugin_table("gamma", "alpha", "widgets"));
    assert!(!reg.can_query_plugin_table("delta", "alpha", "widgets"));
}

#[test]
fn wrong_owner_claim_is_denied() {
    let mut reg: Registry = ExtensionRegistry::new();
    reg.register(create_table_ext("alpha", "widgets")).unwrap();
    expose(&mut reg, "alpha", "widgets", &["*"]);
    assert!(!reg.can_query_plugin_table("beta", "gamma", "widgets"));
}

#[test]
fn re_registering_replaces_the_permission_list() {
    let mut reg: Registry = ExtensionRegistry::new();
    reg.register(create_table_ext("alpha", "widgets")).unwrap();
    expose(&mut reg, "alpha", "widgets", &["beta"]);
    assert!(reg.can_query_plugin_table("beta", "alpha", "widgets"));
    expose(&mut reg, "alpha", "widgets", &[]);
    assert!(!reg.can_query_plugin_table("beta", "alpha", "widgets"));
}

#[test]
fn extensions_are_listed_per_type_and_kind_in_order() {
    let mut reg: Registry = ExtensionRegistry::new();
    reg.register(create_table_ext("alpha", "widgets")).unwrap();
    reg.register(create_table_ext("beta", "gadgets")).unwrap();
    let schema = reg.get_schema_extensions(EntityType::Activity);
    assert_eq!(schema.len(), 2);
    assert_eq!(schema[0].plugin_id, "alpha");
    assert_eq!(schema[1].plugin_id, "beta");
    assert!(schema[0].hook.is_none());
    assert!(schema[0].query_filters.is_empty());
    assert_eq!(reg.get_model_extensions(EntityType::Activity).len(), 0);
    assert_eq!(reg.get_data_hooks(EntityType::Activity).len(), 0);
    assert_eq!(reg.get_query_filters(EntityType::Activity).len(), 0);
    assert_eq!(reg.get_extensions(EntityType::Activity).len(), 2);
    assert_eq!(reg.get_extensions(EntityType::Category).len(), 0);
    assert_eq!(reg.get_extensions_ref(EntityType::Activity).len(), 2);
}
