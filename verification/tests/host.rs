//! End-to-end flows through the capability object and the plugin runtime.

use plugin_host::api::{ActivityFilters, PluginAPI};
use plugin_host::entities::InstalledPluginInfo;
use plugin_host::errors::Error;
use plugin_host::extensions::{
    EntityType, ExposedTable, ExtensionRegistry, NoopHook, SchemaChange, TableColumn,
};
use plugin_host::model::Activity;
use plugin_host::plugins::goals::{GoalFilter, GoalsPlugin};
use plugin_host::plugins::projects_tasks::ProjectsTasksPlugin;
use plugin_host::runtime::{CommandError, InvokeError, Plugin, PluginRegistry};
use plugin_host::store::Database;
use plugin_host::value::{ParamValue, Scalar};

type Api = PluginAPI<NoopHook, GoalFilter>;

fn test_api(plugin_id: &str) -> Api {
    let db = Database::open_in_memory().unwrap();
    db.init_plugin_support().unwrap();
    db.init_core_schema().unwrap();
    let reg: ExtensionRegistry<NoopHook, GoalFilter> = ExtensionRegistry::new();
    PluginAPI::new(db, reg, plugin_id.to_string())
}

fn widgets_create() -> Vec<SchemaChange> {
    vec![SchemaChange::CreateTable {
        table: "widgets".to_string(),
        columns: vec![
            TableColumn {
                name: "id".to_string(),
                column_type: "INTEGER".to_string(),
                primary_key: true,
                nullable: false,
                default: None,
                foreign_key: None,
            },
            TableColumn {
                name: "name".to_string(),
                column_type: "TEXT".to_string(),
                primary_key: false,
                nullable: true,
                default: None,
                foreign_key: None,
            },
            TableColumn {
                name: "created_at".to_string(),
                column_type: "INTEGER".to_string(),
                primary_key: false,
                nullable: true,
                default: None,
                foreign_key: None,
            },
        ],
    }]
}

fn obj(fields: Vec<(&str, ParamValue)>) -> ParamValue {
    ParamValue::Object(
        fields
            .into_iter()
            .map(|(k, v)| (k.to_string(), v))
            .collect(),
    )
}

fn install_record(db: &Database, id: &str) {
    db.upsert_installed_plugin(&InstalledPluginInfo {
        id: id.to_string(),
        name: id.to_string(),
        version: "1.0.0".to_string(),
        description: None,
        repository_url: None,
        manifest_path: None,
        frontend_entry: None,
        frontend_components: None,
        author: Some("tester".to_string()),
        enabled: true,
    })
    .unwrap();
}

#[test]
fn cross_plugin_query_is_permission_checked() {
    // plugin A registers its table, exposes it to B alone, and inserts a row
    let mut api = test_api("A");
    install_record(api.database(), "A");
    api.register_schema_extension(EntityType::Activity, widgets_create())
        .unwrap();
    api.apply_registered_schema_changes(EntityType::Activity).unwrap();
    api.register_exposed_tables(&vec![ExposedTable {
        table_name: "widgets".to_string(),
        allowed_plugins: vec!["B".to_string()],
    }])
    .unwrap();
    let data = vec![("name".to_string(), Scalar::Text("w1".to_string()))];
    api.insert_own_table("widgets", &data).unwrap();

    // plugin B reads it through the cross-plugin path
    api.set_plugin_id("B".to_string());
    let rows = api
        .query_plugin_table("A", "widgets", None, None, None)
        .unwrap();
    assert_eq!(rows.len(), 1);

    // plugin C is refused
    api.set_plugin_id("C".to_string());
    assert_eq!(
        api.query_plugin_table("A", "widgets", None, None, None),
        Err(Error::PermissionDenied)
    );

    // an undeclared table is refused as not exposed
    api.set_plugin_id("A".to_string());
    api.register_schema_extension(
        EntityType::Activity,
        vec![SchemaChange::CreateTable {
            table: "hidden".to_string(),
            columns: vec![TableColumn {
                name: "id".to_string(),
                column_type: "INTEGER".to_string(),
                primary_key: true,
                nullable: false,
                default: None,
                foreign_key: None,
            }],
        }],
    )
    .unwrap();
    api.apply_registered_schema_changes(EntityType::Activity).unwrap();
    api.set_plugin_id("B".to_string());
    assert_eq!(
        api.query_plugin_table("A", "hidden", None, None, None),
        Err(Error::TableNotExposed)
    );

    // a table the claimed owner does not own is refused
    assert_eq!(
        api.query_plugin_table("A", "unrelated", None, None, None),
        Err(Error::TableNotOwned)
    );

    // a claimed owner that is not installed is refused
    assert_eq!(
        api.query_plugin_table("ghost", "widgets", None, None, None),
        Err(Error::PluginNotFound)
    );
}

#[test]
fn own_table_operations_are_ownership_gated() {
    let mut api = test_api("A");
    api.register_schema_extension(EntityType::Activity, widgets_create())
        .unwrap();
    api.apply_registered_schema_changes(EntityType::Activity).unwrap();

    let data = vec![("name".to_string(), Scalar::Text("mine".to_string()))];
    let id = api.insert_own_table("widgets", &data).unwrap();
    assert!(id > 0);

    api.set_plugin_id("B".to_string());
    assert_eq!(api.insert_own_table("widgets", &data), Err(Error::TableNotOwned));
    assert_eq!(
        api.query_own_table("widgets", None, None, None),
        Err(Error::TableNotOwned)
    );
    assert_eq!(
        api.update_own_table("widgets", id, &data),
        Err(Error::TableNotOwned)
    );
    assert_eq!(api.delete_own_table("widgets", id), Err(Error::TableNotOwned));
}

#[test]
fn call_db_method_routes_table_operations() {
    let mut api = test_api("A");
    api.register_schema_extension(EntityType::Activity, widgets_create())
        .unwrap();
    api.apply_registered_schema_changes(EntityType::Activity).unwrap();

    let insert = obj(vec![
        ("table", ParamValue::Text("widgets".to_string())),
        (
            "data",
            obj(vec![("name", ParamValue::Text("via_dispatch".to_string()))]),
        ),
    ]);
    let created = api.call_db_method("insert_table", &insert).unwrap();
    match &created {
        ParamValue::Object(fields) => {
            assert_eq!(fields[0].0, "id");
        }
        other => panic!("expected an object, got {:?}", other),
    }

    let select = obj(vec![("table", ParamValue::Text("widgets".to_string()))]);
    match api.call_db_method("select_table", &select).unwrap() {
        ParamValue::Array(items) => assert_eq!(items.len(), 1),
        other => panic!("expected an array, got {:?}", other),
    }

    let aggregate = obj(vec![
        ("table", ParamValue::Text("widgets".to_string())),
        (
            "aggregations",
            obj(vec![("count", ParamValue::Text("*".to_string()))]),
        ),
    ]);
    match api.call_db_method("aggregate_table", &aggregate).unwrap() {
        ParamValue::Object(fields) => {
            assert_eq!(fields[0].0, "total_count");
            assert_eq!(fields[0].1, ParamValue::Int(1));
        }
        other => panic!("expected an object, got {:?}", other),
    }

    assert_eq!(
        api.call_db_method("no_such_method", &obj(vec![])),
        Err(Error::CommandNotFound)
    );
    assert_eq!(
        api.call_db_method("insert_table", &obj(vec![])),
        Err(Error::BadParams)
    );
}

#[test]
fn categories_and_manual_entries_round_trip() {
    let api = test_api("A");
    let created = api
        .create_category(&obj(vec![
            ("name", ParamValue::Text("Work".to_string())),
            ("sort_order", ParamValue::Int(5)),
        ]))
        .unwrap();
    let id = match &created {
        ParamValue::Object(fields) => match fields.iter().find(|(k, _)| k == "id").unwrap().1 {
            ParamValue::Int(v) => v,
            ref other => panic!("expected an id, got {:?}", other),
        },
        other => panic!("expected an object, got {:?}", other),
    };
    match api.get_categories().unwrap() {
        ParamValue::Array(items) => assert_eq!(items.len(), 1),
        other => panic!("expected an array, got {:?}", other),
    }
    let updated = api
        .update_category(&obj(vec![
            ("id", ParamValue::Int(id)),
            ("name", ParamValue::Text("Deep Work".to_string())),
        ]))
        .unwrap();
    match &updated {
        ParamValue::Object(fields) => {
            let name = &fields.iter().find(|(k, _)| k == "name").unwrap().1;
            assert_eq!(*name, ParamValue::Text("Deep Work".to_string()));
        }
        other => panic!("expected an object, got {:?}", other),
    }
    api.delete_category(id).unwrap();
    match api.get_categories().unwrap() {
        ParamValue::Array(items) => assert_eq!(items.len(), 0),
        other => panic!("expected an array, got {:?}", other),
    }

    let entry = api
        .create_manual_entry(&obj(vec![
            ("description", ParamValue::Text("standup".to_string())),
            ("started_at", ParamValue::Int(1000)),
            ("ended_at", ParamValue::Int(1600)),
        ]))
        .unwrap();
    let entry_id = match &entry {
        ParamValue::Object(fields) => match fields.iter().find(|(k, _)| k == "id").unwrap().1 {
            ParamValue::Int(v) => v,
            ref other => panic!("expected an id, got {:?}", other),
        },
        other => panic!("expected an object, got {:?}", other),
    };
    let changed = api
        .update_manual_entry(&obj(vec![
            ("id", ParamValue::Int(entry_id)),
            ("started_at", ParamValue::Int(1100)),
            ("ended_at", ParamValue::Int(1700)),
        ]))
        .unwrap();
    match &changed {
        ParamValue::Object(fields) => {
            // the untouched description is merged from the stored row
            let desc = &fields.iter().find(|(k, _)| k == "description").unwrap().1;
            assert_eq!(*desc, ParamValue::Text("standup".to_string()));
            let start = &fields.iter().find(|(k, _)| k == "started_at").unwrap().1;
            assert_eq!(*start, ParamValue::Int(1100));
        }
        other => panic!("expected an object, got {:?}", other),
    }
    api.delete_manual_entry(entry_id).unwrap();
    assert_eq!(api.get_manual_entries(0, i64::MAX).unwrap().len(), 0);
}

fn seed_activity(db: &Database, started_at: i64, duration: i64, idle: bool, cat: Option<i64>) {
    let idle_val = if idle { 1 } else { 0 };
    let data: Vec<(String, Scalar)> = vec![
        ("started_at".to_string(), Scalar::Int(started_at)),
        ("duration_sec".to_string(), Scalar::Int(duration)),
        ("is_idle".to_string(), Scalar::Int(idle_val)),
        (
            "category_id".to_string(),
            match cat {
                Some(c) => Scalar::Int(c),
                None => Scalar::Null,
            },
        ),
    ];
    db.plugin_insert_table("activities", &data).unwrap();
}

#[test]
fn activities_are_filtered_and_paged() {
    let api = test_api("A");
    let db = api.database();
    seed_activity(db, 100, 60, false, Some(1));
    seed_activity(db, 200, 120, true, Some(1));
    seed_activity(db, 300, 30, false, Some(2));
    seed_activity(db, 400, 45, false, None);

    let all = api.get_activities(0, 1000, None, None, None).unwrap();
    assert_eq!(all.len(), 4);

    let filters = ActivityFilters {
        exclude_idle: Some(true),
        category_ids: Some(vec![1, 2]),
    };
    let narrowed = api
        .get_activities(0, 1000, None, None, Some(&filters))
        .unwrap();
    assert_eq!(narrowed.len(), 2);
    assert!(narrowed.iter().all(|a: &Activity| !a.is_idle));

    let paged = api.get_activities(0, 1000, Some(2), Some(1), None).unwrap();
    assert_eq!(paged.len(), 2);
    assert_eq!(paged[0].started_at, 200);
    assert_eq!(paged[1].started_at, 300);

    let ranged = api.get_activities(150, 350, None, None, None).unwrap();
    assert_eq!(ranged.len(), 2);
}

#[test]
fn goals_plugin_runs_end_to_end() {
    let mut api = test_api("goals-plugin");
    let mut goals = GoalsPlugin::new();
    goals.initialize(&mut api).unwrap();

    let mut registry: PluginRegistry<Api, GoalsPlugin> = PluginRegistry::new();
    registry.register(goals).unwrap();

    let create = obj(vec![
        ("goal_type", ParamValue::Text("daily".to_string())),
        ("target_seconds", ParamValue::Int(3600)),
        ("category_id", ParamValue::Int(1)),
        ("start_date", ParamValue::Int(0)),
        ("end_date", ParamValue::Int(1000)),
    ]);
    let goal_id = match registry
        .invoke_plugin_command("goals-plugin", "create_goal", &create, &mut api)
        .unwrap()
    {
        ParamValue::Int(v) => v,
        other => panic!("expected the goal id, got {:?}", other),
    };

    match registry
        .invoke_plugin_command("goals-plugin", "get_goals", &obj(vec![]), &mut api)
        .unwrap()
    {
        ParamValue::Array(items) => assert_eq!(items.len(), 1),
        other => panic!("expected an array, got {:?}", other),
    }

    // two tracked activities inside the window, one outside, one idle
    seed_activity(api.database(), 100, 600, false, Some(1));
    seed_activity(api.database(), 200, 300, false, Some(1));
    seed_activity(api.database(), 5000, 999, false, Some(1));
    seed_activity(api.database(), 300, 50, true, Some(1));

    let progress = obj(vec![
        ("goal_id", ParamValue::Int(goal_id)),
        ("start", ParamValue::Int(0)),
        ("end", ParamValue::Int(1000)),
    ]);
    match registry
        .invoke_plugin_command("goals-plugin", "get_goal_progress", &progress, &mut api)
        .unwrap()
    {
        ParamValue::Object(fields) => {
            let p = &fields
                .iter()
                .find(|(k, _)| k == "progress_seconds")
                .unwrap()
                .1;
            assert_eq!(*p, ParamValue::Int(900));
        }
        other => panic!("expected an object, got {:?}", other),
    }

    // unknown command and unknown plugin
    assert_eq!(
        registry.invoke_plugin_command("goals-plugin", "nope", &obj(vec![]), &mut api),
        Err(InvokeError::CommandNotFound)
    );
    assert_eq!(
        registry.invoke_plugin_command("absent", "create_goal", &create, &mut api),
        Err(InvokeError::PluginNotFound)
    );

    // duplicate registration is refused
    let again = GoalsPlugin::new();
    let mut registry2 = registry;
    assert_eq!(registry2.register(again), Err(Error::AlreadyRegistered));
    assert_eq!(registry2.get_plugin_ids(), vec!["goals-plugin".to_string()]);
    registry2.unregister("goals-plugin").unwrap();
    assert!(!registry2.is_registered("goals-plugin"));
    assert_eq!(
        registry2.unregister("goals-plugin"),
        Err(Error::PluginNotFound)
    );
}

#[test]
fn goal_filters_narrow_result_sets_in_registration_order() {
    let mut api = test_api("goals-plugin");
    let mut goals = GoalsPlugin::new();
    goals.initialize(&mut api).unwrap();
    let (db, reg) = api.into_parts();

    let acts = vec![
        Activity {
            id: 1,
            started_at: 0,
            duration_sec: 10,
            is_idle: false,
            category_id: Some(1),
            project_id: None,
            task_id: None,
        },
        Activity {
            id: 2,
            started_at: 0,
            duration_sec: 10,
            is_idle: false,
            category_id: Some(2),
            project_id: None,
            task_id: None,
        },
    ];
    let params = vec![("category_id".to_string(), ParamValue::Int(1))];
    let narrowed = reg
        .apply_query_filters(EntityType::Activity, acts, &params)
        .unwrap();
    assert_eq!(narrowed.len(), 1);
    assert_eq!(narrowed[0].id, 1);
    drop(db);
}

#[test]
fn projects_tasks_plugin_owns_its_tables_after_initialize() {
    let mut api = test_api("projects-tasks-plugin");
    let mut plugin = ProjectsTasksPlugin::new();
    plugin.initialize(&mut api).unwrap();
    api.apply_registered_schema_changes(EntityType::Activity).unwrap();

    let data = vec![
        ("name".to_string(), Scalar::Text("site".to_string())),
        ("created_at".to_string(), Scalar::Int(7)),
    ];
    let pid = api.insert_own_table("projects", &data).unwrap();
    assert!(pid > 0);

    // the activities table gained the project reference column
    let acts = api
        .query_own_table("projects", None, None, None)
        .unwrap();
    assert_eq!(acts.len(), 1);

    // commands are not provided by this plugin
    assert_eq!(
        plugin.invoke_command("anything", &obj(vec![]), &mut api),
        Err(CommandError::CommandNotFound)
    );
    assert_eq!(plugin.get_schema_extensions().len(), 0);
}

#[test]
fn equality_filters_are_anded() {
    let mut api = test_api("A");
    api.register_schema_extension(EntityType::Activity, widgets_create())
        .unwrap();
    api.apply_registered_schema_changes(EntityType::Activity).unwrap();
    for (name, t) in [("a", 1), ("a", 2), ("b", 1)] {
        let data = vec![
            ("name".to_string(), Scalar::Text(name.to_string())),
            ("created_at".to_string(), Scalar::Int(t)),
        ];
        api.insert_own_table("widgets", &data).unwrap();
    }
    let filters = vec![
        ("name".to_string(), Scalar::Text("a".to_string())),
        ("created_at".to_string(), Scalar::Int(1)),
    ];
    let rows = api
        .query_own_table("widgets", Some(&filters), None, None)
        .unwrap();
    assert_eq!(rows.len(), 1);
}

#[test]
fn manifest_exposure_flows_into_permissions() {
    let mut api = test_api("A");
    install_record(api.database(), "A");
    api.register_schema_extension(EntityType::Activity, widgets_create())
        .unwrap();
    api.apply_registered_schema_changes(EntityType::Activity).unwrap();

    let manifest = plugin_host::manifest::parse_manifest(
        "[plugin]\nname = \"a\"\nversion = \"1.0.0\"\nrepository = \"r\"\n\n[[plugin.exposed_tables]]\ntable_name = \"widgets\"\nallowed_plugins = [\"B\"]\n",
    )
    .unwrap();
    api.register_exposed_tables(&manifest.plugin.exposed_tables.unwrap())
        .unwrap();

    api.set_plugin_id("B".to_string());
    assert!(api
        .query_plugin_table("A", "widgets", None, None, None)
        .is_ok());
    api.set_plugin_id("C".to_string());
    assert_eq!(
        api.query_plugin_table("A", "widgets", None, None, None),
        Err(Error::PermissionDenied)
    );
}

#[test]
fn call_db_method_routes_category_creation() {
    let api = test_api("A");
    let created = api
        .call_db_method(
            "create_category",
            &obj(vec![("name", ParamValue::Text("Focus".to_string()))]),
        )
        .unwrap();
    match &created {
        ParamValue::Object(fields) => {
            let name = &fields.iter().find(|(k, _)| k == "name").unwrap().1;
            assert_eq!(*name, ParamValue::Text("Focus".to_string()));
            // defaults are filled from the core column defaults
            let color = &fields.iter().find(|(k, _)| k == "color").unwrap().1;
            assert_eq!(*color, ParamValue::Text("#888888".to_string()));
        }
        other => panic!("expected an object, got {:?}", other),
    }
    assert_eq!(
        api.call_db_method("create_category", &obj(vec![])),
        Err(Error::BadParams)
    );
}

#[test]
fn extended_category_columns_are_written_when_the_catalog_has_them() {
    let mut api = test_api("A");
    // a plugin extends the categories table with a column of its own
    api.register_schema_extension(
        EntityType::Category,
        vec![SchemaChange::AddColumn {
            table: "categories".to_string(),
            column: "budget_minutes".to_string(),
            column_type: "INTEGER".to_string(),
            default: None,
            foreign_key: None,
        }],
    )
    .unwrap();
    api.apply_registered_schema_changes(EntityType::Category).unwrap();

    let created = api
        .create_category(&obj(vec![
            ("name", ParamValue::Text("Work".to_string())),
            ("budget_minutes", ParamValue::Int(90)),
            ("not a column", ParamValue::Int(1)),
        ]))
        .unwrap();
    match &created {
        ParamValue::Object(fields) => {
            let budget = &fields
                .iter()
                .find(|(k, _)| k == "budget_minutes")
                .unwrap()
                .1;
            assert_eq!(*budget, ParamValue::Int(90));
            assert!(fields.iter().all(|(k, _)| k != "not a column"));
        }
        other => panic!("expected an object, got {:?}", other),
    }
}

#[test]
fn dispatcher_checks_ownership_right_after_the_table_name() {
    let api = test_api("A");
    // nothing is registered: the unowned table decides before any other
    // parameter is even read
    let p = obj(vec![("table", ParamValue::Text("widgets".to_string()))]);
    assert_eq!(api.call_db_method("insert_table", &p), Err(Error::TableNotOwned));
    assert_eq!(api.call_db_method("update_table", &p), Err(Error::TableNotOwned));
    assert_eq!(api.call_db_method("delete_table", &p), Err(Error::TableNotOwned));
    assert_eq!(api.call_db_method("select_table", &p), Err(Error::TableNotOwned));
    assert_eq!(
        api.call_db_method("aggregate_table", &p),
        Err(Error::TableNotOwned)
    );
    // with no table name at all, the malformed parameters decide
    assert_eq!(api.call_db_method("insert_table", &obj(vec![])), Err(Error::BadParams));
}
