//! The projects/tasks plugin: creates its own project and task tables,
//! indexes them, and extends the activity and manual-entry models with
//! project and task references.

use vstd::prelude::*;
use crate::api::PluginAPI;
use crate::extensions::{
    EntityType, ForeignKey, ModelField, SchemaChange, spec_creates_table, spec_is_reserved_table,
    spec_lookup_owner, TableColumn,
};
use crate::runtime::{CommandError, Plugin, PluginInfo};
use crate::value::ParamValue;

verus! {

/// The projects/tasks plugin.
pub struct ProjectsTasksPlugin {
    info: PluginInfo,
}

fn plain_column(name: &str, column_type: &str, nullable: bool) -> (r: TableColumn)
    ensures
        r.name@ == name@,
        r.column_type@ == column_type@,
        r.nullable == nullable,
        r.primary_key == false,
        r.default is None,
        r.foreign_key is None,
{
    TableColumn {
        name: name.to_owned(),
        column_type: column_type.to_owned(),
        primary_key: false,
        nullable,
        default: None,
        foreign_key: None,
    }
}

fn projects_columns() -> Vec<TableColumn> {
    let mut cols: Vec<TableColumn> = Vec::new();
    cols.push(
        TableColumn {
            name: "id".to_owned(),
            column_type: "INTEGER".to_owned(),
            primary_key: true,
            nullable: false,
            default: None,
            foreign_key: None,
        },
    );
    cols.push(plain_column("name", "TEXT", false));
    cols.push(plain_column("client_name", "TEXT", true));
    cols.push(
        TableColumn {
            name: "color".to_owned(),
            column_type: "TEXT".to_owned(),
            primary_key: false,
            nullable: false,
            default: Some("'#888888'".to_owned()),
            foreign_key: None,
        },
    );
    cols.push(
        TableColumn {
            name: "is_billable".to_owned(),
            column_type: "BOOLEAN".to_owned(),
            primary_key: false,
            nullable: false,
            default: Some("FALSE".to_owned()),
            foreign_key: None,
        },
    );
    cols.push(
        TableColumn {
            name: "hourly_rate".to_owned(),
            column_type: "REAL".to_owned(),
            primary_key: false,
            nullable: false,
            default: Some("0.0".to_owned()),
            foreign_key: None,
        },
    );
    cols.push(plain_column("budget_hours", "REAL", true));
    cols.push(plain_column("created_at", "INTEGER", false));
    cols.push(
        TableColumn {
            name: "archived".to_owned(),
            column_type: "BOOLEAN".to_owned(),
            primary_key: false,
            nullable: false,
            default: Some("FALSE".to_owned()),
            foreign_key: None,
        },
    );
    cols
}

fn tasks_columns() -> Vec<TableColumn> {
    let mut cols: Vec<TableColumn> = Vec::new();
    cols.push(
        TableColumn {
            name: "id".to_owned(),
            column_type: "INTEGER".to_owned(),
            primary_key: true,
            nullable: false,
            default: None,
            foreign_key: None,
        },
    );
    cols.push(
        TableColumn {
            name: "project_id".to_owned(),
            column_type: "INTEGER".to_owned(),
            primary_key: false,
            nullable: false,
            default: None,
            foreign_key: Some(ForeignKey { table: "projects".to_owned(), column: "id".to_owned() }),
        },
    );
    cols.push(plain_column("name", "TEXT", false));
    cols.push(plain_column("description", "TEXT", true));
    cols.push(plain_column("created_at", "INTEGER", false));
    cols.push(
        TableColumn {
            name: "archived".to_owned(),
            column_type: "BOOLEAN".to_owned(),
            primary_key: false,
            nullable: false,
            default: Some("FALSE".to_owned()),
            foreign_key: None,
        },
    );
    cols
}

fn single_index(table: &str, index: &str, column: &str) -> (r: SchemaChange) {
    let mut cols: Vec<String> = Vec::new();
    cols.push(column.to_owned());
    SchemaChange::AddIndex { table: table.to_owned(), index: index.to_owned(), columns: cols }
}

fn reference_column(table: &str, column: &str, target: &str) -> (r: SchemaChange) {
    SchemaChange::AddColumn {
        table: table.to_owned(),
        column: column.to_owned(),
        column_type: "INTEGER".to_owned(),
        default: None,
        foreign_key: Some(ForeignKey { table: target.to_owned(), column: "id".to_owned() }),
    }
}

fn optional_i64_field(name: &str) -> (r: ModelField) {
    ModelField { name: name.to_owned(), type_: "Option<i64>".to_owned(), optional: true }
}

impl ProjectsTasksPlugin {
    /// A fresh instance, identified as the projects/tasks plugin.
    pub fn new() -> (r: ProjectsTasksPlugin)
        ensures
            r.spec_plugin_info().id@ == "projects-tasks-plugin"@,
            r.spec_plugin_info().name@ == "Projects/Tasks"@,
            r.spec_plugin_info().version@ == "1.0.0"@,
            r.spec_plugin_info().description matches Some(d) && d@
                == "Project and task management"@,
            r.spec_plugin_info().is_builtin == false,
    {
        ProjectsTasksPlugin {
            info: PluginInfo {
                id: "projects-tasks-plugin".to_owned(),
                name: "Projects/Tasks".to_owned(),
                version: "1.0.0".to_owned(),
                description: Some("Project and task management".to_owned()),
                is_builtin: false,
            },
        }
    }

    /// The plugin's identity.
    pub closed spec fn spec_plugin_info(&self) -> PluginInfo {
        self.info
    }

    /// The schema extensions this plugin carries besides what it registers
    /// at initialization: none.
    pub fn get_schema_extensions(&self) -> (r: Vec<SchemaChange>)
        ensures
            r@.len() == 0,
    {
        Vec::new()
    }
}

impl<H, F> Plugin<PluginAPI<H, F>> for ProjectsTasksPlugin {
    open spec fn spec_info(&self) -> PluginInfo {
        self.spec_plugin_info()
    }

    fn info(&self) -> (r: &PluginInfo) {
        &self.info
    }

    /// Registers the project and task tables with their indexes, extends
    /// activities and manual entries with project and task references, and
    /// registers the matching model fields. On success the plugin owns both
    /// of its tables.
    fn initialize(&mut self, api: &mut PluginAPI<H, F>) -> (r: Result<(), String>)
        ensures
            r is Ok ==> {
                &&& (spec_lookup_owner(final (api).spec_registry().spec_tables(), "projects"@)
                    matches Some(o) && o@ == old(api).spec_plugin_id())
                &&& (spec_lookup_owner(final (api).spec_registry().spec_tables(), "tasks"@)
                    matches Some(o) && o@ == old(api).spec_plugin_id())
            },
    {
        let mut changes: Vec<SchemaChange> = Vec::new();
        changes.push(
            SchemaChange::CreateTable { table: "projects".to_owned(), columns: projects_columns() },
        );
        changes.push(
            SchemaChange::CreateTable { table: "tasks".to_owned(), columns: tasks_columns() },
        );
        changes.push(single_index("projects", "idx_projects_archived", "archived"));
        changes.push(single_index("tasks", "idx_tasks_project", "project_id"));
        changes.push(single_index("tasks", "idx_tasks_archived", "archived"));
        changes.push(reference_column("activities", "project_id", "projects"));
        changes.push(reference_column("activities", "task_id", "tasks"));
        changes.push(single_index("activities", "idx_activities_project", "project_id"));
        changes.push(reference_column("manual_entries", "project_id", "projects"));
        changes.push(reference_column("manual_entries", "task_id", "tasks"));
        proof {
            assert(changes@[0] matches SchemaChange::CreateTable { table, .. } && table@
                == "projects"@);
            assert(changes@[1] matches SchemaChange::CreateTable { table, .. } && table@
                == "tasks"@);
            assert(spec_creates_table(changes@, "projects"@));
            assert(spec_creates_table(changes@, "tasks"@));
            // neither name is reserved: lengths separate them from every
            // reserved name but one, whose leading character differs
            reveal_strlit("projects");
            reveal_strlit("tasks");
            reveal_strlit("activities");
            reveal_strlit("categories");
            reveal_strlit("rules");
            reveal_strlit("manual_entries");
            reveal_strlit("settings");
            reveal_strlit("installed_plugins");
            reveal_strlit("sqlite_master");
            reveal_strlit("sqlite_sequence");
            assert("projects"@.len() == 8);
            assert("tasks"@.len() == 5);
            assert("activities"@.len() == 10);
            assert("categories"@.len() == 10);
            assert("rules"@.len() == 5);
            assert("manual_entries"@.len() == 14);
            assert("settings"@.len() == 8);
            assert("installed_plugins"@.len() == 17);
            assert("sqlite_master"@.len() == 13);
            assert("sqlite_sequence"@.len() == 15);
            assert("projects"@ != "settings"@) by {
                assert("projects"@[0] == 'p');
                assert("settings"@[0] == 's');
            }
            assert("tasks"@ != "rules"@) by {
                assert("tasks"@[0] == 't');
                assert("rules"@[0] == 'r');
            }
            assert(!spec_is_reserved_table("projects"@));
            assert(!spec_is_reserved_table("tasks"@));
        }
        match api.register_schema_extension(EntityType::Activity, changes) {
            Ok(()) => {},
            Err(e) => {
                return Err(e.message());
            },
        }
        let mut activity_fields: Vec<ModelField> = Vec::new();
        activity_fields.push(optional_i64_field("project_id"));
        activity_fields.push(optional_i64_field("task_id"));
        match api.register_model_extension(EntityType::Activity, activity_fields) {
            Ok(()) => {},
            Err(e) => {
                return Err(e.message());
            },
        }
        let mut entry_fields: Vec<ModelField> = Vec::new();
        entry_fields.push(optional_i64_field("project_id"));
        entry_fields.push(optional_i64_field("task_id"));
        match api.register_model_extension(EntityType::ManualEntry, entry_fields) {
            Ok(()) => Ok(()),
            Err(e) => Err(e.message()),
        }
    }

    /// This plugin exposes no commands.
    fn invoke_command(
        &self,
        command: &str,
        params: &ParamValue,
        api: &mut PluginAPI<H, F>,
    ) -> (r: Result<ParamValue, CommandError>)
        ensures
            r is Err,
    {
        Err(CommandError::CommandNotFound)
    }

    fn shutdown(&self) -> (r: Result<(), String>) {
        Ok(())
    }
}

} // verus!
