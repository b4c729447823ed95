//! The goals plugin: tracks time goals in a table of its own, created
//! through a schema extension at initialization, and contributes two query
//! filters that narrow activity result sets by category or project.

use vstd::prelude::*;
use vstd::seq_lib::*;
use crate::api::{opt_i64_param, opt_str_param, opt_bool_param, req_i64, req_str, row_to_param,
    rows_to_param, PluginAPI};
use crate::errors::Error;
use crate::extensions::{
    EntityType, ExtensionType, QueryFilter, QueryFilterFn, SchemaChange, TableColumn,
};
use crate::model::Activity;
use crate::runtime::{CommandError, Plugin, PluginInfo};
use crate::value::{lookup_param, str_eq, DataMap, ParamValue, Scalar};

verus! {

/// The two ways activity result sets can be narrowed for goal tracking.
#[derive(Clone, Copy, PartialEq, Eq, Structural, Debug)]
pub enum GoalFilter {
    ByGoalCategory,
    ByGoalProject,
}

/// The activities with this category.
pub fn filter_by_category(acts: Vec<Activity>, c: i64) -> (r: Vec<Activity>)
    ensures
        r@ == acts@.filter(|a: Activity| a.category_id == Some(c)),
{
    let mut out: Vec<Activity> = Vec::new();
    let n = acts.len();
    let mut i: usize = 0;
    while i < n
        invariant
            i <= n,
            n == acts@.len(),
            out@ =~= acts@.subrange(0, i as int).filter(|a: Activity| a.category_id == Some(c)),
        decreases n - i,
    {
        let keep = match acts[i].category_id {
            Some(x) => x == c,
            None => false,
        };
        if keep {
            out.push(acts[i].dup());
        }
        proof {
            reveal(Seq::filter);
            let sub1 = acts@.subrange(0, i as int + 1);
            assert(sub1.drop_last() =~= acts@.subrange(0, i as int));
            assert(sub1.last() == acts@[i as int]);
        }
        i += 1;
    }
    proof {
        assert(acts@.subrange(0, n as int) =~= acts@);
    }
    out
}

/// The activities with this project.
pub fn filter_by_project(acts: Vec<Activity>, p: i64) -> (r: Vec<Activity>)
    ensures
        r@ == acts@.filter(|a: Activity| a.project_id == Some(p)),
{
    let mut out: Vec<Activity> = Vec::new();
    let n = acts.len();
    let mut i: usize = 0;
    while i < n
        invariant
            i <= n,
            n == acts@.len(),
            out@ =~= acts@.subrange(0, i as int).filter(|a: Activity| a.project_id == Some(p)),
        decreases n - i,
    {
        let keep = match acts[i].project_id {
            Some(x) => x == p,
            None => false,
        };
        if keep {
            out.push(acts[i].dup());
        }
        proof {
            reveal(Seq::filter);
            let sub1 = acts@.subrange(0, i as int + 1);
            assert(sub1.drop_last() =~= acts@.subrange(0, i as int));
            assert(sub1.last() == acts@[i as int]);
        }
        i += 1;
    }
    proof {
        assert(acts@.subrange(0, n as int) =~= acts@);
    }
    out
}

impl QueryFilterFn for GoalFilter {
    /// With the relevant id in the parameter bag, keeps exactly the
    /// activities attached to it; without one, hands the set back untouched.
    fn apply(&self, activities: Vec<Activity>, params: &Vec<(String, ParamValue)>) -> (r: Result<
        Vec<Activity>,
        String,
    >)
        ensures
            r is Ok,
            *self == GoalFilter::ByGoalCategory ==> (r matches Ok(v) && v@ == (
            match crate::value::spec_lookup_param(params@, "category_id"@) {
                Some(ParamValue::Int(c)) => activities@.filter(
                    |a: Activity| a.category_id == Some(c),
                ),
                _ => activities@,
            })),
            *self == GoalFilter::ByGoalProject ==> (r matches Ok(v) && v@ == (
            match crate::value::spec_lookup_param(params@, "project_id"@) {
                Some(ParamValue::Int(p)) => activities@.filter(
                    |a: Activity| a.project_id == Some(p),
                ),
                _ => activities@,
            })),
    {
        match self {
            GoalFilter::ByGoalCategory => {
                let cid = match lookup_param(params, "category_id") {
                    Some(v) => v.as_i64(),
                    None => None,
                };
                match cid {
                    Some(c) => Ok(filter_by_category(activities, c)),
                    None => Ok(activities),
                }
            },
            GoalFilter::ByGoalProject => {
                let pid = match lookup_param(params, "project_id") {
                    Some(v) => v.as_i64(),
                    None => None,
                };
                match pid {
                    Some(p) => Ok(filter_by_project(activities, p)),
                    None => Ok(activities),
                }
            },
        }
    }
}

/// A saturating sum of the non-negative durations of a list of activities.
pub open spec fn spec_progress(acts: Seq<Activity>) -> int
    decreases acts.len(),
{
    if acts.len() == 0 {
        0
    } else {
        let rest = spec_progress(acts.drop_last());
        let d: int = if acts.last().duration_sec >= 0 {
            acts.last().duration_sec as int
        } else {
            0
        };
        if rest + d > i64::MAX {
            i64::MAX as int
        } else {
            rest + d
        }
    }
}

proof fn lemma_progress_bounds(acts: Seq<Activity>)
    ensures
        0 <= spec_progress(acts) <= i64::MAX,
    decreases acts.len(),
{
    if acts.len() > 0 {
        lemma_progress_bounds(acts.drop_last());
    }
}

/// Sums the durations of a list of activities, saturating at the largest
/// representable value.
pub fn sum_durations(acts: &Vec<Activity>) -> (r: i64)
    ensures
        r == spec_progress(acts@),
{
    let mut acc: i64 = 0;
    let n = acts.len();
    let mut i: usize = 0;
    proof {
        lemma_progress_bounds(acts@.subrange(0, 0));
    }
    while i < n
        invariant
            i <= n,
            n == acts@.len(),
            acc == spec_progress(acts@.subrange(0, i as int)),
            0 <= acc,
        decreases n - i,
    {
        let d: i64 = if acts[i].duration_sec >= 0 {
            acts[i].duration_sec
        } else {
            0
        };
        proof {
            let sub1 = acts@.subrange(0, i as int + 1);
            assert(sub1.drop_last() =~= acts@.subrange(0, i as int));
            assert(sub1.last() == acts@[i as int]);
        }
        if acc <= i64::MAX - d {
            acc = acc + d;
        } else {
            acc = i64::MAX;
        }
        i += 1;
    }
    proof {
        assert(acts@.subrange(0, n as int) =~= acts@);
    }
    acc
}

/// The goals plugin.
pub struct GoalsPlugin {
    info: PluginInfo,
}

impl GoalsPlugin {
    /// A fresh instance, identified as the built-in goals plugin.
    pub fn new() -> (r: GoalsPlugin)
        ensures
            r.spec_plugin_info().id@ == "goals-plugin"@,
            r.spec_plugin_info().name@ == "Goals"@,
            r.spec_plugin_info().version@ == "1.0.0"@,
            r.spec_plugin_info().description matches Some(d) && d@ == "Goal tracking"@,
            r.spec_plugin_info().is_builtin == true,
    {
        GoalsPlugin {
            info: PluginInfo {
                id: "goals-plugin".to_owned(),
                name: "Goals".to_owned(),
                version: "1.0.0".to_owned(),
                description: Some("Goal tracking".to_owned()),
                is_builtin: true,
            },
        }
    }

    /// The plugin's identity.
    pub closed spec fn spec_plugin_info(&self) -> PluginInfo {
        self.info
    }
}

fn goals_table_columns() -> Vec<TableColumn> {
    let mut cols: Vec<TableColumn> = Vec::new();
    cols.push(
        TableColumn {
            name: "id".to_owned(),
            column_type: "INTEGER".to_owned(),
            primary_key: true,
            nullable: false,
            default: None,
            foreign_key: None,
        },
    );
    cols.push(
        TableColumn {
            name: "goal_type".to_owned(),
            column_type: "TEXT".to_owned(),
            primary_key: false,
            nullable: false,
            default: None,
            foreign_key: None,
        },
    );
    cols.push(
        TableColumn {
            name: "target_seconds".to_owned(),
            column_type: "INTEGER".to_owned(),
            primary_key: false,
            nullable: false,
            default: Some("0".to_owned()),
            foreign_key: None,
        },
    );
    cols.push(
        TableColumn {
            name: "category_id".to_owned(),
            column_type: "INTEGER".to_owned(),
            primary_key: false,
            nullable: true,
            default: None,
            foreign_key: None,
        },
    );
    cols.push(
        TableColumn {
            name: "project_id".to_owned(),
            column_type: "INTEGER".to_owned(),
            primary_key: false,
            nullable: true,
            default: None,
            foreign_key: None,
        },
    );
    cols.push(
        TableColumn {
            name: "start_date".to_owned(),
            column_type: "INTEGER".to_owned(),
            primary_key: false,
            nullable: false,
            default: Some("0".to_owned()),
            foreign_key: None,
        },
    );
    cols.push(
        TableColumn {
            name: "end_date".to_owned(),
            column_type: "INTEGER".to_owned(),
            primary_key: false,
            nullable: true,
            default: None,
            foreign_key: None,
        },
    );
    cols.push(
        TableColumn {
            name: "active".to_owned(),
            column_type: "INTEGER".to_owned(),
            primary_key: false,
            nullable: false,
            default: Some("1".to_owned()),
            foreign_key: None,
        },
    );
    cols.push(
        TableColumn {
            name: "name".to_owned(),
            column_type: "TEXT".to_owned(),
            primary_key: false,
            nullable: true,
            default: None,
            foreign_key: None,
        },
    );
    cols
}

fn err_failed(m: &str) -> (r: CommandError) {
    CommandError::Failed(m.to_owned())
}

fn goal_data_from_params(params: &ParamValue, with_active: bool) -> (r: Result<
    DataMap,
    CommandError,
>) {
    let goal_type = match req_str(params, "goal_type") {
        Ok(s) => s,
        Err(_) => {
            return Err(err_failed("Missing goal_type"));
        },
    };
    let target_seconds = match req_i64(params, "target_seconds") {
        Ok(v) => v,
        Err(_) => {
            return Err(err_failed("Missing target_seconds"));
        },
    };
    let start_date = match req_i64(params, "start_date") {
        Ok(v) => v,
        Err(_) => {
            return Err(err_failed("Missing start_date"));
        },
    };
    let mut data: DataMap = Vec::new();
    data.push(("goal_type".to_owned(), Scalar::Text(goal_type)));
    data.push(("target_seconds".to_owned(), Scalar::Int(target_seconds)));
    data.push(("start_date".to_owned(), Scalar::Int(start_date)));
    match opt_i64_param(params, "category_id") {
        Some(v) => data.push(("category_id".to_owned(), Scalar::Int(v))),
        None => {},
    }
    match opt_i64_param(params, "project_id") {
        Some(v) => data.push(("project_id".to_owned(), Scalar::Int(v))),
        None => {},
    }
    match opt_i64_param(params, "end_date") {
        Some(v) => data.push(("end_date".to_owned(), Scalar::Int(v))),
        None => {},
    }
    match opt_str_param(params, "name") {
        Some(s) => data.push(("name".to_owned(), Scalar::Text(s))),
        None => {},
    }
    if with_active {
        let active = match opt_bool_param(params, "active") {
            Some(b) => b,
            None => true,
        };
        data.push((
            "active".to_owned(),
            Scalar::Int(
                if active {
                    1
                } else {
                    0
                },
            ),
        ));
    }
    Ok(data)
}

fn map_api_err(e: Error) -> (r: CommandError) {
    CommandError::Failed(e.message())
}

fn goal_progress<H>(
    api: &PluginAPI<H, GoalFilter>,
    goal: &crate::value::Row,
    start: i64,
    end: i64,
) -> (r: Result<i64, CommandError>) {
    let category_id = match crate::api::row_get(goal, "category_id") {
        Some(Scalar::Int(v)) => Some(*v),
        _ => None,
    };
    let project_id = match crate::api::row_get(goal, "project_id") {
        Some(Scalar::Int(v)) => Some(*v),
        _ => None,
    };
    let filters = crate::api::ActivityFilters {
        exclude_idle: Some(true),
        category_ids: match category_id {
            Some(c) => {
                let mut cs: Vec<i64> = Vec::new();
                cs.push(c);
                Some(cs)
            },
            None => None,
        },
    };
    let acts = match api.get_activities(start, end, None, None, Some(&filters)) {
        Ok(acts) => acts,
        Err(e) => {
            return Err(map_api_err(e));
        },
    };
    let narrowed = match project_id {
        Some(p) => filter_by_project(acts, p),
        None => acts,
    };
    Ok(sum_durations(&narrowed))
}

impl<H> Plugin<PluginAPI<H, GoalFilter>> for GoalsPlugin {
    open spec fn spec_info(&self) -> PluginInfo {
        self.spec_plugin_info()
    }

    fn info(&self) -> (r: &PluginInfo) {
        &self.info
    }

    /// Creates the goals table through a schema extension and contributes
    /// the two goal query filters.
    fn initialize(&mut self, api: &mut PluginAPI<H, GoalFilter>) -> (r: Result<(), String>) {
        let mut changes: Vec<SchemaChange> = Vec::new();
        changes.push(
            SchemaChange::CreateTable { table: "goals".to_owned(), columns: goals_table_columns() },
        );
        match api.register_schema_extension(EntityType::Activity, changes) {
            Ok(()) => {},
            Err(e) => {
                return Err(e.message());
            },
        }
        match api.apply_registered_schema_changes(EntityType::Activity) {
            Ok(()) => {},
            Err(e) => {
                return Err(e.message());
            },
        }
        let mut filters: Vec<QueryFilter<GoalFilter>> = Vec::new();
        filters.push(
            QueryFilter {
                name: "by_goal_category".to_owned(),
                filter_fn: GoalFilter::ByGoalCategory,
            },
        );
        filters.push(
            QueryFilter {
                name: "by_goal_project".to_owned(),
                filter_fn: GoalFilter::ByGoalProject,
            },
        );
        match api.register_query_filters(EntityType::Activity, filters) {
            Ok(()) => Ok(()),
            Err(e) => Err(e.message()),
        }
    }

    fn invoke_command(
        &self,
        command: &str,
        params: &ParamValue,
        api: &mut PluginAPI<H, GoalFilter>,
    ) -> (r: Result<ParamValue, CommandError>) {
        if str_eq(command, "create_goal") {
            let data = match goal_data_from_params(params, false) {
                Ok(d) => d,
                Err(e) => {
                    return Err(e);
                },
            };
            match api.insert_own_table("goals", &data) {
                Ok(id) => Ok(ParamValue::Int(id)),
                Err(e) => Err(map_api_err(e)),
            }
        } else if str_eq(command, "get_goals") {
            let active_only = match opt_bool_param(params, "active_only") {
                Some(b) => b,
                None => false,
            };
            let filters: Option<DataMap> = if active_only {
                let mut f: DataMap = Vec::new();
                f.push(("active".to_owned(), Scalar::Int(1)));
                Some(f)
            } else {
                None
            };
            match api.query_own_table(
                "goals",
                match &filters {
                    Some(f) => Some(f),
                    None => None,
                },
                None,
                None,
            ) {
                Ok(rows) => Ok(rows_to_param(&rows)),
                Err(e) => Err(map_api_err(e)),
            }
        } else if str_eq(command, "update_goal") {
            let id = match req_i64(params, "id") {
                Ok(v) => v,
                Err(_) => {
                    return Err(err_failed("Missing id"));
                },
            };
            let data = match goal_data_from_params(params, true) {
                Ok(d) => d,
                Err(e) => {
                    return Err(e);
                },
            };
            match api.update_own_table("goals", id, &data) {
                Ok(_) => {},
                Err(e) => {
                    return Err(map_api_err(e));
                },
            }
            let mut f: DataMap = Vec::new();
            f.push(("id".to_owned(), Scalar::Int(id)));
            match api.query_own_table("goals", Some(&f), None, None) {
                Ok(rows) => {
                    if rows.len() > 0 {
                        Ok(row_to_param(&rows[0]))
                    } else {
                        Err(err_failed("Goal not found"))
                    }
                },
                Err(e) => Err(map_api_err(e)),
            }
        } else if str_eq(command, "delete_goal") {
            let id = match req_i64(params, "id") {
                Ok(v) => v,
                Err(_) => {
                    return Err(err_failed("Missing id"));
                },
            };
            match api.delete_own_table("goals", id) {
                Ok(_) => Ok(ParamValue::Object(Vec::new())),
                Err(e) => Err(map_api_err(e)),
            }
        } else if str_eq(command, "get_goal_progress") {
            let goal_id = match req_i64(params, "goal_id") {
                Ok(v) => v,
                Err(_) => {
                    return Err(err_failed("Missing goal_id"));
                },
            };
            let start = match req_i64(params, "start") {
                Ok(v) => v,
                Err(_) => {
                    return Err(err_failed("Missing start"));
                },
            };
            let end = match req_i64(params, "end") {
                Ok(v) => v,
                Err(_) => {
                    return Err(err_failed("Missing end"));
                },
            };
            let mut f: DataMap = Vec::new();
            f.push(("id".to_owned(), Scalar::Int(goal_id)));
            let rows = match api.query_own_table("goals", Some(&f), None, None) {
                Ok(rows) => rows,
                Err(e) => {
                    return Err(map_api_err(e));
                },
            };
            if rows.len() == 0 {
                return Err(err_failed("Goal not found"));
            }
            let progress = match goal_progress(api, &rows[0], start, end) {
                Ok(p) => p,
                Err(e) => {
                    return Err(e);
                },
            };
            let target = match crate::api::row_get(&rows[0], "target_seconds") {
                Some(Scalar::Int(v)) => *v,
                _ => 0,
            };
            let mut fields: Vec<(String, ParamValue)> = Vec::new();
            fields.push(("goal_id".to_owned(), ParamValue::Int(goal_id)));
            fields.push(("progress_seconds".to_owned(), ParamValue::Int(progress)));
            fields.push(("target_seconds".to_owned(), ParamValue::Int(target)));
            Ok(ParamValue::Object(fields))
        } else if str_eq(command, "check_goal_alerts") {
            let mut f: DataMap = Vec::new();
            f.push(("active".to_owned(), Scalar::Int(1)));
            let rows = match api.query_own_table("goals", Some(&f), None, None) {
                Ok(rows) => rows,
                Err(e) => {
                    return Err(map_api_err(e));
                },
            };
            let mut alerts: Vec<ParamValue> = Vec::new();
            let n = rows.len();
            let mut i: usize = 0;
            while i < n
                invariant
                    i <= n,
                    n == rows@.len(),
                decreases n - i,
            {
                let goal = &rows[i];
                let end_date = match crate::api::row_get(goal, "end_date") {
                    Some(Scalar::Int(v)) => Some(*v),
                    _ => None,
                };
                let start_date = match crate::api::row_get(goal, "start_date") {
                    Some(Scalar::Int(v)) => *v,
                    _ => 0,
                };
                let target = match crate::api::row_get(goal, "target_seconds") {
                    Some(Scalar::Int(v)) => *v,
                    _ => 0,
                };
                let goal_id = match crate::api::row_get(goal, "id") {
                    Some(Scalar::Int(v)) => *v,
                    _ => 0,
                };
                match end_date {
                    Some(ed) => {
                        match goal_progress(api, goal, start_date, ed) {
                            Ok(p) => {
                                if p >= target {
                                    let mut fields: Vec<(String, ParamValue)> = Vec::new();
                                    fields.push(("goal_id".to_owned(), ParamValue::Int(goal_id)));
                                    fields.push((
                                        "progress_seconds".to_owned(),
                                        ParamValue::Int(p),
                                    ));
                                    fields.push((
                                        "target_seconds".to_owned(),
                                        ParamValue::Int(target),
                                    ));
                                    alerts.push(ParamValue::Object(fields));
                                }
                            },
                            Err(e) => {
                                return Err(e);
                            },
                        }
                    },
                    None => {},
                }
                i += 1;
            }
            Ok(ParamValue::Array(alerts))
        } else {
            Err(CommandError::CommandNotFound)
        }
    }

    fn shutdown(&self) -> (r: Result<(), String>) {
        Ok(())
    }
}

} // verus!
