//! The generic table engine against a real in-memory store.

use plugin_host::aggregate::AggregateSpec;
use plugin_host::errors::Error;
use plugin_host::extensions::{SchemaChange, TableColumn};
use plugin_host::store::Database;
use plugin_host::value::{DataMap, Scalar};

fn test_db() -> Database {
    let db = Database::open_in_memory().unwrap();
    db.init_plugin_support().unwrap();
    db
}

fn widgets_table() -> SchemaChange {
    SchemaChange::CreateTable {
        table: "widgets".to_string(),
        columns: vec![
            TableColumn {
                name: "id".to_string(),
                column_type: "INTEGER".to_string(),
                primary_key: true,
                nullable: false,
                default: None,
                foreign_key: None,
            },
            TableColumn {
                name: "name".to_string(),
                column_type: "TEXT".to_string(),
                primary_key: false,
                nullable: true,
                default: None,
                foreign_key: None,
            },
            TableColumn {
                name: "weight".to_string(),
                column_type: "REAL".to_string(),
                primary_key: false,
                nullable: true,
                default: None,
                foreign_key: None,
            },
            TableColumn {
                name: "created_at".to_string(),
                column_type: "INTEGER".to_string(),
                primary_key: false,
                nullable: true,
                default: None,
                foreign_key: None,
            },
        ],
    }
}

fn named(name: &str) -> DataMap {
    vec![("name".to_string(), Scalar::Text(name.to_string()))]
}

#[test]
fn insert_then_select_round_trip_with_auto_timestamp() {
    let db = test_db();
    db.apply_schema_change(&widgets_table()).unwrap();
    db.set_auto_timestamps("widgets", Some("created_at"), None).unwrap();

    let before = chrono::Utc::now().timestamp();
    let id = db.plugin_insert_table("widgets", &named("a")).unwrap();
    let after = chrono::Utc::now().timestamp();
    assert!(id > 0);

    let rows = db
        .plugin_select_table("widgets", Some(&named("a")), None, None)
        .unwrap();
    assert_eq!(rows.len(), 1);
    let row = &rows[0];
    let name = row.iter().find(|(k, _)| k == "name").unwrap();
    assert_eq!(name.1, Scalar::Text("a".to_string()));
    let created = row.iter().find(|(k, _)| k == "created_at").unwrap();
    match created.1 {
        Scalar::Int(t) => assert!(t >= before && t <= after),
        ref other => panic!("expected an integer timestamp, got {:?}", other),
    }
}

#[test]
fn caller_supplied_timestamp_is_kept() {
    let db = test_db();
    db.apply_schema_change(&widgets_table()).unwrap();
    db.set_auto_timestamps("widgets", Some("created_at"), None).unwrap();
    let mut data = named("b");
    data.push(("created_at".to_string(), Scalar::Int(12345)));
    db.plugin_insert_table("widgets", &data).unwrap();
    let rows = db.plugin_select_table("widgets", None, None, None).unwrap();
    let created = rows[0].iter().find(|(k, _)| k == "created_at").unwrap();
    assert_eq!(created.1, Scalar::Int(12345));
}

#[test]
fn invalid_table_name_is_rejected() {
    let db = test_db();
    assert_eq!(
        db.plugin_insert_table("wid gets", &named("a")),
        Err(Error::InvalidIdentifier)
    );
    assert_eq!(
        db.plugin_select_table("wid;gets", None, None, None).unwrap_err(),
        Error::InvalidIdentifier
    );
    assert_eq!(db.plugin_delete_table("x\"y", 1), Err(Error::InvalidIdentifier));
}

#[test]
fn insert_with_no_valid_columns_fails() {
    let db = test_db();
    db.apply_schema_change(&widgets_table()).unwrap();
    let data: DataMap = vec![
        ("bad key".to_string(), Scalar::Int(1)),
        ("x;y".to_string(), Scalar::Int(2)),
    ];
    assert_eq!(db.plugin_insert_table("widgets", &data), Err(Error::NoValidColumns));
}

#[test]
fn select_missing_table_reports_not_found() {
    let db = test_db();
    assert_eq!(
        db.plugin_select_table("nothing_here", None, None, None),
        Err(Error::TableNotFound)
    );
}

#[test]
fn update_with_only_invalid_keys_is_a_no_op() {
    let db = test_db();
    db.apply_schema_change(&widgets_table()).unwrap();
    let id = db.plugin_insert_table("widgets", &named("keepme")).unwrap();
    let before = db.plugin_select_table("widgets", None, None, None).unwrap();

    let data: DataMap = vec![
        ("not a column".to_string(), Scalar::Text("x".to_string())),
        ("a;b".to_string(), Scalar::Int(7)),
    ];
    let n = db.plugin_update_table("widgets", id, &data).unwrap();
    assert_eq!(n, 0);

    let after = db.plugin_select_table("widgets", None, None, None).unwrap();
    assert_eq!(before, after);
}

#[test]
fn update_skips_the_id_key_and_auto_fills_updated_at() {
    let db = test_db();
    db.apply_schema_change(&widgets_table()).unwrap();
    db.set_auto_timestamps("widgets", None, Some("created_at")).unwrap();
    let id = db.plugin_insert_table("widgets", &named("x")).unwrap();
    let data: DataMap = vec![
        ("id".to_string(), Scalar::Int(999)),
        ("name".to_string(), Scalar::Text("y".to_string())),
    ];
    let n = db.plugin_update_table("widgets", id, &data).unwrap();
    assert_eq!(n, 1);
    let rows = db.plugin_select_table("widgets", None, None, None).unwrap();
    let idcell = rows[0].iter().find(|(k, _)| k == "id").unwrap();
    assert_eq!(idcell.1, Scalar::Int(id));
    let name = rows[0].iter().find(|(k, _)| k == "name").unwrap();
    assert_eq!(name.1, Scalar::Text("y".to_string()));
    match rows[0].iter().find(|(k, _)| k == "created_at").unwrap().1 {
        Scalar::Int(t) => assert!(t > 0),
        ref other => panic!("expected the auto-updated column to be set, got {:?}", other),
    }
}

#[test]
fn delete_removes_the_row() {
    let db = test_db();
    db.apply_schema_change(&widgets_table()).unwrap();
    let id = db.plugin_insert_table("widgets", &named("gone")).unwrap();
    assert_eq!(db.plugin_delete_table("widgets", id).unwrap(), 1);
    assert_eq!(db.plugin_delete_table("widgets", id).unwrap(), 0);
    let rows = db.plugin_select_table("widgets", None, None, None).unwrap();
    assert_eq!(rows.len(), 0);
}

fn insert_many(db: &Database, count: i64) {
    for i in 0..count {
        let data: DataMap = vec![("name".to_string(), Scalar::Text(format!("w{}", i)))];
        db.plugin_insert_table("widgets", &data).unwrap();
    }
}

#[test]
fn in_range_limit_caps_results_and_out_of_range_limit_is_ignored() {
    let db = test_db();
    db.apply_schema_change(&widgets_table()).unwrap();
    insert_many(&db, 120);

    let capped = db
        .plugin_select_table("widgets", None, None, Some(100))
        .unwrap();
    assert_eq!(capped.len(), 100);

    let uncapped = db
        .plugin_select_table("widgets", None, None, Some(50000))
        .unwrap();
    assert_eq!(uncapped.len(), 120);

    let zero = db.plugin_select_table("widgets", None, None, Some(0)).unwrap();
    assert_eq!(zero.len(), 120);

    let negative = db.plugin_select_table("widgets", None, None, Some(-5)).unwrap();
    assert_eq!(negative.len(), 120);
}

#[test]
fn order_by_is_honored_and_malformed_order_is_ignored() {
    let db = test_db();
    db.apply_schema_change(&widgets_table()).unwrap();
    for name in ["b", "a", "c"] {
        db.plugin_insert_table("widgets", &named(name)).unwrap();
    }
    let asc = db
        .plugin_select_table("widgets", None, Some("name"), None)
        .unwrap();
    let names: Vec<String> = asc
        .iter()
        .map(|row| match &row.iter().find(|(k, _)| k == "name").unwrap().1 {
            Scalar::Text(s) => s.clone(),
            _ => panic!("expected text"),
        })
        .collect();
    assert_eq!(names, vec!["a", "b", "c"]);

    let desc = db
        .plugin_select_table("widgets", None, Some("  name   DESC "), None)
        .unwrap();
    let first = &desc[0].iter().find(|(k, _)| k == "name").unwrap().1;
    assert_eq!(*first, Scalar::Text("c".to_string()));

    // malformed order-by arguments apply no ordering rather than failing
    let ignored = db
        .plugin_select_table("widgets", None, Some("name; DROP TABLE widgets"), None)
        .unwrap();
    assert_eq!(ignored.len(), 3);
    let still_there = db.plugin_select_table("widgets", None, None, None).unwrap();
    assert_eq!(still_there.len(), 3);
}

#[test]
fn filter_keys_failing_validation_are_dropped() {
    let db = test_db();
    db.apply_schema_change(&widgets_table()).unwrap();
    insert_many(&db, 3);
    let filters: DataMap = vec![(
        "name\" OR 1=1 --".to_string(),
        Scalar::Text("nope".to_string()),
    )];
    let rows = db
        .plugin_select_table("widgets", Some(&filters), None, None)
        .unwrap();
    assert_eq!(rows.len(), 3);
}

#[test]
fn real_values_ride_through_untouched() {
    let db = test_db();
    db.apply_schema_change(&widgets_table()).unwrap();
    let data: DataMap = vec![
        ("name".to_string(), Scalar::Text("heavy".to_string())),
        (
            "weight".to_string(),
            Scalar::Real(rusqlite::types::Value::Real(2.5)),
        ),
    ];
    db.plugin_insert_table("widgets", &data).unwrap();
    let rows = db.plugin_select_table("widgets", None, None, None).unwrap();
    let weight = rows[0].iter().find(|(k, _)| k == "weight").unwrap();
    assert_eq!(weight.1, Scalar::Real(rusqlite::types::Value::Real(2.5)));
}

#[test]
fn aggregate_on_empty_table_counts_zero_and_sums_zero() {
    let db = test_db();
    db.apply_schema_change(&widgets_table()).unwrap();
    let aggs = AggregateSpec {
        count: Some("*".to_string()),
        sum: Some("created_at".to_string()),
        avg: None,
        min: None,
        max: None,
        group_by: vec![],
    };
    let res = db.plugin_aggregate_table("widgets", None, &aggs).unwrap();
    assert_eq!(res.total_count, Some(0));
    assert_eq!(res.sum, Some(0));
    assert!(res.groups.is_none());
}

#[test]
fn aggregate_computes_sum_min_max_and_groups() {
    let db = test_db();
    db.apply_schema_change(&widgets_table()).unwrap();
    for (name, t) in [("a", 10), ("a", 20), ("b", 30)] {
        let data: DataMap = vec![
            ("name".to_string(), Scalar::Text(name.to_string())),
            ("created_at".to_string(), Scalar::Int(t)),
        ];
        db.plugin_insert_table("widgets", &data).unwrap();
    }
    let aggs = AggregateSpec {
        count: Some("*".to_string()),
        sum: Some("created_at".to_string()),
        avg: Some("created_at".to_string()),
        min: Some("created_at".to_string()),
        max: Some("created_at".to_string()),
        group_by: vec!["name".to_string()],
    };
    let res = db.plugin_aggregate_table("widgets", None, &aggs).unwrap();
    assert_eq!(res.total_count, Some(3));
    assert_eq!(res.sum, Some(60));
    assert_eq!(res.min, Some(10));
    assert_eq!(res.max, Some(30));
    assert_eq!(res.avg, Some(Scalar::Real(rusqlite::types::Value::Real(20.0))));
    let groups = res.groups.unwrap();
    assert_eq!(groups.len(), 2);
}

#[test]
fn aggregate_omits_invalid_targets_instead_of_failing() {
    let db = test_db();
    db.apply_schema_change(&widgets_table()).unwrap();
    let aggs = AggregateSpec {
        count: None,
        sum: Some("created_at; DROP".to_string()),
        avg: None,
        min: None,
        max: None,
        group_by: vec!["no good".to_string()],
    };
    let res = db.plugin_aggregate_table("widgets", None, &aggs).unwrap();
    assert!(res.total_count.is_none());
    assert!(res.sum.is_none());
    assert!(res.groups.is_none());
}

#[test]
fn add_foreign_key_is_reported_unsupported() {
    let db = test_db();
    let change = SchemaChange::AddForeignKey {
        table: "widgets".to_string(),
        column: "x".to_string(),
        foreign_table: "y".to_string(),
        foreign_column: "id".to_string(),
    };
    assert_eq!(db.apply_schema_change(&change), Err(Error::UnsupportedSchemaChange));
}

#[test]
fn schema_change_with_bad_identifier_is_rejected() {
    let db = test_db();
    let change = SchemaChange::AddIndex {
        table: "widgets".to_string(),
        index: "bad index".to_string(),
        columns: vec!["name".to_string()],
    };
    assert_eq!(db.apply_schema_change(&change), Err(Error::InvalidIdentifier));
    let change2 = SchemaChange::CreateTable {
        table: "t".to_string(),
        columns: vec![TableColumn {
            name: "c".to_string(),
            column_type: "TEXT".to_string(),
            primary_key: false,
            nullable: true,
            default: Some("'a' OR 1=1".to_string()),
            foreign_key: None,
        }],
    };
    assert_eq!(db.apply_schema_change(&change2), Err(Error::InvalidIdentifier));
}

#[test]
fn insert_into_missing_table_surfaces_the_store_error() {
    let db = test_db();
    match db.plugin_insert_table("absent_table", &named("a")) {
        Err(Error::StoreFailure(_)) => {}
        other => panic!("expected a store failure, got {:?}", other),
    }
}
