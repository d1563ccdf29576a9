use databricks_tui::app::Panel;
use databricks_tui::fetchers::{
    catalog, clusters, current_user, jobs, panel_command, panel_shape, pipelines, warehouses,
};
use databricks_tui::json::{Json, JsonNumber};
use databricks_tui::shape::{ListItem, Shape, Status};

fn s(t: &str) -> Json {
    Json::String(t.to_string())
}

fn obj(fields: Vec<(&str, Json)>) -> Json {
    Json::Object(fields.into_iter().map(|(k, v)| (k.to_string(), v)).collect())
}

fn items(shape: Shape) -> Vec<ListItem> {
    match shape {
        Shape::List(items) => items,
        other => panic!("expected a list, got {:?}", other),
    }
}

#[test]
fn clusters_map_name_state_and_id() {
    let json = Json::Array(vec![
        obj(vec![("cluster_name", s("etl")), ("state", s("running")), ("cluster_id", s("0101-abc"))]),
        obj(vec![("state", s("TERMINATED"))]),
    ]);
    let got = items(clusters::fetch(&json));
    assert_eq!(got.len(), 2);
    assert_eq!(got[0].name, "etl");
    assert_eq!(got[0].status, Status::Running);
    assert_eq!(got[0].detail.as_deref(), Some("0101-abc"));
    assert_eq!(got[1].name, "unknown");
    assert_eq!(got[1].status, Status::Stopped);
    assert_eq!(got[1].detail, None);
}

#[test]
fn cluster_without_state_is_unknown_empty() {
    let json = Json::Array(vec![obj(vec![("cluster_name", s("x")), ("state", Json::Null)])]);
    let got = items(clusters::fetch(&json));
    assert_eq!(got[0].status, Status::Unknown(String::new()));
}

#[test]
fn non_array_response_gives_empty_list() {
    let json = obj(vec![("clusters", Json::Array(vec![]))]);
    assert!(items(clusters::fetch(&json)).is_empty());
    assert!(items(pipelines::fetch(&Json::Null)).is_empty());
    assert!(items(jobs::fetch(&s("oops"))).is_empty());
}

#[test]
fn jobs_read_settings_and_numeric_id() {
    let json = Json::Array(vec![
        obj(vec![
            ("job_id", Json::Number(JsonNumber::PosInt(1234567890123))),
            ("settings", obj(vec![("name", s("nightly")), ("format", s("MULTI_TASK"))])),
        ]),
        obj(vec![("job_id", Json::Number(JsonNumber::NegInt(-4))), ("settings", Json::Null)]),
        obj(vec![("job_id", Json::Number(JsonNumber::PosInt(0)))]),
    ]);
    let got = items(jobs::fetch(&json));
    assert_eq!(got.len(), 3);
    assert_eq!(got[0].name, "nightly");
    assert_eq!(got[0].status, Status::Unknown("MULTI_TASK".to_string()));
    assert_eq!(got[0].detail.as_deref(), Some("1234567890123"));
    assert_eq!(got[1].name, "unknown");
    assert_eq!(got[1].status, Status::Unknown(String::new()));
    assert_eq!(got[1].detail, None);
    assert_eq!(got[2].detail.as_deref(), Some("0"));
}

#[test]
fn jobs_id_as_float_is_not_shown() {
    let json = Json::Array(vec![obj(vec![("job_id", Json::Number(JsonNumber::Float))])]);
    assert_eq!(items(jobs::fetch(&json))[0].detail, None);
}

#[test]
fn pipelines_map_name_state_and_id() {
    let json = Json::Array(vec![obj(vec![
        ("name", s("ingest")),
        ("state", s("FAILED")),
        ("pipeline_id", s("p-1")),
    ])]);
    let got = items(pipelines::fetch(&json));
    assert_eq!(got[0].name, "ingest");
    assert_eq!(got[0].status, Status::Failed);
    assert_eq!(got[0].detail.as_deref(), Some("p-1"));
}

#[test]
fn warehouses_plain_array_become_list_with_size_detail() {
    let json = Json::Array(vec![obj(vec![
        ("name", s("bi")),
        ("state", s("STOPPED")),
        ("cluster_size", s("Small")),
        ("id", s("w1")),
    ])]);
    let got = items(warehouses::fetch(&json));
    assert_eq!(got.len(), 1);
    assert_eq!(got[0].name, "bi");
    assert_eq!(got[0].status, Status::Stopped);
    assert_eq!(got[0].detail.as_deref(), Some("Small"));
}

#[test]
fn warehouses_wrapped_in_object_are_read_too() {
    let json = obj(vec![(
        "warehouses",
        Json::Array(vec![obj(vec![("state", s("STARTING"))])]),
    )]);
    let got = items(warehouses::fetch(&json));
    assert_eq!(got[0].name, "");
    assert_eq!(got[0].status, Status::Pending);
    assert_eq!(got[0].detail, None);
}

#[test]
fn current_user_prefers_user_name() {
    let both = obj(vec![("userName", s("ann@example.com")), ("displayName", s("Ann"))]);
    let display = obj(vec![("displayName", s("Ann"))]);
    for (json, want) in [(both, "ann@example.com"), (display, "Ann"), (Json::Null, "unknown")] {
        match current_user::fetch(&json) {
            Shape::Badge(b) => {
                assert_eq!(b.label, "Logged in as");
                assert_eq!(b.value, want);
            }
            other => panic!("expected a badge, got {:?}", other),
        }
    }
}

#[test]
fn first_member_wins_on_duplicate_keys() {
    let json = Json::Array(vec![obj(vec![("name", s("a")), ("name", s("b"))])]);
    assert_eq!(items(pipelines::fetch(&json))[0].name, "a");
}

#[test]
fn commands_name_the_cli_listings() {
    assert_eq!(clusters::command(), vec!["clusters", "list"]);
    assert_eq!(jobs::command(), vec!["jobs", "list"]);
    assert_eq!(pipelines::command(), vec!["pipelines", "list-pipelines"]);
    assert_eq!(warehouses::command(), vec!["warehouses", "list"]);
    assert_eq!(current_user::command(), vec!["current-user", "me"]);
}

#[test]
fn catalog_requests_follow_the_path() {
    let root: Vec<String> = vec![];
    assert_eq!(catalog::requests(&root), vec![vec!["catalogs".to_string(), "list".to_string()]]);
    let one = vec!["main".to_string()];
    assert_eq!(
        catalog::requests(&one),
        vec![vec!["schemas".to_string(), "list".to_string(), "main".to_string()]]
    );
    let three = vec!["main".to_string(), "sales".to_string(), "extra".to_string()];
    let want: Vec<Vec<String>> = vec![
        vec!["tables", "list", "main", "sales"].into_iter().map(String::from).collect(),
        vec!["volumes", "list", "main", "sales"].into_iter().map(String::from).collect(),
    ];
    assert_eq!(catalog::requests(&three), want);
}

#[test]
fn catalog_root_lists_catalogs() {
    let path: Vec<String> = vec![];
    let responses = vec![Json::Array(vec![obj(vec![("name", s("main")), ("comment", s("prod"))])])];
    let got = items(catalog::fetch(&path, &responses));
    assert_eq!(got.len(), 1);
    assert_eq!(got[0].name, "main");
    assert_eq!(got[0].status, Status::Unknown("CATALOG".to_string()));
    assert_eq!(got[0].detail.as_deref(), Some("prod"));
}

#[test]
fn catalog_schema_level_lists_tables_then_volumes() {
    let path = vec!["main".to_string(), "sales".to_string()];
    let tables = Json::Array(vec![
        obj(vec![("name", s("orders")), ("table_type", s("MANAGED"))]),
        obj(vec![("name", s("v_orders")), ("table_type", s("VIEW"))]),
        obj(vec![("name", s("mv")), ("table_type", s("MATERIALIZED_VIEW"))]),
        obj(vec![]),
    ]);
    let volumes = Json::Array(vec![obj(vec![("name", s("raw"))])]);
    let got = items(catalog::fetch(&path, &vec![tables, volumes]));
    let kinds: Vec<&str> = got.iter().map(|i| i.status.label()).collect();
    assert_eq!(kinds, vec!["TABLE", "VIEW", "VIEW", "TABLE", "VOLUME"]);
    assert_eq!(got[3].name, "unknown");
    assert_eq!(got[4].name, "raw");
}

#[test]
fn catalog_failed_volume_listing_counts_as_empty() {
    let path = vec!["main".to_string(), "sales".to_string()];
    let tables = Json::Array(vec![obj(vec![("name", s("orders"))])]);
    let got = items(catalog::fetch(&path, &vec![tables, Json::Null]));
    assert_eq!(got.len(), 1);
    assert_eq!(got[0].status, Status::Unknown("TABLE".to_string()));
}

#[test]
fn catalog_schema_listing() {
    let path = vec!["main".to_string()];
    let got = items(catalog::fetch(&path, &vec![Json::Array(vec![obj(vec![("name", s("sales"))])])]));
    assert_eq!(got[0].status.label(), "SCHEMA");
}

#[test]
fn catalog_entries_carry_an_id() {
    let path: Vec<String> = vec!["main".to_string()];
    let listing = Json::Array(vec![
        obj(vec![("name", s("sales")), ("full_name", s("main.sales"))]),
        obj(vec![("name", s("hr"))]),
        obj(vec![]),
    ]);
    let got = items(catalog::fetch(&path, &vec![listing]));
    assert_eq!(got[0].id.as_deref(), Some("main.sales"));
    assert_eq!(got[1].id.as_deref(), Some("hr"));
    assert_eq!(got[2].id, None);
    assert!(got.iter().all(|i| i.history.is_empty()));
}

#[test]
fn listings_other_than_the_catalog_carry_no_id() {
    let json = Json::Array(vec![obj(vec![("name", s("x")), ("full_name", s("y"))])]);
    let got = items(pipelines::fetch(&json));
    assert_eq!(got[0].id, None);
    assert!(got[0].history.is_empty());
}

#[test]
fn panels_are_filled_by_their_own_listing() {
    assert_eq!(panel_command(Panel::Clusters), clusters::command());
    assert_eq!(panel_command(Panel::Jobs), jobs::command());
    assert_eq!(panel_command(Panel::Pipelines), pipelines::command());
    assert_eq!(panel_command(Panel::Warehouses), warehouses::command());
    let json = Json::Array(vec![obj(vec![
        ("name", s("n")),
        ("cluster_name", s("c")),
        ("settings", obj(vec![("name", s("j"))])),
    ])]);
    assert_eq!(items(panel_shape(Panel::Clusters, &json))[0].name, "c");
    assert_eq!(items(panel_shape(Panel::Jobs, &json))[0].name, "j");
    assert_eq!(items(panel_shape(Panel::Pipelines, &json))[0].name, "n");
    assert_eq!(items(panel_shape(Panel::Warehouses, &json))[0].name, "n");
}
