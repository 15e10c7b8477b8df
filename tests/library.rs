use static_site_deploy::assets::{asset_destination, collect_assets, collect_listing, parent_dir, Entry};
use static_site_deploy::deploy::{deploy_args, plan_deploy, resolve_stored_name, scaffold_args, DeployError, NameSource};
use static_site_deploy::metadata::{deploy_meta_json, get_deploy_name, name_or_empty, MetaError};

fn s(x: &str) -> String {
    x.to_string()
}

fn path(parts: &[&str]) -> Vec<String> {
    parts.iter().map(|p| p.to_string()).collect()
}

fn sample_tree() -> Vec<Entry> {
    vec![
        Entry::File(s("a.txt")),
        Entry::Dir(s("nested"), vec![Entry::File(s("b.txt"))]),
    ]
}

#[test]
fn collects_files_relative_to_root() {
    let found = collect_assets(&Some(sample_tree()));
    assert_eq!(found, vec![path(&["a.txt"]), path(&["nested", "b.txt"])]);
}

#[test]
fn collects_nothing_from_missing_root() {
    assert!(collect_assets(&None).is_empty());
}

#[test]
fn collects_nothing_from_empty_root() {
    assert!(collect_assets(&Some(vec![])).is_empty());
}

#[test]
fn skipped_entries_and_empty_dirs_leave_no_trace() {
    let tree = vec![
        Entry::Skipped,
        Entry::Dir(s("empty"), vec![]),
        Entry::Dir(
            s("x"),
            vec![
                Entry::Dir(s("y"), vec![Entry::File(s("deep.css")), Entry::Skipped]),
                Entry::File(s("index.html")),
            ],
        ),
        Entry::File(s("z.js")),
    ];
    assert_eq!(
        collect_listing(&tree),
        vec![path(&["x", "y", "deep.css"]), path(&["x", "index.html"]), path(&["z.js"])]
    );
}

#[test]
fn scaffold_places_assets_under_assets_dir() {
    let found = collect_assets(&Some(sample_tree()));
    let dests: Vec<Vec<String>> = found.iter().map(asset_destination).collect();
    assert_eq!(dests, vec![path(&["assets", "a.txt"]), path(&["assets", "nested", "b.txt"])]);
    let parents: Vec<Option<Vec<String>>> = dests.iter().map(parent_dir).collect();
    assert_eq!(parents, vec![Some(path(&["assets"])), Some(path(&["assets", "nested"]))]);
    assert_eq!(scaffold_args("demo")[2], "demo");
}

#[test]
fn parent_of_empty_path_is_none() {
    assert_eq!(parent_dir(&vec![]), None);
    assert_eq!(parent_dir(&path(&["a"])), Some(vec![]));
}

#[test]
fn metadata_round_trip() {
    let text = deploy_meta_json("foo");
    assert_eq!(text, "{\"name\":\"foo\"}");
    assert_eq!(get_deploy_name(Some(&text)), Ok(s("foo")));
}

#[test]
fn metadata_round_trip_with_quotes() {
    let text = deploy_meta_json("a \"b\" \\ c");
    assert_eq!(get_deploy_name(Some(&text)), Ok(s("a \"b\" \\ c")));
}

#[test]
fn absent_metadata_is_an_error() {
    assert_eq!(get_deploy_name(None), Err(MetaError::Unreadable));
}

#[test]
fn metadata_without_name_yields_empty_name() {
    assert_eq!(get_deploy_name(Some("{\"other\": 1}")), Ok(s("")));
    assert_eq!(get_deploy_name(Some("{\"name\": 5}")), Ok(s("")));
    assert_eq!(get_deploy_name(Some("[]")), Ok(s("")));
}

#[test]
fn malformed_metadata_is_an_error() {
    assert_eq!(get_deploy_name(Some("not json")), Err(MetaError::Malformed));
    assert_eq!(get_deploy_name(Some("")), Err(MetaError::Malformed));
}

#[test]
fn name_or_empty_cases() {
    assert_eq!(name_or_empty(Some(s("site"))), "site");
    assert_eq!(name_or_empty(None), "");
}

#[test]
fn missing_tool_fails_first() {
    assert!(matches!(plan_deploy(Some(s("demo")), None), Err(DeployError::MissingTool)));
    assert!(matches!(plan_deploy(None, None), Err(DeployError::MissingTool)));
}

#[test]
fn explicit_name_skips_metadata() {
    match plan_deploy(Some(s("demo")), Some(s("/bin/spin"))) {
        Ok(p) => {
            assert_eq!(p.tool, "/bin/spin");
            assert!(matches!(p.name, NameSource::Given(ref n) if n == "demo"));
        }
        Err(_) => panic!("a tool path was given"),
    }
}

#[test]
fn missing_name_reads_metadata() {
    match plan_deploy(None, Some(s("spin"))) {
        Ok(p) => assert!(matches!(p.name, NameSource::Stored)),
        Err(_) => panic!("a tool path was given"),
    }
}

#[test]
fn stored_name_resolution() {
    assert_eq!(resolve_stored_name(Some("{\"name\":\"site\"}")), Ok(s("site")));
    assert_eq!(resolve_stored_name(None), Err(DeployError::NeedName));
    assert_eq!(resolve_stored_name(Some("{")), Err(DeployError::NeedName));
}

#[test]
fn tool_arguments() {
    assert_eq!(
        scaffold_args("demo"),
        path(&["new", "static-fileserver", "demo", "--value", "http-path=/...", "--accept-defaults"])
    );
    assert_eq!(deploy_args(), path(&["deploy"]));
}
