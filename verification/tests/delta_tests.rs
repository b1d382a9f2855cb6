use cli_file_sync::delta::get_changed_assets;
use cli_file_sync::schema::DrupalFileAsset;

fn asset(id: &str, changed: i64) -> DrupalFileAsset {
    DrupalFileAsset {
        id: id.to_string(),
        filename: format!("{}.bin", id),
        uri: format!("public://{}.bin", id),
        path: String::new(),
        mime: "application/octet-stream".to_string(),
        size: None,
        created: 0,
        changed,
        scheme: "public".to_string(),
    }
}

#[test]
fn delta_of_manifest_against_itself_is_empty() {
    let m = vec![asset("a", 100), asset("b", 200), asset("c", 300)];
    assert!(get_changed_assets(&m, &m).is_empty());
}

#[test]
fn delta_keeps_records_with_new_ids() {
    let old = vec![asset("a", 100)];
    let new = vec![asset("a", 100), asset("b", 200)];
    let delta = get_changed_assets(&old, &new);
    assert_eq!(delta.len(), 1);
    assert_eq!(delta[0].id, "b");
    assert_eq!(delta[0].changed, 200);
}

#[test]
fn delta_keeps_records_with_changed_stamp() {
    let old = vec![asset("a", 100), asset("b", 200)];
    let new = vec![asset("a", 101), asset("b", 200)];
    let delta = get_changed_assets(&old, &new);
    assert_eq!(delta.len(), 1);
    assert_eq!(delta[0].id, "a");
}

#[test]
fn delta_of_first_run_is_whole_manifest() {
    let old: Vec<DrupalFileAsset> = Vec::new();
    let new = vec![asset("a", 1), asset("b", 2)];
    let delta = get_changed_assets(&old, &new);
    assert_eq!(delta.len(), 2);
}

#[test]
fn delta_preserves_manifest_order() {
    let old = vec![asset("keep", 5)];
    let new = vec![asset("x", 1), asset("keep", 5), asset("y", 2)];
    let delta = get_changed_assets(&old, &new);
    let ids: Vec<String> = delta.into_iter().map(|a| a.id).collect();
    assert_eq!(ids, vec!["x", "y"]);
}
