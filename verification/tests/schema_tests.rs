use cli_file_sync::schema::{
    DrupalFileAsset, DrupalFileAssetsResponse, DrupalFileAssetsWrapper, DrupalSource,
};

fn asset(id: &str, filename: &str, mime: &str, size: Option<u64>, changed: i64) -> DrupalFileAsset {
    DrupalFileAsset {
        id: id.to_string(),
        filename: filename.to_string(),
        uri: format!("public://{}", filename),
        path: String::new(),
        mime: mime.to_string(),
        size,
        created: 0,
        changed,
        scheme: "public".to_string(),
    }
}

fn wrapper(files: Vec<DrupalFileAsset>) -> DrupalFileAssetsWrapper {
    DrupalFileAssetsWrapper {
        version: "1.0".to_string(),
        generated: 1700000000,
        source: DrupalSource {
            source_type: "drupal".to_string(),
            version: "10".to_string(),
        },
        files,
    }
}

#[test]
fn validate_accepts_complete_record() {
    let a = asset("1", "a.png", "image/png", Some(10), 100);
    assert!(a.validate().is_ok());
}

#[test]
fn validate_rejects_missing_id() {
    let a = asset("", "a.png", "image/png", None, 0);
    assert_eq!(a.validate(), Err("Missing ID".to_string()));
}

#[test]
fn validate_rejects_missing_filename() {
    let a = asset("1", "", "image/png", None, 0);
    assert_eq!(a.validate(), Err("Missing filename".to_string()));
}

#[test]
fn validate_rejects_missing_uri() {
    let mut a = asset("1", "a.png", "image/png", None, 0);
    a.uri = String::new();
    assert_eq!(a.validate(), Err("Missing URI".to_string()));
}

#[test]
fn validate_rejects_missing_mime() {
    let a = asset("1", "a.png", "", None, 0);
    assert_eq!(a.validate(), Err("Missing MIME type".to_string()));
}

#[test]
fn wrapper_validate_names_offending_id() {
    let w = wrapper(vec![
        asset("ok", "a.png", "image/png", None, 0),
        asset("bad", "", "image/png", None, 0),
    ]);
    assert_eq!(
        w.validate(),
        Err("Asset bad validation failed: Missing filename".to_string())
    );
}

#[test]
fn wrapper_validate_names_unknown_for_empty_id() {
    let w = wrapper(vec![asset("", "a.png", "image/png", None, 0)]);
    assert_eq!(
        w.validate(),
        Err("Asset unknown validation failed: Missing ID".to_string())
    );
}

#[test]
fn wrapper_validate_accepts_all_valid() {
    let w = wrapper(vec![
        asset("1", "a.png", "image/png", None, 0),
        asset("2", "b.txt", "text/plain", None, 0),
    ]);
    assert!(w.validate().is_ok());
}

#[test]
fn local_path_uses_filename_when_path_empty() {
    let a = asset("1", "a.png", "image/png", None, 0);
    assert_eq!(a.get_local_path("/data/"), "/data/a.png");
}

#[test]
fn local_path_uses_relative_path_when_present() {
    let mut a = asset("1", "a.png", "image/png", None, 0);
    a.path = "/img/2024/a.png".to_string();
    assert_eq!(a.get_local_path("/data"), "/data/img/2024/a.png");
}

#[test]
fn is_image_by_mime_prefix() {
    assert!(asset("1", "a.png", "image/png", None, 0).is_image());
    assert!(!asset("1", "a.txt", "text/plain", None, 0).is_image());
    assert!(!asset("1", "a", "imag", None, 0).is_image());
}

#[test]
fn extension_is_lowercased_last_segment() {
    assert_eq!(
        asset("1", "PHOTO.JPG", "image/jpeg", None, 0).get_extension(),
        Some("jpg".to_string())
    );
    assert_eq!(
        asset("1", "archive.tar.gz", "application/gzip", None, 0).get_extension(),
        Some("gz".to_string())
    );
    assert_eq!(
        asset("1", "noext", "text/plain", None, 0).get_extension(),
        Some("noext".to_string())
    );
}

#[test]
fn total_size_sums_known_sizes() {
    let w = wrapper(vec![
        asset("1", "a", "x/a", Some(1), 0),
        asset("2", "b", "x/b", Some(2), 0),
        asset("3", "c", "x/c", None, 0),
        asset("4", "d", "x/d", Some(3), 0),
    ]);
    assert_eq!(w.total_size(), 6);
}

#[test]
fn image_count_counts_images_only() {
    let w = wrapper(vec![
        asset("1", "a.png", "image/png", None, 0),
        asset("2", "b.txt", "text/plain", None, 0),
        asset("3", "c.jpg", "image/jpeg", None, 0),
    ]);
    assert_eq!(w.image_count(), 2);
}

#[test]
fn group_by_mime_groups_in_first_occurrence_order() {
    let w = wrapper(vec![
        asset("1", "a.png", "image/png", None, 0),
        asset("2", "b.txt", "text/plain", None, 0),
        asset("3", "c.png", "image/png", None, 0),
    ]);
    let groups = w.group_by_mime();
    assert_eq!(groups.len(), 2);
    assert_eq!(groups[0].0, "image/png");
    assert_eq!(
        groups[0].1.iter().map(|a| a.id.clone()).collect::<Vec<_>>(),
        vec!["1", "3"]
    );
    assert_eq!(groups[1].0, "text/plain");
    assert_eq!(
        groups[1].1.iter().map(|a| a.id.clone()).collect::<Vec<_>>(),
        vec!["2"]
    );
}

#[test]
fn group_by_mime_flatten_round_trip_preserves_ids() {
    let w = wrapper(vec![
        asset("1", "a.png", "image/png", None, 0),
        asset("2", "b.txt", "text/plain", None, 0),
        asset("3", "c.png", "image/png", None, 0),
        asset("4", "d.txt", "text/plain", None, 0),
        asset("5", "e.pdf", "application/pdf", None, 0),
    ]);
    let mut flattened: Vec<String> = w
        .group_by_mime()
        .into_iter()
        .flat_map(|(_, g)| g.into_iter().map(|a| a.id))
        .collect();
    let mut original: Vec<String> = w.files.iter().map(|a| a.id.clone()).collect();
    flattened.sort();
    original.sort();
    assert_eq!(flattened, original);
}

#[test]
fn into_vec_unwraps_both_wire_shapes() {
    let files = vec![asset("1", "a.png", "image/png", None, 0)];
    let from_wrapper = DrupalFileAssetsResponse::Wrapper(wrapper(files.clone())).into_vec();
    assert_eq!(from_wrapper.len(), 1);
    assert_eq!(from_wrapper[0].id, "1");
    let from_array = DrupalFileAssetsResponse::Array(files).into_vec();
    assert_eq!(from_array.len(), 1);
    assert_eq!(from_array[0].id, "1");
}
