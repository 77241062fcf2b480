use courtyard::versioning::{
    child_of, list_dataset_versions, parse_timestamp_display, sort_newest_first,
    DatasetVersionInfo, DirSnapshot, FileSnapshot, LegacySnapshot, Provenance,
};

fn file(content: &str) -> Option<FileSnapshot> {
    Some(FileSnapshot { content: content.to_string(), size: content.len() as u64 })
}

fn dir(name: &str, train: Option<FileSnapshot>, valid: Option<FileSnapshot>, meta: Option<&str>) -> DirSnapshot {
    DirSnapshot {
        name: name.to_string(),
        path: format!("/p/dataset/{}", name),
        is_dir: true,
        train,
        valid,
        meta: meta.map(String::from),
    }
}

#[test]
fn a_stamp_is_shown_as_date_and_time() {
    assert_eq!(parse_timestamp_display("20260211_103031"), "2026-02-11 10:30");
    assert_eq!(parse_timestamp_display("20260101_120501"), "2026-01-01 12:05");
    assert_eq!(parse_timestamp_display("20260211_103031_extra"), "2026-02-11 10:30");
}

#[test]
fn a_name_that_is_no_stamp_is_shown_as_it_is() {
    assert_eq!(parse_timestamp_display("legacy"), "legacy");
    assert_eq!(parse_timestamp_display(""), "");
    assert_eq!(parse_timestamp_display("20260211_10303"), "20260211_10303");
}

#[test]
fn paths_are_joined_with_a_slash() {
    assert_eq!(child_of("/p/dataset", "20260101_120000"), "/p/dataset/20260101_120000");
    assert_eq!(child_of(".", "x"), "./x");
}

#[test]
fn the_note_is_read_with_every_part_optional() {
    let p = Provenance::from_text(
        "{\"raw_files\":[\"a.txt\",7,\"b.md\",null],\"mode\":\"qa\",\"source\":\"ollama\",\"model\":\"qwen\"}",
    );
    assert_eq!(p.raw_files, vec!["a.txt", "b.md"]);
    assert_eq!(p.mode, "qa");
    assert_eq!(p.source, "ollama");
    assert_eq!(p.model, "qwen");
    let q = Provenance::from_text("{\"mode\":\"style\",\"raw_files\":\"a.txt\",\"model\":3}");
    assert!(q.raw_files.is_empty());
    assert_eq!(q.mode, "style");
    assert_eq!(q.source, "");
    assert_eq!(q.model, "");
}

#[test]
fn a_corrupt_note_gives_an_empty_provenance() {
    for text in ["", "not json", "{\"mode\":", "[1,2]", "null"] {
        let p = Provenance::from_text(text);
        assert!(p.raw_files.is_empty(), "{:?}", text);
        assert_eq!(p.mode, "");
        assert_eq!(p.source, "");
        assert_eq!(p.model, "");
    }
    let e = Provenance::empty();
    assert!(e.raw_files.is_empty() && e.mode.is_empty() && e.source.is_empty() && e.model.is_empty());
}

#[test]
fn the_built_in_source_notes_no_model() {
    let p = Provenance::new(vec!["a.txt".to_string()], "qa".to_string(), "builtin".to_string(), "qwen".to_string());
    assert_eq!(p.model, "");
    assert_eq!(p.source, "builtin");
    assert_eq!(p.raw_files, vec!["a.txt"]);
    let q = Provenance::new(vec![], "qa".to_string(), "ollama".to_string(), "qwen".to_string());
    assert_eq!(q.model, "qwen");
}

#[test]
fn the_renamed_version_is_listed_first_with_its_record_counts() {
    let entries = vec![
        dir("20251231_090000", file("{\"a\":1}\n"), file(""), None),
        dir(
            "20260101_120501",
            file("{\"q\":1}\n\n{\"q\":2}\n   \n{\"q\":3}\n"),
            file("{\"q\":4}\r\n{\"q\":5}"),
            Some("{\"raw_files\":[\"a.txt\"],\"mode\":\"qa\",\"source\":\"ollama\",\"model\":\"qwen\"}"),
        ),
    ];
    let listing = list_dataset_versions(&entries, &None);
    assert_eq!(listing.len(), 2);
    let first = &listing[0];
    assert_eq!(first.version, "20260101_120501");
    assert_eq!(first.path, "/p/dataset/20260101_120501");
    assert_eq!(first.train_count, 3);
    assert_eq!(first.valid_count, 2);
    assert_eq!(first.train_size, 29);
    assert_eq!(first.valid_size, 16);
    assert_eq!(first.created, "2026-01-01 12:05");
    assert_eq!(first.raw_files, vec!["a.txt"]);
    assert_eq!(first.mode, "qa");
    assert_eq!(first.source, "ollama");
    assert_eq!(first.model, "qwen");
    assert_eq!(listing[1].version, "20251231_090000");
    assert_eq!(listing[1].train_count, 1);
    assert_eq!(listing[1].valid_count, 0);
    assert!(listing[1].raw_files.is_empty());
}

#[test]
fn directories_without_training_data_are_not_listed() {
    let mut plain_file = dir("20260103_000000", file("{}\n"), None, None);
    plain_file.is_dir = false;
    let entries = vec![
        dir("20260102_000000", None, file("{}\n"), Some("{}")),
        plain_file,
        dir("20260101_000000", file("{}\n"), None, None),
    ];
    let listing = list_dataset_versions(&entries, &None);
    assert_eq!(listing.len(), 1);
    assert_eq!(listing[0].version, "20260101_000000");
    assert_eq!(listing[0].valid_count, 0);
    assert_eq!(listing[0].valid_size, 0);
    assert!(list_dataset_versions(&vec![], &None).is_empty());
}

#[test]
fn a_tentative_directory_that_kept_its_name_is_still_found() {
    let entries = vec![dir("20260101_120000", file("{\"q\":1}\n"), file("{\"q\":2}\n"), Some("{}"))];
    let listing = list_dataset_versions(&entries, &None);
    assert_eq!(listing.len(), 1);
    assert_eq!(listing[0].version, "20260101_120000");
    assert_eq!(listing[0].created, "2026-01-01 12:00");
}

#[test]
fn legacy_data_is_listed_as_one_version() {
    let legacy = Some(LegacySnapshot {
        path: "/p/dataset".to_string(),
        train: FileSnapshot { content: "{}\n{}\n".to_string(), size: 6 },
        valid: None,
        modified: Some("2025-12-24 18:00".to_string()),
    });
    let entries = vec![dir("20260101_120000", file("{}\n"), None, None)];
    let listing = list_dataset_versions(&entries, &legacy);
    assert_eq!(listing.len(), 2);
    assert_eq!(listing[0].version, "legacy");
    assert_eq!(listing[0].path, "/p/dataset");
    assert_eq!(listing[0].train_count, 2);
    assert_eq!(listing[0].train_size, 6);
    assert_eq!(listing[0].valid_count, 0);
    assert_eq!(listing[0].created, "2025-12-24 18:00");
    assert!(listing[0].raw_files.is_empty());
    assert_eq!(listing[1].version, "20260101_120000");
    let unknown = Some(LegacySnapshot {
        path: "/p/dataset".to_string(),
        train: FileSnapshot { content: String::new(), size: 0 },
        valid: None,
        modified: None,
    });
    let only = list_dataset_versions(&vec![], &unknown);
    assert_eq!(only.len(), 1);
    assert_eq!(only[0].created, "legacy");
}

fn info(version: &str) -> DatasetVersionInfo {
    DatasetVersionInfo {
        version: version.to_string(),
        path: String::new(),
        train_count: 0,
        valid_count: 0,
        train_size: 0,
        valid_size: 0,
        created: String::new(),
        raw_files: vec![],
        mode: String::new(),
        source: String::new(),
        model: String::new(),
    }
}

#[test]
fn versions_are_sorted_from_the_greatest_name_down() {
    let names = ["20260101_120000", "20251231_235959", "legacy", "20260101_120501", "a", "20260101_120000"];
    let sorted = sort_newest_first(names.iter().map(|n| info(n)).collect());
    let got: Vec<&str> = sorted.iter().map(|i| i.version.as_str()).collect();
    let mut expected: Vec<&str> = names.to_vec();
    expected.sort_by(|a, b| b.cmp(a));
    assert_eq!(got, expected);
    assert!(sort_newest_first(vec![]).is_empty());
}

#[test]
fn a_version_begins_under_the_name_of_its_time() {
    let t = courtyard::versioning::begin("/p/dataset", 1767268800, 0).unwrap();
    assert_eq!(t.version, "20260101_120000");
    assert_eq!(t.path, "/p/dataset/20260101_120000");
    assert!(courtyard::versioning::begin("/p/dataset", i64::MAX, 0).is_none());
    assert!(courtyard::versioning::begin("/p/dataset", 253402300800, 0).is_none());
}

#[test]
fn a_version_ends_under_a_new_name_or_keeps_its_own() {
    let done = courtyard::versioning::finalize("/p/dataset", "20260101_120000", "20260101_120501", true);
    assert_eq!(done.version, "20260101_120501");
    assert_eq!(done.path, "/p/dataset/20260101_120501");
    let kept = courtyard::versioning::finalize("/p/dataset", "20260101_120000", "20260101_120501", false);
    assert_eq!(kept.version, "20260101_120000");
    assert_eq!(kept.path, "/p/dataset/20260101_120000");
}

fn versions(names: &[&str]) -> Vec<String> {
    names.iter().map(|n| n.to_string()).collect()
}

#[test]
fn the_newest_version_holds_the_latest_training_data() {
    let found = courtyard::versioning::find_latest_train_path(
        "/p/dataset",
        &versions(&["20260101_120000", "20260102_080000", "20251231_235959"]),
    );
    assert_eq!(found.as_deref(), Some("/p/dataset/20260102_080000/train.jsonl"));
    assert_eq!(courtyard::versioning::find_latest_train_path("/p/dataset", &versions(&[])), None);
    let one = courtyard::versioning::find_latest_train_path("/p/dataset", &versions(&["a"]));
    assert_eq!(one.as_deref(), Some("/p/dataset/a/train.jsonl"));
}

#[test]
fn the_file_that_a_preview_reads() {
    let all = versions(&["20260101_120000", "20260102_080000"]);
    let named = courtyard::versioning::preview_train_path("/d", Some("20260101_120000"), true, &all);
    assert_eq!(named, Ok("/d/20260101_120000/train.jsonl".to_string()));
    let legacy = courtyard::versioning::preview_train_path("/d", Some("legacy"), true, &all);
    assert_eq!(legacy, Ok("/d/train.jsonl".to_string()));
    let unnamed = courtyard::versioning::preview_train_path("/d", None, true, &all);
    assert_eq!(unnamed, Ok("/d/train.jsonl".to_string()));
    let latest = courtyard::versioning::preview_train_path("/d", None, false, &all);
    assert_eq!(latest, Ok("/d/20260102_080000/train.jsonl".to_string()));
    let legacy_gone = courtyard::versioning::preview_train_path("/d", Some("legacy"), false, &all);
    assert_eq!(legacy_gone, Ok("/d/20260102_080000/train.jsonl".to_string()));
    let nothing = courtyard::versioning::preview_train_path("/d", None, false, &versions(&[]));
    assert_eq!(nothing, Err("No dataset found".to_string()));
}

#[test]
fn a_preview_holds_the_documents_of_the_first_fifty_lines() {
    let content = "{\"q\":1}\nnot json\n\n{\"q\":2}\r\n[3]";
    let docs = courtyard::versioning::get_dataset_preview(content);
    let expected: Vec<serde_json::Value> =
        content.lines().filter_map(|l| serde_json::from_str(l).ok()).collect();
    assert_eq!(docs, expected);
    assert_eq!(docs.len(), 3);
    assert_eq!(docs[1]["q"].as_u64(), Some(2));
    let mut long = String::from("skipped\n");
    for k in 0..60 {
        long.push_str(&format!("{{\"k\":{}}}\n", k));
    }
    let first = courtyard::versioning::get_dataset_preview(&long);
    assert_eq!(first.len(), 49);
    assert_eq!(first[48]["k"].as_u64(), Some(48));
    assert!(courtyard::versioning::get_dataset_preview("").is_empty());
}
