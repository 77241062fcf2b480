use courtyard::preview::{
    preview_clean_segments, preview_of, read_segments, segments_up_to_date, truncate_preview,
    ManifestFile, RawFileSignature, SegmentPreviewResponse, SegmentsFile,
};

fn raw(name: &str, size: u64, ts: u64) -> RawFileSignature {
    RawFileSignature { name: name.to_string(), size_bytes: size, modified_ts: ts }
}

fn segments(content: &str, ts: u64) -> Option<SegmentsFile> {
    Some(SegmentsFile { content: Ok(content.to_string()), modified_ts: ts })
}

fn is_empty(r: &SegmentPreviewResponse) -> bool {
    r.items.is_empty()
        && r.summary.total_segments == 0
        && r.summary.avg_chars == 0
        && r.summary.min_chars == 0
        && r.summary.max_chars == 0
        && r.summary.short_segments == 0
        && r.summary.long_segments == 0
        && r.summary.primary_strategy == "paragraph_balanced"
}

#[test]
fn a_short_text_is_shown_whole_with_unix_line_ends() {
    assert_eq!(truncate_preview("a\r\nb\rc\nd", 180), "a\nb\nc\nd");
    assert_eq!(truncate_preview("", 180), "");
    assert_eq!(truncate_preview("\r", 180), "\n");
    assert_eq!(truncate_preview("\r\r\n", 180), "\n\n");
    assert_eq!(truncate_preview("abc", 3), "abc");
}

#[test]
fn a_long_text_is_cut_with_an_ellipsis() {
    assert_eq!(truncate_preview("abcdef", 3), "abc…");
    assert_eq!(truncate_preview("abc", 0), "…");
    let long: String = "é".repeat(200);
    let cut = truncate_preview(&long, 180);
    assert_eq!(cut.chars().count(), 181);
    assert!(cut.ends_with('…'));
    assert_eq!(truncate_preview("a\r\nbc", 2), "a\n…");
}

#[test]
fn the_empty_preview() {
    assert!(is_empty(&SegmentPreviewResponse::empty()));
}

#[test]
fn without_raw_files_or_segments_nothing_is_shown() {
    let content = "{\"text\":\"x\",\"source_file\":\"a.txt\"}\n";
    let r = preview_clean_segments(&vec![], &segments(content, 10), &ManifestFile::Absent, None).unwrap();
    assert!(is_empty(&r));
    let r = preview_clean_segments(&vec![raw("a.txt", 1, 1)], &None, &ManifestFile::Absent, None).unwrap();
    assert!(is_empty(&r));
}

#[test]
fn segments_older_than_the_raw_files_are_not_shown() {
    let content = "{\"text\":\"x\",\"source_file\":\"a.txt\"}\n";
    let files = vec![raw("a.txt", 1, 50), raw("b.txt", 1, 70)];
    assert!(!segments_up_to_date(&files, 69, &ManifestFile::Absent));
    assert!(segments_up_to_date(&files, 70, &ManifestFile::Absent));
    let stale = preview_clean_segments(&files, &segments(content, 69), &ManifestFile::Absent, None).unwrap();
    assert!(is_empty(&stale));
    let fresh = preview_clean_segments(&files, &segments(content, 70), &ManifestFile::Absent, None).unwrap();
    assert_eq!(fresh.summary.total_segments, 1);
}

#[test]
fn the_note_decides_where_there_is_one() {
    let files = vec![raw("b.txt", 20, 7), raw("a.txt", 10, 5)];
    let same = ManifestFile::Text(
        "{\"raw_files\":[{\"name\":\"a.txt\",\"size_bytes\":10,\"modified_ts\":5},\
         {\"name\":\"b.txt\",\"size_bytes\":20,\"modified_ts\":7},{\"name\":\" \"},{\"size_bytes\":1}]}"
            .to_string(),
    );
    assert!(segments_up_to_date(&files, 0, &same));
    let changed = ManifestFile::Text(
        "{\"raw_files\":[{\"name\":\"a.txt\",\"size_bytes\":11,\"modified_ts\":5},\
         {\"name\":\"b.txt\",\"size_bytes\":20,\"modified_ts\":7}]}"
            .to_string(),
    );
    assert!(!segments_up_to_date(&files, 100, &changed));
    let fewer = ManifestFile::Text("{\"raw_files\":[{\"name\":\"a.txt\",\"size_bytes\":10,\"modified_ts\":5}]}".to_string());
    assert!(!segments_up_to_date(&files, 100, &fewer));
    let defaults = ManifestFile::Text("{\"raw_files\":[{\"name\":\"z\"}]}".to_string());
    assert!(segments_up_to_date(&vec![raw("z", 0, 0)], 0, &defaults));
    assert!(!segments_up_to_date(&files, 100, &ManifestFile::Unreadable));
    assert!(!segments_up_to_date(&files, 100, &ManifestFile::Text("not json".to_string())));
    assert!(!segments_up_to_date(&files, 100, &ManifestFile::Text("{\"raw_files\":3}".to_string())));
    assert!(!segments_up_to_date(&files, 100, &ManifestFile::Text("{}".to_string())));
}

#[test]
fn only_segments_with_text_from_a_known_file_count() {
    let files = vec![raw("a.txt", 1, 1)];
    let content = "\
{\"text\":\"  first  \",\"source_file\":\" a.txt \",\"strategy\":\"sentence\",\"id\":7}\n\
not json\n\
\n\
{\"text\":\"   \",\"source_file\":\"a.txt\"}\n\
{\"text\":\"orphan\",\"source_file\":\"gone.txt\"}\n\
{\"text\":\"nameless\"}\n\
{\"source_file\":\"a.txt\"}\n\
{\"text\":\"second\",\"source_file\":\"a.txt\"}\n";
    let segs = read_segments(content, &files);
    assert_eq!(segs.len(), 2);
    assert_eq!(segs[0].text, "first");
    assert_eq!(segs[0].source_file, "a.txt");
    assert_eq!(segs[0].strategy, "sentence");
    assert_eq!(segs[0].id, Some(7));
    assert_eq!(segs[1].text, "second");
    assert_eq!(segs[1].strategy, "paragraph_balanced");
    assert_eq!(segs[1].id, None);
}

#[test]
fn the_figures_of_a_preview() {
    let files = vec![raw("a.txt", 1, 1)];
    let long = "x".repeat(1801);
    let medium = "y".repeat(160);
    let content = format!(
        "{{\"text\":\"ab\\ncd\\n\\nef\",\"source_file\":\"a.txt\",\"strategy\":\"s1\",\"id\":5}}\n\
         {{\"text\":\"{}\",\"source_file\":\"a.txt\",\"strategy\":\"s2\"}}\n\
         {{\"text\":\"{}\",\"source_file\":\"a.txt\",\"strategy\":\"s2\"}}\n\
         {{\"text\":\"z\",\"source_file\":\"a.txt\",\"strategy\":\"s1\"}}\n",
        long, medium
    );
    let r = preview_clean_segments(&files, &segments(&content, 5), &ManifestFile::Absent, Some(3)).unwrap();
    assert_eq!(r.summary.total_segments, 4);
    assert_eq!(r.summary.min_chars, 1);
    assert_eq!(r.summary.max_chars, 1801);
    assert_eq!(r.summary.avg_chars, (9 + 1801 + 160 + 1) / 4);
    assert_eq!(r.summary.short_segments, 2);
    assert_eq!(r.summary.long_segments, 1);
    assert_eq!(r.summary.primary_strategy, "s1");
    assert_eq!(r.items.len(), 3);
    assert_eq!(r.items[0].id, 5);
    assert_eq!(r.items[0].text_preview, "ab\ncd\n\nef");
    assert_eq!(r.items[0].char_count, 9);
    assert_eq!(r.items[0].line_count, 3);
    assert_eq!(r.items[0].strategy, "s1");
    assert_eq!(r.items[0].source_file, "a.txt");
    assert_eq!(r.items[1].id, 1);
    assert_eq!(r.items[1].char_count, 1801);
    assert_eq!(r.items[1].text_preview.chars().count(), 181);
    assert_eq!(r.items[1].line_count, 1);
    assert_eq!(r.items[2].id, 2);
    assert_eq!(r.items[2].char_count, 160);
}

#[test]
fn the_most_frequent_strategy_is_the_primary_one() {
    let files = vec![raw("a.txt", 1, 1)];
    let content = "\
{\"text\":\"1\",\"source_file\":\"a.txt\",\"strategy\":\"one\"}\n\
{\"text\":\"2\",\"source_file\":\"a.txt\",\"strategy\":\"two\"}\n\
{\"text\":\"3\",\"source_file\":\"a.txt\",\"strategy\":\"two\"}\n\
{\"text\":\"4\",\"source_file\":\"a.txt\"}\n";
    let segs = read_segments(content, &files);
    let r = preview_of(&segs, None);
    assert_eq!(r.summary.primary_strategy, "two");
    assert_eq!(r.summary.total_segments, 4);
    assert_eq!(r.items.len(), 4);
    assert_eq!(r.items[3].strategy, "paragraph_balanced");
}

#[test]
fn the_limit_is_kept_between_one_and_fifty() {
    let files = vec![raw("a.txt", 1, 1)];
    let mut content = String::new();
    for k in 0..60 {
        content.push_str(&format!("{{\"text\":\"t{}\",\"source_file\":\"a.txt\"}}\n", k));
    }
    let segs = read_segments(&content, &files);
    assert_eq!(segs.len(), 60);
    assert_eq!(preview_of(&segs, None).items.len(), 8);
    assert_eq!(preview_of(&segs, Some(0)).items.len(), 1);
    assert_eq!(preview_of(&segs, Some(1)).items.len(), 1);
    assert_eq!(preview_of(&segs, Some(50)).items.len(), 50);
    assert_eq!(preview_of(&segs, Some(1000)).items.len(), 50);
    assert_eq!(preview_of(&segs, Some(20)).items.len(), 20);
    assert_eq!(preview_of(&segs, Some(20)).summary.total_segments, 60);
    assert_eq!(preview_of(&segs, Some(20)).items[19].id, 19);
    assert!(is_empty(&preview_of(&vec![], Some(5))));
}

#[test]
fn a_segments_file_that_cannot_be_read_is_an_error() {
    let files = vec![raw("a.txt", 1, 1)];
    let file = Some(SegmentsFile { content: Err("permission denied".to_string()), modified_ts: 9 });
    match preview_clean_segments(&files, &file, &ManifestFile::Absent, None) {
        Err(m) => assert_eq!(m, "Failed to read segments.jsonl: permission denied"),
        Ok(_) => panic!("an error was expected"),
    }
    let stale = Some(SegmentsFile { content: Err("permission denied".to_string()), modified_ts: 0 });
    assert!(is_empty(&preview_clean_segments(&files, &stale, &ManifestFile::Absent, None).unwrap()));
}
