use courtyard::storage::{cleanup_result, is_checkpoint_file, scan_project, scan_storage_usage};

#[test]
fn checkpoints_are_numbered_weights() {
    assert!(is_checkpoint_file("0000200_adapters.safetensors"));
    assert!(is_checkpoint_file("123_adapters.safetensors"));
    assert!(!is_checkpoint_file("12_adapters.safetensors"));
    assert!(!is_checkpoint_file("adapters.safetensors"));
    assert!(!is_checkpoint_file("best_adapters.safetensors"));
    assert!(!is_checkpoint_file("0000200_adapters.safetensors.bak"));
    assert!(!is_checkpoint_file("x0000200_adapters.safetensors"));
    assert!(!is_checkpoint_file(""));
    for name in ["0000200_adapters.safetensors", "12_adapters.safetensors", "adapters.safetensors", "1234", "12a4_adapters.safetensors"] {
        let expected = name.ends_with("_adapters.safetensors")
            && name != "adapters.safetensors"
            && name.chars().take_while(|c| c.is_ascii_digit()).count() >= 3;
        assert_eq!(is_checkpoint_file(name), expected, "{}", name);
    }
}

#[test]
fn the_room_of_a_project() {
    let p = scan_project("p1", 1000, 200, 50, 2, 300);
    assert_eq!(p.project_id, "p1");
    assert_eq!(p.project_name, None);
    assert_eq!(p.total_bytes, 1000);
    assert_eq!(p.export_fused_bytes, 250);
    assert_eq!(p.empty_adapter_count, 2);
    assert_eq!(p.checkpoint_bytes, 300);
    assert_eq!(scan_project("p", 0, u64::MAX, 1, 0, 0).export_fused_bytes, u64::MAX);
}

#[test]
fn the_room_of_all_projects() {
    let usage = scan_storage_usage(
        70,
        vec![scan_project("a", 1000, 200, 50, 2, 300), scan_project("b", 500, 0, 10, 1, 0)],
    );
    assert_eq!(usage.total_bytes, 1570);
    assert_eq!(usage.export_fused_bytes, 260);
    assert_eq!(usage.empty_adapter_count, 3);
    assert_eq!(usage.tmp_bytes, 70);
    assert_eq!(usage.checkpoint_bytes, 300);
    assert_eq!(usage.cleanable_bytes, 260 + 70 + 300);
    assert_eq!(usage.projects.len(), 2);
    assert_eq!(usage.projects[1].project_id, "b");
    let none = scan_storage_usage(5, vec![]);
    assert_eq!(none.total_bytes, 5);
    assert_eq!(none.cleanable_bytes, 5);
    assert_eq!(none.empty_adapter_count, 0);
}

#[test]
fn sums_stop_at_the_greatest_number() {
    let usage = scan_storage_usage(
        1,
        vec![scan_project("a", u64::MAX, 0, 0, u32::MAX, u64::MAX), scan_project("b", 1, 0, 0, 1, 1)],
    );
    assert_eq!(usage.total_bytes, u64::MAX);
    assert_eq!(usage.empty_adapter_count, u32::MAX);
    assert_eq!(usage.checkpoint_bytes, u64::MAX);
    assert_eq!(usage.cleanable_bytes, u64::MAX);
}

#[test]
fn the_report_of_a_cleanup() {
    let r = cleanup_result(70, true, 500, 2, 1);
    assert_eq!(r.freed_bytes, 570);
    assert_eq!(r.removed_export_fused, 2);
    assert_eq!(r.removed_empty_adapters, 1);
    assert!(r.removed_tmp);
    let none = cleanup_result(0, true, 0, 0, 0);
    assert_eq!(none.freed_bytes, 0);
    assert!(!none.removed_tmp);
    let gone = cleanup_result(70, false, 500, 0, 0);
    assert_eq!(gone.freed_bytes, 500);
    assert!(gone.removed_tmp);
}
