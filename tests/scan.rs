use lando_gui::commands::LandoCommandOutcome;
use lando_gui::scan::{collect_projects, merge_projects, scan_outcome, WalkEntry, MAX_SCAN_DEPTH};

fn manifest(parent: &str, depth: usize) -> Option<WalkEntry> {
    Some(WalkEntry {
        parent: Some(parent.to_string()),
        file_name: ".lando.yml".to_string(),
        depth,
    })
}

fn other(parent: &str, name: &str, depth: usize) -> Option<WalkEntry> {
    Some(WalkEntry { parent: Some(parent.to_string()), file_name: name.to_string(), depth })
}

#[test]
fn depth_bound_keeps_three_levels() {
    assert_eq!(MAX_SCAN_DEPTH, 3);
    let entries = vec![
        manifest("/", 0),
        manifest("/r", 1),
        manifest("/r/a", 2),
        manifest("/r/a/b", 3),
        manifest("/r/a/b/c", 4),
    ];
    assert_eq!(collect_projects(&entries), vec!["/", "/r", "/r/a", "/r/a/b"]);
}

#[test]
fn scan_skips_other_files_and_unreadable_entries() {
    let entries = vec![
        other("/r", "README.md", 1),
        None,
        manifest("/r/site", 2),
        other("/r/site", ".lando.yaml", 2),
        Some(WalkEntry { parent: None, file_name: ".lando.yml".to_string(), depth: 0 }),
    ];
    assert_eq!(collect_projects(&entries), vec!["/r/site"]);
}

#[test]
fn scan_of_empty_walk_finds_nothing() {
    assert!(collect_projects(&Vec::new()).is_empty());
    match scan_outcome(&Vec::new()) {
        LandoCommandOutcome::Projects(p) => assert!(p.is_empty()),
        other => panic!("unexpected {:?}", other),
    }
}

#[test]
fn scan_sorts_and_deduplicates() {
    let entries = vec![manifest("/r/b", 1), manifest("/r/a", 1), manifest("/r/b", 1)];
    assert_eq!(collect_projects(&entries), vec!["/r/a", "/r/b"]);
}

#[test]
fn overlapping_scans_merge_to_each_project_once() {
    let first = collect_projects(&vec![manifest("/w/p", 2), manifest("/w/q", 2)]);
    let second = collect_projects(&vec![manifest("/w/p", 1), manifest("/w/a", 1)]);
    let merged = merge_projects(&first, &second);
    assert_eq!(merged, vec!["/w/a", "/w/p", "/w/q"]);
    assert_eq!(merged.iter().filter(|p| p.as_str() == "/w/p").count(), 1);
}

#[test]
fn merge_orders_by_character() {
    let a = vec!["b".to_string(), "ab".to_string(), "a".to_string()];
    let b = vec!["".to_string(), "a".to_string(), "\u{e9}".to_string(), "Z".to_string()];
    assert_eq!(merge_projects(&a, &b), vec!["", "Z", "a", "ab", "b", "\u{e9}"]);
}


#[test]
fn paths_are_ordered_segment_by_segment() {
    let a = vec!["/a-b".to_string(), "/a/b".to_string(), "/a".to_string()];
    let merged = merge_projects(&a, &vec!["/a.b".to_string(), "/a/b".to_string()]);
    assert_eq!(merged, vec!["/a", "/a/b", "/a-b", "/a.b"]);
    let mut std_order: Vec<std::path::PathBuf> = merged.iter().map(std::path::PathBuf::from).collect();
    std_order.sort();
    let std_order: Vec<String> = std_order.iter().map(|p| p.to_string_lossy().into_owned()).collect();
    assert_eq!(merged, std_order);
}
