use file_browser::entries::make_entry;
use file_browser::entries::perm_string;
use file_browser::entries::build_listing;
use file_browser::FsPath;
use file_browser::RawEntry;

fn path(parts: &[&str]) -> FsPath {
    FsPath { parts: parts.iter().map(|s| s.to_string()).collect() }
}

fn raw(name: &str, is_dir: bool, mode: u32) -> RawEntry {
    RawEntry { name: name.to_string(), is_dir, size: 0, mode }
}

#[test]
fn perm_string_for_a_plain_file() {
    assert_eq!(perm_string(false, 0o644), "-rw-r--r--");
}

#[test]
fn perm_string_for_a_directory() {
    assert_eq!(perm_string(true, 0o755), "drwxr-xr-x");
}

#[test]
fn perm_string_for_no_bits() {
    assert_eq!(perm_string(false, 0o000), "----------");
}

#[test]
fn perm_string_for_all_bits() {
    assert_eq!(perm_string(true, 0o777), "drwxrwxrwx");
}

#[test]
fn make_entry_joins_path_and_renders_permissions() {
    let dir = path(&["home", "me"]);
    let e = make_entry(&dir, raw("notes.txt", false, 0o600));
    assert_eq!(e.path.parts, vec!["home".to_string(), "me".to_string(), "notes.txt".to_string()]);
    assert_eq!(e.name, "notes.txt");
    assert!(!e.is_dir);
    assert_eq!(e.permissions, "-rw-------");
}

#[test]
fn directory_lists_before_file() {
    let dir = path(&["d"]);
    let out = build_listing(&dir, vec![raw("b.txt", false, 0o644), raw("A", true, 0o755)]);
    let names: Vec<&str> = out.iter().map(|e| e.name.as_str()).collect();
    assert_eq!(names, vec!["A", "b.txt"]);
    assert!(out[0].is_dir);
    assert!(!out[1].is_dir);
}

#[test]
fn listing_partitions_dirs_then_files_each_alphabetical() {
    let dir = path(&[]);
    let out = build_listing(
        &dir,
        vec![
            raw("z", true, 0o755),
            raw("a.txt", false, 0o644),
            raw("b", true, 0o755),
            raw("a", false, 0o644),
        ],
    );
    let names: Vec<&str> = out.iter().map(|e| e.name.as_str()).collect();
    assert_eq!(names, vec!["b", "z", "a", "a.txt"]);
}

#[test]
fn listing_order_is_case_sensitive() {
    let dir = path(&[]);
    let out = build_listing(&dir, vec![raw("a", false, 0o644), raw("B", false, 0o644)]);
    let names: Vec<&str> = out.iter().map(|e| e.name.as_str()).collect();
    assert_eq!(names, vec!["B", "a"]);
}

#[test]
fn empty_listing_stays_empty() {
    let dir = path(&["x"]);
    let out = build_listing(&dir, Vec::new());
    assert_eq!(out.len(), 0);
}

#[test]
fn path_parent_and_child() {
    let p = path(&["a", "b"]);
    let parent = p.parent().unwrap();
    assert_eq!(parent.parts, vec!["a".to_string()]);
    let root = path(&[]);
    assert!(root.parent().is_none());
    let c = root.child("etc".to_string());
    assert_eq!(c.parts, vec!["etc".to_string()]);
    assert!(c.same_path(&path(&["etc"])));
    assert!(!c.same_path(&root));
}
