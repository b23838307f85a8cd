use openbatrangs::path::{resolve_in_root, PathError};
use std::path::Path;

#[test]
fn rejects_absolute_paths() {
    let root = "/tmp/project";
    assert!(resolve_in_root(root, "/etc/passwd").is_err());
}

#[test]
fn rejects_parent_dir_traversal() {
    let root = "/tmp/project";
    assert!(resolve_in_root(root, "../secret").is_err());
    assert!(resolve_in_root(root, "a/../../secret").is_err());
}

#[test]
fn accepts_relative_paths() {
    let root = "/tmp/project";
    let resolved = resolve_in_root(root, "src/main.rs").expect("relative path should resolve");
    assert_eq!(Path::new(&resolved), Path::new("/tmp/project/src/main.rs"));
}

#[test]
fn accepts_dot_and_cur_dir() {
    let root = "/tmp/project";
    assert_eq!(Path::new(&resolve_in_root(root, ".").unwrap()), Path::new(root));
    assert_eq!(
        Path::new(&resolve_in_root(root, "./src").unwrap()),
        Path::new("/tmp/project/src")
    );
}

#[test]
fn refusal_reasons_are_distinguished() {
    assert_eq!(resolve_in_root("/r", "/x"), Err(PathError::Absolute));
    assert_eq!(resolve_in_root("/r", "a/.."), Err(PathError::ParentDir));
    assert_eq!(
        PathError::ParentDir.message(),
        "'..' is not allowed in tool paths"
    );
}

#[test]
fn dotted_names_are_not_parent_dirs() {
    assert_eq!(resolve_in_root("/r", "a..b/..c").unwrap(), "/r/a..b/..c");
    assert_eq!(resolve_in_root("/r/", "x").unwrap(), "/r/x");
    assert_eq!(resolve_in_root("/r", "").unwrap(), "/r/");
}
