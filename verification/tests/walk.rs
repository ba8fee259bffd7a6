use hashall::walk::{is_hidden, join_path, walk, FsNode};

fn file(name: &str) -> FsNode {
    FsNode::File { name: String::from(name) }
}

fn dir(name: &str, children: Vec<FsNode>) -> FsNode {
    FsNode::Dir { name: String::from(name), children }
}

#[test]
fn hidden_names() {
    assert!(is_hidden(".hidden.txt"));
    assert!(is_hidden("."));
    assert!(!is_hidden("file.txt"));
    assert!(!is_hidden(""));
}

#[test]
fn join_appends_separator() {
    assert_eq!(join_path("archive.zip", "dir/file.txt"), "archive.zip/dir/file.txt");
    assert_eq!(join_path(".", "file.txt"), "./file.txt");
}

#[test]
fn hidden_entries_are_pruned_by_default() {
    let root = dir("d", vec![file("file.txt"), file(".hidden.txt")]);
    assert_eq!(walk(&root, "d", false, false), vec!["d/file.txt"]);
    assert_eq!(walk(&root, "d", false, true), vec!["d/file.txt"]);
}

#[test]
fn hidden_entries_are_kept_when_included() {
    let root = dir("d", vec![file("file.txt"), file(".hidden.txt")]);
    assert_eq!(walk(&root, "d", true, false), vec!["d/file.txt", "d/.hidden.txt"]);
}

#[test]
fn non_recursive_stays_at_depth_one() {
    let root = dir("root", vec![file("file.txt"), dir("sub", vec![file("inner.txt")])]);
    assert_eq!(walk(&root, "root", false, false), vec!["root/file.txt"]);
}

#[test]
fn recursive_descends_without_limit() {
    let root = dir("root", vec![file("file.txt"), dir("sub", vec![file("inner.txt")])]);
    assert_eq!(walk(&root, "root", false, true), vec!["root/file.txt", "root/sub/inner.txt"]);
    let deep = dir("a", vec![dir("b", vec![dir("c", vec![file("deep.txt")])])]);
    assert_eq!(walk(&deep, "a", false, true), vec!["a/b/c/deep.txt"]);
}

#[test]
fn hidden_directory_prunes_its_subtree() {
    let root = dir("d", vec![dir(".git", vec![file("config")]), file("x.txt")]);
    assert_eq!(walk(&root, "d", false, true), vec!["d/x.txt"]);
    assert_eq!(
        walk(&root, "d", true, true),
        vec!["d/.git/config", "d/x.txt"]
    );
}

#[test]
fn file_root_bypasses_the_policy() {
    // An explicit file input is always yielded, hidden or not.
    let root = file(".hidden.txt");
    assert_eq!(walk(&root, "./.hidden.txt", false, false), vec!["./.hidden.txt"]);
}

#[test]
fn directories_are_never_yielded() {
    let root = dir("d", vec![dir("empty", vec![])]);
    assert_eq!(walk(&root, "d", true, true), Vec::<String>::new());
}
