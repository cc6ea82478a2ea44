use scaffold::tree::{copy_tree, dest_name, Entry, FsTree};

fn file(data: &[u8]) -> FsTree {
    FsTree::File { data: data.to_vec() }
}

fn dir(entries: Vec<Entry>) -> FsTree {
    FsTree::Dir { entries }
}

fn entry(name: &str, node: FsTree) -> Entry {
    Entry { name: name.to_string(), node }
}

fn expect_dir(t: &FsTree) -> &Vec<Entry> {
    match t {
        FsTree::Dir { entries } => entries,
        _ => panic!("expected a directory"),
    }
}

fn expect_file(t: &FsTree) -> &Vec<u8> {
    match t {
        FsTree::File { data } => data,
        _ => panic!("expected a file"),
    }
}

#[test]
fn dest_name_renames_placeholder() {
    assert_eq!(dest_name(&"_gitignore".to_string()), ".gitignore");
    assert_eq!(dest_name(&"main.js".to_string()), "main.js");
    assert_eq!(dest_name(&"_gitignore2".to_string()), "_gitignore2");
}

#[test]
fn copy_preserves_structure_and_contents() {
    let src = dir(vec![
        entry("_gitignore", file(b"node_modules\n")),
        entry("src", dir(vec![entry("main.js", file(b"console.log(1)\n"))])),
        entry("README.md", file(b"hi")),
    ]);
    let out = copy_tree(&src);
    let entries = expect_dir(&out);
    assert_eq!(entries.len(), 3);
    assert_eq!(entries[0].name, ".gitignore");
    assert_eq!(expect_file(&entries[0].node), b"node_modules\n");
    assert_eq!(entries[1].name, "src");
    let sub = expect_dir(&entries[1].node);
    assert_eq!(sub.len(), 1);
    assert_eq!(sub[0].name, "main.js");
    assert_eq!(expect_file(&sub[0].node), b"console.log(1)\n");
    assert_eq!(entries[2].name, "README.md");
    assert_eq!(expect_file(&entries[2].node), b"hi");
}

#[test]
fn copy_skips_special_entries() {
    let src = dir(vec![
        entry("link", FsTree::Other),
        entry("kept.txt", file(b"x")),
    ]);
    let out = copy_tree(&src);
    let entries = expect_dir(&out);
    assert_eq!(entries.len(), 1);
    assert_eq!(entries[0].name, "kept.txt");
}

#[test]
fn copy_renames_placeholder_in_nested_directories() {
    let src = dir(vec![entry(
        "sub",
        dir(vec![entry("_gitignore", file(b"dist\n"))]),
    )]);
    let out = copy_tree(&src);
    let entries = expect_dir(&out);
    let sub = expect_dir(&entries[0].node);
    assert_eq!(sub[0].name, ".gitignore");
    assert_eq!(expect_file(&sub[0].node), b"dist\n");
}

#[test]
fn copy_of_empty_directory_is_empty() {
    let out = copy_tree(&dir(vec![]));
    assert_eq!(expect_dir(&out).len(), 0);
}

#[test]
fn copy_renames_placeholder_directory_too() {
    let src = dir(vec![entry("_gitignore", dir(vec![]))]);
    let out = copy_tree(&src);
    let entries = expect_dir(&out);
    assert_eq!(entries[0].name, ".gitignore");
    assert!(matches!(entries[0].node, FsTree::Dir { .. }));
}
