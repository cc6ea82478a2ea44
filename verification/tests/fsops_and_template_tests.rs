use scaffold::fsops::is_effectively_empty;
use scaffold::template::{first_marked, framework_dir, resolve_template, Framework, Language};

fn names(items: &[&str]) -> Vec<String> {
    items.iter().map(|s| s.to_string()).collect()
}

#[test]
fn empty_listing_is_effectively_empty() {
    assert!(is_effectively_empty(&names(&[])));
}

#[test]
fn lone_git_folder_is_effectively_empty() {
    assert!(is_effectively_empty(&names(&[".git"])));
}

#[test]
fn git_folder_case_insensitive() {
    assert!(is_effectively_empty(&names(&[".GIT"])));
    assert!(is_effectively_empty(&names(&[".Git"])));
}

#[test]
fn git_plus_other_entry_is_not_empty() {
    assert!(!is_effectively_empty(&names(&[".git", "notes.txt"])));
}

#[test]
fn single_regular_file_is_not_empty() {
    assert!(!is_effectively_empty(&names(&["file.txt"])));
    assert!(!is_effectively_empty(&names(&["git"])));
    assert!(!is_effectively_empty(&names(&[".gitx"])));
}

#[test]
fn typescript_vue_template() {
    assert_eq!(resolve_template(Language::TypeScript, Framework::Vue), "template-vue-ts");
}

#[test]
fn javascript_react_template() {
    assert_eq!(resolve_template(Language::JavaScript, Framework::React), "template-react");
}

#[test]
fn remaining_template_names() {
    assert_eq!(resolve_template(Language::JavaScript, Framework::Vue), "template-vue");
    assert_eq!(resolve_template(Language::JavaScript, Framework::Vue2), "template-vue2");
    assert_eq!(resolve_template(Language::TypeScript, Framework::Angular), "template-angular-ts");
    assert_eq!(resolve_template(Language::TypeScript, Framework::Svelte), "template-svelte-ts");
    assert_eq!(resolve_template(Language::JavaScript, Framework::Angular), "template-angular");
}

#[test]
fn framework_dir_fragments() {
    assert_eq!(framework_dir(Framework::Vue), "vue");
    assert_eq!(framework_dir(Framework::Svelte), "svelte");
}

#[test]
fn first_marked_finds_nearest_ancestor() {
    assert_eq!(first_marked(&vec![false, true, true]), Some(1));
    assert_eq!(first_marked(&vec![true]), Some(0));
    assert_eq!(first_marked(&vec![false, false]), None);
    assert_eq!(first_marked(&vec![]), None);
}
