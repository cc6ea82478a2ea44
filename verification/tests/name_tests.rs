use scaffold::name::{is_current_dir, normalize, project_name_from_target, trim_str, validate};

#[test]
fn normalize_spaces_and_punctuation() {
    assert_eq!(normalize("My App!!"), "my-app--");
}

#[test]
fn normalize_trims_and_lowercases() {
    assert_eq!(normalize("  Hello World  "), "hello-world");
}

#[test]
fn normalize_strips_leading_dots_and_underscores() {
    assert_eq!(normalize("._foo"), "foo");
    assert_eq!(normalize("..__..bar"), "bar");
}

#[test]
fn normalize_keeps_permitted_characters() {
    assert_eq!(normalize("a-b~c9"), "a-b~c9");
}

#[test]
fn normalize_replaces_non_ascii() {
    assert_eq!(normalize("caf\u{e9}"), "caf-");
}

#[test]
fn normalize_can_produce_empty() {
    assert_eq!(normalize("..."), "");
    assert_eq!(normalize("   "), "");
    assert_eq!(normalize(""), "");
}

#[test]
fn normalize_inner_dots_become_hyphens() {
    assert_eq!(normalize("a.b_c"), "a-b-c");
}

#[test]
fn normalize_is_idempotent_on_samples() {
    for s in ["My App!!", "  x Y z  ", "._foo", "@scope/Name", "", "...", "a.b_c"] {
        let once = normalize(s);
        assert_eq!(normalize(&once), once);
    }
}

#[test]
fn normalized_nonempty_names_validate() {
    for s in ["My App!!", "  x Y z  ", "._foo", "@scope/Name", "a.b_c", "-lead", "~x"] {
        let once = normalize(s);
        if !once.is_empty() {
            assert!(validate(&once));
        }
    }
}

#[test]
fn validate_plain_names() {
    assert!(validate("my-app--"));
    assert!(validate("a"));
    assert!(validate("~x"));
    assert!(validate("-lead"));
    assert!(validate("a.b_c"));
    assert!(validate("0digit"));
}

#[test]
fn validate_rejects_bad_plain_names() {
    assert!(!validate(""));
    assert!(!validate("My"));
    assert!(!validate(".abc"));
    assert!(!validate("_abc"));
    assert!(!validate("a*b"));
    assert!(!validate("has space"));
}

#[test]
fn validate_scoped_names() {
    assert!(validate("@scope/name"));
    assert!(validate("@s/n"));
    assert!(validate("@*star/ok"));
    assert!(validate("@s.c_ope/na-me.x"));
}

#[test]
fn validate_rejects_bad_scoped_names() {
    assert!(!validate("@/name"));
    assert!(!validate("@scope/"));
    assert!(!validate("@scope"));
    assert!(!validate("@sc/Na"));
    assert!(!validate("@.s/ok"));
    assert!(!validate("@a/b/c"));
}

#[test]
fn trim_removes_surrounding_whitespace() {
    assert_eq!(trim_str("  a  "), "a");
    assert_eq!(trim_str("\t\n x"), "x");
    assert_eq!(trim_str("inner space"), "inner space");
    assert_eq!(trim_str("   "), "");
}

#[test]
fn current_dir_sentinel() {
    assert!(is_current_dir("."));
    assert!(!is_current_dir(".."));
    assert!(!is_current_dir(""));
    assert!(!is_current_dir("./"));
}

#[test]
fn project_name_follows_target() {
    assert_eq!(project_name_from_target(".", "workdir"), "workdir");
    assert_eq!(project_name_from_target("myapp", "workdir"), "myapp");
}
