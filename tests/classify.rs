use hlaipf::classify::{diff_contains_php, ends_with_php, is_php};
use hlaipf::text::{contains_str, str_before};

fn paths(v: &[&str]) -> Vec<String> {
    v.iter().map(|s| s.to_string()).collect()
}

#[test]
fn root_commit_adding_index_php_is_php() {
    assert!(is_php(0, &paths(&["index.php"])));
}

#[test]
fn root_commit_adding_only_readme_is_not_php() {
    assert!(!is_php(0, &paths(&["readme.md"])));
}

#[test]
fn modified_stylesheet_only_is_not_php() {
    assert!(!is_php(1, &paths(&["style.css"])));
}

#[test]
fn stylesheet_and_new_api_php_is_php() {
    assert!(is_php(1, &paths(&["style.css", "api.php"])));
}

#[test]
fn merge_commit_is_never_php() {
    assert!(!is_php(2, &paths(&["new.php"])));
    assert!(!is_php(3, &paths(&["a.php", "b.php"])));
}

#[test]
fn suffix_is_case_sensitive_and_exact() {
    assert!(ends_with_php("src/a.php"));
    assert!(ends_with_php(".php"));
    assert!(!ends_with_php("INDEX.PHP"));
    assert!(!ends_with_php("index.php5"));
    assert!(!ends_with_php("php"));
    assert!(!ends_with_php("index_php"));
    assert!(!ends_with_php(""));
}

#[test]
fn empty_change_set_has_no_php() {
    assert!(!diff_contains_php(&Vec::new()));
    assert!(!is_php(0, &Vec::new()));
}

#[test]
fn php_anywhere_in_change_set_is_found() {
    assert!(diff_contains_php(&paths(&["a.txt", "b.md", "lib/c.php"])));
    assert!(!diff_contains_php(&paths(&["a.txt", "php/readme", "x.phpx"])));
}

#[test]
fn author_filter_is_an_unanchored_substring() {
    assert!(contains_str("a@x.com", "a@x.com"));
    assert!(contains_str("alice@x.com", "x.com"));
    assert!(contains_str("alice@x.com", "lice"));
    assert!(contains_str("alice@x.com", ""));
    assert!(!contains_str("alice@x.com", "X.COM"));
    assert!(!contains_str("a@x", "a@x.com"));
    assert!(!contains_str("", "a"));
}

#[test]
fn paths_sort_by_code_point() {
    assert!(str_before("a", "b"));
    assert!(str_before("", "a"));
    assert!(str_before("/r/a", "/r/ab"));
    assert!(str_before("Z", "a"));
    assert!(!str_before("b", "a"));
    assert!(!str_before("same", "same"));
    assert!(!str_before("", ""));
}
