use link_config::envpath::{augment_search_paths, filter_native_dirs, SearchPathEnv};
use link_config::strutil::{contains_substring, starts_with, str_eq};

fn strings(v: &[&str]) -> Vec<String> {
    v.iter().map(|s| s.to_string()).collect()
}

#[test]
fn augmentation_appends_new_directories_without_duplicates() {
    let mut env = SearchPathEnv { augmented: false, paths: strings(&["/a"]) };
    augment_search_paths(&mut env, &strings(&["/b", "/a", "/b"]));
    assert!(env.augmented);
    assert_eq!(env.paths, strings(&["/a", "/b"]));
}

#[test]
fn augmentation_runs_only_once() {
    let dirs = strings(&["/b"]);
    let mut once = SearchPathEnv { augmented: false, paths: strings(&["/a"]) };
    augment_search_paths(&mut once, &dirs);
    let mut twice = SearchPathEnv { augmented: false, paths: strings(&["/a"]) };
    augment_search_paths(&mut twice, &dirs);
    augment_search_paths(&mut twice, &dirs);
    assert_eq!(once.paths, twice.paths);
    assert_eq!(once.augmented, twice.augmented);
}

#[test]
fn augmentation_of_empty_environment() {
    let mut env = SearchPathEnv { augmented: false, paths: Vec::new() };
    augment_search_paths(&mut env, &strings(&["/x", "/x"]));
    assert_eq!(env.paths, strings(&["/x"]));
}

#[test]
fn native_directories_are_kept_in_order() {
    let dirs = strings(&["/t/native/a", "/t/deps", "/t/build/native"]);
    assert_eq!(filter_native_dirs(&dirs), strings(&["/t/native/a", "/t/build/native"]));
}

#[test]
fn string_equality_is_exact() {
    assert!(str_eq("abc", "abc"));
    assert!(!str_eq("abc", "abd"));
    assert!(!str_eq("abc", "abcd"));
    assert!(str_eq("", ""));
}

#[test]
fn prefix_and_substring_tests() {
    assert!(starts_with("/usr/lib", "/usr"));
    assert!(!starts_with("/opt/usr", "/usr"));
    assert!(contains_substring("target/native/out", "native"));
    assert!(!contains_substring("target/out", "native"));
    assert!(contains_substring("native", "native"));
    assert!(!contains_substring("nativ", "native"));
}
