use std::path::Path;

use tinyruntime::language::Language;
use tinyruntime::store::{
    STAGING_PREFIX, cache_root, cache_root_in, is_staging, staging_dir, staging_dir_with,
};

#[test]
fn an_explicit_cache_directory_is_honoured_verbatim() {
    let root = cache_root(Some("/opt/runtimes"), &Language::nodejs());
    assert_eq!(Path::new(&root), Path::new("/opt/runtimes"));
}

#[test]
fn the_default_cache_directory_is_per_language_and_outside_any_workspace() {
    let node = cache_root(None, &Language::nodejs());
    let python = cache_root(None, &Language::python());
    assert_ne!(node, python, "two languages must not share an install root");
    assert!(Path::new(&node).ends_with("nodejs"));
    assert!(
        !Path::new(&node).starts_with("."),
        "the default must not be workspace-relative"
    );
}

#[test]
fn staging_directories_are_recognisable_and_unique() {
    let root = "/cache";
    let first = staging_dir(root);
    let second = staging_dir(root);
    assert_ne!(first, second, "two installs must not stage into one place");
    assert!(is_staging(&first));
    assert!(!is_staging(&Path::new(root).join("node-v22.11.0").to_string_lossy()));
}

#[test]
fn the_default_root_sits_under_the_cache_by_language() {
    assert_eq!(
        cache_root_in(None, &Language::nodejs(), Some("/home/u/.cache".to_string())),
        "/home/u/.cache/tinyruntime/toolchains/nodejs"
    );
    assert_eq!(
        cache_root_in(None, &Language::python(), None),
        "/tmp/tinyruntime/toolchains/python"
    );
    assert_eq!(
        cache_root_in(Some("relative/dir"), &Language::python(), None),
        "relative/dir"
    );
}

#[test]
fn a_staging_directory_is_named_by_its_token() {
    assert_eq!(staging_dir_with("/cache", 0), "/cache/.stage-0");
    assert_eq!(staging_dir_with("/cache/", 1234567890), "/cache/.stage-1234567890");
    assert_eq!(staging_dir_with("", 42), ".stage-42");
    assert_eq!(STAGING_PREFIX, ".stage-");
}

#[test]
fn staging_is_judged_by_the_last_component() {
    assert!(is_staging("/cache/.stage-99-abcd"));
    assert!(is_staging("/cache/.stage-1/"));
    assert!(is_staging(".stage-x"));
    assert!(!is_staging("/cache/.stage-1/bin"));
    assert!(!is_staging("/cache/stage-1"));
    assert!(!is_staging("/.stage"));
    assert!(!is_staging(""));
}

#[test]
fn a_relative_platform_cache_is_not_trusted_as_a_default_root() {
    assert_eq!(
        cache_root_in(None, &Language::nodejs(), Some("relative/.cache".to_string())),
        "/tmp/tinyruntime/toolchains/nodejs"
    );
    assert_eq!(
        cache_root_in(None, &Language::nodejs(), Some(String::new())),
        "/tmp/tinyruntime/toolchains/nodejs"
    );
    assert!(cache_root(None, &Language::python()).starts_with('/'));
}
