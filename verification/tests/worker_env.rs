use tinyruntime::worker_env::build;

/// An environment shaped like a host process's.
fn process_environment() -> Vec<(String, String)> {
    vec![
        ("HOME".to_string(), "/home/host".to_string()),
        ("PATH".to_string(), "/usr/local/bin:/usr/bin".to_string()),
        ("LANG".to_string(), "C.UTF-8".to_string()),
    ]
}

#[test]
fn the_toolchain_directory_comes_first_on_path() {
    let env = build("/managed/bin", &[], &process_environment());
    let path = env
        .iter()
        .find(|(name, _)| name == "PATH")
        .map(|(_, value)| value.clone())
        .expect("a worker always gets a PATH");
    assert!(path.starts_with("/managed/bin"), "got `{path}`");
}

#[test]
fn a_secret_in_this_process_does_not_reach_a_worker() {
    let mut host = process_environment();
    host.push(("TINYRUNTIME_TEST_SECRET".to_string(), "super-secret-token".to_string()));
    let env = build("/managed/bin", &[], &host);

    assert!(
        !env.iter().any(|(name, _)| name == "TINYRUNTIME_TEST_SECRET"),
        "an unlisted variable leaked into the worker environment"
    );
}

#[test]
fn a_providers_extra_variables_are_added() {
    let env = build(
        "/managed/bin",
        &[("PYTHONUNBUFFERED".to_string(), "1".to_string())],
        &process_environment(),
    );
    assert!(
        env.iter()
            .any(|(name, value)| name == "PYTHONUNBUFFERED" && value == "1")
    );
}

fn pair(name: &str, value: &str) -> (String, String) {
    (name.to_string(), value.to_string())
}

#[test]
fn the_environment_is_path_then_listed_variables_then_extras() {
    let inherited = vec![
        pair("AWS_SECRET_ACCESS_KEY", "k"),
        pair("HOME", "/home/u"),
        pair("PATH", "/usr/bin:/bin"),
        pair("TZ", "UTC"),
        pair("PATH", "/ignored"),
    ];
    let env = build("/managed/bin", &[pair("NODE_OPTIONS", "--x")], &inherited);
    assert_eq!(
        env,
        vec![
            pair("PATH", "/managed/bin:/usr/bin:/bin"),
            pair("HOME", "/home/u"),
            pair("TZ", "UTC"),
            pair("NODE_OPTIONS", "--x"),
        ]
    );
}

#[test]
fn an_empty_or_absent_inherited_path_leaves_only_the_toolchain() {
    assert_eq!(build("/t/bin", &[], &[]), vec![pair("PATH", "/t/bin")]);
    assert_eq!(build("/t/bin", &[], &[pair("PATH", "")]), vec![pair("PATH", "/t/bin")]);
}
