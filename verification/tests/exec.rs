use tinyruntime::exec::{ExecRequest, ExecResponse, RuntimeSettings};
use tinyruntime::language::Language;
use tinyruntime::pool::PoolSettings;

#[test]
fn a_request_defaults_to_the_standard_pool_and_no_deadline() {
    let request = ExecRequest::new(
        Language::nodejs(),
        RuntimeSettings::new("v22.11.0"),
        "console.log(1)",
    );
    assert_eq!(request.pool, PoolSettings::default());
    assert!(request.timeout_ms.is_none());
    assert!(request.cwd.is_none());
}

#[test]
fn builders_set_the_working_directory_and_the_deadline() {
    let request = ExecRequest::new(Language::python(), RuntimeSettings::new("3.12"), "print(1)")
        .with_cwd("/work/sandbox")
        .with_timeout_ms(5_000);
    assert_eq!(request.cwd.as_deref(), Some("/work/sandbox"));
    assert_eq!(request.timeout_ms, Some(5_000));
}

#[test]
fn success_requires_a_clean_exit_and_no_timeout() {
    assert!(ExecResponse::new("", "", Some(0), "1.0").success());
    assert!(ExecResponse::new("", "", None, "1.0").success());
    assert!(!ExecResponse::new("", "boom", Some(1), "1.0").success());

    let timed_out = ExecResponse {
        timed_out: true,
        ..ExecResponse::new("", "", Some(0), "1.0")
    };
    assert!(!timed_out.success(), "a job aborted at its deadline did not succeed");
}

#[test]
fn a_request_keeps_what_it_was_built_with() {
    let request = ExecRequest::new(Language::new(" Python "), RuntimeSettings::new("3.12"), "print(1)");
    assert_eq!(request.language, Language::python());
    assert_eq!(request.code, "print(1)");
    assert_eq!(request.settings.version, "3.12");
    assert!(request.settings.enabled);
    assert!(request.settings.prefer_system);
    assert!(request.settings.cache_dir.is_empty());
}

#[test]
fn a_negative_exit_code_is_a_failure() {
    let response = ExecResponse::new("out", "err", Some(-9), "22.11.0");
    assert!(!response.success());
    assert_eq!(response.stdout, "out");
    assert_eq!(response.stderr, "err");
    assert_eq!(response.version, "22.11.0");
    assert_eq!(response.elapsed_ms, 0);
    assert_eq!(response.queue_wait_ms, 0);
}
