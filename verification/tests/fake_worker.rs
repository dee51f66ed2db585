use tinyruntime::fake_worker::{
    Directive, Frame, Handled, JobRequest, JobResponse, WORKER_MARKER, WORKER_PROTOCOL_VERSION,
    frame_of, handle, launch, worker_handshake,
};
use tinyruntime::language::Language;

fn request(id: &str, code: &str) -> JobRequest {
    JobRequest { id: id.to_string(), code: code.to_string() }
}

fn single_reply(handled: Handled) -> JobResponse {
    match handled {
        Handled::Serve(mut frames) if frames.len() == 1 => match frames.remove(0) {
            Frame::Reply(reply) => reply,
            Frame::Raw(line) => panic!("raw line {line}"),
        },
        other => panic!("got {other:?}"),
    }
}

#[test]
fn directive_codes_are_spelled_as_the_worker_reads_them() {
    assert_eq!(Directive::Echo("hi").code(), "echo:hi");
    assert_eq!(Directive::Fail("bad").code(), "fail:bad");
    assert_eq!(Directive::TimedOut.code(), "timeout");
    assert_eq!(Directive::HarnessError("no").code(), "harness-error:no");
    assert_eq!(Directive::Hang.code(), "hang");
    assert_eq!(Directive::Die.code(), "die");
    assert_eq!(Directive::Misaddressed("x").code(), "misaddressed:x");
    assert_eq!(Directive::Noise("y").code(), "noise:y");
}

#[test]
fn an_echo_replies_on_stdout_with_a_clean_exit() {
    let reply = single_reply(handle(&request("job-1", &Directive::Echo("a:b").code())));
    assert_eq!(reply.id.as_deref(), Some("job-1"));
    assert!(reply.ok);
    assert_eq!(reply.stdout, "a:b");
    assert_eq!(reply.stderr, "");
    assert_eq!(reply.exit_code, Some(0));
    assert!(!reply.timed_out);
    assert_eq!(reply.elapsed_ms, 1);
    assert!(reply.error.is_none());
}

#[test]
fn a_failure_replies_on_stderr_with_exit_one() {
    let reply = single_reply(handle(&request("j", &Directive::Fail("boom").code())));
    assert_eq!(reply.stderr, "boom");
    assert_eq!(reply.stdout, "");
    assert_eq!(reply.exit_code, Some(1));
}

#[test]
fn a_timeout_reports_no_exit_code() {
    let reply = single_reply(handle(&request("j", &Directive::TimedOut.code())));
    assert!(reply.timed_out);
    assert_eq!(reply.exit_code, None);
}

#[test]
fn a_harness_error_is_not_ok() {
    let reply = single_reply(handle(&request("j", &Directive::HarnessError("cannot").code())));
    assert!(!reply.ok);
    assert_eq!(reply.error.as_deref(), Some("cannot"));
}

#[test]
fn hang_and_die_stop_serving_without_a_reply() {
    assert!(matches!(handle(&request("j", &Directive::Hang.code())), Handled::HangThenStop));
    assert!(matches!(handle(&request("j", &Directive::Die.code())), Handled::Stop));
}

#[test]
fn a_misaddressed_reply_is_preceded_by_a_stray_frame() {
    match handle(&request("job-7", &Directive::Misaddressed("real").code())) {
        Handled::Serve(frames) => {
            assert_eq!(frames.len(), 2);
            match (&frames[0], &frames[1]) {
                (Frame::Reply(stray), Frame::Reply(real)) => {
                    assert_eq!(stray.id.as_deref(), Some("job-7-not-this-one"));
                    assert_eq!(stray.stdout, "stray");
                    assert_eq!(real.id.as_deref(), Some("job-7"));
                    assert_eq!(real.stdout, "real");
                }
                other => panic!("got {other:?}"),
            }
        }
        other => panic!("got {other:?}"),
    }
}

#[test]
fn noise_precedes_the_real_reply() {
    match handle(&request("j", &Directive::Noise("after").code())) {
        Handled::Serve(frames) => {
            assert_eq!(frames.len(), 2);
            assert!(matches!(&frames[0], Frame::Raw(line) if line == "this is not json"));
            assert!(matches!(&frames[1], Frame::Reply(r) if r.stdout == "after"));
        }
        other => panic!("got {other:?}"),
    }
}

#[test]
fn an_unknown_code_is_echoed_back_whole() {
    let reply = single_reply(handle(&request("j", "print(1): two")));
    assert_eq!(reply.stdout, "print(1): two");
    let bare = single_reply(handle(&request("j", "1 + 1")));
    assert_eq!(bare.stdout, "1 + 1");
}

#[test]
fn a_launch_reexecutes_the_test_binary_as_a_worker() {
    let launch = launch(Language::nodejs(), "/target/debug/deps/t".to_string(), None);
    assert_eq!(launch.language, Language::nodejs());
    assert_eq!(launch.binary, "/target/debug/deps/t");
    assert_eq!(
        launch.args,
        vec![
            "--exact",
            "pool::fake_worker::test::serves_as_a_worker_when_asked",
            "--nocapture",
            "--test-threads=1"
        ]
    );
    assert_eq!(
        launch.env,
        vec![
            (WORKER_MARKER.to_string(), "1".to_string()),
            ("RUST_BACKTRACE".to_string(), String::new()),
        ]
    );
    assert_eq!(launch.protocol_version, WORKER_PROTOCOL_VERSION);
    assert_eq!(launch.handshake_timeout_secs, 20);
    let carried = tinyruntime::fake_worker::launch(Language::python(), "b".to_string(), Some("full".to_string()));
    assert_eq!(carried.env[1].1, "full");
}

#[test]
fn the_handshake_announces_readiness_and_echoes_the_token() {
    let handshake = worker_handshake(Some("secret".to_string()));
    assert!(handshake.ready);
    assert_eq!(handshake.protocol, Some(WORKER_PROTOCOL_VERSION));
    assert_eq!(handshake.language.as_deref(), Some("test"));
    assert!(handshake.error.is_none());
    assert_eq!(handshake.token.as_deref(), Some("secret"));
    assert!(worker_handshake(None).token.is_none());
}

#[test]
fn blank_lines_carry_no_frame() {
    assert_eq!(frame_of("  \r\n"), None);
    assert_eq!(frame_of(" {\"id\":\"1\"}\n").as_deref(), Some("{\"id\":\"1\"}"));
}
