//! A worker that is not an interpreter, for exercising the pool without one.
//!
//! The pool's interesting behaviour (the handshake, warm reuse, recycling, the
//! dispatch tagging that keeps a job from running twice, saturation) needs a
//! real child process on the other end of a real socket. The test binary
//! re-executes itself as that child, and a job's `code` is a [`Directive`]
//! rather than source: it says what the worker should do with the job.
//!
//! This module decides; reading the socket and writing replies is the caller's.

use vstd::prelude::*;

use crate::language::Language;
use crate::text::{
    lemma_split_at_first, lemma_split_without, same_text, split_first, split_once, trim, trim_str,
};

verus! {

/// Set in a worker's environment to make the test binary serve instead of test.
pub const WORKER_MARKER: &'static str = "TINYRUNTIME_TEST_WORKER";

/// The worker protocol version this build speaks.
pub const WORKER_PROTOCOL_VERSION: u32 = 1;

/// The first frame a worker sends: whether it is ready, and for what.
#[derive(Debug, Clone)]
pub struct Handshake {
    /// Whether the worker can take jobs.
    pub ready: bool,
    /// The protocol version the worker speaks.
    pub protocol: Option<u32>,
    /// The language the worker runs.
    pub language: Option<String>,
    /// Why the worker cannot take jobs, if it cannot.
    pub error: Option<String>,
    /// The token the pool handed the worker, echoed back.
    pub token: Option<String>,
}

/// One job sent to a worker.
#[derive(Debug, Clone)]
pub struct JobRequest {
    /// The dispatch tag the reply must carry.
    pub id: String,
    /// The code to run; for this worker, a directive.
    pub code: String,
}

/// A worker's reply to one job.
#[derive(Debug, Clone)]
pub struct JobResponse {
    /// The dispatch tag of the job this answers.
    pub id: Option<String>,
    /// Whether the worker could run the job at all.
    pub ok: bool,
    /// What the job wrote to standard output.
    pub stdout: String,
    /// What the job wrote to standard error.
    pub stderr: String,
    /// The job's exit code, if it exited.
    pub exit_code: Option<i32>,
    /// Whether the job was aborted at its deadline.
    pub timed_out: bool,
    /// How long the job ran, in milliseconds.
    pub elapsed_ms: u64,
    /// A harness-level error, where the worker could not run the job.
    pub error: Option<String>,
}

/// A reply as the contracts see it.
pub struct ResponseView {
    pub id: Option<Seq<char>>,
    pub ok: bool,
    pub stdout: Seq<char>,
    pub stderr: Seq<char>,
    pub exit_code: Option<i32>,
    pub timed_out: bool,
    pub elapsed_ms: u64,
    pub error: Option<Seq<char>>,
}

/// An optional text as the contracts see it.
pub open spec fn opt_view(s: Option<String>) -> Option<Seq<char>> {
    match s {
        Some(t) => Some(t@),
        None => None,
    }
}

impl View for JobResponse {
    type V = ResponseView;

    open spec fn view(&self) -> ResponseView {
        ResponseView {
            id: opt_view(self.id),
            ok: self.ok,
            stdout: self.stdout@,
            stderr: self.stderr@,
            exit_code: self.exit_code,
            timed_out: self.timed_out,
            elapsed_ms: self.elapsed_ms,
            error: opt_view(self.error),
        }
    }
}

/// One line the worker writes back.
#[derive(Debug, Clone)]
pub enum Frame {
    /// A reply, to be encoded as one protocol frame.
    Reply(JobResponse),
    /// A line written as it is, not a protocol frame.
    Raw(String),
}

/// A frame as the contracts see it.
pub enum FrameView {
    Reply(ResponseView),
    Raw(Seq<char>),
}

impl View for Frame {
    type V = FrameView;

    open spec fn view(&self) -> FrameView {
        match self {
            Frame::Reply(r) => FrameView::Reply(r@),
            Frame::Raw(s) => FrameView::Raw(s@),
        }
    }
}

/// What the worker does with one job.
#[derive(Debug, Clone)]
pub enum Handled {
    /// Write these frames, in order, and keep serving.
    Serve(Vec<Frame>),
    /// Never reply: outlive any deadline, then stop serving.
    HangThenStop,
    /// Stop serving at once, without replying.
    Stop,
}

/// What the worker does with one job, as the contracts see it.
pub enum HandledView {
    Serve(Seq<FrameView>),
    HangThenStop,
    Stop,
}

impl View for Handled {
    type V = HandledView;

    open spec fn view(&self) -> HandledView {
        match self {
            Handled::Serve(frames) => HandledView::Serve(frames@.map_values(|f: Frame| f@)),
            Handled::HangThenStop => HandledView::HangThenStop,
            Handled::Stop => HandledView::Stop,
        }
    }
}

/// What the fake worker should do with a job, spelled in the job's `code`.
pub enum Directive<'a> {
    /// Reply with this text on stdout and a zero exit.
    Echo(&'a str),
    /// Reply with this text on stderr and a non-zero exit.
    Fail(&'a str),
    /// Reply reporting the job was aborted at its deadline.
    TimedOut,
    /// Reply with a harness-level error, as a worker that could not run the job.
    HarnessError(&'a str),
    /// Never reply, so the caller's hard deadline is what ends the wait.
    Hang,
    /// Exit without replying, closing the protocol stream mid-job.
    Die,
    /// Reply with a frame for a different job, then the real one.
    Misaddressed(&'a str),
    /// Emit an unparseable line before the real reply.
    Noise(&'a str),
}

/// The directive's name, the part of its code before the first `:`.
pub open spec fn directive_name(d: Directive) -> Seq<char> {
    match d {
        Directive::Echo(_) => "echo"@,
        Directive::Fail(_) => "fail"@,
        Directive::TimedOut => "timeout"@,
        Directive::HarnessError(_) => "harness-error"@,
        Directive::Hang => "hang"@,
        Directive::Die => "die"@,
        Directive::Misaddressed(_) => "misaddressed"@,
        Directive::Noise(_) => "noise"@,
    }
}

/// The text a directive carries, if any.
pub open spec fn directive_text(d: Directive) -> Option<Seq<char>> {
    match d {
        Directive::Echo(t) => Some(t@),
        Directive::Fail(t) => Some(t@),
        Directive::HarnessError(t) => Some(t@),
        Directive::Misaddressed(t) => Some(t@),
        Directive::Noise(t) => Some(t@),
        _ => None,
    }
}

/// The `code` string that selects a directive: its name, then `:` and its text
/// where it carries one.
pub open spec fn directive_code(d: Directive) -> Seq<char> {
    match directive_text(d) {
        Some(t) => directive_name(d) + ":"@ + t,
        None => directive_name(d),
    }
}

/// Appends `b` to `a`.
fn concat(a: &str, b: &str) -> (r: String)
    ensures
        r@ == a@ + b@,
{
    let mut s = a.to_owned();
    s.append(b);
    s
}

impl<'a> Directive<'a> {
    /// The `code` string that selects this directive.
    pub fn code(&self) -> (r: String)
        ensures
            r@ == directive_code(*self),
    {
        proof {
            reveal_strlit(":");
            reveal_strlit("echo");
            reveal_strlit("echo:");
            reveal_strlit("fail");
            reveal_strlit("fail:");
            reveal_strlit("harness-error");
            reveal_strlit("harness-error:");
            reveal_strlit("misaddressed");
            reveal_strlit("misaddressed:");
            reveal_strlit("noise");
            reveal_strlit("noise:");
            assert("echo:"@ =~= "echo"@ + ":"@);
            assert("fail:"@ =~= "fail"@ + ":"@);
            assert("harness-error:"@ =~= "harness-error"@ + ":"@);
            assert("misaddressed:"@ =~= "misaddressed"@ + ":"@);
            assert("noise:"@ =~= "noise"@ + ":"@);
        }
        match self {
            Directive::Echo(text) => concat("echo:", text),
            Directive::Fail(text) => concat("fail:", text),
            Directive::TimedOut => "timeout".to_owned(),
            Directive::HarnessError(message) => concat("harness-error:", message),
            Directive::Hang => "hang".to_owned(),
            Directive::Die => "die".to_owned(),
            Directive::Misaddressed(text) => concat("misaddressed:", text),
            Directive::Noise(text) => concat("noise:", text),
        }
    }
}

/// The reply to job `id` before the directive shapes it: ran, clean exit,
/// nothing written.
pub open spec fn base_reply(id: Seq<char>) -> ResponseView {
    ResponseView {
        id: Some(id),
        ok: true,
        stdout: Seq::empty(),
        stderr: Seq::empty(),
        exit_code: Some(0i32),
        timed_out: false,
        elapsed_ms: 1,
        error: None,
    }
}

/// The line the `noise` directive writes before its reply.
pub open spec fn noise_line() -> Seq<char> {
    "this is not json"@
}

/// The dispatch tag of the stray frame the `misaddressed` directive writes.
pub open spec fn stray_id(id: Seq<char>) -> Seq<char> {
    id + "-not-this-one"@
}

/// What the worker does with job `id` whose code is `code`. The code is read
/// as a directive name and a text, split at the first `:`; an unknown name is
/// echoed back whole.
pub open spec fn handling(id: Seq<char>, code: Seq<char>) -> HandledView {
    let kind = split_first(code, ':').0;
    let payload = split_first(code, ':').1;
    let base = base_reply(id);
    if kind == "echo"@ {
        HandledView::Serve(seq![FrameView::Reply(ResponseView { stdout: payload, ..base })])
    } else if kind == "fail"@ {
        HandledView::Serve(
            seq![FrameView::Reply(ResponseView { stderr: payload, exit_code: Some(1i32), ..base })],
        )
    } else if kind == "timeout"@ {
        HandledView::Serve(
            seq![FrameView::Reply(ResponseView { timed_out: true, exit_code: None, ..base })],
        )
    } else if kind == "harness-error"@ {
        HandledView::Serve(
            seq![FrameView::Reply(ResponseView { ok: false, error: Some(payload), ..base })],
        )
    } else if kind == "hang"@ {
        HandledView::HangThenStop
    } else if kind == "die"@ {
        HandledView::Stop
    } else if kind == "misaddressed"@ {
        HandledView::Serve(
            seq![
                FrameView::Reply(ResponseView { id: Some(stray_id(id)), stdout: "stray"@, ..base }),
                FrameView::Reply(ResponseView { stdout: payload, ..base }),
            ],
        )
    } else if kind == "noise"@ {
        HandledView::Serve(
            seq![
                FrameView::Raw(noise_line()),
                FrameView::Reply(ResponseView { stdout: payload, ..base }),
            ],
        )
    } else {
        HandledView::Serve(seq![FrameView::Reply(ResponseView { stdout: code, ..base })])
    }
}

/// A reply to job `id` that has run with a clean exit and written nothing.
fn base_response(id: &String) -> (r: JobResponse)
    ensures
        r@ == base_reply(id@),
{
    JobResponse {
        id: Some(id.clone()),
        ok: true,
        stdout: String::new(),
        stderr: String::new(),
        exit_code: Some(0),
        timed_out: false,
        elapsed_ms: 1,
        error: None,
    }
}

/// The one-frame answer `reply`.
fn reply_only(reply: JobResponse) -> (r: Handled)
    ensures
        r@ == HandledView::Serve(seq![FrameView::Reply(reply@)]),
{
    let mut frames = Vec::new();
    frames.push(Frame::Reply(reply));
    let r = Handled::Serve(frames);
    assert(frames@.map_values(|f: Frame| f@) =~= seq![FrameView::Reply(reply@)]);
    r
}

/// Acts on one job: what to write back, and whether to keep serving.
pub fn handle(request: &JobRequest) -> (r: Handled)
    ensures
        r@ == handling(request.id@, request.code@),
{
    let (kind, payload) = split_once(request.code.as_str(), ':');
    let k = kind.as_str();
    proof {
        reveal_strlit("echo");
        reveal_strlit("fail");
        reveal_strlit("timeout");
        reveal_strlit("harness-error");
        reveal_strlit("hang");
        reveal_strlit("die");
        reveal_strlit("misaddressed");
        reveal_strlit("noise");
    }
    let mut reply = base_response(&request.id);
    if same_text(k, "echo") {
        reply.stdout = payload;
        reply_only(reply)
    } else if same_text(k, "fail") {
        reply.stderr = payload;
        reply.exit_code = Some(1);
        reply_only(reply)
    } else if same_text(k, "timeout") {
        reply.timed_out = true;
        reply.exit_code = None;
        reply_only(reply)
    } else if same_text(k, "harness-error") {
        reply.ok = false;
        reply.error = Some(payload);
        reply_only(reply)
    } else if same_text(k, "hang") {
        Handled::HangThenStop
    } else if same_text(k, "die") {
        Handled::Stop
    } else if same_text(k, "misaddressed") {
        let mut stray = base_response(&request.id);
        stray.id = Some(concat(request.id.as_str(), "-not-this-one"));
        stray.stdout = "stray".to_owned();
        reply.stdout = payload;
        let mut frames = Vec::new();
        frames.push(Frame::Reply(stray));
        frames.push(Frame::Reply(reply));
        let r = Handled::Serve(frames);
        assert(frames@.map_values(|f: Frame| f@) =~= seq![
            FrameView::Reply(stray@),
            FrameView::Reply(reply@),
        ]);
        r
    } else if same_text(k, "noise") {
        reply.stdout = payload;
        let mut frames = Vec::new();
        frames.push(Frame::Raw("this is not json".to_owned()));
        frames.push(Frame::Reply(reply));
        let r = Handled::Serve(frames);
        assert(frames@.map_values(|f: Frame| f@) =~= seq![
            FrameView::Raw(noise_line()),
            FrameView::Reply(reply@),
        ]);
        r
    } else {
        reply.stdout = request.code.clone();
        reply_only(reply)
    }
}


/// What a worker is meant to do with job `id` under directive `d`.
pub open spec fn directive_outcome(id: Seq<char>, d: Directive) -> HandledView {
    let base = base_reply(id);
    match d {
        Directive::Echo(t) => HandledView::Serve(
            seq![FrameView::Reply(ResponseView { stdout: t@, ..base })],
        ),
        Directive::Fail(t) => HandledView::Serve(
            seq![FrameView::Reply(ResponseView { stderr: t@, exit_code: Some(1i32), ..base })],
        ),
        Directive::TimedOut => HandledView::Serve(
            seq![FrameView::Reply(ResponseView { timed_out: true, exit_code: None, ..base })],
        ),
        Directive::HarnessError(m) => HandledView::Serve(
            seq![FrameView::Reply(ResponseView { ok: false, error: Some(m@), ..base })],
        ),
        Directive::Hang => HandledView::HangThenStop,
        Directive::Die => HandledView::Stop,
        Directive::Misaddressed(t) => HandledView::Serve(
            seq![
                FrameView::Reply(ResponseView { id: Some(stray_id(id)), stdout: "stray"@, ..base }),
                FrameView::Reply(ResponseView { stdout: t@, ..base }),
            ],
        ),
        Directive::Noise(t) => HandledView::Serve(
            seq![
                FrameView::Raw(noise_line()),
                FrameView::Reply(ResponseView { stdout: t@, ..base }),
            ],
        ),
    }
}

/// A job whose code is a directive's code is handled as that directive says,
/// whatever text the directive carries (colons included).
pub proof fn law_directive_is_obeyed(id: Seq<char>, d: Directive)
    ensures
        handling(id, directive_code(d)) == directive_outcome(id, d),
{
    reveal_strlit(":");
    reveal_strlit("echo");
    reveal_strlit("fail");
    reveal_strlit("timeout");
    reveal_strlit("harness-error");
    reveal_strlit("hang");
    reveal_strlit("die");
    reveal_strlit("misaddressed");
    reveal_strlit("noise");
    assert("echo"@.len() == 4 && "echo"@[0] == 'e');
    assert("fail"@.len() == 4 && "fail"@[0] == 'f');
    assert("hang"@.len() == 4 && "hang"@[0] == 'h');
    assert("timeout"@.len() == 7);
    assert("harness-error"@.len() == 13);
    assert("die"@.len() == 3);
    assert("misaddressed"@.len() == 12);
    assert("noise"@.len() == 5);
    let name = directive_name(d);
    let code = directive_code(d);
    assert(forall|j: int| 0 <= j < name.len() ==> name[j] != ':');
    match directive_text(d) {
        Some(t) => {
            assert(code[name.len() as int] == ':');
            assert(forall|j: int| 0 <= j < name.len() ==> code[j] == name[j]);
            lemma_split_at_first(code, ':', name.len() as int);
            assert(code.subrange(0, name.len() as int) =~= name);
            assert(code.subrange(name.len() + 1int, code.len() as int) =~= t);
        },
        None => {
            lemma_split_without(code, ':');
        },
    }
}


/// How to start a worker process.
#[derive(Debug, Clone)]
pub struct Launch {
    /// The language the worker serves.
    pub language: Language,
    /// The executable to run.
    pub binary: String,
    /// Its arguments.
    pub args: Vec<String>,
    /// The variables its environment holds, beyond the pool's own.
    pub env: Vec<(String, String)>,
    /// The worker protocol version the worker must announce.
    pub protocol_version: u32,
    /// How long the worker has to complete its handshake, in seconds.
    pub handshake_timeout_secs: u64,
}

/// The arguments that make the test binary run only the serving entry point.
pub open spec fn serving_args() -> Seq<Seq<char>> {
    seq![
        "--exact"@,
        "pool::fake_worker::test::serves_as_a_worker_when_asked"@,
        "--nocapture"@,
        "--test-threads=1"@,
    ]
}

/// A pair of texts as the contracts see it.
pub open spec fn pair_view(p: (String, String)) -> (Seq<char>, Seq<char>) {
    (p.0@, p.1@)
}

/// A launch that runs `binary` (the test binary itself) as a worker for
/// `language`. `backtrace` is this process's `RUST_BACKTRACE`, carried over so
/// the child behaves as the parent does; an unset one is carried as empty.
pub fn launch(language: Language, binary: String, backtrace: Option<String>) -> (r: Launch)
    ensures
        r.language@ == language@,
        r.binary@ == binary@,
        r.args@.map_values(|a: String| a@) == serving_args(),
        r.env@.map_values(|p: (String, String)| pair_view(p)) == seq![
            (WORKER_MARKER@, "1"@),
            (
                "RUST_BACKTRACE"@,
                match backtrace {
                    Some(b) => b@,
                    None => Seq::<char>::empty(),
                },
            ),
        ],
        r.protocol_version == WORKER_PROTOCOL_VERSION,
        r.handshake_timeout_secs == 20,
{
    let mut args: Vec<String> = Vec::new();
    args.push("--exact".to_owned());
    args.push("pool::fake_worker::test::serves_as_a_worker_when_asked".to_owned());
    args.push("--nocapture".to_owned());
    args.push("--test-threads=1".to_owned());
    let carried = match backtrace {
        Some(b) => b,
        None => String::new(),
    };
    let mut env: Vec<(String, String)> = Vec::new();
    env.push((WORKER_MARKER.to_owned(), "1".to_owned()));
    env.push(("RUST_BACKTRACE".to_owned(), carried));
    assert(args@.map_values(|a: String| a@) =~= serving_args());
    assert(env@.map_values(|p: (String, String)| pair_view(p)) =~= seq![
        (WORKER_MARKER@, "1"@),
        ("RUST_BACKTRACE"@, carried@),
    ]);
    Launch {
        language,
        binary,
        args,
        env,
        protocol_version: WORKER_PROTOCOL_VERSION,
        handshake_timeout_secs: 20,
    }
}

/// The handshake a fake worker opens with: ready, on this build's protocol,
/// echoing the `token` the pool gave it.
pub fn worker_handshake(token: Option<String>) -> (r: Handshake)
    ensures
        r.ready,
        r.protocol == Some(WORKER_PROTOCOL_VERSION),
        r.language matches Some(l) && l@ == "test"@,
        r.error is None,
        opt_view(r.token) == opt_view(token),
{
    Handshake {
        ready: true,
        protocol: Some(WORKER_PROTOCOL_VERSION),
        language: Some("test".to_owned()),
        error: None,
        token,
    }
}

/// The frame a line read from the pool carries: the line without surrounding
/// whitespace, or `None` for a blank line, which is skipped.
pub fn frame_of(line: &str) -> (r: Option<String>)
    ensures
        r is None <==> trim(line@).len() == 0,
        r matches Some(f) ==> f@ == trim(line@),
{
    let trimmed = trim_str(line);
    if trimmed.as_str().is_empty() {
        None
    } else {
        Some(trimmed)
    }
}


/// `name` names one of the worker's directives.
pub open spec fn is_directive_name(name: Seq<char>) -> bool {
    ||| name == "echo"@
    ||| name == "fail"@
    ||| name == "timeout"@
    ||| name == "harness-error"@
    ||| name == "hang"@
    ||| name == "die"@
    ||| name == "misaddressed"@
    ||| name == "noise"@
}

/// Code that is not a directive is echoed back whole, as a job that ran
/// cleanly: one reply, for this job, ok, exit code zero, not timed out, no
/// error, nothing on stderr, and the code itself on stdout.
pub proof fn law_plain_code_is_echoed(id: Seq<char>, code: Seq<char>)
    requires
        !is_directive_name(split_first(code, ':').0),
    ensures
        handling(id, code) matches HandledView::Serve(frames) && (frames.len() == 1 && (
        frames[0] matches FrameView::Reply(r) && (r.id == Some(id) && r.ok && r.stdout == code
            && r.stderr.len() == 0 && r.exit_code == Some(0i32) && !r.timed_out
            && r.error is None))),
{
}

/// Whenever the worker answers a job, its last frame is the reply to that job
/// and no earlier frame is: the reply carries the job's tag, exit code 1 for
/// `fail`, none for `timeout` (which alone is marked timed out) and 0
/// otherwise, and is not ok only for `harness-error`.
pub proof fn law_each_answer_ends_with_the_jobs_reply(id: Seq<char>, code: Seq<char>)
    ensures
        handling(id, code) matches HandledView::Serve(frames) ==> {
            let kind = split_first(code, ':').0;
            &&& frames.len() > 0
            &&& frames.last() matches FrameView::Reply(r) && (r.id == Some(id) && r.exit_code == (
            if kind == "fail"@ {
                Some(1i32)
            } else if kind == "timeout"@ {
                None
            } else {
                Some(0i32)
            }) && r.timed_out == (kind == "timeout"@) && r.ok == (kind != "harness-error"@))
            &&& forall|i: int|
                0 <= i < frames.len() - 1 ==> !(#[trigger] frames[i] matches FrameView::Reply(r)
                    && (r.id == Some(id)))
        },
        (handling(id, code) is HangThenStop) == (split_first(code, ':').0 == "hang"@),
        (handling(id, code) is Stop) == (split_first(code, ':').0 == "die"@),
{
    reveal_strlit("echo");
    reveal_strlit("fail");
    reveal_strlit("timeout");
    reveal_strlit("harness-error");
    reveal_strlit("hang");
    reveal_strlit("die");
    reveal_strlit("misaddressed");
    reveal_strlit("noise");
    reveal_strlit("-not-this-one");
    assert("echo"@.len() == 4 && "echo"@[0] == 'e');
    assert("fail"@.len() == 4 && "fail"@[0] == 'f');
    assert("hang"@.len() == 4 && "hang"@[0] == 'h');
    assert("timeout"@.len() == 7);
    assert("harness-error"@.len() == 13);
    assert("die"@.len() == 3);
    assert("misaddressed"@.len() == 12);
    assert("noise"@.len() == 5);
    assert(stray_id(id).len() > id.len());
}


/// What each directive puts in its answer, read from the code around its
/// first `:`: `echo` replies once with the text on stdout, `fail` once with it
/// on stderr, `timeout` once with nothing written, `harness-error` once with it
/// as the error; `misaddressed` first replies to the job's tag with
/// `-not-this-one` appended, with `stray` on stdout, then with the text;
/// `noise` first writes the line `this is not json`, then replies with the
/// text.
pub proof fn law_directives_carry_their_text(id: Seq<char>, code: Seq<char>)
    ensures
        ({
            let kind = split_first(code, ':').0;
            let text = split_first(code, ':').1;
            let h = handling(id, code);
            &&& kind == "echo"@ ==> (h matches HandledView::Serve(f) && (f.len() == 1 && (
            f[0] matches FrameView::Reply(r) && (r.stdout == text && r.stderr.len() == 0))))
            &&& kind == "fail"@ ==> (h matches HandledView::Serve(f) && (f.len() == 1 && (
            f[0] matches FrameView::Reply(r) && (r.stderr == text && r.stdout.len() == 0))))
            &&& kind == "timeout"@ ==> (h matches HandledView::Serve(f) && (f.len() == 1 && (
            f[0] matches FrameView::Reply(r) && (r.stdout.len() == 0 && r.stderr.len() == 0))))
            &&& kind == "harness-error"@ ==> (h matches HandledView::Serve(f) && (f.len() == 1
                && (f[0] matches FrameView::Reply(r) && (r.error == Some(text)))))
            &&& kind == "misaddressed"@ ==> (h matches HandledView::Serve(f) && (f.len() == 2 && (
            f[0] matches FrameView::Reply(s) && (s.id == Some(id + "-not-this-one"@) && s.stdout
                == "stray"@)) && (f[1] matches FrameView::Reply(r) && (r.stdout == text))))
            &&& kind == "noise"@ ==> (h matches HandledView::Serve(f) && (f.len() == 2 && (
            f[0] == FrameView::Raw("this is not json"@)) && (f[1] matches FrameView::Reply(r) && (
            r.stdout == text))))
        }),
{
    reveal_strlit("echo");
    reveal_strlit("fail");
    reveal_strlit("timeout");
    reveal_strlit("harness-error");
    reveal_strlit("hang");
    reveal_strlit("die");
    reveal_strlit("misaddressed");
    reveal_strlit("noise");
    assert("echo"@.len() == 4 && "echo"@[0] == 'e');
    assert("fail"@.len() == 4 && "fail"@[0] == 'f');
    assert("hang"@.len() == 4 && "hang"@[0] == 'h');
    assert("timeout"@.len() == 7);
    assert("harness-error"@.len() == 13);
    assert("die"@.len() == 3);
    assert("misaddressed"@.len() == 12);
    assert("noise"@.len() == 5);
}

} // verus!
