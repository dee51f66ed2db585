//! The execution payloads: what a host asks to run, and what comes back.

use vstd::prelude::*;

use crate::language::Language;
use crate::pool::{PoolSettings, default_pool_settings};

verus! {

/// How a host wants one language's toolchain provisioned.
#[derive(Debug, Clone)]
pub struct RuntimeSettings {
    /// Whether this language may be used at all.
    pub enabled: bool,
    /// The toolchain version wanted.
    pub version: String,
    /// Where managed toolchains are installed, or empty for the platform cache.
    pub cache_dir: String,
    /// Whether a compatible toolchain already on the host may be reused.
    pub prefer_system: bool,
}

impl RuntimeSettings {
    /// Settings asking for `version`, enabled, preferring a host toolchain, in
    /// the platform cache.
    pub fn new(version: &str) -> (r: Self)
        ensures
            r.enabled,
            r.version@ == version@,
            r.cache_dir@.len() == 0,
            r.prefer_system,
    {
        RuntimeSettings {
            enabled: true,
            version: version.to_owned(),
            cache_dir: String::new(),
            prefer_system: true,
        }
    }
}

/// One job: source code in a language, on a toolchain, through a pool.
#[derive(Debug, Clone)]
pub struct ExecRequest {
    /// The language the code is written in.
    pub language: Language,
    /// The toolchain to run it on.
    pub settings: RuntimeSettings,
    /// How the worker pool for this language is sized.
    pub pool: PoolSettings,
    /// The source to run.
    pub code: String,
    /// The working directory, or `None` for the worker's own.
    pub cwd: Option<String>,
    /// A deadline in milliseconds, or `None` for none.
    pub timeout_ms: Option<u64>,
}

impl ExecRequest {
    /// A request on the standard pool, with no working directory and no
    /// deadline.
    pub fn new(language: Language, settings: RuntimeSettings, code: &str) -> (r: Self)
        ensures
            r.language@ == language@,
            r.settings == settings,
            r.pool == default_pool_settings(),
            r.code@ == code@,
            r.cwd is None,
            r.timeout_ms is None,
    {
        ExecRequest {
            language,
            settings,
            pool: PoolSettings::default(),
            code: code.to_owned(),
            cwd: None,
            timeout_ms: None,
        }
    }

    /// This request, run in `cwd`.
    pub fn with_cwd(self, cwd: &str) -> (r: Self)
        ensures
            r.cwd matches Some(c) && c@ == cwd@,
            r.language == self.language,
            r.settings == self.settings,
            r.pool == self.pool,
            r.code == self.code,
            r.timeout_ms == self.timeout_ms,
    {
        ExecRequest { cwd: Some(cwd.to_owned()), ..self }
    }

    /// This request, aborted after `timeout_ms` milliseconds.
    pub fn with_timeout_ms(self, timeout_ms: u64) -> (r: Self)
        ensures
            r.timeout_ms == Some(timeout_ms),
            r.language == self.language,
            r.settings == self.settings,
            r.pool == self.pool,
            r.code == self.code,
            r.cwd == self.cwd,
    {
        ExecRequest { timeout_ms: Some(timeout_ms), ..self }
    }
}

/// What running one job produced.
#[derive(Debug, Clone)]
pub struct ExecResponse {
    /// What the job wrote to standard output.
    pub stdout: String,
    /// What the job wrote to standard error.
    pub stderr: String,
    /// The exit code, or `None` where the worker reports none.
    pub exit_code: Option<i32>,
    /// Whether the job was aborted at its deadline.
    pub timed_out: bool,
    /// How long the job ran, in milliseconds.
    pub elapsed_ms: u64,
    /// How long the job waited for a worker before it ran, in milliseconds.
    pub queue_wait_ms: u64,
    /// The toolchain version that ran it.
    pub version: String,
}

/// A job succeeded: it exited cleanly (code zero, or no code at all) and was
/// not cut off at its deadline.
pub open spec fn is_success(exit_code: Option<i32>, timed_out: bool) -> bool {
    !timed_out && (exit_code is None || exit_code == Some(0i32))
}

impl ExecResponse {
    /// A finished, untimed job's outcome.
    pub fn new(stdout: &str, stderr: &str, exit_code: Option<i32>, version: &str) -> (r: Self)
        ensures
            r.stdout@ == stdout@,
            r.stderr@ == stderr@,
            r.exit_code == exit_code,
            !r.timed_out,
            r.elapsed_ms == 0,
            r.queue_wait_ms == 0,
            r.version@ == version@,
    {
        ExecResponse {
            stdout: stdout.to_owned(),
            stderr: stderr.to_owned(),
            exit_code,
            timed_out: false,
            elapsed_ms: 0,
            queue_wait_ms: 0,
            version: version.to_owned(),
        }
    }

    /// Whether the job succeeded: a clean exit and no timeout.
    pub fn success(&self) -> (r: bool)
        ensures
            r == is_success(self.exit_code, self.timed_out),
    {
        !self.timed_out && match self.exit_code {
            None => true,
            Some(code) => code == 0,
        }
    }
}


/// A job cut off at its deadline never succeeded, whatever exit code it
/// reports (none included); a job that exited with a non-zero code never
/// succeeded; a job that finished in time with code zero, or with no code,
/// did.
pub proof fn law_success_needs_a_clean_finish_in_time(exit_code: Option<i32>, timed_out: bool)
    ensures
        timed_out ==> !is_success(exit_code, timed_out),
        (exit_code matches Some(c) && c != 0) ==> !is_success(exit_code, timed_out),
        !timed_out && exit_code is None ==> is_success(exit_code, timed_out),
        !timed_out && exit_code == Some(0i32) ==> is_success(exit_code, timed_out),
{
}

} // verus!
