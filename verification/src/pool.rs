//! The warm-worker pool's tuning knobs and its counters.

use vstd::prelude::*;

use crate::language::Language;

verus! {

/// How a host wants one language's worker pool sized and recycled.
///
/// The pool exists because a per-execution interpreter child costs tens of
/// megabytes resident. A small bounded set of warm workers turns many
/// concurrent jobs into a handful of interpreters, trading queueing latency for
/// a flat memory floor.
#[derive(Debug, Clone, Copy, PartialEq, Eq, Structural)]
pub struct PoolSettings {
    /// Whether execution may use warm workers at all. With the pool off, every
    /// job gets its own short-lived interpreter child.
    pub enabled: bool,
    /// Concurrent workers. Jobs beyond this queue rather than spawning.
    pub max_workers: usize,
    /// Retire a worker after this long idle. `0` keeps warm workers forever.
    pub idle_ttl_secs: u64,
    /// Retire a worker after this many jobs, bounding cross-job state leakage.
    /// `0` disables recycling.
    pub recycle_after_jobs: u64,
    /// Queued jobs allowed beyond the worker slots before the pool sheds load.
    pub max_queue_depth: usize,
}

impl PoolSettings {
    /// The clamped worker count. Never zero: a pool that can hold no workers
    /// would deadlock every submission rather than merely disabling itself.
    pub fn effective_max_workers(&self) -> (r: usize)
        ensures
            r >= 1,
            r == (if self.max_workers >= 1 { self.max_workers } else { 1 }),
    {
        if self.max_workers == 0 {
            1
        } else {
            self.max_workers
        }
    }

    /// The queue depth, allowing a queue of zero (submissions beyond the
    /// worker slots are shed immediately).
    pub fn effective_max_queue_depth(&self) -> (r: usize)
        ensures
            r == self.max_queue_depth,
    {
        self.max_queue_depth
    }

    /// The idle time-to-live, or `None` when warm workers are never reaped.
    pub fn idle_ttl_secs(&self) -> (r: Option<u64>)
        ensures
            r == (if self.idle_ttl_secs == 0 { None } else { Some(self.idle_ttl_secs) }),
    {
        if self.idle_ttl_secs == 0 {
            None
        } else {
            Some(self.idle_ttl_secs)
        }
    }

    /// These settings with `max_workers` replaced.
    pub fn with_max_workers(self, max_workers: usize) -> (r: Self)
        ensures
            r == (PoolSettings { max_workers, ..self }),
    {
        PoolSettings { max_workers, ..self }
    }
}

impl Default for PoolSettings {
    /// A small pool sized for a host running many agents rather than one big job.
    fn default() -> (r: Self)
        ensures
            r == default_pool_settings(),
    {
        PoolSettings {
            enabled: true,
            max_workers: 2,
            idle_ttl_secs: 300,
            recycle_after_jobs: 100,
            max_queue_depth: 256,
        }
    }
}

/// The settings a host gets when it tunes nothing.
pub open spec fn default_pool_settings() -> PoolSettings {
    PoolSettings {
        enabled: true,
        max_workers: 2,
        idle_ttl_secs: 300,
        recycle_after_jobs: 100,
        max_queue_depth: 256,
    }
}

/// One live pool's counters.
#[derive(Debug, Clone)]
pub struct PoolStats {
    /// The language this pool serves.
    pub language: Language,
    /// Jobs completed since the pool was built.
    pub jobs_total: u64,
    /// Interpreter children spawned. Far below `jobs_total` is the pool working.
    pub worker_spawns: u64,
    /// Submissions refused because the pool was at capacity.
    pub rejected_saturated: u64,
    /// Warm workers currently parked and reusable.
    pub idle_workers: usize,
    /// The pool's configured concurrency.
    pub max_workers: usize,
}

impl PartialEq for PoolStats {
    fn eq(&self, other: &Self) -> (r: bool) {
        self.language == other.language && self.jobs_total == other.jobs_total
            && self.worker_spawns == other.worker_spawns && self.rejected_saturated
            == other.rejected_saturated && self.idle_workers == other.idle_workers
            && self.max_workers == other.max_workers
    }
}

impl vstd::std_specs::cmp::PartialEqSpecImpl for PoolStats {
    open spec fn obeys_eq_spec() -> bool {
        true
    }

    open spec fn eq_spec(&self, other: &Self) -> bool {
        &&& self.language@ == other.language@
        &&& self.jobs_total == other.jobs_total
        &&& self.worker_spawns == other.worker_spawns
        &&& self.rejected_saturated == other.rejected_saturated
        &&& self.idle_workers == other.idle_workers
        &&& self.max_workers == other.max_workers
    }
}

impl Eq for PoolStats {}

/// The reply listing every live pool.
#[derive(Debug, Clone)]
pub struct PoolStatsResponse {
    /// One entry per language with a live pool.
    pub pools: Vec<PoolStats>,
}


/// The default pool is small and recycles: enabled, two workers, workers
/// retired after five idle minutes or a hundred jobs, and room for 256 queued
/// jobs.
pub proof fn law_default_pool_is_small_and_recycles()
    ensures
        default_pool_settings().enabled,
        default_pool_settings().max_workers == 2,
        default_pool_settings().idle_ttl_secs == 300,
        default_pool_settings().recycle_after_jobs == 100,
        default_pool_settings().max_queue_depth == 256,
{
}

} // verus!
