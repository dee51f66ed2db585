use tinyruntime::language::Language;
use tinyruntime::pool::{PoolSettings, PoolStats};

#[test]
fn the_default_pool_is_small_and_recycles() {
    let settings = PoolSettings::default();
    assert!(settings.enabled);
    assert_eq!(settings.effective_max_workers(), 2);
    assert_eq!(settings.recycle_after_jobs, 100);
}

#[test]
fn a_zero_worker_pool_is_clamped_rather_than_deadlocking() {
    let settings = PoolSettings {
        max_workers: 0,
        ..PoolSettings::default()
    };
    assert_eq!(settings.effective_max_workers(), 1);
}

#[test]
fn a_zero_ttl_keeps_workers_warm_forever() {
    let settings = PoolSettings {
        idle_ttl_secs: 0,
        ..PoolSettings::default()
    };
    assert_eq!(settings.idle_ttl_secs(), None);
    assert_eq!(PoolSettings::default().idle_ttl_secs(), Some(300));
}

#[test]
fn a_zero_queue_depth_sheds_immediately_rather_than_being_clamped_up() {
    let settings = PoolSettings {
        max_queue_depth: 0,
        ..PoolSettings::default()
    };
    assert_eq!(settings.effective_max_queue_depth(), 0);
}

#[test]
fn the_default_pool_matches_its_published_tuning() {
    let settings = PoolSettings::default();
    assert_eq!(settings.max_workers, 2);
    assert_eq!(settings.idle_ttl_secs, 300);
    assert_eq!(settings.max_queue_depth, 256);
    assert_eq!(settings.effective_max_queue_depth(), 256);
}

#[test]
fn a_large_worker_count_is_kept_as_given() {
    let settings = PoolSettings::default().with_max_workers(8);
    assert_eq!(settings.effective_max_workers(), 8);
    assert_eq!(settings, PoolSettings { max_workers: 8, ..PoolSettings::default() });
}

#[test]
fn pool_counters_compare_field_by_field() {
    let fresh = PoolStats {
        language: Language::nodejs(),
        jobs_total: 0,
        worker_spawns: 0,
        rejected_saturated: 0,
        idle_workers: 0,
        max_workers: PoolSettings::default().effective_max_workers(),
    };
    assert_eq!(fresh.clone(), fresh);
    assert_ne!(PoolStats { jobs_total: 1, ..fresh.clone() }, fresh);
    assert_ne!(PoolStats { language: Language::python(), ..fresh.clone() }, fresh);
}
