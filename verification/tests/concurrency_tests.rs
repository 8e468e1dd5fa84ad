use pixly_kernel::dynamic_concurrency::{DynamicWorkerPool, SmartConcurrencyManager};

#[test]
fn test_dynamic_worker_pool() {
    let mut pool = DynamicWorkerPool::new(8);
    let slots_small = pool.acquire(1.5f64.to_bits());
    assert_eq!(slots_small, 1);
    let slots_medium = pool.acquire(5.0f64.to_bits());
    assert_eq!(slots_medium, 2);
    let slots_large = pool.acquire(20.0f64.to_bits());
    assert_eq!(slots_large, 4);
    let slots_huge = pool.acquire(50.0f64.to_bits());
    assert_eq!(slots_huge, 4);
    // the last request did not fit (7 of 8 in use): only three were taken
    assert_eq!(pool.active_workers(), 7);
    pool.release(slots_small);
    pool.release(slots_medium);
    pool.release(slots_large);
    assert_eq!(pool.active_workers(), 0);
}

#[test]
fn pool_band_edges_follow_f64_comparison() {
    let mut pool = DynamicWorkerPool::new(100);
    assert_eq!(pool.acquire(2.0f64.to_bits()), 2);
    assert_eq!(pool.acquire(1.999999f64.to_bits()), 1);
    assert_eq!(pool.acquire(8.0f64.to_bits()), 4);
    assert_eq!(pool.acquire(32.0f64.to_bits()), 50);
    assert_eq!(pool.acquire((-3.0f64).to_bits()), 1);
    assert_eq!(pool.acquire((-0.0f64).to_bits()), 1);
    assert_eq!(pool.acquire(f64::NAN.to_bits()), 50);
    assert_eq!(pool.acquire(f64::INFINITY.to_bits()), 50);
}

#[test]
fn pool_small_pools_cap_at_half_or_one() {
    let mut pool = DynamicWorkerPool::new(1);
    assert_eq!(pool.acquire(50.0f64.to_bits()), 1);
    assert_eq!(pool.active_workers(), 1);
    let mut pool = DynamicWorkerPool::new(6);
    assert_eq!(pool.acquire(50.0f64.to_bits()), 3);
    assert_eq!(pool.acquire(20.0f64.to_bits()), 3);
    assert_eq!(pool.active_workers(), 6);
}

#[test]
fn pool_release_undoes_acquire() {
    let mut pool = DynamicWorkerPool::new(10);
    let before = pool.active_workers();
    let n = pool.acquire(9.0f64.to_bits());
    assert_eq!(pool.active_workers(), before + n);
    pool.release(n);
    assert_eq!(pool.active_workers(), before);
}

#[test]
fn smart_manager_counts_jobs() {
    let mut manager = SmartConcurrencyManager::new();
    manager.record_job_completion(true);
    manager.record_job_completion(true);
    manager.record_job_completion(false);
    let stats = manager.get_stats();
    assert_eq!(stats.total_jobs, 3);
    assert_eq!(stats.successful_jobs, 2);
    assert_eq!(stats.failed_jobs, 1);
    assert_eq!(stats.max_workers, stats.min_workers * 4);
    assert_eq!(manager.current_workers(), stats.min_workers * 2);
    assert_eq!(f64::from_bits(manager.low_complexity_threshold()), 30.0);
    assert_eq!(f64::from_bits(manager.high_complexity_threshold()), 80.0);
    assert_eq!(f64::from_bits(manager.memory_threshold()), 75.0);
}
