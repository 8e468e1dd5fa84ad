use pixly_kernel::batch_queue::{calculate_progress, BatchConfig, BatchQueue, BatchTask, TaskResult, TaskStatus};
use pixly_kernel::performance::PerformanceCore;

fn task(id: usize, input: &str, output: &str) -> BatchTask {
    BatchTask {
        id,
        input: input.to_string(),
        output: output.to_string(),
        format: "webp".to_string(),
        quality: Some(85),
        use_ai: false,
    }
}

fn done(t: &BatchTask, status: TaskStatus) -> TaskResult {
    TaskResult {
        task_id: 999,
        status,
        input: t.input.clone(),
        output: Some(t.output.clone()),
        duration_ms: 10,
        original_size: 1000,
        output_size: Some(500),
        compression_ratio_bits: Some(0.5f64.to_bits()),
        error: None,
    }
}

#[test]
fn test_batch_queue_creation() {
    let config = BatchConfig::default();
    let queue = BatchQueue::new(config);
    assert_eq!(queue.task_count(), 0);
}

#[test]
fn test_add_tasks() {
    let config = BatchConfig::default();
    let mut queue = BatchQueue::new(config);
    queue.add_task(task(1, "test1.png", "test1.webp"));
    assert_eq!(queue.task_count(), 1);
}

#[test]
fn test_batch_execution() {
    let config = BatchConfig { concurrency: 2, continue_on_error: true, show_progress: false, checkpoint: false };
    let mut queue = BatchQueue::new(config);
    for i in 0..5 {
        queue.add_task(task(i, &format!("test{}.png", i), &format!("test{}.webp", i)));
    }
    assert_eq!(queue.worker_count(), 2);
    let tasks = queue.take_tasks();
    assert_eq!(queue.task_count(), 0);
    let mut results = Vec::new();
    for t in tasks.iter() {
        let (r, go_on) = queue.task_outcome(t, Ok(done(t, TaskStatus::Completed)));
        assert!(go_on);
        assert_eq!(r.task_id, t.id);
        results.push(r.clone());
        queue.record_result(r);
    }
    assert_eq!(results.len(), 5);
    assert_eq!(results.iter().filter(|r| r.status == TaskStatus::Completed).count(), 5);
    assert_eq!(queue.results().len(), 5);
}

#[test]
fn batch_default_config_uses_cpus() {
    let c = BatchConfig::default();
    assert!(c.concurrency >= 1);
    assert!(c.continue_on_error);
    assert!(c.show_progress);
    assert!(!c.checkpoint);
}

#[test]
fn batch_add_tasks_keeps_order() {
    let mut queue = BatchQueue::new(BatchConfig::default());
    queue.add_task(task(7, "a.png", "a.webp"));
    queue.add_tasks(vec![task(8, "b.png", "b.webp"), task(9, "c.png", "c.webp")]);
    let ids: Vec<usize> = queue.take_tasks().iter().map(|t| t.id).collect();
    assert_eq!(ids, vec![7, 8, 9]);
}

#[test]
fn batch_worker_count_is_capped_by_tasks() {
    let config = BatchConfig { concurrency: 8, continue_on_error: true, show_progress: false, checkpoint: false };
    let mut queue = BatchQueue::new(config);
    assert_eq!(queue.worker_count(), 0);
    queue.add_task(task(1, "a.png", "a.webp"));
    queue.add_task(task(2, "b.png", "b.webp"));
    assert_eq!(queue.worker_count(), 2);
}

#[test]
fn batch_failure_is_recorded_and_stops_without_continue() {
    let config = BatchConfig { concurrency: 1, continue_on_error: false, show_progress: false, checkpoint: false };
    let queue = BatchQueue::new(config);
    let t = task(3, "bad.png", "bad.webp");
    let (r, go_on) = queue.task_outcome(&t, Err("decode error".to_string()));
    assert!(!go_on);
    assert_eq!(r.task_id, 3);
    assert_eq!(r.status, TaskStatus::Failed);
    assert_eq!(r.input, "bad.png");
    assert_eq!(r.output, None);
    assert_eq!(r.error, Some("decode error".to_string()));
    assert_eq!(r.original_size, 0);

    let config = BatchConfig { continue_on_error: true, ..config };
    let queue = BatchQueue::new(config);
    let (_, go_on) = queue.task_outcome(&t, Err("decode error".to_string()));
    assert!(go_on);
}

#[test]
fn batch_progress_counts() {
    let t = task(1, "a.png", "a.webp");
    let results = vec![
        done(&t, TaskStatus::Completed),
        done(&t, TaskStatus::Failed),
        done(&t, TaskStatus::Completed),
        done(&t, TaskStatus::Skipped),
    ];
    let p = calculate_progress(6, &results);
    assert_eq!(p.total, 6);
    assert_eq!(p.completed, 2);
    assert_eq!(p.failed, 1);
    assert_eq!(p.skipped, 1);
    assert_eq!(p.processing, 2);
}

#[test]
fn batch_queue_progress_counts_waiting_tasks() {
    let mut queue = BatchQueue::new(BatchConfig::default());
    queue.add_task(task(1, "a.png", "a.webp"));
    queue.add_task(task(2, "b.png", "b.webp"));
    let t = task(1, "a.png", "a.webp");
    queue.record_result(done(&t, TaskStatus::Completed));
    let p = queue.get_progress();
    assert_eq!(p.total, 2);
    assert_eq!(p.completed, 1);
    assert_eq!(p.processing, 1);
}

#[test]
fn test_cpu_info_detection() {
    let cpu_info = PerformanceCore::detect_cpu_info(false, false, false);
    assert!(cpu_info.logical_cores > 0);
    assert!(cpu_info.cores > 0);
    assert_eq!(cpu_info.cache_line_size, 64);
}

#[test]
fn cpu_info_keeps_simd_flags() {
    let cpu_info = PerformanceCore::detect_cpu_info(true, false, true);
    assert!(cpu_info.supports_avx2);
    assert!(!cpu_info.supports_avx512);
    assert!(cpu_info.supports_neon);
}
