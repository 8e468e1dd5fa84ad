//! A queue of conversion tasks run as a batch.
//!
//! The queue hands its tasks out for processing and collects their
//! results. What a worker does with the outcome of a task (recording a
//! failure, stopping when errors are not to be continued past) and the
//! progress counts are decided here; running the workers is the caller's.

use vstd::prelude::*;
use vstd::string::*;
use std::time::Instant;
use crate::tools::{clock_elapsed, clock_now, duration_millis, logical_cpus};

verus! {

/// One conversion task.
#[derive(Debug, Clone)]
pub struct BatchTask {
    pub id: usize,
    pub input: String,
    pub output: String,
    pub format: String,
    pub quality: Option<u32>,
    pub use_ai: bool,
}

/// The state of a task.
#[derive(Debug, Clone, Copy, PartialEq, Eq, Structural)]
pub enum TaskStatus {
    Pending,
    Processing,
    Completed,
    Failed,
    Skipped,
}

/// The result of a task.
#[derive(Debug, Clone)]
pub struct TaskResult {
    pub task_id: usize,
    pub status: TaskStatus,
    pub input: String,
    pub output: Option<String>,
    pub duration_ms: u64,
    pub original_size: u64,
    pub output_size: Option<u64>,
    /// The compression ratio, as the bit pattern of an `f64`.
    pub compression_ratio_bits: Option<u64>,
    pub error: Option<String>,
}

/// Settings of a batch.
#[derive(Debug, Clone, Copy, PartialEq, Eq, Structural)]
pub struct BatchConfig {
    pub concurrency: usize,
    pub continue_on_error: bool,
    pub show_progress: bool,
    pub checkpoint: bool,
}

impl Default for BatchConfig {
    /// As many workers as logical CPUs, continuing past errors, with progress shown.
    fn default() -> (res: Self)
        ensures
            res.concurrency >= 1,
            res.continue_on_error,
            res.show_progress,
            !res.checkpoint,
    {
        BatchConfig { concurrency: logical_cpus(), continue_on_error: true, show_progress: true, checkpoint: false }
    }
}

/// The counts of a batch's progress.
#[derive(Debug, Clone, Copy, PartialEq, Eq, Structural)]
pub struct ProgressCounts {
    pub total: usize,
    pub completed: usize,
    pub failed: usize,
    pub skipped: usize,
    /// Tasks without a result yet.
    pub processing: usize,
}

/// The number of results with the given status among the first `k`.
pub open spec fn count_status(r: Seq<TaskResult>, s: TaskStatus, k: int) -> nat
    decreases k,
{
    if k <= 0 {
        0
    } else {
        count_status(r, s, k - 1) + if r[k - 1].status == s { 1nat } else { 0nat }
    }
}

proof fn lemma_count_bound(r: Seq<TaskResult>, s: TaskStatus, k: int)
    requires
        0 <= k <= r.len(),
    ensures
        count_status(r, s, k) <= k,
    decreases k,
{
    if k > 0 {
        lemma_count_bound(r, s, k - 1);
    }
}

/// The progress counts of `total` tasks with the given results.
pub open spec fn progress_spec(total: usize, r: Seq<TaskResult>) -> ProgressCounts {
    ProgressCounts {
        total,
        completed: count_status(r, TaskStatus::Completed, r.len() as int) as usize,
        failed: count_status(r, TaskStatus::Failed, r.len() as int) as usize,
        skipped: count_status(r, TaskStatus::Skipped, r.len() as int) as usize,
        processing: (total - r.len()) as usize,
    }
}

proof fn lemma_counts_add_up(r: Seq<TaskResult>, k: int)
    requires
        0 <= k <= r.len(),
    ensures
        count_status(r, TaskStatus::Completed, k) + count_status(r, TaskStatus::Failed, k) + count_status(
            r,
            TaskStatus::Skipped,
            k,
        ) <= k,
    decreases k,
{
    if k > 0 {
        lemma_counts_add_up(r, k - 1);
    }
}

/// However the results stand, the completed, failed and skipped tasks are
/// among the results, and the tasks without a result make up the rest of
/// the total.
pub proof fn law_progress_counts_add_up(total: usize, r: Seq<TaskResult>)
    requires
        r.len() <= total,
    ensures
        progress_spec(total, r).completed + progress_spec(total, r).failed + progress_spec(total, r).skipped <= r.len(),
        progress_spec(total, r).processing + r.len() == total,
        progress_spec(total, r).total == total,
{
    lemma_counts_add_up(r, r.len() as int);
    lemma_count_bound(r, TaskStatus::Completed, r.len() as int);
    lemma_count_bound(r, TaskStatus::Failed, r.len() as int);
    lemma_count_bound(r, TaskStatus::Skipped, r.len() as int);
}

/// The progress counts of `total` tasks with the given results.
pub fn calculate_progress(total: usize, results: &[TaskResult]) -> (res: ProgressCounts)
    requires
        results@.len() <= total,
    ensures
        res == progress_spec(total, results@),
{
    let mut completed: usize = 0;
    let mut failed: usize = 0;
    let mut skipped: usize = 0;
    let mut i: usize = 0;
    while i < results.len()
        invariant
            i <= results@.len(),
            completed == count_status(results@, TaskStatus::Completed, i as int),
            failed == count_status(results@, TaskStatus::Failed, i as int),
            skipped == count_status(results@, TaskStatus::Skipped, i as int),
        decreases results@.len() - i,
    {
        proof {
            lemma_count_bound(results@, TaskStatus::Completed, i as int);
            lemma_count_bound(results@, TaskStatus::Failed, i as int);
            lemma_count_bound(results@, TaskStatus::Skipped, i as int);
        }
        match results[i].status {
            TaskStatus::Completed => completed = completed + 1,
            TaskStatus::Failed => failed = failed + 1,
            TaskStatus::Skipped => skipped = skipped + 1,
            _ => {},
        }
        i = i + 1;
    }
    ProgressCounts { total, completed, failed, skipped, processing: total - results.len() }
}

/// The result recorded for a task from what its processing gave: the
/// processor's result with the task's id, or a failure carrying the error.
pub open spec fn recorded_result(task: BatchTask, outcome: Result<TaskResult, String>, r: TaskResult) -> bool {
    match outcome {
        Ok(p) => r == TaskResult { task_id: task.id, ..p },
        Err(e) => r.task_id == task.id && r.status == TaskStatus::Failed && r.input@ == task.input@ && r.output
            is None && r.duration_ms == 0 && r.original_size == 0 && r.output_size is None
            && r.compression_ratio_bits is None && (r.error matches Some(m) && m@ == e@),
    }
}

/// The batch queue.
pub struct BatchQueue {
    tasks: Vec<BatchTask>,
    results: Vec<TaskResult>,
    config: BatchConfig,
    start_time: Option<Instant>,
}

impl BatchQueue {
    pub closed spec fn spec_tasks(&self) -> Seq<BatchTask> {
        self.tasks@
    }

    pub closed spec fn spec_results(&self) -> Seq<TaskResult> {
        self.results@
    }

    pub closed spec fn spec_config(&self) -> BatchConfig {
        self.config
    }

    pub closed spec fn started(&self) -> bool {
        self.start_time is Some
    }

    /// An empty queue.
    pub fn new(config: BatchConfig) -> (res: Self)
        ensures
            res.spec_tasks().len() == 0,
            res.spec_results().len() == 0,
            res.spec_config() == config,
            !res.started(),
    {
        BatchQueue { tasks: Vec::new(), results: Vec::new(), config, start_time: None }
    }

    /// Adds a task at the end.
    pub fn add_task(&mut self, task: BatchTask)
        ensures
            final(self).spec_tasks() == old(self).spec_tasks().push(task),
            final(self).spec_results() == old(self).spec_results(),
            final(self).spec_config() == old(self).spec_config(),
            final(self).started() == old(self).started(),
    {
        self.tasks.push(task);
    }

    /// Adds tasks at the end, in order.
    pub fn add_tasks(&mut self, tasks: Vec<BatchTask>)
        ensures
            final(self).spec_tasks() == old(self).spec_tasks() + tasks@,
            final(self).spec_results() == old(self).spec_results(),
            final(self).spec_config() == old(self).spec_config(),
            final(self).started() == old(self).started(),
    {
        let mut t = tasks;
        self.tasks.append(&mut t);
    }

    /// The number of tasks waiting.
    pub fn task_count(&self) -> (res: usize)
        ensures
            res == self.spec_tasks().len(),
    {
        self.tasks.len()
    }

    /// The settings.
    pub fn config(&self) -> (res: BatchConfig)
        ensures
            res == self.spec_config(),
    {
        self.config
    }

    /// The milliseconds since the batch started, or `None` before it has.
    /// The number is read from the clock.
    pub fn elapsed_ms(&self) -> (res: Option<u128>)
        ensures
            res is Some <==> self.started(),
    {
        match &self.start_time {
            Some(t) => {
                let d = clock_elapsed(t);
                Some(duration_millis(&d))
            },
            None => None,
        }
    }

    /// The number of workers for the waiting tasks: the configured
    /// concurrency, at most one per task.
    pub fn worker_count(&self) -> (res: usize)
        ensures
            res == if self.spec_config().concurrency < self.spec_tasks().len() {
                self.spec_config().concurrency as int
            } else {
                self.spec_tasks().len() as int
            },
    {
        let n = self.tasks.len();
        if self.config.concurrency < n { self.config.concurrency } else { n }
    }

    /// Starts the batch: the clock starts and every waiting task is handed
    /// out, in order.
    pub fn take_tasks(&mut self) -> (res: Vec<BatchTask>)
        ensures
            res@ == old(self).spec_tasks(),
            final(self).spec_tasks().len() == 0,
            final(self).spec_results() == old(self).spec_results(),
            final(self).spec_config() == old(self).spec_config(),
            final(self).started(),
    {
        self.start_time = Some(clock_now());
        let mut out: Vec<BatchTask> = Vec::new();
        std::mem::swap(&mut out, &mut self.tasks);
        out
    }

    /// What a worker makes of a task's outcome: the result to record, and
    /// whether the worker goes on to the next task (always after a
    /// success; after a failure only when errors are continued past).
    pub fn task_outcome(&self, task: &BatchTask, outcome: Result<TaskResult, String>) -> (res: (TaskResult, bool))
        ensures
            recorded_result(*task, outcome, res.0),
            res.1 == (outcome is Ok || self.spec_config().continue_on_error),
    {
        match outcome {
            Ok(r) => (TaskResult { task_id: task.id, ..r }, true),
            Err(e) => (
                TaskResult {
                    task_id: task.id,
                    status: TaskStatus::Failed,
                    input: task.input.clone(),
                    output: None,
                    duration_ms: 0,
                    original_size: 0,
                    output_size: None,
                    compression_ratio_bits: None,
                    error: Some(e),
                },
                self.config.continue_on_error,
            ),
        }
    }

    /// Records a result, after those already collected.
    pub fn record_result(&mut self, result: TaskResult)
        ensures
            final(self).spec_results() == old(self).spec_results().push(result),
            final(self).spec_tasks() == old(self).spec_tasks(),
            final(self).spec_config() == old(self).spec_config(),
            final(self).started() == old(self).started(),
    {
        self.results.push(result);
    }

    /// The results collected so far, in the order they came.
    pub fn results(&self) -> (res: &Vec<TaskResult>)
        ensures
            res@ == self.spec_results(),
    {
        &self.results
    }

    /// The progress of the queue, counted over the tasks still waiting and
    /// the results collected.
    pub fn get_progress(&self) -> (res: ProgressCounts)
        requires
            self.spec_results().len() <= self.spec_tasks().len(),
        ensures
            res == progress_spec(self.spec_tasks().len() as usize, self.spec_results()),
    {
        calculate_progress(self.tasks.len(), self.results.as_slice())
    }
}

} // verus!
