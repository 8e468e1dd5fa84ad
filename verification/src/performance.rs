//! The processing core's bookkeeping: configuration, CPU description, the
//! choice between the SIMD and the scalar path, and task statistics.

use vstd::prelude::*;
use std::time::{Duration, Instant};
use crate::tools::{clock_now, clock_elapsed, logical_cpus, physical_cpus};

verus! {

/// Settings of the processing core.
#[derive(Debug, Clone, Copy, PartialEq, Eq, Structural)]
pub struct PerformanceConfig {
    pub enable_simd: bool,
    /// Worker threads; 0 picks the number of CPUs.
    pub worker_threads: usize,
    pub memory_pool_size_mb: usize,
    pub enable_profiling: bool,
}

impl Default for PerformanceConfig {
    fn default() -> (res: Self)
        ensures
            res == (PerformanceConfig {
                enable_simd: true,
                worker_threads: 0,
                memory_pool_size_mb: 512,
                enable_profiling: true,
            }),
    {
        PerformanceConfig { enable_simd: true, worker_threads: 0, memory_pool_size_mb: 512, enable_profiling: true }
    }
}

/// Task statistics.
#[derive(Debug, Clone, Copy, PartialEq, Eq, Structural)]
pub struct PerformanceStats {
    pub total_tasks: u64,
    pub successful_tasks: u64,
    pub total_processing_time_ns: u64,
    pub avg_latency_ns: u64,
    pub simd_usage_count: u64,
    pub memory_allocations: u64,
}

impl PerformanceStats {
    pub open spec fn zero() -> PerformanceStats {
        PerformanceStats {
            total_tasks: 0,
            successful_tasks: 0,
            total_processing_time_ns: 0,
            avg_latency_ns: 0,
            simd_usage_count: 0,
            memory_allocations: 0,
        }
    }

    /// Successes and SIMD uses are counted among the tasks.
    pub open spec fn wf(self) -> bool {
        self.successful_tasks <= self.total_tasks && self.simd_usage_count <= self.total_tasks
    }
}

impl Default for PerformanceStats {
    fn default() -> (res: Self)
        ensures
            res == PerformanceStats::zero(),
    {
        PerformanceStats {
            total_tasks: 0,
            successful_tasks: 0,
            total_processing_time_ns: 0,
            avg_latency_ns: 0,
            simd_usage_count: 0,
            memory_allocations: 0,
        }
    }
}

/// What is known of the CPU.
#[derive(Debug, Clone, Copy, PartialEq, Eq, Structural)]
pub struct CpuInfo {
    pub cores: usize,
    pub logical_cores: usize,
    pub supports_avx2: bool,
    pub supports_avx512: bool,
    pub supports_neon: bool,
    pub cache_line_size: usize,
}

/// An operation on image data.
#[derive(Debug, Clone, Copy, PartialEq, Eq, Structural)]
pub enum ImageOperation {
    Resize { width: u32, height: u32 },
    Compress { quality: u8 },
    Enhance,
}

/// The processing path of a task.
#[derive(Debug, Clone, Copy, PartialEq, Eq, Structural)]
pub enum ProcessingPath {
    Simd,
    Scalar,
}

/// The number of worker threads: the configured count, or the CPUs when it is 0.
pub open spec fn worker_count(config: PerformanceConfig, cpus: usize) -> usize {
    if config.worker_threads == 0 {
        cpus
    } else {
        config.worker_threads
    }
}

/// The processing core.
pub struct PerformanceCore {
    config: PerformanceConfig,
    stats: PerformanceStats,
    cpu_info: CpuInfo,
    start_time: Instant,
}

impl PerformanceCore {
    pub closed spec fn spec_config(&self) -> PerformanceConfig {
        self.config
    }

    pub closed spec fn spec_stats(&self) -> PerformanceStats {
        self.stats
    }

    pub closed spec fn spec_cpu(&self) -> CpuInfo {
        self.cpu_info
    }

    /// The number of worker threads for a configuration: the configured
    /// count, or the number of logical CPUs (at least 1) when it is 0.
    pub fn worker_threads_for(config: &PerformanceConfig) -> (res: usize)
        ensures
            config.worker_threads != 0 ==> res == config.worker_threads,
            config.worker_threads == 0 ==> res >= 1,
    {
        if config.worker_threads == 0 {
            logical_cpus()
        } else {
            config.worker_threads
        }
    }

    /// Describes this machine's CPU: its physical and logical core counts,
    /// the SIMD extensions that the caller found the processor to support,
    /// and a cache line of 64 bytes.
    pub fn detect_cpu_info(supports_avx2: bool, supports_avx512: bool, supports_neon: bool) -> (res: CpuInfo)
        ensures
            res.cores >= 1,
            res.logical_cores >= 1,
            res.supports_avx2 == supports_avx2,
            res.supports_avx512 == supports_avx512,
            res.supports_neon == supports_neon,
            res.cache_line_size == 64,
    {
        CpuInfo {
            cores: physical_cpus(),
            logical_cores: logical_cpus(),
            supports_avx2,
            supports_avx512,
            supports_neon,
            cache_line_size: 64,
        }
    }

    /// A core with the given settings and CPU description; its statistics
    /// start at zero and its clock at the moment of the call.
    pub fn new(config: PerformanceConfig, cpu_info: CpuInfo) -> (res: Self)
        ensures
            res.spec_config() == config,
            res.spec_cpu() == cpu_info,
            res.spec_stats() == PerformanceStats::zero(),
    {
        PerformanceCore { config, stats: PerformanceStats::default(), cpu_info, start_time: clock_now() }
    }

    /// The statistics.
    pub fn get_stats(&self) -> (res: PerformanceStats)
        ensures
            res == self.spec_stats(),
    {
        self.stats
    }

    /// The CPU description.
    pub fn get_cpu_info(&self) -> (res: &CpuInfo)
        ensures
            *res == self.spec_cpu(),
    {
        &self.cpu_info
    }

    /// The time since the core was made.
    pub fn uptime(&self) -> Duration {
        clock_elapsed(&self.start_time)
    }

    /// The expected SIMD speed-up factor: 16 with AVX-512, 8 with AVX2,
    /// 4 with NEON, else 1.
    pub fn estimate_speedup(&self) -> (res: u32)
        ensures
            res == if self.spec_cpu().supports_avx512 {
                16u32
            } else if self.spec_cpu().supports_avx2 {
                8u32
            } else if self.spec_cpu().supports_neon {
                4u32
            } else {
                1u32
            },
    {
        if self.cpu_info.supports_avx512 {
            16
        } else if self.cpu_info.supports_avx2 {
            8
        } else if self.cpu_info.supports_neon {
            4
        } else {
            1
        }
    }

    /// Starts a task on `data_size` bytes: counts it, and chooses the SIMD
    /// path (counted as a SIMD use) for more than 100 000 bytes when SIMD is
    /// enabled, else the scalar path.
    pub fn begin_task(&mut self, data_size: usize) -> (res: ProcessingPath)
        requires
            old(self).spec_stats().wf(),
            old(self).spec_stats().total_tasks < u64::MAX,
        ensures
            final(self).spec_stats().wf(),
            final(self).spec_config() == old(self).spec_config(),
            final(self).spec_cpu() == old(self).spec_cpu(),
            res == if data_size > 100000 && old(self).spec_config().enable_simd {
                ProcessingPath::Simd
            } else {
                ProcessingPath::Scalar
            },
            final(self).spec_stats() == (PerformanceStats {
                total_tasks: (old(self).spec_stats().total_tasks + 1) as u64,
                simd_usage_count: if res == ProcessingPath::Simd {
                    (old(self).spec_stats().simd_usage_count + 1) as u64
                } else {
                    old(self).spec_stats().simd_usage_count
                },
                ..old(self).spec_stats()
            }),
    {
        self.stats.total_tasks = self.stats.total_tasks + 1;
        if data_size > 100000 && self.config.enable_simd {
            self.stats.simd_usage_count = self.stats.simd_usage_count + 1;
            ProcessingPath::Simd
        } else {
            ProcessingPath::Scalar
        }
    }

    /// Ends a task that took `duration_ns`: adds the time, recomputes the
    /// average latency over all tasks, and counts a success.
    pub fn end_task(&mut self, duration_ns: u64, succeeded: bool)
        requires
            old(self).spec_stats().wf(),
            old(self).spec_stats().total_processing_time_ns + duration_ns <= u64::MAX,
            succeeded ==> old(self).spec_stats().successful_tasks < old(self).spec_stats().total_tasks,
        ensures
            final(self).spec_stats().wf(),
            final(self).spec_config() == old(self).spec_config(),
            final(self).spec_cpu() == old(self).spec_cpu(),
            final(self).spec_stats() == (PerformanceStats {
                total_processing_time_ns: (old(self).spec_stats().total_processing_time_ns + duration_ns) as u64,
                avg_latency_ns: if old(self).spec_stats().total_tasks > 0 {
                    ((old(self).spec_stats().total_processing_time_ns + duration_ns) / old(
                        self,
                    ).spec_stats().total_tasks as int) as u64
                } else {
                    old(self).spec_stats().avg_latency_ns
                },
                successful_tasks: if succeeded {
                    (old(self).spec_stats().successful_tasks + 1) as u64
                } else {
                    old(self).spec_stats().successful_tasks
                },
                ..old(self).spec_stats()
            }),
    {
        self.stats.total_processing_time_ns = self.stats.total_processing_time_ns + duration_ns;
        if self.stats.total_tasks > 0 {
            self.stats.avg_latency_ns = self.stats.total_processing_time_ns / self.stats.total_tasks;
        }
        if succeeded {
            self.stats.successful_tasks = self.stats.successful_tasks + 1;
        }
    }
}

} // verus!
