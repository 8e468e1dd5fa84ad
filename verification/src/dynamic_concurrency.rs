//! Concurrency limits that follow the size of the work: a pool of worker
//! slots of which larger images take more, and counters of finished jobs.
//!
//! Pixel counts in megapixels are `f64` values in the interface; they are
//! carried as their IEEE-754 bit patterns, and compared against the band
//! limits exactly as `<` on `f64` compares them.

use vstd::prelude::*;
use crate::tools::logical_cpus;
use crate::floatbits::{f64_lt, lt};

verus! {

/// The bit pattern of `2.0f64`.
pub const TWO_BITS: u64 = 0x4000_0000_0000_0000u64;
/// The bit pattern of `8.0f64`.
pub const EIGHT_BITS: u64 = 0x4020_0000_0000_0000u64;
/// The bit pattern of `32.0f64`.
pub const THIRTY_TWO_BITS: u64 = 0x4040_0000_0000_0000u64;

/// The slots an image of the given size (in megapixels, as bits) asks of a
/// pool of `max` workers: 1 under 2 MP, 2 under 8 MP, 4 under 32 MP, else
/// half the pool but at least 4; never more than half the pool (at least 1).
pub open spec fn slots_for(max: usize, mp_bits: u64) -> usize {
    let half = max / 2;
    let needed: usize = if f64_lt(mp_bits, TWO_BITS) {
        1
    } else if f64_lt(mp_bits, EIGHT_BITS) {
        2
    } else if f64_lt(mp_bits, THIRTY_TWO_BITS) {
        4
    } else if half > 4 {
        half
    } else {
        4
    };
    let cap: usize = if half > 1 { half } else { 1 };
    if needed < cap { needed } else { cap }
}

/// A pool of worker slots.
pub struct DynamicWorkerPool {
    max_workers: usize,
    active_workers: usize,
    available_slots: usize,
}

/// The state of a pool: (largest number of workers, slots in use, slots free).
pub type PoolState = (usize, usize, usize);

/// The state after an image of the given size asks for slots: the slots
/// are taken when enough are free, else nothing changes.
pub open spec fn after_acquire(s: PoolState, mp_bits: u64) -> PoolState {
    let n = slots_for(s.0, mp_bits);
    if s.2 >= n {
        (s.0, (s.1 + n) as usize, (s.2 - n) as usize)
    } else {
        s
    }
}

/// The state after `n` slots are given back.
pub open spec fn after_release(s: PoolState, n: usize) -> PoolState {
    (s.0, (s.1 - n) as usize, (s.2 + n) as usize)
}

impl DynamicWorkerPool {
    /// The pool's state.
    pub closed spec fn view_state(&self) -> PoolState {
        (self.max_workers, self.active_workers, self.available_slots)
    }

    /// The slots in use and the free slots together make up the pool.
    pub open spec fn wf(&self) -> bool {
        self.view_state().1 + self.view_state().2 == self.view_state().0
    }

    /// A pool of `max_workers` free slots.
    pub fn new(max_workers: usize) -> (res: Self)
        ensures
            res.view_state() == (max_workers, 0usize, max_workers),
            res.wf(),
    {
        DynamicWorkerPool { max_workers, active_workers: 0, available_slots: max_workers }
    }

    /// Asks for the slots an image of `megapixels_bits` (the bits of an
    /// `f64`) needs; they are taken when enough are free. The number the
    /// image asks for is returned whether or not it was taken.
    pub fn acquire(&mut self, megapixels_bits: u64) -> (res: usize)
        requires
            old(self).wf(),
        ensures
            res == slots_for(old(self).view_state().0, megapixels_bits),
            final(self).view_state() == after_acquire(old(self).view_state(), megapixels_bits),
            final(self).wf(),
    {
        let half = self.max_workers / 2;
        let needed: usize = if lt(megapixels_bits, TWO_BITS) {
            1
        } else if lt(megapixels_bits, EIGHT_BITS) {
            2
        } else if lt(megapixels_bits, THIRTY_TWO_BITS) {
            4
        } else if half > 4 {
            half
        } else {
            4
        };
        let cap: usize = if half > 1 { half } else { 1 };
        let slots = if needed < cap { needed } else { cap };
        if self.available_slots >= slots {
            self.available_slots = self.available_slots - slots;
            self.active_workers = self.active_workers + slots;
        }
        slots
    }

    /// Gives back `slots` slots, which must be in use.
    pub fn release(&mut self, slots: usize)
        requires
            old(self).wf(),
            slots <= old(self).view_state().1,
        ensures
            final(self).view_state() == after_release(old(self).view_state(), slots),
            final(self).wf(),
    {
        self.available_slots = self.available_slots + slots;
        self.active_workers = self.active_workers - slots;
    }

    /// The slots in use.
    pub fn active_workers(&self) -> (res: usize)
        ensures
            res == self.view_state().1,
    {
        self.active_workers
    }
}

/// Giving back the slots an image took restores the pool to what it was
/// before the image asked for them.
pub proof fn law_release_undoes_acquire(s: PoolState, mp_bits: u64)
    requires
        s.1 + s.2 == s.0,
        s.2 >= slots_for(s.0, mp_bits),
    ensures
        after_release(after_acquire(s, mp_bits), slots_for(s.0, mp_bits)) == s,
{
}

/// Asking for slots never lets the slots in use exceed the pool, and never
/// takes more than half of a pool of two or more workers.
pub proof fn law_acquire_within_pool(s: PoolState, mp_bits: u64)
    requires
        s.1 + s.2 == s.0,
    ensures
        after_acquire(s, mp_bits).1 + after_acquire(s, mp_bits).2 == s.0,
        after_acquire(s, mp_bits).1 <= s.0,
        s.0 >= 2 ==> slots_for(s.0, mp_bits) <= s.0 / 2,
        slots_for(s.0, mp_bits) >= 1,
{
}

/// Counters of the jobs of a concurrency manager.
#[derive(Debug, Clone, Copy, PartialEq, Eq, Structural)]
pub struct ConcurrencyStats {
    pub total_jobs: usize,
    pub successful_jobs: usize,
    pub failed_jobs: usize,
    pub current_workers: usize,
    pub max_workers: usize,
    pub min_workers: usize,
}

/// The bit pattern of `30.0f64`.
pub const LOW_COMPLEXITY_BITS: u64 = 0x403E_0000_0000_0000u64;
/// The bit pattern of `80.0f64`.
pub const HIGH_COMPLEXITY_BITS: u64 = 0x4054_0000_0000_0000u64;
/// The bit pattern of `75.0f64`.
pub const MEMORY_THRESHOLD_BITS: u64 = 0x4052_C000_0000_0000u64;

/// A manager of concurrency: worker bounds from the number of CPUs,
/// complexity thresholds, and job counters.
pub struct SmartConcurrencyManager {
    max_workers: usize,
    min_workers: usize,
    current_workers: usize,
    total_jobs: usize,
    successful_jobs: usize,
    failed_jobs: usize,
}

impl SmartConcurrencyManager {
    /// The manager's counters and bounds.
    pub closed spec fn view_stats(&self) -> ConcurrencyStats {
        ConcurrencyStats {
            total_jobs: self.total_jobs,
            successful_jobs: self.successful_jobs,
            failed_jobs: self.failed_jobs,
            current_workers: self.current_workers,
            max_workers: self.max_workers,
            min_workers: self.min_workers,
        }
    }

    /// Every job counted is counted once as a success or a failure.
    pub open spec fn wf(&self) -> bool {
        self.view_stats().successful_jobs + self.view_stats().failed_jobs == self.view_stats().total_jobs
    }

    /// A manager for this machine: between as many workers as logical CPUs
    /// and four times as many, starting at twice as many (each product
    /// capped at the largest `usize`), with no jobs counted.
    pub fn new() -> (res: Self)
        ensures
            res.view_stats().min_workers >= 1,
            res.view_stats().max_workers >= res.view_stats().current_workers,
            res.view_stats().current_workers >= res.view_stats().min_workers,
            res.view_stats().min_workers as int * 4 <= usize::MAX ==> res.view_stats().max_workers
                == res.view_stats().min_workers * 4 && res.view_stats().current_workers
                == res.view_stats().min_workers * 2,
            res.view_stats().total_jobs == 0,
            res.wf(),
    {
        let cpu_cores = logical_cpus();
        let max_workers = if cpu_cores <= usize::MAX / 4 { cpu_cores * 4 } else { usize::MAX };
        let current_workers = if cpu_cores <= usize::MAX / 2 { cpu_cores * 2 } else { usize::MAX };
        SmartConcurrencyManager {
            max_workers,
            min_workers: cpu_cores,
            current_workers,
            total_jobs: 0,
            successful_jobs: 0,
            failed_jobs: 0,
        }
    }

    /// The complexity below which a file counts as simple (30.0, as bits).
    pub fn low_complexity_threshold(&self) -> (res: u64)
        ensures
            res == LOW_COMPLEXITY_BITS,
    {
        LOW_COMPLEXITY_BITS
    }

    /// The complexity above which a file counts as complex (80.0, as bits).
    pub fn high_complexity_threshold(&self) -> (res: u64)
        ensures
            res == HIGH_COMPLEXITY_BITS,
    {
        HIGH_COMPLEXITY_BITS
    }

    /// The memory use, in percent, above which concurrency is lowered
    /// (75.0, as bits).
    pub fn memory_threshold(&self) -> (res: u64)
        ensures
            res == MEMORY_THRESHOLD_BITS,
    {
        MEMORY_THRESHOLD_BITS
    }

    /// The current number of workers.
    pub fn current_workers(&self) -> (res: usize)
        ensures
            res == self.view_stats().current_workers,
    {
        self.current_workers
    }

    /// Counts a finished job as a success or a failure.
    pub fn record_job_completion(&mut self, success: bool)
        requires
            old(self).wf(),
            old(self).view_stats().total_jobs < usize::MAX,
        ensures
            final(self).wf(),
            final(self).view_stats() == (ConcurrencyStats {
                total_jobs: (old(self).view_stats().total_jobs + 1) as usize,
                successful_jobs: (old(self).view_stats().successful_jobs + if success { 1int } else { 0int }) as usize,
                failed_jobs: (old(self).view_stats().failed_jobs + if success { 0int } else { 1int }) as usize,
                ..old(self).view_stats()
            }),
    {
        self.total_jobs = self.total_jobs + 1;
        if success {
            self.successful_jobs = self.successful_jobs + 1;
        } else {
            self.failed_jobs = self.failed_jobs + 1;
        }
    }

    /// The counters and bounds.
    pub fn get_stats(&self) -> (res: ConcurrencyStats)
        ensures
            res == self.view_stats(),
    {
        ConcurrencyStats {
            total_jobs: self.total_jobs,
            successful_jobs: self.successful_jobs,
            failed_jobs: self.failed_jobs,
            current_workers: self.current_workers,
            max_workers: self.max_workers,
            min_workers: self.min_workers,
        }
    }
}

} // verus!
