//! A simple memory manager: fixed block geometry, zeroed aligned buffers
//! and allocation counters.

use vstd::prelude::*;

verus! {

/// Allocation counters.
#[derive(Debug, Clone, Copy, PartialEq, Eq, Structural)]
pub struct MemoryStats {
    pub total_allocations: u64,
    pub active_allocations: u64,
    pub peak_usage: u64,
    pub cache_hits: u64,
    pub cache_misses: u64,
}

impl MemoryStats {
    pub open spec fn zero() -> MemoryStats {
        MemoryStats { total_allocations: 0, active_allocations: 0, peak_usage: 0, cache_hits: 0, cache_misses: 0 }
    }
}

impl Default for MemoryStats {
    fn default() -> (res: Self)
        ensures
            res == MemoryStats::zero(),
    {
        MemoryStats { total_allocations: 0, active_allocations: 0, peak_usage: 0, cache_hits: 0, cache_misses: 0 }
    }
}

/// Block size of the manager: 4 MiB.
pub const BLOCK_SIZE: usize = 4194304;

/// Alignment of buffers: 64 bytes.
pub const ALIGNMENT: usize = 64;

/// `size` rounded up to a multiple of `align`.
pub open spec fn round_up(size: nat, align: nat) -> nat
    recommends
        align > 0,
{
    (((size + align - 1) as int / align as int) * align as int) as nat
}

/// The memory manager.
pub struct MemoryManager {
    total_size: usize,
    block_size: usize,
    alignment: usize,
    stats: MemoryStats,
}

impl MemoryManager {
    pub closed spec fn spec_total_size(&self) -> usize {
        self.total_size
    }

    pub closed spec fn spec_block_size(&self) -> usize {
        self.block_size
    }

    pub closed spec fn spec_alignment(&self) -> usize {
        self.alignment
    }

    pub closed spec fn spec_stats(&self) -> MemoryStats {
        self.stats
    }

    /// A manager for `total_size` bytes, with 4 MiB blocks and 64-byte alignment.
    pub fn new(total_size: usize) -> (res: Result<Self, String>)
        ensures
            res matches Ok(m) && m.spec_total_size() == total_size && m.spec_block_size() == BLOCK_SIZE
                && m.spec_alignment() == ALIGNMENT && m.spec_stats() == MemoryStats::zero(),
    {
        Ok(MemoryManager { total_size, block_size: BLOCK_SIZE, alignment: ALIGNMENT, stats: MemoryStats::default() })
    }

    /// The counters.
    pub fn get_stats(&self) -> (res: MemoryStats)
        ensures
            res == self.spec_stats(),
    {
        self.stats
    }

    /// The managed size.
    pub fn total_size(&self) -> (res: usize)
        ensures
            res == self.spec_total_size(),
    {
        self.total_size
    }

    /// The block size.
    pub fn block_size(&self) -> (res: usize)
        ensures
            res == self.spec_block_size(),
    {
        self.block_size
    }

    /// The alignment.
    pub fn alignment(&self) -> (res: usize)
        ensures
            res == self.spec_alignment(),
    {
        self.alignment
    }

    /// A zeroed buffer of `size` rounded up to the alignment; counts one
    /// more allocation, total and active.
    pub fn allocate_aligned(&mut self, size: usize) -> (res: Result<Vec<u8>, String>)
        requires
            old(self).spec_alignment() == ALIGNMENT,
            size + ALIGNMENT <= usize::MAX,
            old(self).spec_stats().total_allocations < u64::MAX,
            old(self).spec_stats().active_allocations < u64::MAX,
        ensures
            final(self).spec_total_size() == old(self).spec_total_size(),
            final(self).spec_block_size() == old(self).spec_block_size(),
            final(self).spec_alignment() == old(self).spec_alignment(),
            final(self).spec_stats() == (MemoryStats {
                total_allocations: (old(self).spec_stats().total_allocations + 1) as u64,
                active_allocations: (old(self).spec_stats().active_allocations + 1) as u64,
                ..old(self).spec_stats()
            }),
            res matches Ok(buf) && buf@.len() == round_up(size as nat, ALIGNMENT as nat) && forall|i: int|
                0 <= i < buf@.len() ==> buf@[i] == 0u8,
    {
        let blocks = (size + self.alignment - 1) / self.alignment;
        proof {
            assert(blocks * 64 <= size + 64) by (nonlinear_arith)
                requires
                    blocks as int == (size + 63) as int / 64int,
            ;
        }
        let aligned_size = blocks * self.alignment;
        let buffer = vec![0u8; aligned_size];
        self.stats.total_allocations = self.stats.total_allocations + 1;
        self.stats.active_allocations = self.stats.active_allocations + 1;
        Ok(buffer)
    }
}

} // verus!
