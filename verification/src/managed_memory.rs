//! A pool of memory blocks handed out as managed buffers, with counters of
//! allocations, pool hits and misses, and the peak number of live buffers.
//!
//! Blocks are owned byte vectors. A buffer taken from the manager is given
//! back with [`MemoryManager::release`], which lowers the count of live
//! buffers; blocks taken from the pool are not returned to it.

use vstd::prelude::*;
use crate::memory_manager::{MemoryStats, BLOCK_SIZE, ALIGNMENT};
use crate::text::{owned, prefixed_number, dec};

verus! {

/// `n` is a power of two.
pub open spec fn is_pow2(n: nat) -> bool
    decreases n,
{
    if n == 0 {
        false
    } else if n == 1 {
        true
    } else {
        n % 2 == 0 && is_pow2(n / 2)
    }
}

/// A size and alignment that `Layout::from_size_align` accepts: the
/// alignment is a power of two and the size, rounded up to it, stays within
/// `isize::MAX` (for a power of two, that is `size <= isize::MAX - (alignment - 1)`).
pub open spec fn layout_ok(size: nat, alignment: nat) -> bool {
    is_pow2(alignment) && size + alignment - 1 <= isize::MAX
}

/// The message of a refused layout.
pub open spec fn layout_error_text() -> Seq<char> {
    "invalid parameters to Layout::from_size_align"@
}

fn pow2_check(n: usize) -> (res: bool)
    ensures
        res == is_pow2(n as nat),
{
    if n == 0 {
        return false;
    }
    let mut m: usize = n;
    while m > 1
        invariant
            m >= 1,
            is_pow2(n as nat) == is_pow2(m as nat),
        decreases m,
    {
        if m % 2 != 0 {
            return false;
        }
        m = m / 2;
    }
    true
}

/// The block geometry of the manager is a valid layout.
proof fn lemma_block_layout()
    ensures
        is_pow2(ALIGNMENT as nat),
        layout_ok(BLOCK_SIZE as nat, ALIGNMENT as nat),
{
    assert(is_pow2(1));
    assert(is_pow2(2));
    assert(is_pow2(4));
    assert(is_pow2(8));
    assert(is_pow2(16));
    assert(is_pow2(32));
    assert(is_pow2(64));
}

/// A block of memory.
#[derive(Debug)]
pub struct MemoryBlock {
    data: Vec<u8>,
    size: usize,
    alignment: usize,
    in_use: bool,
}

impl MemoryBlock {
    pub closed spec fn spec_size(&self) -> usize {
        self.size
    }

    pub closed spec fn spec_alignment(&self) -> usize {
        self.alignment
    }

    pub closed spec fn spec_in_use(&self) -> bool {
        self.in_use
    }

    /// The bytes of the block.
    pub closed spec fn bytes(&self) -> Seq<u8> {
        self.data@
    }

    pub closed spec fn wf(&self) -> bool {
        self.data@.len() == self.size
    }

    /// A zeroed block of `size` bytes; refused when the alignment is not a
    /// power of two or the rounded size is too large.
    pub fn new(size: usize, alignment: usize) -> (res: Result<Self, String>)
        ensures
            match res {
                Ok(b) => layout_ok(size as nat, alignment as nat) && b.wf() && b.spec_size() == size
                    && b.spec_alignment() == alignment && !b.spec_in_use() && b.bytes() == Seq::new(
                    size as nat,
                    |i: int| 0u8,
                ),
                Err(m) => !layout_ok(size as nat, alignment as nat) && m@ == layout_error_text(),
            },
    {
        if !pow2_check(alignment) {
            return Err(owned("invalid parameters to Layout::from_size_align"));
        }
        let limit: usize = isize::MAX as usize;
        if alignment - 1 > limit || size > limit - (alignment - 1) {
            return Err(owned("invalid parameters to Layout::from_size_align"));
        }
        let data = vec![0u8; size];
        assert(data@ =~= Seq::new(size as nat, |i: int| 0u8));
        Ok(MemoryBlock { data, size, alignment, in_use: false })
    }
}

/// A buffer handed out by the manager.
pub struct ManagedMemory {
    block: MemoryBlock,
}

/// `Data size n exceeds memory block size m`
pub open spec fn write_error_text(n: nat, m: nat) -> Seq<char> {
    "Data size "@ + dec(n) + " exceeds memory block size "@ + dec(m)
}

/// The bytes of a buffer after `data` is written at its start: `data`,
/// then the bytes that were there beyond it.
pub open spec fn written(bytes: Seq<u8>, data: Seq<u8>) -> Seq<u8> {
    data + bytes.subrange(data.len() as int, bytes.len() as int)
}

/// Reading back as many bytes as were written gives the data written, and
/// a write keeps the buffer's length.
pub proof fn law_read_returns_written(bytes: Seq<u8>, data: Seq<u8>)
    requires
        data.len() <= bytes.len(),
    ensures
        written(bytes, data).subrange(0, data.len() as int) == data,
        written(bytes, data).len() == bytes.len(),
{
    assert(written(bytes, data).subrange(0, data.len() as int) =~= data);
}

/// `Read length n exceeds memory block size m`
pub open spec fn read_error_text(n: nat, m: nat) -> Seq<char> {
    "Read length "@ + dec(n) + " exceeds memory block size "@ + dec(m)
}

impl ManagedMemory {
    pub closed spec fn wf(&self) -> bool {
        self.block.wf()
    }

    pub closed spec fn spec_size(&self) -> usize {
        self.block.size
    }

    /// The bytes of the buffer.
    pub closed spec fn bytes(&self) -> Seq<u8> {
        self.block.data@
    }

    /// The size of the buffer in bytes.
    pub fn size(&self) -> (res: usize)
        ensures
            res == self.spec_size(),
    {
        self.block.size
    }

    /// Copies `data` to the start of the buffer; refused when it is longer
    /// than the buffer.
    pub fn write_data(&mut self, data: &[u8]) -> (res: Result<(), String>)
        requires
            old(self).wf(),
        ensures
            final(self).wf(),
            final(self).spec_size() == old(self).spec_size(),
            match res {
                Ok(()) => data@.len() <= old(self).spec_size() && final(self).bytes() == written(
                    old(self).bytes(),
                    data@,
                ),
                Err(m) => data@.len() > old(self).spec_size() && final(self).bytes() == old(self).bytes()
                    && m@ == write_error_text(data@.len(), old(self).spec_size() as nat),
            },
    {
        let n = data.len();
        if n > self.block.size {
            let mut m = prefixed_number("Data size ", n as u64);
            m.append(" exceeds memory block size ");
            crate::text::push_decimal(&mut m, self.block.size as u64);
            return Err(m);
        }
        let ghost before = self.block.data@;
        let mut i: usize = 0;
        while i < n
            invariant
                n == data@.len(),
                n <= self.block.size,
                self.block.data@.len() == self.block.size,
                self.block.size == old(self).block.size,
                before == old(self).block.data@,
                i <= n,
                forall|j: int| 0 <= j < i ==> self.block.data@[j] == data@[j],
                forall|j: int| i <= j < self.block.data@.len() ==> self.block.data@[j] == before[j],
            decreases n - i,
        {
            self.block.data.set(i, data[i]);
            i = i + 1;
        }
        assert(self.block.data@ =~= data@ + before.subrange(n as int, before.len() as int));
        Ok(())
    }

    /// The first `len` bytes of the buffer; refused when `len` exceeds it.
    pub fn read_data(&self, len: usize) -> (res: Result<&[u8], String>)
        requires
            self.wf(),
        ensures
            match res {
                Ok(s) => len <= self.spec_size() && s@ == self.bytes().subrange(0, len as int),
                Err(m) => len > self.spec_size() && m@ == read_error_text(len as nat, self.spec_size() as nat),
            },
    {
        if len > self.block.size {
            let mut m = prefixed_number("Read length ", len as u64);
            m.append(" exceeds memory block size ");
            crate::text::push_decimal(&mut m, self.block.size as u64);
            return Err(m);
        }
        Ok(vstd::slice::slice_subrange(self.block.data.as_slice(), 0, len))
    }
}

/// The pooled memory manager.
pub struct MemoryManager {
    pool: Vec<MemoryBlock>,
    total_size: usize,
    block_size: usize,
    alignment: usize,
    stats: MemoryStats,
}

impl MemoryManager {
    /// The pool holds free blocks of the block size; the live count never
    /// exceeds the peak, and hits and misses are allocations.
    pub closed spec fn wf(&self) -> bool {
        &&& self.block_size == BLOCK_SIZE
        &&& self.alignment == ALIGNMENT
        &&& forall|i: int|
            0 <= i < self.pool@.len() ==> {
                let b = #[trigger] self.pool@[i];
                b.wf() && b.size == BLOCK_SIZE && b.alignment == ALIGNMENT && !b.in_use
            }
        &&& self.stats.active_allocations <= self.stats.peak_usage
        &&& self.stats.cache_hits + self.stats.cache_misses <= self.stats.total_allocations
    }

    pub closed spec fn spec_stats(&self) -> MemoryStats {
        self.stats
    }

    /// The number of free blocks in the pool.
    pub closed spec fn pool_len(&self) -> nat {
        self.pool@.len()
    }

    pub closed spec fn spec_total_size(&self) -> usize {
        self.total_size
    }

    /// A manager whose pool holds `total_size / 4 MiB` free blocks of 4 MiB.
    pub fn new(total_size: usize) -> (res: Result<Self, String>)
        ensures
            res matches Ok(m) && m.wf() && m.pool_len() == total_size / BLOCK_SIZE && m.spec_total_size()
                == total_size && m.spec_stats() == MemoryStats::zero(),
    {
        let num_blocks = total_size / BLOCK_SIZE;
        let mut pool: Vec<MemoryBlock> = Vec::new();
        let mut i: usize = 0;
        while i < num_blocks
            invariant
                i <= num_blocks,
                pool@.len() == i,
                forall|j: int|
                    0 <= j < pool@.len() ==> {
                        let b = #[trigger] pool@[j];
                        b.wf() && b.size == BLOCK_SIZE && b.alignment == ALIGNMENT && !b.in_use
                    },
            decreases num_blocks - i,
        {
            proof {
                lemma_block_layout();
            }
            let block = MemoryBlock::new(BLOCK_SIZE, ALIGNMENT);
            match block {
                Ok(b) => pool.push(b),
                Err(e) => return Err(e),
            }
            i = i + 1;
        }
        Ok(MemoryManager { pool, total_size, block_size: BLOCK_SIZE, alignment: ALIGNMENT, stats: MemoryStats::default() })
    }

    /// The counters.
    pub fn get_stats(&self) -> (res: MemoryStats)
        ensures
            res == self.spec_stats(),
    {
        self.stats
    }

    /// A buffer of at least `size` bytes. Every call counts an allocation.
    /// A request that fits a block takes the first free block of the pool
    /// (a hit) or, when the pool is empty, counts a miss; otherwise, and
    /// after a miss, a fresh zeroed block of exactly `size` bytes is made.
    pub fn allocate(&mut self, size: usize) -> (res: Result<ManagedMemory, String>)
        requires
            old(self).wf(),
            old(self).spec_stats().total_allocations < u64::MAX,
            old(self).spec_stats().active_allocations < u64::MAX,
        ensures
            final(self).wf(),
            final(self).spec_total_size() == old(self).spec_total_size(),
            final(self).spec_stats().total_allocations == old(self).spec_stats().total_allocations + 1,
            ({
                let s0 = old(self).spec_stats();
                let s1 = final(self).spec_stats();
                if size <= BLOCK_SIZE && old(self).pool_len() > 0 {
                    &&& res matches Ok(m) && m.wf() && m.spec_size() == BLOCK_SIZE
                    &&& final(self).pool_len() == old(self).pool_len() - 1
                    &&& s1.cache_hits == s0.cache_hits + 1 && s1.cache_misses == s0.cache_misses
                    &&& s1.active_allocations == s0.active_allocations + 1
                } else {
                    &&& final(self).pool_len() == old(self).pool_len()
                    &&& s1.cache_hits == s0.cache_hits
                    &&& s1.cache_misses == s0.cache_misses + if size <= BLOCK_SIZE { 1int } else { 0int }
                    &&& match res {
                        Ok(m) => m.wf() && m.spec_size() == size && layout_ok(size as nat, ALIGNMENT as nat)
                            && s1.active_allocations == s0.active_allocations + 1,
                        Err(e) => !layout_ok(size as nat, ALIGNMENT as nat) && e@ == layout_error_text()
                            && s1.active_allocations == s0.active_allocations,
                    }
                }
            }),
            final(self).spec_stats().peak_usage == if final(self).spec_stats().active_allocations
                > old(self).spec_stats().peak_usage {
                final(self).spec_stats().active_allocations
            } else {
                old(self).spec_stats().peak_usage
            },
    {
        self.stats.total_allocations = self.stats.total_allocations + 1;
        if size <= self.block_size {
            if self.pool.len() > 0 {
                let mut block = self.pool.remove(0);
                proof {
                    assert(old(self).pool@[0] == block);
                }
                block.in_use = true;
                self.stats.cache_hits = self.stats.cache_hits + 1;
                self.stats.active_allocations = self.stats.active_allocations + 1;
                if self.stats.active_allocations > self.stats.peak_usage {
                    self.stats.peak_usage = self.stats.active_allocations;
                }
                assert forall|i: int| 0 <= i < self.pool@.len() implies {
                    let b = #[trigger] self.pool@[i];
                    b.wf() && b.size == BLOCK_SIZE && b.alignment == ALIGNMENT && !b.in_use
                } by {
                    assert(self.pool@[i] == old(self).pool@[i + 1]);
                }
                return Ok(ManagedMemory { block });
            } else {
                self.stats.cache_misses = self.stats.cache_misses + 1;
            }
        }
        match MemoryBlock::new(size, self.alignment) {
            Ok(block) => {
                self.stats.active_allocations = self.stats.active_allocations + 1;
                if self.stats.active_allocations > self.stats.peak_usage {
                    self.stats.peak_usage = self.stats.active_allocations;
                }
                Ok(ManagedMemory { block })
            },
            Err(e) => Err(e),
        }
    }

    /// Gives a buffer back: the count of live buffers drops by one (not
    /// below zero). Its block is freed, not returned to the pool.
    pub fn release(&mut self, mem: ManagedMemory)
        requires
            old(self).wf(),
        ensures
            final(self).wf(),
            final(self).pool_len() == old(self).pool_len(),
            final(self).spec_total_size() == old(self).spec_total_size(),
            final(self).spec_stats() == (MemoryStats {
                active_allocations: if old(self).spec_stats().active_allocations > 0 {
                    (old(self).spec_stats().active_allocations - 1) as u64
                } else {
                    0
                },
                ..old(self).spec_stats()
            }),
    {
        self.stats.active_allocations = self.stats.active_allocations.saturating_sub(1);
    }

    /// Takes up to five buffers of the block size and gives them all back.
    pub fn warmup(&mut self)
        requires
            old(self).wf(),
            old(self).spec_stats().total_allocations < u64::MAX - 5,
            old(self).spec_stats().active_allocations < u64::MAX - 5,
        ensures
            final(self).wf(),
            final(self).spec_total_size() == old(self).spec_total_size(),
            final(self).spec_stats().total_allocations == old(self).spec_stats().total_allocations + 5,
            final(self).spec_stats().active_allocations == old(self).spec_stats().active_allocations,
            final(self).pool_len() == if old(self).pool_len() >= 5 {
                old(self).pool_len() - 5
            } else {
                0
            },
    {
        let mut taken: Vec<ManagedMemory> = Vec::new();
        let mut i: usize = 0;
        while i < 5
            invariant
                self.wf(),
                i <= 5,
                old(self).spec_stats().total_allocations < u64::MAX - 5,
                old(self).spec_stats().active_allocations < u64::MAX - 5,
                self.spec_total_size() == old(self).spec_total_size(),
                self.spec_stats().total_allocations == old(self).spec_stats().total_allocations + i,
                self.spec_stats().active_allocations == old(self).spec_stats().active_allocations + taken@.len(),
                taken@.len() == i,
                self.pool_len() == if old(self).pool_len() >= i { old(self).pool_len() - i } else { 0 },
            decreases 5 - i,
        {
            proof {
                lemma_block_layout();
            }
            let block_size = self.block_size;
            match self.allocate(block_size) {
                Ok(m) => taken.push(m),
                Err(_) => {},
            }
            i = i + 1;
        }
        let mut k: usize = taken.len();
        while k > 0
            invariant
                self.wf(),
                taken@.len() == k,
                self.spec_total_size() == old(self).spec_total_size(),
                self.spec_stats().total_allocations == old(self).spec_stats().total_allocations + 5,
                self.spec_stats().active_allocations == old(self).spec_stats().active_allocations + k,
                self.pool_len() == if old(self).pool_len() >= 5 { old(self).pool_len() - 5 } else { 0 },
            decreases k,
        {
            let m = taken.pop().unwrap();
            self.release(m);
            k = k - 1;
        }
    }
}

} // verus!
