//! The tier selector: whether a file that was ingested to disk is moved into
//! the memory pool or stays on disk.

use crate::pool::{deallocate_memory, try_allocate_memory, MemoryPool, PoolState};
use crate::record::{FileData, FileRecord};
use vstd::prelude::*;

verus! {

/// Where the payload of a file goes.
#[derive(Clone, Copy, Debug, PartialEq, Eq, Structural)]
pub enum TierDecision {
    /// A reservation is held for the file: read it into memory.
    Promote,
    /// The file stays on disk.
    KeepOnDisk,
}

/// A file is moved into memory when it is smaller than the threshold and the
/// pool grants a reservation of its size.
pub open spec fn promotes(pool: PoolState, size: u64, stream_threshold: u64) -> bool {
    size < stream_threshold && pool.grants(size as nat)
}

/// Decides the tier of a file of `size` bytes. On `Promote` the pool holds a
/// reservation of `size` bytes for the file; otherwise the pool is
/// unchanged.
pub fn select_tier(pool: &mut MemoryPool, size: u64, stream_threshold: u64) -> (decision:
    TierDecision)
    ensures
        decision is Promote <==> promotes(old(pool)@, size, stream_threshold),
        final(pool)@ == if promotes(old(pool)@, size, stream_threshold) {
            old(pool)@.reserve(size as nat)
        } else {
            old(pool)@
        },
        final(pool)@.wf(),
{
    proof {
        use_type_invariant(&*pool);
        pool.lemma_inv();
    }
    if size < stream_threshold && size <= pool.capacity() as u64 && try_allocate_memory(
        pool,
        size as usize,
    ) {
        TierDecision::Promote
    } else {
        TierDecision::KeepOnDisk
    }
}

/// Completes a promotion with the result of reading the temporary file back.
/// With the payload read, the record holds it in memory and the temporary
/// file is no longer needed. With the read failed, the reservation is given
/// back and the record points to the file on disk.
pub fn complete_promotion(
    pool: &mut MemoryPool,
    filename: String,
    content_type: String,
    file_path: String,
    size: u64,
    read_back: Option<Vec<u8>>,
) -> (record: FileData)
    ensures
        record@.wf(),
        match read_back {
            Some(data) => {
                &&& record@ == FileRecord::in_memory(filename@, content_type@, data@)
                &&& final(pool)@ == old(pool)@
            },
            None => {
                &&& record@ == FileRecord::on_disk(filename@, content_type@, file_path@)
                &&& final(pool)@ == old(pool)@.release(size as nat)
            },
        },
        final(pool)@.wf(),
{
    proof {
        use_type_invariant(&*pool);
        pool.lemma_inv();
    }
    match read_back {
        Some(data) => FileData::in_memory(filename, content_type, data),
        None => {
            let granted = pool.allocated();
            if size <= granted as u64 {
                deallocate_memory(pool, size as usize);
            } else {
                deallocate_memory(pool, granted);
            }
            FileData::on_disk(filename, content_type, file_path)
        },
    }
}

/// A reservation that is given back leaves the pool as it was: a promotion
/// that fails after the reservation leaks nothing.
pub proof fn lemma_failed_promotion_restores_pool(pool: PoolState, size: u64, stream_threshold: u64)
    requires
        promotes(pool, size, stream_threshold),
    ensures
        pool.reserve(size as nat).release(size as nat) == pool,
{
}

} // verus!
