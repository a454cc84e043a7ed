//! The health report: reachability of the primary backend, pool usage and
//! record counts.

use crate::health::HealthIndicator;
use crate::pool::{MemoryPool, PoolState, MEBIBYTE};
use vstd::prelude::*;
use vstd::string::*;

verus! {

/// Counts of stored files and the usage of the pool in mebibytes.
#[derive(Clone, Copy, Debug, PartialEq, Eq, Structural)]
pub struct StorageStats {
    pub total_files: i64,
    pub total_size: i64,
    pub memory_files: i64,
    pub memory_usage_mb: usize,
    pub pool_size_mb: usize,
}

/// The health report.
#[derive(Debug)]
pub struct HealthResponse {
    pub status: String,
    pub database: String,
    pub memory_pool: String,
    pub active_connections: usize,
    pub storage_stats: Option<StorageStats>,
}

/// The decimal digits, in order of their value.
pub open spec fn decimal_digits() -> Seq<char> {
    "0123456789"@
}

/// A number written in decimal, without leading zeros.
pub open spec fn decimal(value: nat) -> Seq<char>
    decreases value,
{
    if value < 10 {
        seq![decimal_digits()[value as int]]
    } else {
        decimal(value / 10).push(decimal_digits()[(value % 10) as int])
    }
}

/// Writes a number in decimal.
pub fn decimal_text(value: usize) -> (text: String)
    ensures
        text@ == decimal(value as nat),
    decreases value,
{
    let digits = "0123456789";
    proof {
        reveal_strlit("0123456789");
    }
    let last: usize = value % 10;
    let digit = digits.substring_ascii(last, last + 1);
    assert(digit@ =~= seq![decimal_digits()[last as int]]);
    if value < 10 {
        String::from_str(digit)
    } else {
        let mut text = decimal_text(value / 10);
        text.append(digit);
        assert(text@ =~= decimal(value as nat));
        text
    }
}

/// Whole mebibytes in a number of bytes.
pub open spec fn mebibytes(bytes: nat) -> nat {
    bytes / (MEBIBYTE as nat)
}

/// The line that shows the usage of the pool.
pub open spec fn pool_line(pool: PoolState) -> Seq<char> {
    decimal(mebibytes(pool.allocated)) + " MB / "@ + decimal(mebibytes(pool.capacity)) + " MB"@
}

/// The state of the primary backend as the report words it.
pub open spec fn database_line(configured: bool, reachable: bool) -> Seq<char> {
    if !configured {
        "not_configured"@
    } else if reachable {
        "healthy"@
    } else {
        "unhealthy"@
    }
}

/// The overall state: degraded exactly when a primary backend is configured
/// and out of reach.
pub open spec fn status_line(configured: bool, reachable: bool) -> Seq<char> {
    if configured && !reachable {
        "degraded"@
    } else {
        "healthy"@
    }
}

/// A count as the report shows it: counts beyond the largest `i64` are shown
/// as that.
pub open spec fn shown_count(count: usize) -> i64 {
    if count <= i64::MAX {
        count as i64
    } else {
        i64::MAX
    }
}

/// The record counts of the report. With a primary backend they are its
/// figures, and missing if it gave none. Without one they are the number of
/// records of the in-process backend, whose total size is not tracked.
pub open spec fn reported_stats(
    configured: bool,
    primary_stats: Option<(i64, i64, i64)>,
    fallback_files: usize,
    pool: PoolState,
) -> Option<StorageStats> {
    if configured {
        match primary_stats {
            Some(figures) => Some(
                StorageStats {
                    total_files: figures.0,
                    total_size: figures.1,
                    memory_files: figures.2,
                    memory_usage_mb: mebibytes(pool.allocated) as usize,
                    pool_size_mb: mebibytes(pool.capacity) as usize,
                },
            ),
            None => None,
        }
    } else {
        Some(
            StorageStats {
                total_files: shown_count(fallback_files),
                total_size: 0,
                memory_files: shown_count(fallback_files),
                memory_usage_mb: mebibytes(pool.allocated) as usize,
                pool_size_mb: mebibytes(pool.capacity) as usize,
            },
        )
    }
}

/// Builds the health report and takes the probe into the indicator.
/// `reachable` is the result of probing the primary backend and
/// `primary_stats` are its figures (total files, total size, files in
/// memory) if it gave any; both are looked at only if a primary backend is
/// configured. `fallback_files` is the number of records of the in-process
/// backend.
pub fn health_check(
    health: &mut HealthIndicator,
    reachable: bool,
    primary_stats: Option<(i64, i64, i64)>,
    fallback_files: usize,
    pool: &MemoryPool,
    active_connections: usize,
) -> (response: HealthResponse)
    ensures
        final(health)@ == old(health)@.after_probe(reachable),
        final(health)@.wf(),
        response.status@ == status_line(old(health)@.configured, reachable),
        response.database@ == database_line(old(health)@.configured, reachable),
        response.memory_pool@ == pool_line(pool@),
        response.active_connections == active_connections,
        response.storage_stats == reported_stats(
            old(health)@.configured,
            primary_stats,
            fallback_files,
            pool@,
        ),
{
    let configured = health.is_configured();
    health.record_probe(reachable);
    let database = if !configured {
        String::from_str("not_configured")
    } else if reachable {
        String::from_str("healthy")
    } else {
        String::from_str("unhealthy")
    };
    let status = if configured && !reachable {
        String::from_str("degraded")
    } else {
        String::from_str("healthy")
    };
    let memory_usage_mb: usize = pool.allocated() / (MEBIBYTE as usize);
    let pool_size_mb: usize = pool.capacity() / (MEBIBYTE as usize);
    let storage_stats = if configured {
        match primary_stats {
            Some(figures) => Some(
                StorageStats {
                    total_files: figures.0,
                    total_size: figures.1,
                    memory_files: figures.2,
                    memory_usage_mb,
                    pool_size_mb,
                },
            ),
            None => None,
        }
    } else {
        let count: i64 = if fallback_files as u64 <= i64::MAX as u64 {
            fallback_files as i64
        } else {
            i64::MAX
        };
        Some(
            StorageStats {
                total_files: count,
                total_size: 0,
                memory_files: count,
                memory_usage_mb,
                pool_size_mb,
            },
        )
    };
    let mut memory_pool = decimal_text(memory_usage_mb);
    memory_pool.append(" MB / ");
    let capacity_text = decimal_text(pool_size_mb);
    memory_pool.append(capacity_text.as_str());
    memory_pool.append(" MB");
    HealthResponse { status, database, memory_pool, active_connections, storage_stats }
}

} // verus!
