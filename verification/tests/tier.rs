use filedrop::pool::{try_allocate_memory, MemoryPool};
use filedrop::tier::{complete_promotion, select_tier, TierDecision};

const MEGABYTE: u64 = 1024 * 1024;

#[test]
fn small_file_is_promoted_while_the_pool_has_room() {
    let mut pool = MemoryPool::new(100);
    assert_eq!(select_tier(&mut pool, 10, MEGABYTE), TierDecision::Promote);
    assert_eq!(pool.allocated(), 10);
    assert_eq!(select_tier(&mut pool, 90, MEGABYTE), TierDecision::Promote);
    assert_eq!(pool.allocated(), 100);
    assert_eq!(select_tier(&mut pool, 1, MEGABYTE), TierDecision::KeepOnDisk);
    assert_eq!(pool.allocated(), 100);
    assert_eq!(select_tier(&mut pool, 0, MEGABYTE), TierDecision::Promote);
    assert_eq!(pool.allocated(), 100);
}

#[test]
fn file_at_the_threshold_stays_on_disk() {
    let mut pool = MemoryPool::new(usize::MAX);
    assert_eq!(select_tier(&mut pool, MEGABYTE, MEGABYTE), TierDecision::KeepOnDisk);
    assert_eq!(select_tier(&mut pool, MEGABYTE + 1, MEGABYTE), TierDecision::KeepOnDisk);
    assert_eq!(select_tier(&mut pool, 0, 0), TierDecision::KeepOnDisk);
    assert_eq!(pool.allocated(), 0);
    assert_eq!(select_tier(&mut pool, MEGABYTE - 1, MEGABYTE), TierDecision::Promote);
    assert_eq!(pool.allocated(), (MEGABYTE - 1) as usize);
}

#[test]
fn file_larger_than_the_pool_stays_on_disk() {
    let mut pool = MemoryPool::new(5);
    assert_eq!(select_tier(&mut pool, 6, u64::MAX), TierDecision::KeepOnDisk);
    assert_eq!(select_tier(&mut pool, u64::MAX - 1, u64::MAX), TierDecision::KeepOnDisk);
    assert_eq!(pool.allocated(), 0);
}

#[test]
fn payload_read_back_makes_an_in_memory_record() {
    let mut pool = MemoryPool::new(100);
    assert_eq!(select_tier(&mut pool, 10, MEGABYTE), TierDecision::Promote);
    let record = complete_promotion(
        &mut pool,
        String::from("ten.bin"),
        String::from("application/octet-stream"),
        String::from("./temp/file_x"),
        10,
        Some(b"0123456789".to_vec()),
    );
    assert!(record.is_in_memory());
    assert_eq!(record.data(), Some(&b"0123456789".to_vec()));
    assert_eq!(record.file_path(), None);
    assert_eq!(record.filename(), "ten.bin");
    assert_eq!(record.content_type(), "application/octet-stream");
    assert_eq!(pool.allocated(), 10);
}

#[test]
fn failed_read_back_gives_the_reservation_back() {
    let mut pool = MemoryPool::new(100);
    assert!(try_allocate_memory(&mut pool, 25));
    assert_eq!(select_tier(&mut pool, 10, MEGABYTE), TierDecision::Promote);
    assert_eq!(pool.allocated(), 35);
    let record = complete_promotion(
        &mut pool,
        String::from("ten.bin"),
        String::from("text/plain"),
        String::from("./temp/file_x"),
        10,
        None,
    );
    assert!(!record.is_in_memory());
    assert_eq!(record.data(), None);
    assert_eq!(record.file_path(), Some("./temp/file_x"));
    assert_eq!(record.filename(), "ten.bin");
    assert_eq!(record.content_type(), "text/plain");
    assert_eq!(pool.allocated(), 25);
}
