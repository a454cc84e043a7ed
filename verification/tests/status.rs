use filedrop::health::{Health, HealthIndicator};
use filedrop::pool::{try_allocate_memory, MemoryPool};
use filedrop::status::{decimal_text, health_check, StorageStats};

const MIB: usize = 1024 * 1024;

#[test]
fn numbers_are_written_in_decimal() {
    assert_eq!(decimal_text(0), "0");
    assert_eq!(decimal_text(7), "7");
    assert_eq!(decimal_text(10), "10");
    assert_eq!(decimal_text(1_234_567_890), "1234567890");
    assert_eq!(decimal_text(usize::MAX), usize::MAX.to_string());
}

#[test]
fn test_docker_services_health() {
    let mut health = HealthIndicator::new(true);
    let mut pool = MemoryPool::new(100 * MIB);
    assert!(try_allocate_memory(&mut pool, 10 * MIB + 5));
    let response = health_check(&mut health, true, Some((12, 3456, 7)), 99, &pool, 3);
    assert_eq!(response.status, "healthy");
    assert_eq!(response.database, "healthy");
    assert_eq!(response.memory_pool, "10 MB / 100 MB");
    assert_eq!(response.active_connections, 3);
    assert_eq!(
        response.storage_stats,
        Some(StorageStats {
            total_files: 12,
            total_size: 3456,
            memory_files: 7,
            memory_usage_mb: 10,
            pool_size_mb: 100,
        })
    );
    assert_eq!(health.health(), Health::Healthy);
}

#[test]
fn unreachable_primary_backend_is_reported_and_degrades() {
    let mut health = HealthIndicator::new(true);
    let pool = MemoryPool::new(MIB - 1);
    let response = health_check(&mut health, false, None, 4, &pool, 0);
    assert_eq!(response.status, "degraded");
    assert_eq!(response.database, "unhealthy");
    assert_eq!(response.memory_pool, "0 MB / 0 MB");
    assert_eq!(response.storage_stats, None);
    assert_eq!(health.health(), Health::Degraded);
    let response = health_check(&mut health, true, None, 4, &pool, 0);
    assert_eq!(response.status, "healthy");
    assert_eq!(response.database, "healthy");
    assert_eq!(response.storage_stats, None);
    assert_eq!(health.health(), Health::Healthy);
}

#[test]
fn report_without_primary_backend_counts_the_in_process_records() {
    let mut health = HealthIndicator::new(false);
    let pool = MemoryPool::new(2048 * MIB);
    let response = health_check(&mut health, true, Some((1, 2, 3)), 5, &pool, 1);
    assert_eq!(response.status, "healthy");
    assert_eq!(response.database, "not_configured");
    assert_eq!(response.memory_pool, "0 MB / 2048 MB");
    assert_eq!(
        response.storage_stats,
        Some(StorageStats {
            total_files: 5,
            total_size: 0,
            memory_files: 5,
            memory_usage_mb: 0,
            pool_size_mb: 2048,
        })
    );
    assert_eq!(health.health(), Health::Degraded);
}
